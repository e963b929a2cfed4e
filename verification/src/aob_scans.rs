//! The offline workflow: every signature of the catalog is searched in the
//! snapshot of a build and resolved to a module-relative offset.

use vstd::prelude::*;
use vstd::seq_lib::{to_multiset_build, to_multiset_insert};
use crate::order::{
    lemma_name_le_total,
    lemma_name_le_transitive,
    name_in_order,
    name_le,
};
use crate::pattern::{into_needle, needle_of};
use crate::relative::{relative_target, resolve_relative};
use crate::scan::{first_match, naive_search};

verus! {

/// Why a signature gave no offset.
#[derive(Clone, Copy, Debug, PartialEq, Eq, Structural)]
pub enum ScanError {
    /// The signature fits nowhere in the snapshot.
    NotFound,
    /// The matched instruction does not lie inside the snapshot, or refers to
    /// a place before or behind it.
    RelativeAddressOverflow,
}

/// The signatures: the name of each structure, and the code that refers to
/// it.
pub open spec fn aob_catalog() -> Seq<(Seq<char>, Seq<char>)> {
    seq![
        ("ChrDbgFlags"@, "?? 80 3D ?? ?? ?? ?? 00 0F 85 ?? ?? ?? ?? 32 C0 48"@),
        ("CSFD4VirtualMemoryFlag"@, "48 8B 3D ?? ?? ?? ?? 48 85 FF 74 ?? 48 8B 49"@),
        ("CSFlipper"@, "48 8B 0D ?? ?? ?? ?? 80 BB D7 00 00 00 00 0F 84 CE 00 00 00 48 85 C9 75 2E"@),
        ("CSLuaEventManager"@, "48 8B 05 ?? ?? ?? ?? 48 85 C0 74 ?? 41 BE 01 00 00 00 44 89 74"@),
        ("CSMenuMan"@, "E8 ?? ?? ?? ?? 4C 8B F8 48 85 C0 0F 84 ?? ?? ?? ?? 48 8B 0D"@),
        ("CSMenuManImp"@, "48 8B 0D ?? ?? ?? ?? 48 8B 49 08 E8 ?? ?? ?? ?? 48 8B D0 48 8B CE E8 ?? ?? ?? ??"@),
        ("CSNetMan"@, "48 8B 0D ?? ?? ?? ?? 48 85 C9 74 5E 48 8B 89 ?? ?? ?? ?? B2 01"@),
        ("CSRegulationManager"@, "48 8B 0D ?? ?? ?? ?? 48 85 C9 74 0B 4C 8B C0 48 8B D7"@),
        ("CSSessionManager"@, "48 8B 05 ?? ?? ?? ?? 48 89 9C 24 E8 00 00 00 48 89 B4 24 B0 00 00 00 4C 89 A4 24 A8 00 00 00 4C 89 AC 24 A0 00 00 00 48 85 C0"@),
        ("DamageCtrl"@, "48 8B 05 ?? ?? ?? ?? 49 8B D9 49 8B F8 48 8B F2 48 85 C0 75 2E"@),
        ("FieldArea"@, "48 8B 3D ?? ?? ?? ?? 48 85 FF 0F 84 ?? ?? ?? ?? 45 38 66 34"@),
        ("GameDataMan"@, "48 8B 05 ?? ?? ?? ?? 48 85 C0 74 05 48 8B 40 58 C3 C3"@),
        ("GameMan"@, "48 8B 15 ?? ?? ?? ?? 41 B0 01 48 8B 0D ?? ?? ?? ?? 48 81 C2 10 0E 00 00"@),
        ("GroupMask"@, "?? 80 3D ?? ?? ?? ?? 00 0F 10 00 0F 11 45 D0 0F 84 ?? ?? ?? ?? 80 3D"@),
        ("HitIns"@, "48 8B 05 ?? ?? ?? ?? 48 8D 4C 24 ?? 48 89 4c 24 ?? 0F 10 44 24 70"@),
        ("MapItemMan"@, "48 8B 0D ?? ?? ?? ?? C7 44 24 50 FF FF FF FF C7 45 A0 FF FF FF FF 48 85 C9 75 2E"@),
        ("MenuManIns"@, "48 8b 0d ?? ?? ?? ?? 48 8b 53 08 48 8b 92 d8 00 00 00 48 83 c4 20 5b"@),
        ("MsgRepository"@, "48 8B 3D ?? ?? ?? ?? 44 0F B6 30 48 85 FF 75 26"@),
        ("SoloParamRepository"@, "48 8B 0D ?? ?? ?? ?? 48 85 C9 0F 84 ?? ?? ?? ?? 45 33 C0 BA 8D 00 00 00 E8"@),
        ("WorldChrMan"@, "48 8B 05 ?? ?? ?? ?? 48 85 C0 74 0F 48 39 88 ?? ?? ?? ?? 75 06 89 B1 5C 03 00 00 0F 28 05 ?? ?? ?? ?? 4C 8D 45 E7"@),
        ("WorldChrManDbg"@, "48 8B 0D ?? ?? ?? ?? 89 5C 24 20 48 85 C9 74 12 B8 ?? ?? ?? ?? 8B D8"@),
        ("WorldChrManImp"@, "48 8b 05 ?? ?? ?? ?? 48 89 98 70 84 01 00 4c 89 ab 74 06 00 00 4c 89 ab 7c 06 00 00 44 88 ab 84 06 00 00 41 83 7f 4c 00"@),
    ]
}

/// The place of a name in the catalog; -1 for a name that is not in it.
pub open spec fn catalog_index(name: Seq<char>) -> int {
    if name == "ChrDbgFlags"@ {
        0
    } else if name == "CSFD4VirtualMemoryFlag"@ {
        1
    } else if name == "CSFlipper"@ {
        2
    } else if name == "CSLuaEventManager"@ {
        3
    } else if name == "CSMenuMan"@ {
        4
    } else if name == "CSMenuManImp"@ {
        5
    } else if name == "CSNetMan"@ {
        6
    } else if name == "CSRegulationManager"@ {
        7
    } else if name == "CSSessionManager"@ {
        8
    } else if name == "DamageCtrl"@ {
        9
    } else if name == "FieldArea"@ {
        10
    } else if name == "GameDataMan"@ {
        11
    } else if name == "GameMan"@ {
        12
    } else if name == "GroupMask"@ {
        13
    } else if name == "HitIns"@ {
        14
    } else if name == "MapItemMan"@ {
        15
    } else if name == "MenuManIns"@ {
        16
    } else if name == "MsgRepository"@ {
        17
    } else if name == "SoloParamRepository"@ {
        18
    } else if name == "WorldChrMan"@ {
        19
    } else if name == "WorldChrManDbg"@ {
        20
    } else if name == "WorldChrManImp"@ {
        21
    } else {
        -1
    }
}

/// Each signature of the catalog has a name of its own: a name leads back to
/// the one place where it stands.
pub proof fn lemma_catalog_names_differ()
    ensures
        aob_catalog().len() == 22,
        forall|i: int| 0 <= i < 22 ==> catalog_index(#[trigger] aob_catalog()[i].0) == i,
        forall|i: int, j: int|
            0 <= i < j < 22 ==> (#[trigger] aob_catalog()[i]).0 != (#[trigger] aob_catalog()[j]).0,
{
    reveal_strlit("ChrDbgFlags");
    reveal_strlit("CSFD4VirtualMemoryFlag");
    reveal_strlit("CSFlipper");
    reveal_strlit("CSLuaEventManager");
    reveal_strlit("CSMenuMan");
    reveal_strlit("CSMenuManImp");
    reveal_strlit("CSNetMan");
    reveal_strlit("CSRegulationManager");
    reveal_strlit("CSSessionManager");
    reveal_strlit("DamageCtrl");
    reveal_strlit("FieldArea");
    reveal_strlit("GameDataMan");
    reveal_strlit("GameMan");
    reveal_strlit("GroupMask");
    reveal_strlit("HitIns");
    reveal_strlit("MapItemMan");
    reveal_strlit("MenuManIns");
    reveal_strlit("MsgRepository");
    reveal_strlit("SoloParamRepository");
    reveal_strlit("WorldChrMan");
    reveal_strlit("WorldChrManDbg");
    reveal_strlit("WorldChrManImp");
    assert("ChrDbgFlags"@.len() == 11);
    assert("CSFD4VirtualMemoryFlag"@.len() == 22);
    assert("CSFlipper"@.len() == 9);
    assert("CSLuaEventManager"@.len() == 17);
    assert("CSMenuMan"@.len() == 9);
    assert("CSMenuManImp"@.len() == 12);
    assert("CSNetMan"@.len() == 8);
    assert("CSRegulationManager"@.len() == 19);
    assert("CSSessionManager"@.len() == 16);
    assert("DamageCtrl"@.len() == 10);
    assert("FieldArea"@.len() == 9);
    assert("GameDataMan"@.len() == 11);
    assert("GameMan"@.len() == 7);
    assert("GroupMask"@.len() == 9);
    assert("HitIns"@.len() == 6);
    assert("MapItemMan"@.len() == 10);
    assert("MenuManIns"@.len() == 10);
    assert("MsgRepository"@.len() == 13);
    assert("SoloParamRepository"@.len() == 19);
    assert("WorldChrMan"@.len() == 11);
    assert("WorldChrManDbg"@.len() == 14);
    assert("WorldChrManImp"@.len() == 14);
    assert("ChrDbgFlags"@[0] != "GameDataMan"@[0]);
    assert("ChrDbgFlags"@[0] != "WorldChrMan"@[0]);
    assert("CSFlipper"@[2] != "CSMenuMan"@[2]);
    assert("CSFlipper"@[0] != "FieldArea"@[0]);
    assert("CSFlipper"@[0] != "GroupMask"@[0]);
    assert("CSMenuMan"@[0] != "FieldArea"@[0]);
    assert("CSMenuMan"@[0] != "GroupMask"@[0]);
    assert("CSRegulationManager"@[0] != "SoloParamRepository"@[0]);
    assert("DamageCtrl"@[0] != "MapItemMan"@[0]);
    assert("DamageCtrl"@[0] != "MenuManIns"@[0]);
    assert("FieldArea"@[0] != "GroupMask"@[0]);
    assert("GameDataMan"@[0] != "WorldChrMan"@[0]);
    assert("MapItemMan"@[1] != "MenuManIns"@[1]);
    assert("WorldChrManDbg"@[11] != "WorldChrManImp"@[11]);
    assert forall|i: int| 0 <= i < 22 implies catalog_index(#[trigger] aob_catalog()[i].0)
        == i by {
        if i == 0 {
            assert(aob_catalog()[0].0 == "ChrDbgFlags"@);
        } else if i == 1 {
            assert(aob_catalog()[1].0 == "CSFD4VirtualMemoryFlag"@);
        } else if i == 2 {
            assert(aob_catalog()[2].0 == "CSFlipper"@);
        } else if i == 3 {
            assert(aob_catalog()[3].0 == "CSLuaEventManager"@);
        } else if i == 4 {
            assert(aob_catalog()[4].0 == "CSMenuMan"@);
        } else if i == 5 {
            assert(aob_catalog()[5].0 == "CSMenuManImp"@);
        } else if i == 6 {
            assert(aob_catalog()[6].0 == "CSNetMan"@);
        } else if i == 7 {
            assert(aob_catalog()[7].0 == "CSRegulationManager"@);
        } else if i == 8 {
            assert(aob_catalog()[8].0 == "CSSessionManager"@);
        } else if i == 9 {
            assert(aob_catalog()[9].0 == "DamageCtrl"@);
        } else if i == 10 {
            assert(aob_catalog()[10].0 == "FieldArea"@);
        } else if i == 11 {
            assert(aob_catalog()[11].0 == "GameDataMan"@);
        } else if i == 12 {
            assert(aob_catalog()[12].0 == "GameMan"@);
        } else if i == 13 {
            assert(aob_catalog()[13].0 == "GroupMask"@);
        } else if i == 14 {
            assert(aob_catalog()[14].0 == "HitIns"@);
        } else if i == 15 {
            assert(aob_catalog()[15].0 == "MapItemMan"@);
        } else if i == 16 {
            assert(aob_catalog()[16].0 == "MenuManIns"@);
        } else if i == 17 {
            assert(aob_catalog()[17].0 == "MsgRepository"@);
        } else if i == 18 {
            assert(aob_catalog()[18].0 == "SoloParamRepository"@);
        } else if i == 19 {
            assert(aob_catalog()[19].0 == "WorldChrMan"@);
        } else if i == 20 {
            assert(aob_catalog()[20].0 == "WorldChrManDbg"@);
        } else {
            assert(aob_catalog()[21].0 == "WorldChrManImp"@);
        }
    }
}

/// A catalog as the names and signature texts that it holds.
pub open spec fn catalog_view(catalog: Seq<(&'static str, &'static str)>) -> Seq<
    (Seq<char>, Seq<char>),
> {
    Seq::new(catalog.len(), |i: int| (catalog[i].0@, catalog[i].1@))
}

/// A table as the names and offsets that it holds.
pub open spec fn offsets_view(offsets: Seq<(&'static str, usize)>) -> Seq<(Seq<char>, int)> {
    Seq::new(offsets.len(), |i: int| (offsets[i].0@, offsets[i].1 as int))
}

/// A list of failures as the names and errors that it holds.
pub open spec fn failures_view(failures: Seq<(&'static str, ScanError)>) -> Seq<
    (Seq<char>, ScanError),
> {
    Seq::new(failures.len(), |i: int| (failures[i].0@, failures[i].1))
}

/// The signatures of the catalog.
pub fn aobs() -> (catalog: Vec<(&'static str, &'static str)>)
    ensures
        catalog_view(catalog@) == aob_catalog(),
{
    let catalog = vec![
        ("ChrDbgFlags", "?? 80 3D ?? ?? ?? ?? 00 0F 85 ?? ?? ?? ?? 32 C0 48"),
        ("CSFD4VirtualMemoryFlag", "48 8B 3D ?? ?? ?? ?? 48 85 FF 74 ?? 48 8B 49"),
        ("CSFlipper", "48 8B 0D ?? ?? ?? ?? 80 BB D7 00 00 00 00 0F 84 CE 00 00 00 48 85 C9 75 2E"),
        ("CSLuaEventManager", "48 8B 05 ?? ?? ?? ?? 48 85 C0 74 ?? 41 BE 01 00 00 00 44 89 74"),
        ("CSMenuMan", "E8 ?? ?? ?? ?? 4C 8B F8 48 85 C0 0F 84 ?? ?? ?? ?? 48 8B 0D"),
        ("CSMenuManImp", "48 8B 0D ?? ?? ?? ?? 48 8B 49 08 E8 ?? ?? ?? ?? 48 8B D0 48 8B CE E8 ?? ?? ?? ??"),
        ("CSNetMan", "48 8B 0D ?? ?? ?? ?? 48 85 C9 74 5E 48 8B 89 ?? ?? ?? ?? B2 01"),
        ("CSRegulationManager", "48 8B 0D ?? ?? ?? ?? 48 85 C9 74 0B 4C 8B C0 48 8B D7"),
        ("CSSessionManager", "48 8B 05 ?? ?? ?? ?? 48 89 9C 24 E8 00 00 00 48 89 B4 24 B0 00 00 00 4C 89 A4 24 A8 00 00 00 4C 89 AC 24 A0 00 00 00 48 85 C0"),
        ("DamageCtrl", "48 8B 05 ?? ?? ?? ?? 49 8B D9 49 8B F8 48 8B F2 48 85 C0 75 2E"),
        ("FieldArea", "48 8B 3D ?? ?? ?? ?? 48 85 FF 0F 84 ?? ?? ?? ?? 45 38 66 34"),
        ("GameDataMan", "48 8B 05 ?? ?? ?? ?? 48 85 C0 74 05 48 8B 40 58 C3 C3"),
        ("GameMan", "48 8B 15 ?? ?? ?? ?? 41 B0 01 48 8B 0D ?? ?? ?? ?? 48 81 C2 10 0E 00 00"),
        ("GroupMask", "?? 80 3D ?? ?? ?? ?? 00 0F 10 00 0F 11 45 D0 0F 84 ?? ?? ?? ?? 80 3D"),
        ("HitIns", "48 8B 05 ?? ?? ?? ?? 48 8D 4C 24 ?? 48 89 4c 24 ?? 0F 10 44 24 70"),
        ("MapItemMan", "48 8B 0D ?? ?? ?? ?? C7 44 24 50 FF FF FF FF C7 45 A0 FF FF FF FF 48 85 C9 75 2E"),
        ("MenuManIns", "48 8b 0d ?? ?? ?? ?? 48 8b 53 08 48 8b 92 d8 00 00 00 48 83 c4 20 5b"),
        ("MsgRepository", "48 8B 3D ?? ?? ?? ?? 44 0F B6 30 48 85 FF 75 26"),
        ("SoloParamRepository", "48 8B 0D ?? ?? ?? ?? 48 85 C9 0F 84 ?? ?? ?? ?? 45 33 C0 BA 8D 00 00 00 E8"),
        ("WorldChrMan", "48 8B 05 ?? ?? ?? ?? 48 85 C0 74 0F 48 39 88 ?? ?? ?? ?? 75 06 89 B1 5C 03 00 00 0F 28 05 ?? ?? ?? ?? 4C 8D 45 E7"),
        ("WorldChrManDbg", "48 8B 0D ?? ?? ?? ?? 89 5C 24 20 48 85 C9 74 12 B8 ?? ?? ?? ?? 8B D8"),
        ("WorldChrManImp", "48 8b 05 ?? ?? ?? ?? 48 89 98 70 84 01 00 4c 89 ab 74 06 00 00 4c 89 ab 7c 06 00 00 44 88 ab 84 06 00 00 41 83 7f 4c 00"),
    ];
    catalog
}

/// The offset that a signature resolves to in a snapshot: the target of the
/// instruction at the signature's first match.
pub open spec fn signature_offset(bytes: Seq<u8>, pattern: Seq<char>) -> Result<int, ScanError> {
    match first_match(bytes, needle_of(pattern)) {
        Some(at) => match relative_target(bytes, at) {
            Some(target) => Ok(target),
            None => Err(ScanError::RelativeAddressOverflow),
        },
        None => Err(ScanError::NotFound),
    }
}

/// Searches one signature in the snapshot and resolves its match.
pub fn resolve_signature(bytes: &[u8], pattern: &str) -> (offset: Result<usize, ScanError>)
    ensures
        match offset {
            Ok(offset) => signature_offset(bytes@, pattern@) == Ok::<int, ScanError>(offset as int),
            Err(error) => signature_offset(bytes@, pattern@) == Err::<int, ScanError>(error),
        },
{
    let needle = into_needle(pattern);
    match naive_search(bytes, needle.as_slice()) {
        Some(at) => match resolve_relative(bytes, at) {
            Some(target) => Ok(target),
            None => Err(ScanError::RelativeAddressOverflow),
        },
        None => Err(ScanError::NotFound),
    }
}

/// What each signature of `catalog` gives in `bytes`, in the order of the
/// catalog. The outcome of a signature depends on no other signature.
pub open spec fn outcomes(bytes: Seq<u8>, catalog: Seq<(Seq<char>, Seq<char>)>) -> Seq<
    (Seq<char>, Result<int, ScanError>),
> {
    Seq::new(catalog.len(), |i: int| (catalog[i].0, signature_offset(bytes, catalog[i].1)))
}

/// The signatures that gave an offset, each with its offset, in the order
/// given.
pub open spec fn found(outcomes: Seq<(Seq<char>, Result<int, ScanError>)>) -> Seq<
    (Seq<char>, int),
>
    decreases outcomes.len(),
{
    if outcomes.len() == 0 {
        Seq::empty()
    } else {
        let before = found(outcomes.drop_last());
        match outcomes.last().1 {
            Ok(offset) => before.push((outcomes.last().0, offset)),
            Err(_) => before,
        }
    }
}

/// The signatures that gave no offset, each with the reason, in the order
/// given.
pub open spec fn failed(outcomes: Seq<(Seq<char>, Result<int, ScanError>)>) -> Seq<
    (Seq<char>, ScanError),
>
    decreases outcomes.len(),
{
    if outcomes.len() == 0 {
        Seq::empty()
    } else {
        let before = failed(outcomes.drop_last());
        match outcomes.last().1 {
            Ok(_) => before,
            Err(error) => before.push((outcomes.last().0, error)),
        }
    }
}

/// The signatures of `catalog` that resolve in `bytes`, each with its offset,
/// in the order of the catalog.
pub open spec fn found_in(bytes: Seq<u8>, catalog: Seq<(Seq<char>, Seq<char>)>) -> Seq<
    (Seq<char>, int),
> {
    found(outcomes(bytes, catalog))
}

/// The signatures of `catalog` that do not resolve in `bytes`, each with the
/// reason, in the order of the catalog.
pub open spec fn failed_in(bytes: Seq<u8>, catalog: Seq<(Seq<char>, Seq<char>)>) -> Seq<
    (Seq<char>, ScanError),
> {
    failed(outcomes(bytes, catalog))
}

/// Outcomes as the names and results that they hold.
pub open spec fn outcomes_view(outcomes: Seq<(&'static str, Result<usize, ScanError>)>) -> Seq<
    (Seq<char>, Result<int, ScanError>),
> {
    Seq::new(
        outcomes.len(),
        |i: int|
            (
                outcomes[i].0@,
                match outcomes[i].1 {
                    Ok(offset) => Ok(offset as int),
                    Err(error) => Err(error),
                },
            ),
    )
}

/// Where an entry named `name` goes into a table: behind the last entry whose
/// name does not come after it.
pub open spec fn insert_position(table: Seq<(Seq<char>, int)>, name: Seq<char>) -> int
    decreases table.len(),
{
    if table.len() == 0 {
        0
    } else if name_le(table.last().0, name) {
        table.len() as int
    } else {
        insert_position(table.drop_last(), name)
    }
}

/// The entries in the order of their names; entries of one name keep their
/// order.
pub open spec fn sort_by_name(entries: Seq<(Seq<char>, int)>) -> Seq<(Seq<char>, int)>
    decreases entries.len(),
{
    if entries.len() == 0 {
        Seq::empty()
    } else {
        let table = sort_by_name(entries.drop_last());
        table.insert(insert_position(table, entries.last().0), entries.last())
    }
}

/// Whether no entry stands before one whose name comes before its own.
pub open spec fn is_sorted_by_name(table: Seq<(Seq<char>, int)>) -> bool {
    forall|i: int, j: int| 0 <= i < j < table.len() ==> name_le(table[i].0, table[j].0)
}

/// The place where an entry goes lies inside the table; the entry before it
/// has a name that does not come after, and every entry from it on has a name
/// that does.
pub proof fn lemma_insert_position(table: Seq<(Seq<char>, int)>, name: Seq<char>)
    ensures
        0 <= insert_position(table, name) <= table.len(),
        insert_position(table, name) > 0 ==> name_le(
            table[insert_position(table, name) - 1].0,
            name,
        ),
        forall|i: int|
            insert_position(table, name) <= i < table.len() ==> !name_le(
                (#[trigger] table[i]).0,
                name,
            ),
    decreases table.len(),
{
    if table.len() > 0 && !name_le(table.last().0, name) {
        lemma_insert_position(table.drop_last(), name);
        let place = insert_position(table.drop_last(), name);
        assert forall|i: int| place <= i < table.len() implies !name_le(
            (#[trigger] table[i]).0,
            name,
        ) by {
            if i < table.len() - 1 {
                assert(table.drop_last()[i] == table[i]);
            }
        }
        if place > 0 {
            assert(table.drop_last()[place - 1] == table[place - 1]);
        }
    }
}

/// Sorting gives the same entries, each as often as before, with no entry
/// before one whose name comes before its own.
pub proof fn lemma_sort_by_name(entries: Seq<(Seq<char>, int)>)
    ensures
        sort_by_name(entries).len() == entries.len(),
        sort_by_name(entries).to_multiset() == entries.to_multiset(),
        is_sorted_by_name(sort_by_name(entries)),
    decreases entries.len(),
{
    if entries.len() == 0 {
        assert(entries =~= Seq::empty());
    } else {
        let before = entries.drop_last();
        let entry = entries.last();
        let table = sort_by_name(before);
        let place = insert_position(table, entry.0);
        lemma_sort_by_name(before);
        lemma_insert_position(table, entry.0);
        let sorted = table.insert(place, entry);
        assert(sorted == sort_by_name(entries));
        assert(entries =~= before.push(entry));
        assert(sorted.to_multiset() == entries.to_multiset()) by {
            to_multiset_insert(table, place, entry);
            to_multiset_build(before, entry);
        }
        assert forall|i: int, j: int| 0 <= i < j < sorted.len() implies name_le(
            sorted[i].0,
            sorted[j].0,
        ) by {
            if i == place {
                assert(sorted[j] == table[j - 1]);
                lemma_name_le_total(entry.0, table[j - 1].0);
            } else if j == place {
                assert(sorted[i] == table[i]);
                if i < place - 1 {
                    lemma_name_le_transitive(table[i].0, table[place - 1].0, entry.0);
                }
            } else if j < place {
            } else if i < place {
                assert(sorted[j] == table[j - 1]);
            } else {
                assert(sorted[i] == table[i - 1]);
                assert(sorted[j] == table[j - 1]);
            }
        }
    }
}

/// A table is made from the snapshot alone: the same bytes give the same
/// entries and the same failures.
pub proof fn lemma_same_snapshot_same_table(
    first: Seq<u8>,
    second: Seq<u8>,
    catalog: Seq<(Seq<char>, Seq<char>)>,
)
    requires
        first =~= second,
    ensures
        sort_by_name(found_in(first, catalog)) == sort_by_name(found_in(second, catalog)),
        failed_in(first, catalog) == failed_in(second, catalog),
{
}

/// What a scan of a snapshot gave.
#[derive(Debug)]
pub struct ScanReport {
    /// The offsets that were found, in the order of their names.
    pub offsets: Vec<(&'static str, usize)>,
    /// The signatures that gave no offset, in the order of the catalog.
    pub failures: Vec<(&'static str, ScanError)>,
}

/// Puts an entry into a table at the place that its name gives it.
pub fn insert_by_name(table: &mut Vec<(&'static str, usize)>, name: &'static str, offset: usize)
    ensures
        offsets_view(final(table)@) == offsets_view(old(table)@).insert(
            insert_position(offsets_view(old(table)@), name@),
            (name@, offset as int),
        ),
{
    let ghost view = offsets_view(table@);
    let mut place: usize = table.len();
    assert(view.take(place as int) =~= view);
    while place > 0 && !name_in_order(table[place - 1].0, name)
        invariant
            place <= table@.len(),
            view == offsets_view(table@),
            insert_position(view, name@) == insert_position(view.take(place as int), name@),
        decreases place,
    {
        assert(view.take(place as int).drop_last() =~= view.take(place - 1));
        place -= 1;
    }
    table.insert(place, (name, offset));
}

/// Sorts the outcomes of the signatures into a report: what resolved goes into
/// the table, sorted by name; what did not is listed with the reason.
pub fn collect_report(outcomes: &Vec<(&'static str, Result<usize, ScanError>)>) -> (report:
    ScanReport)
    ensures
        offsets_view(report.offsets@) == sort_by_name(found(outcomes_view(outcomes@))),
        failures_view(report.failures@) == failed(outcomes_view(outcomes@)),
{
    let ghost all = outcomes_view(outcomes@);
    let mut offsets: Vec<(&'static str, usize)> = Vec::new();
    let mut failures: Vec<(&'static str, ScanError)> = Vec::new();
    let mut i: usize = 0;
    while i < outcomes.len()
        invariant
            i <= outcomes@.len(),
            all == outcomes_view(outcomes@),
            offsets_view(offsets@) == sort_by_name(found(all.take(i as int))),
            failures_view(failures@) == failed(all.take(i as int)),
        decreases outcomes@.len() - i,
    {
        let (name, outcome) = outcomes[i];
        let ghost seen = all.take(i + 1);
        assert(seen.drop_last() =~= all.take(i as int));
        match outcome {
            Ok(offset) => {
                let ghost entries = found(seen);
                assert(entries.drop_last() =~= found(all.take(i as int)));
                insert_by_name(&mut offsets, name, offset);
            },
            Err(error) => {
                failures.push((name, error));
            },
        }
        i += 1;
    }
    assert(all.take(i as int) =~= all);
    ScanReport { offsets, failures }
}

/// Resolves every signature of `catalog` in the snapshot. A signature that
/// does not resolve is listed with the reason, and does not keep the others
/// from being resolved.
pub fn scan_catalog(bytes: &[u8], catalog: &Vec<(&'static str, &'static str)>) -> (report:
    ScanReport)
    ensures
        offsets_view(report.offsets@) == sort_by_name(found_in(bytes@, catalog_view(catalog@))),
        failures_view(report.failures@) == failed_in(bytes@, catalog_view(catalog@)),
{
    let ghost all = outcomes(bytes@, catalog_view(catalog@));
    let mut results: Vec<(&'static str, Result<usize, ScanError>)> = Vec::new();
    let mut i: usize = 0;
    while i < catalog.len()
        invariant
            i <= catalog@.len(),
            all == outcomes(bytes@, catalog_view(catalog@)),
            outcomes_view(results@) == all.take(i as int),
        decreases catalog@.len() - i,
    {
        let (name, pattern) = catalog[i];
        let outcome = resolve_signature(bytes, pattern);
        let ghost before = outcomes_view(results@);
        results.push((name, outcome));
        assert(outcomes_view(results@) =~= before.push(all[i as int]));
        i += 1;
    }
    assert(all.take(i as int) =~= all);
    collect_report(&results)
}

/// Resolves the signatures of the catalog in the snapshot of a build.
pub fn find_aobs(bytes: &[u8]) -> (report: ScanReport)
    ensures
        offsets_view(report.offsets@) == sort_by_name(found_in(bytes@, aob_catalog())),
        failures_view(report.failures@) == failed_in(bytes@, aob_catalog()),
{
    let catalog = aobs();
    scan_catalog(bytes, &catalog)
}

} // verus!
