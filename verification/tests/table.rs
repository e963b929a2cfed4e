use libeldenring::aob_scans::{aobs, find_aobs, insert_by_name, scan_catalog, ScanError};
use libeldenring::base_addresses::{
    lookup, select_table, BaseAddresses, StartupError, VersionTable,
};
use libeldenring::order::name_in_order;
use libeldenring::pointers::Pointers;
use libeldenring::version::Version;

const SLOT: usize = 0x80;

/// A snapshot that holds the code of every signature of the catalog, the one
/// numbered `i` at `(i + 1) * SLOT`, each with the displacement `displacement(i)`.
fn snapshot(displacement: fn(usize) -> i32) -> Vec<u8> {
    let catalog = aobs();
    let mut bytes = vec![0xccu8; (catalog.len() + 6) * SLOT];
    for (i, (_, pattern)) in catalog.iter().enumerate() {
        let at = (i + 1) * SLOT;
        for (j, token) in pattern.split(' ').enumerate() {
            assert!(j < SLOT);
            bytes[at + j] = u8::from_str_radix(token, 16).unwrap_or(0xcc);
        }
        let free = pattern.split(' ').skip(3).take(4).all(|token| token == "??");
        if free {
            bytes[at + 3..at + 7].copy_from_slice(&displacement(i).to_le_bytes());
        }
    }
    bytes
}

fn table_of(value: u64) -> BaseAddresses {
    BaseAddresses {
        chr_dbg_flags: value,
        csfd4_virtual_memory_flag: value + 1,
        cs_flipper: value + 2,
        cs_lua_event_manager: value + 3,
        cs_menu_man: value + 4,
        cs_menu_man_imp: value + 5,
        cs_net_man: value + 6,
        cs_regulation_manager: value + 7,
        cs_session_manager: value + 8,
        damage_ctrl: value + 9,
        field_area: value + 10,
        game_data_man: value + 11,
        game_man: value + 12,
        group_mask: value + 13,
        hit_ins: value + 14,
        map_item_man: value + 15,
        menu_man_ins: value + 16,
        msg_repository: value + 17,
        solo_param_repository: value + 18,
        world_chr_man: value + 19,
        world_chr_man_dbg: value + 20,
        world_chr_man_imp: value + 21,
    }
}

#[test]
fn catalog_holds_the_signatures() {
    let catalog = aobs();
    assert_eq!(catalog.len(), 22);
    assert_eq!(
        catalog[0],
        ("ChrDbgFlags", "?? 80 3D ?? ?? ?? ?? 00 0F 85 ?? ?? ?? ?? 32 C0 48")
    );
    assert_eq!(
        catalog[11],
        ("GameDataMan", "48 8B 05 ?? ?? ?? ?? 48 85 C0 74 05 48 8B 40 58 C3 C3")
    );
    assert_eq!(catalog[21].0, "WorldChrManImp");
    let mut names: Vec<&str> = catalog.iter().map(|entry| entry.0).collect();
    names.sort();
    names.dedup();
    assert_eq!(names.len(), 22);
}

#[test]
fn names_are_ordered_by_their_bytes() {
    assert!(name_in_order("CSFlipper", "ChrDbgFlags"));
    assert!(!name_in_order("ChrDbgFlags", "CSFlipper"));
    assert!(name_in_order("GameMan", "GameMan"));
    assert!(name_in_order("GameDataMan", "GameMan"));
    assert!(name_in_order("WorldChrMan", "WorldChrManDbg"));
    assert!(!name_in_order("WorldChrManDbg", "WorldChrMan"));
    assert!(name_in_order("", "A"));
    assert!(!name_in_order("A", ""));
    assert!(name_in_order("", ""));
    let names = ["", "A", "AB", "B", "a", "é", "z", "Zz", "ZZ", "中", "\u{10ffff}"];
    for a in names {
        for b in names {
            assert_eq!(name_in_order(a, b), a <= b, "{:?} {:?}", a, b);
        }
    }
}

#[test]
fn scan_sorts_by_name_and_lists_failures() {
    let bytes = snapshot(|i| 0x10 * i as i32 - 0x40);
    let report = find_aobs(&bytes);
    assert_eq!(
        report.failures,
        vec![("CSMenuMan", ScanError::RelativeAddressOverflow)]
    );
    let mut expected: Vec<(&str, usize)> = aobs()
        .iter()
        .enumerate()
        .filter(|(_, entry)| entry.0 != "CSMenuMan")
        .map(|(i, entry)| (entry.0, (i + 1) * SLOT + 7 + 0x10 * i - 0x40))
        .collect();
    expected.sort_by(|a, b| a.0.cmp(b.0));
    assert_eq!(report.offsets, expected);
    assert_eq!(report.offsets[0].0, "CSFD4VirtualMemoryFlag");
    assert_eq!(report.offsets[7], ("ChrDbgFlags", SLOT + 7 - 0x40));
    assert_eq!(report.offsets[20].0, "WorldChrManImp");
}

#[test]
fn scan_of_an_empty_snapshot() {
    let report = find_aobs(&[]);
    assert!(report.offsets.is_empty());
    let expected: Vec<(&str, ScanError)> =
        aobs().iter().map(|entry| (entry.0, ScanError::NotFound)).collect();
    assert_eq!(report.failures, expected);
}

#[test]
fn scan_is_repeatable() {
    let bytes = snapshot(|i| 3 * i as i32);
    let first = find_aobs(&bytes);
    let second = find_aobs(&bytes);
    assert_eq!(first.offsets, second.offsets);
    assert_eq!(first.failures, second.failures);
    assert_eq!(first.offsets.len() + first.failures.len(), 22);
}

#[test]
fn scan_of_a_small_catalog() {
    let catalog = vec![
        ("Gamma", "48 8B 05 ?? ?? ?? ??"),
        ("Alpha", "10 20 30 ?? ?? ?? ?? 40"),
        ("Missing", "01 02 03 04 05 06 07"),
        ("Beta", "E8 ?? ?? ?? ??"),
        ("Alpha", "48 8B 05"),
        ("Outside", "55 ?? ?? ?? ?? ?? ??"),
    ];
    let mut bytes = vec![0u8; 0x100];
    bytes[0x10..0x17].copy_from_slice(&[0x48, 0x8b, 0x05, 0x09, 0, 0, 0]);
    bytes[0x20..0x28].copy_from_slice(&[0x10, 0x20, 0x30, 0xf9, 0xff, 0xff, 0xff, 0x40]);
    bytes[0x30..0x37].copy_from_slice(&[0xe8, 0, 0, 0x01, 0, 0, 0]);
    bytes[0x40..0x47].copy_from_slice(&[0x55, 0, 0, 0, 0x01, 0, 0]);
    let report = scan_catalog(&bytes, &catalog);
    assert_eq!(
        report.offsets,
        vec![("Alpha", 0x20), ("Alpha", 0x20), ("Beta", 0x38), ("Gamma", 0x20)]
    );
    assert_eq!(
        report.failures,
        vec![
            ("Missing", ScanError::NotFound),
            ("Outside", ScanError::RelativeAddressOverflow)
        ]
    );
}

#[test]
fn entries_of_one_name_keep_their_order() {
    let mut table: Vec<(&'static str, usize)> = Vec::new();
    insert_by_name(&mut table, "b", 1);
    insert_by_name(&mut table, "a", 2);
    insert_by_name(&mut table, "b", 3);
    insert_by_name(&mut table, "c", 4);
    insert_by_name(&mut table, "a", 5);
    insert_by_name(&mut table, "", 6);
    assert_eq!(
        table,
        vec![("", 6), ("a", 2), ("a", 5), ("b", 1), ("b", 3), ("c", 4)]
    );
}

#[test]
fn lookup_finds_the_first_entry_of_a_name() {
    let table = vec![("a", 1usize), ("b", 2), ("a", 3)];
    assert_eq!(lookup(&table, "a"), Some(1));
    assert_eq!(lookup(&table, "b"), Some(2));
    assert_eq!(lookup(&table, "c"), None);
    assert_eq!(lookup(&Vec::new(), "a"), None);
}

#[test]
fn table_from_scan_results() {
    let catalog: Vec<(&'static str, &'static str)> = aobs();
    let mut offsets: Vec<(&'static str, usize)> = Vec::new();
    for (i, entry) in catalog.iter().enumerate() {
        insert_by_name(&mut offsets, entry.0, 0x1000 + i);
    }
    let table = BaseAddresses::from_offsets(&offsets).unwrap();
    assert_eq!(table, table_of(0x1000));
    // One entry short is no table.
    for missing in 0..offsets.len() {
        let mut partial = offsets.clone();
        partial.remove(missing);
        assert_eq!(BaseAddresses::from_offsets(&partial), None);
    }
    assert_eq!(BaseAddresses::from_offsets(&find_aobs(&[]).offsets), None);
}

#[test]
fn entries_are_read_by_name() {
    let table = table_of(0x100);
    for (i, entry) in aobs().iter().enumerate() {
        assert_eq!(table.get(entry.0), Some(0x100 + i as u64));
    }
    assert_eq!(table.get("chr_dbg_flags"), None);
    assert_eq!(table.get(""), None);
    assert_eq!(table.get("WorldChrManIm"), None);
}

#[test]
fn rebasing_adds_the_base_to_every_entry() {
    let table = table_of(0x3d0_0000);
    let base = 0x7ff6_1234_0000u64;
    assert!(table.can_rebase(base));
    let rebased = table.with_module_base_addr(base);
    for entry in aobs() {
        assert_eq!(rebased.get(entry.0), Some(table.get(entry.0).unwrap() + base));
    }
    assert_eq!(rebased.game_data_man, 0x3d0_000b + base);
    assert_eq!(table.with_module_base_addr(0), table);
}

#[test]
fn rebasing_has_its_limit() {
    let table = table_of(0x100);
    assert!(table.can_rebase(u64::MAX - 0x100 - 21));
    assert!(!table.can_rebase(u64::MAX - 0x100 - 20));
    assert!(!table.can_rebase(u64::MAX));
    let top = table.with_module_base_addr(u64::MAX - 0x100 - 21);
    assert_eq!(top.world_chr_man_imp, u64::MAX);
    assert!(!top.can_reach_flags());
    assert!(table.can_reach_flags());
}

#[test]
fn version_selects_its_table() {
    let tables = vec![
        VersionTable { version: Version(1, 2, 0), addresses: table_of(0x100) },
        VersionTable { version: Version(1, 3, 2), addresses: table_of(0x300) },
        VersionTable { version: Version(1, 2, 0), addresses: table_of(0x500) },
    ];
    assert_eq!(select_table(&tables, Version(1, 2, 0)), Ok(table_of(0x100)));
    assert_eq!(select_table(&tables, Version(1, 3, 2)), Ok(table_of(0x300)));
    assert_eq!(
        select_table(&tables, Version(1, 3, 1)),
        Err(StartupError::UnsupportedVersion(Version(1, 3, 1)))
    );
    assert_eq!(
        select_table(&Vec::new(), Version(1, 2, 0)),
        Err(StartupError::UnsupportedVersion(Version(1, 2, 0)))
    );
}

#[test]
fn unsupported_version_builds_no_pointers() {
    let tables = vec![VersionTable { version: Version(1, 2, 0), addresses: table_of(0x100) }];
    match Pointers::new(&tables, Version(2, 0, 0), 0x7ff6_0000_0000) {
        Err(error) => assert_eq!(error, StartupError::UnsupportedVersion(Version(2, 0, 0))),
        Ok(_) => panic!("pointers for a build without a table"),
    }
}

#[test]
fn pointers_stand_on_the_rebased_table() {
    let tables = vec![
        VersionTable { version: Version(1, 2, 0), addresses: table_of(0x100) },
        VersionTable { version: Version(1, 3, 2), addresses: table_of(0x3d0_0000) },
    ];
    let base = 0x7ff6_0000_0000u64;
    let pointers = match Pointers::new(&tables, Version(1, 3, 2), base) {
        Ok(pointers) => pointers,
        Err(_) => panic!("no pointers"),
    };
    let a = table_of(0x3d0_0000).with_module_base_addr(base);
    assert_eq!(pointers.one_shot.chain().base(), a.chr_dbg_flags + 0x3);
    assert!(pointers.one_shot.chain().offsets().is_empty());
    assert_eq!(pointers.one_shot.bit(), 0);
    assert_eq!(pointers.no_ashes_of_war_fp_consume.chain().base(), a.chr_dbg_flags + 0x12);
    assert_eq!(pointers.runes.base(), a.game_data_man);
    assert_eq!(pointers.runes.offsets(), &vec![0x8, 0x6c]);
    assert_eq!(pointers.igt.base(), a.game_data_man);
    assert_eq!(pointers.igt.offsets(), &vec![0xa0]);
    assert_eq!(pointers.quitout.base(), a.cs_menu_man_imp);
    assert_eq!(pointers.quitout.offsets(), &vec![0x8, 0x5d]);
    assert_eq!(pointers.cursor_show.chain().base(), a.cs_menu_man_imp);
    assert_eq!(pointers.cursor_show.chain().offsets(), &vec![0xac]);
    assert_eq!(pointers.gravity.chain().base(), a.world_chr_man);
    assert_eq!(pointers.gravity.chain().offsets(), &vec![0x18468, 0x190, 0x68, 0x1d3]);
    assert_eq!(pointers.position.z.offsets(), &vec![0x18468, 0x6c0]);
    assert_eq!(pointers.stable_position.angle.offsets(), &vec![0x18468, 0x6d8]);
    assert_eq!(pointers.world_position.x.offsets(), &vec![0x18468, 0x190, 0x68, 0x70]);
    assert_eq!(pointers.world_position.angle.offsets(), &vec![0x18468, 0x190, 0x68, 0x54]);
    assert_eq!(pointers.world_position.y.base(), a.world_chr_man);
    assert_eq!(
        pointers.animation_speed.offsets(),
        &vec![0xb658, 0, 0x190, 0x28, 0x17c8]
    );
    assert_eq!(pointers.weapon_hitbox3.chain().base(), a.damage_ctrl);
    assert_eq!(pointers.weapon_hitbox3.chain().offsets(), &vec![0xa4]);
    assert_eq!(pointers.hitbox_character.chain().base(), a.hit_ins + 0xf);
    assert_eq!(pointers.field_area_compass.chain().base(), a.field_area + 0xb);
    assert_eq!(pointers.show_map.chain().base(), a.group_mask + 0x1);
    assert_eq!(pointers.show_chr.chain().base(), a.group_mask + 0xd);
}
