//! The base addresses of a game build: for each named structure its offset
//! from the start of the module, or, once rebased, its absolute address.

use vstd::prelude::*;
use crate::aob_scans::{aob_catalog, lemma_catalog_names_differ, offsets_view};
use crate::text::same_text;
use crate::version::Version;

verus! {

/// One address for each signature of the catalog.
#[derive(Clone, Copy, Debug, PartialEq, Eq, Structural)]
pub struct BaseAddresses {
    pub chr_dbg_flags: u64,
    pub csfd4_virtual_memory_flag: u64,
    pub cs_flipper: u64,
    pub cs_lua_event_manager: u64,
    pub cs_menu_man: u64,
    pub cs_menu_man_imp: u64,
    pub cs_net_man: u64,
    pub cs_regulation_manager: u64,
    pub cs_session_manager: u64,
    pub damage_ctrl: u64,
    pub field_area: u64,
    pub game_data_man: u64,
    pub game_man: u64,
    pub group_mask: u64,
    pub hit_ins: u64,
    pub map_item_man: u64,
    pub menu_man_ins: u64,
    pub msg_repository: u64,
    pub solo_param_repository: u64,
    pub world_chr_man: u64,
    pub world_chr_man_dbg: u64,
    pub world_chr_man_imp: u64,
}

/// The table of one build.
#[derive(Clone, Copy, Debug, PartialEq, Eq, Structural)]
pub struct VersionTable {
    pub version: Version,
    pub addresses: BaseAddresses,
}

/// Why no pointers can be had.
#[derive(Clone, Copy, Debug, PartialEq, Eq, Structural)]
pub enum StartupError {
    /// No table is known for the running build: no address can be derived.
    UnsupportedVersion(Version),
}

/// The offset filed under `name` in a table of scan results: that of the
/// first entry of that name.
pub open spec fn offset_of(table: Seq<(Seq<char>, int)>, name: Seq<char>) -> Option<int>
    decreases table.len(),
{
    if table.len() == 0 {
        None
    } else if table[0].0 == name {
        Some(table[0].1)
    } else {
        offset_of(table.drop_first(), name)
    }
}

/// Looks a name up in a table of scan results.
pub fn lookup(offsets: &Vec<(&'static str, usize)>, name: &str) -> (offset: Option<usize>)
    ensures
        match offset {
            Some(offset) => offset_of(offsets_view(offsets@), name@) == Some(offset as int),
            None => offset_of(offsets_view(offsets@), name@) is None,
        },
{
    let ghost table = offsets_view(offsets@);
    let mut i: usize = 0;
    assert(table.skip(0) =~= table);
    while i < offsets.len()
        invariant
            i <= offsets@.len(),
            table == offsets_view(offsets@),
            offset_of(table, name@) == offset_of(table.skip(i as int), name@),
        decreases offsets@.len() - i,
    {
        let ghost rest = table.skip(i as int);
        if same_text(offsets[i].0, name) {
            return Some(offsets[i].1);
        }
        assert(rest.drop_first() =~= table.skip(i + 1));
        i += 1;
    }
    None
}

impl BaseAddresses {
    /// The address filed under a signature's name.
    pub open spec fn entry(self, name: Seq<char>) -> Option<u64> {
        if name == "ChrDbgFlags"@ {
            Some(self.chr_dbg_flags)
        } else if name == "CSFD4VirtualMemoryFlag"@ {
            Some(self.csfd4_virtual_memory_flag)
        } else if name == "CSFlipper"@ {
            Some(self.cs_flipper)
        } else if name == "CSLuaEventManager"@ {
            Some(self.cs_lua_event_manager)
        } else if name == "CSMenuMan"@ {
            Some(self.cs_menu_man)
        } else if name == "CSMenuManImp"@ {
            Some(self.cs_menu_man_imp)
        } else if name == "CSNetMan"@ {
            Some(self.cs_net_man)
        } else if name == "CSRegulationManager"@ {
            Some(self.cs_regulation_manager)
        } else if name == "CSSessionManager"@ {
            Some(self.cs_session_manager)
        } else if name == "DamageCtrl"@ {
            Some(self.damage_ctrl)
        } else if name == "FieldArea"@ {
            Some(self.field_area)
        } else if name == "GameDataMan"@ {
            Some(self.game_data_man)
        } else if name == "GameMan"@ {
            Some(self.game_man)
        } else if name == "GroupMask"@ {
            Some(self.group_mask)
        } else if name == "HitIns"@ {
            Some(self.hit_ins)
        } else if name == "MapItemMan"@ {
            Some(self.map_item_man)
        } else if name == "MenuManIns"@ {
            Some(self.menu_man_ins)
        } else if name == "MsgRepository"@ {
            Some(self.msg_repository)
        } else if name == "SoloParamRepository"@ {
            Some(self.solo_param_repository)
        } else if name == "WorldChrMan"@ {
            Some(self.world_chr_man)
        } else if name == "WorldChrManDbg"@ {
            Some(self.world_chr_man_dbg)
        } else if name == "WorldChrManImp"@ {
            Some(self.world_chr_man_imp)
        } else {
            None
        }
    }

    /// Whether every address can be moved up by `base` inside the address
    /// space.
    pub open spec fn fits(self, base: u64) -> bool {
        &&& self.chr_dbg_flags + base <= u64::MAX
        &&& self.csfd4_virtual_memory_flag + base <= u64::MAX
        &&& self.cs_flipper + base <= u64::MAX
        &&& self.cs_lua_event_manager + base <= u64::MAX
        &&& self.cs_menu_man + base <= u64::MAX
        &&& self.cs_menu_man_imp + base <= u64::MAX
        &&& self.cs_net_man + base <= u64::MAX
        &&& self.cs_regulation_manager + base <= u64::MAX
        &&& self.cs_session_manager + base <= u64::MAX
        &&& self.damage_ctrl + base <= u64::MAX
        &&& self.field_area + base <= u64::MAX
        &&& self.game_data_man + base <= u64::MAX
        &&& self.game_man + base <= u64::MAX
        &&& self.group_mask + base <= u64::MAX
        &&& self.hit_ins + base <= u64::MAX
        &&& self.map_item_man + base <= u64::MAX
        &&& self.menu_man_ins + base <= u64::MAX
        &&& self.msg_repository + base <= u64::MAX
        &&& self.solo_param_repository + base <= u64::MAX
        &&& self.world_chr_man + base <= u64::MAX
        &&& self.world_chr_man_dbg + base <= u64::MAX
        &&& self.world_chr_man_imp + base <= u64::MAX
    }

    /// The table with `base` added to every address.
    pub open spec fn rebased(self, base: u64) -> BaseAddresses {
        BaseAddresses {
            chr_dbg_flags: (self.chr_dbg_flags + base) as u64,
            csfd4_virtual_memory_flag: (self.csfd4_virtual_memory_flag + base) as u64,
            cs_flipper: (self.cs_flipper + base) as u64,
            cs_lua_event_manager: (self.cs_lua_event_manager + base) as u64,
            cs_menu_man: (self.cs_menu_man + base) as u64,
            cs_menu_man_imp: (self.cs_menu_man_imp + base) as u64,
            cs_net_man: (self.cs_net_man + base) as u64,
            cs_regulation_manager: (self.cs_regulation_manager + base) as u64,
            cs_session_manager: (self.cs_session_manager + base) as u64,
            damage_ctrl: (self.damage_ctrl + base) as u64,
            field_area: (self.field_area + base) as u64,
            game_data_man: (self.game_data_man + base) as u64,
            game_man: (self.game_man + base) as u64,
            group_mask: (self.group_mask + base) as u64,
            hit_ins: (self.hit_ins + base) as u64,
            map_item_man: (self.map_item_man + base) as u64,
            menu_man_ins: (self.menu_man_ins + base) as u64,
            msg_repository: (self.msg_repository + base) as u64,
            solo_param_repository: (self.solo_param_repository + base) as u64,
            world_chr_man: (self.world_chr_man + base) as u64,
            world_chr_man_dbg: (self.world_chr_man_dbg + base) as u64,
            world_chr_man_imp: (self.world_chr_man_imp + base) as u64,
        }
    }

    /// Whether every address of the table is the offset that the scan results
    /// file under its name.
    pub open spec fn filled_from(self, table: Seq<(Seq<char>, int)>) -> bool {
        &&& offset_of(table, "ChrDbgFlags"@) == Some(self.chr_dbg_flags as int)
        &&& offset_of(table, "CSFD4VirtualMemoryFlag"@) == Some(self.csfd4_virtual_memory_flag as int)
        &&& offset_of(table, "CSFlipper"@) == Some(self.cs_flipper as int)
        &&& offset_of(table, "CSLuaEventManager"@) == Some(self.cs_lua_event_manager as int)
        &&& offset_of(table, "CSMenuMan"@) == Some(self.cs_menu_man as int)
        &&& offset_of(table, "CSMenuManImp"@) == Some(self.cs_menu_man_imp as int)
        &&& offset_of(table, "CSNetMan"@) == Some(self.cs_net_man as int)
        &&& offset_of(table, "CSRegulationManager"@) == Some(self.cs_regulation_manager as int)
        &&& offset_of(table, "CSSessionManager"@) == Some(self.cs_session_manager as int)
        &&& offset_of(table, "DamageCtrl"@) == Some(self.damage_ctrl as int)
        &&& offset_of(table, "FieldArea"@) == Some(self.field_area as int)
        &&& offset_of(table, "GameDataMan"@) == Some(self.game_data_man as int)
        &&& offset_of(table, "GameMan"@) == Some(self.game_man as int)
        &&& offset_of(table, "GroupMask"@) == Some(self.group_mask as int)
        &&& offset_of(table, "HitIns"@) == Some(self.hit_ins as int)
        &&& offset_of(table, "MapItemMan"@) == Some(self.map_item_man as int)
        &&& offset_of(table, "MenuManIns"@) == Some(self.menu_man_ins as int)
        &&& offset_of(table, "MsgRepository"@) == Some(self.msg_repository as int)
        &&& offset_of(table, "SoloParamRepository"@) == Some(self.solo_param_repository as int)
        &&& offset_of(table, "WorldChrMan"@) == Some(self.world_chr_man as int)
        &&& offset_of(table, "WorldChrManDbg"@) == Some(self.world_chr_man_dbg as int)
        &&& offset_of(table, "WorldChrManImp"@) == Some(self.world_chr_man_imp as int)
    }

    /// Whether the scan results hold an offset for every signature.
    pub open spec fn complete(table: Seq<(Seq<char>, int)>) -> bool {
        &&& offset_of(table, "ChrDbgFlags"@) is Some
        &&& offset_of(table, "CSFD4VirtualMemoryFlag"@) is Some
        &&& offset_of(table, "CSFlipper"@) is Some
        &&& offset_of(table, "CSLuaEventManager"@) is Some
        &&& offset_of(table, "CSMenuMan"@) is Some
        &&& offset_of(table, "CSMenuManImp"@) is Some
        &&& offset_of(table, "CSNetMan"@) is Some
        &&& offset_of(table, "CSRegulationManager"@) is Some
        &&& offset_of(table, "CSSessionManager"@) is Some
        &&& offset_of(table, "DamageCtrl"@) is Some
        &&& offset_of(table, "FieldArea"@) is Some
        &&& offset_of(table, "GameDataMan"@) is Some
        &&& offset_of(table, "GameMan"@) is Some
        &&& offset_of(table, "GroupMask"@) is Some
        &&& offset_of(table, "HitIns"@) is Some
        &&& offset_of(table, "MapItemMan"@) is Some
        &&& offset_of(table, "MenuManIns"@) is Some
        &&& offset_of(table, "MsgRepository"@) is Some
        &&& offset_of(table, "SoloParamRepository"@) is Some
        &&& offset_of(table, "WorldChrMan"@) is Some
        &&& offset_of(table, "WorldChrManDbg"@) is Some
        &&& offset_of(table, "WorldChrManImp"@) is Some
    }

    /// Makes a table from the results of a scan, if each signature has an
    /// offset there.
    pub fn from_offsets(offsets: &Vec<(&'static str, usize)>) -> (table: Option<BaseAddresses>)
        ensures
            match table {
                Some(table) => table.filled_from(offsets_view(offsets@)),
                None => !BaseAddresses::complete(offsets_view(offsets@)),
            },
    {
        let chr_dbg_flags = match lookup(offsets, "ChrDbgFlags") {
            Some(offset) => offset as u64,
            None => {
                return None;
            },
        };
        let csfd4_virtual_memory_flag = match lookup(offsets, "CSFD4VirtualMemoryFlag") {
            Some(offset) => offset as u64,
            None => {
                return None;
            },
        };
        let cs_flipper = match lookup(offsets, "CSFlipper") {
            Some(offset) => offset as u64,
            None => {
                return None;
            },
        };
        let cs_lua_event_manager = match lookup(offsets, "CSLuaEventManager") {
            Some(offset) => offset as u64,
            None => {
                return None;
            },
        };
        let cs_menu_man = match lookup(offsets, "CSMenuMan") {
            Some(offset) => offset as u64,
            None => {
                return None;
            },
        };
        let cs_menu_man_imp = match lookup(offsets, "CSMenuManImp") {
            Some(offset) => offset as u64,
            None => {
                return None;
            },
        };
        let cs_net_man = match lookup(offsets, "CSNetMan") {
            Some(offset) => offset as u64,
            None => {
                return None;
            },
        };
        let cs_regulation_manager = match lookup(offsets, "CSRegulationManager") {
            Some(offset) => offset as u64,
            None => {
                return None;
            },
        };
        let cs_session_manager = match lookup(offsets, "CSSessionManager") {
            Some(offset) => offset as u64,
            None => {
                return None;
            },
        };
        let damage_ctrl = match lookup(offsets, "DamageCtrl") {
            Some(offset) => offset as u64,
            None => {
                return None;
            },
        };
        let field_area = match lookup(offsets, "FieldArea") {
            Some(offset) => offset as u64,
            None => {
                return None;
            },
        };
        let game_data_man = match lookup(offsets, "GameDataMan") {
            Some(offset) => offset as u64,
            None => {
                return None;
            },
        };
        let game_man = match lookup(offsets, "GameMan") {
            Some(offset) => offset as u64,
            None => {
                return None;
            },
        };
        let group_mask = match lookup(offsets, "GroupMask") {
            Some(offset) => offset as u64,
            None => {
                return None;
            },
        };
        let hit_ins = match lookup(offsets, "HitIns") {
            Some(offset) => offset as u64,
            None => {
                return None;
            },
        };
        let map_item_man = match lookup(offsets, "MapItemMan") {
            Some(offset) => offset as u64,
            None => {
                return None;
            },
        };
        let menu_man_ins = match lookup(offsets, "MenuManIns") {
            Some(offset) => offset as u64,
            None => {
                return None;
            },
        };
        let msg_repository = match lookup(offsets, "MsgRepository") {
            Some(offset) => offset as u64,
            None => {
                return None;
            },
        };
        let solo_param_repository = match lookup(offsets, "SoloParamRepository") {
            Some(offset) => offset as u64,
            None => {
                return None;
            },
        };
        let world_chr_man = match lookup(offsets, "WorldChrMan") {
            Some(offset) => offset as u64,
            None => {
                return None;
            },
        };
        let world_chr_man_dbg = match lookup(offsets, "WorldChrManDbg") {
            Some(offset) => offset as u64,
            None => {
                return None;
            },
        };
        let world_chr_man_imp = match lookup(offsets, "WorldChrManImp") {
            Some(offset) => offset as u64,
            None => {
                return None;
            },
        };
        Some(
            BaseAddresses {
                chr_dbg_flags,
                csfd4_virtual_memory_flag,
                cs_flipper,
                cs_lua_event_manager,
                cs_menu_man,
                cs_menu_man_imp,
                cs_net_man,
                cs_regulation_manager,
                cs_session_manager,
                damage_ctrl,
                field_area,
                game_data_man,
                game_man,
                group_mask,
                hit_ins,
                map_item_man,
                menu_man_ins,
                msg_repository,
                solo_param_repository,
                world_chr_man,
                world_chr_man_dbg,
                world_chr_man_imp,
            },
        )
    }

    /// Reads the address filed under a signature's name.
    pub fn get(&self, name: &str) -> (address: Option<u64>)
        ensures
            address == self.entry(name@),
    {
        if same_text(name, "ChrDbgFlags") {
            Some(self.chr_dbg_flags)
        } else if same_text(name, "CSFD4VirtualMemoryFlag") {
            Some(self.csfd4_virtual_memory_flag)
        } else if same_text(name, "CSFlipper") {
            Some(self.cs_flipper)
        } else if same_text(name, "CSLuaEventManager") {
            Some(self.cs_lua_event_manager)
        } else if same_text(name, "CSMenuMan") {
            Some(self.cs_menu_man)
        } else if same_text(name, "CSMenuManImp") {
            Some(self.cs_menu_man_imp)
        } else if same_text(name, "CSNetMan") {
            Some(self.cs_net_man)
        } else if same_text(name, "CSRegulationManager") {
            Some(self.cs_regulation_manager)
        } else if same_text(name, "CSSessionManager") {
            Some(self.cs_session_manager)
        } else if same_text(name, "DamageCtrl") {
            Some(self.damage_ctrl)
        } else if same_text(name, "FieldArea") {
            Some(self.field_area)
        } else if same_text(name, "GameDataMan") {
            Some(self.game_data_man)
        } else if same_text(name, "GameMan") {
            Some(self.game_man)
        } else if same_text(name, "GroupMask") {
            Some(self.group_mask)
        } else if same_text(name, "HitIns") {
            Some(self.hit_ins)
        } else if same_text(name, "MapItemMan") {
            Some(self.map_item_man)
        } else if same_text(name, "MenuManIns") {
            Some(self.menu_man_ins)
        } else if same_text(name, "MsgRepository") {
            Some(self.msg_repository)
        } else if same_text(name, "SoloParamRepository") {
            Some(self.solo_param_repository)
        } else if same_text(name, "WorldChrMan") {
            Some(self.world_chr_man)
        } else if same_text(name, "WorldChrManDbg") {
            Some(self.world_chr_man_dbg)
        } else if same_text(name, "WorldChrManImp") {
            Some(self.world_chr_man_imp)
        } else {
            None
        }
    }

    /// Whether `with_module_base_addr` can be called with `base`.
    pub fn can_rebase(&self, base: u64) -> (fits: bool)
        ensures
            fits == self.fits(base),
    {
        let room = u64::MAX - base;
        self.chr_dbg_flags <= room
            && self.csfd4_virtual_memory_flag <= room
            && self.cs_flipper <= room
            && self.cs_lua_event_manager <= room
            && self.cs_menu_man <= room
            && self.cs_menu_man_imp <= room
            && self.cs_net_man <= room
            && self.cs_regulation_manager <= room
            && self.cs_session_manager <= room
            && self.damage_ctrl <= room
            && self.field_area <= room
            && self.game_data_man <= room
            && self.game_man <= room
            && self.group_mask <= room
            && self.hit_ins <= room
            && self.map_item_man <= room
            && self.menu_man_ins <= room
            && self.msg_repository <= room
            && self.solo_param_repository <= room
            && self.world_chr_man <= room
            && self.world_chr_man_dbg <= room
            && self.world_chr_man_imp <= room
    }

    /// Rebases the table against the address at which the module is loaded:
    /// every module-relative offset becomes an absolute address.
    pub fn with_module_base_addr(self, base: u64) -> (rebased: BaseAddresses)
        requires
            self.fits(base),
        ensures
            rebased == self.rebased(base),
    {
        BaseAddresses {
            chr_dbg_flags: self.chr_dbg_flags + base,
            csfd4_virtual_memory_flag: self.csfd4_virtual_memory_flag + base,
            cs_flipper: self.cs_flipper + base,
            cs_lua_event_manager: self.cs_lua_event_manager + base,
            cs_menu_man: self.cs_menu_man + base,
            cs_menu_man_imp: self.cs_menu_man_imp + base,
            cs_net_man: self.cs_net_man + base,
            cs_regulation_manager: self.cs_regulation_manager + base,
            cs_session_manager: self.cs_session_manager + base,
            damage_ctrl: self.damage_ctrl + base,
            field_area: self.field_area + base,
            game_data_man: self.game_data_man + base,
            game_man: self.game_man + base,
            group_mask: self.group_mask + base,
            hit_ins: self.hit_ins + base,
            map_item_man: self.map_item_man + base,
            menu_man_ins: self.menu_man_ins + base,
            msg_repository: self.msg_repository + base,
            solo_param_repository: self.solo_param_repository + base,
            world_chr_man: self.world_chr_man + base,
            world_chr_man_dbg: self.world_chr_man_dbg + base,
            world_chr_man_imp: self.world_chr_man_imp + base,
        }
    }
}

/// Under the name of each signature a table files the address of that
/// signature, and of no other.
pub proof fn lemma_entries_by_name(table: BaseAddresses)
    ensures
        table.entry("ChrDbgFlags"@) == Some(table.chr_dbg_flags),
        table.entry("CSFD4VirtualMemoryFlag"@) == Some(table.csfd4_virtual_memory_flag),
        table.entry("CSFlipper"@) == Some(table.cs_flipper),
        table.entry("CSLuaEventManager"@) == Some(table.cs_lua_event_manager),
        table.entry("CSMenuMan"@) == Some(table.cs_menu_man),
        table.entry("CSMenuManImp"@) == Some(table.cs_menu_man_imp),
        table.entry("CSNetMan"@) == Some(table.cs_net_man),
        table.entry("CSRegulationManager"@) == Some(table.cs_regulation_manager),
        table.entry("CSSessionManager"@) == Some(table.cs_session_manager),
        table.entry("DamageCtrl"@) == Some(table.damage_ctrl),
        table.entry("FieldArea"@) == Some(table.field_area),
        table.entry("GameDataMan"@) == Some(table.game_data_man),
        table.entry("GameMan"@) == Some(table.game_man),
        table.entry("GroupMask"@) == Some(table.group_mask),
        table.entry("HitIns"@) == Some(table.hit_ins),
        table.entry("MapItemMan"@) == Some(table.map_item_man),
        table.entry("MenuManIns"@) == Some(table.menu_man_ins),
        table.entry("MsgRepository"@) == Some(table.msg_repository),
        table.entry("SoloParamRepository"@) == Some(table.solo_param_repository),
        table.entry("WorldChrMan"@) == Some(table.world_chr_man),
        table.entry("WorldChrManDbg"@) == Some(table.world_chr_man_dbg),
        table.entry("WorldChrManImp"@) == Some(table.world_chr_man_imp),
{
    lemma_catalog_names_differ();
    assert(aob_catalog()[0].0 == "ChrDbgFlags"@);
    assert(aob_catalog()[1].0 == "CSFD4VirtualMemoryFlag"@);
    assert(aob_catalog()[2].0 == "CSFlipper"@);
    assert(aob_catalog()[3].0 == "CSLuaEventManager"@);
    assert(aob_catalog()[4].0 == "CSMenuMan"@);
    assert(aob_catalog()[5].0 == "CSMenuManImp"@);
    assert(aob_catalog()[6].0 == "CSNetMan"@);
    assert(aob_catalog()[7].0 == "CSRegulationManager"@);
    assert(aob_catalog()[8].0 == "CSSessionManager"@);
    assert(aob_catalog()[9].0 == "DamageCtrl"@);
    assert(aob_catalog()[10].0 == "FieldArea"@);
    assert(aob_catalog()[11].0 == "GameDataMan"@);
    assert(aob_catalog()[12].0 == "GameMan"@);
    assert(aob_catalog()[13].0 == "GroupMask"@);
    assert(aob_catalog()[14].0 == "HitIns"@);
    assert(aob_catalog()[15].0 == "MapItemMan"@);
    assert(aob_catalog()[16].0 == "MenuManIns"@);
    assert(aob_catalog()[17].0 == "MsgRepository"@);
    assert(aob_catalog()[18].0 == "SoloParamRepository"@);
    assert(aob_catalog()[19].0 == "WorldChrMan"@);
    assert(aob_catalog()[20].0 == "WorldChrManDbg"@);
    assert(aob_catalog()[21].0 == "WorldChrManImp"@);
}

/// Reading an entry of a rebased table gives the entry of the table plus the
/// base, exactly; a name that the table does not have stays absent.
pub proof fn lemma_rebased_entry(table: BaseAddresses, base: u64, name: Seq<char>)
    requires
        table.fits(base),
    ensures
        table.rebased(base).entry(name) == match table.entry(name) {
            Some(offset) => Some((offset + base) as u64),
            None => None,
        },
        table.entry(name) matches Some(offset) ==> table.rebased(base).entry(name)->0 == offset
            + base,
{
}

/// The addresses of the first table made for `version`.
pub open spec fn table_for(tables: Seq<VersionTable>, version: Version) -> Option<BaseAddresses>
    decreases tables.len(),
{
    if tables.len() == 0 {
        None
    } else if tables[0].version == version {
        Some(tables[0].addresses)
    } else {
        table_for(tables.drop_first(), version)
    }
}

/// A build has a table exactly where one of the tables is made for it.
pub proof fn lemma_table_for(tables: Seq<VersionTable>, version: Version)
    ensures
        table_for(tables, version) is None <==> forall|i: int|
            0 <= i < tables.len() ==> (#[trigger] tables[i]).version != version,
        table_for(tables, version) matches Some(addresses) ==> exists|i: int|
            0 <= i < tables.len() && (#[trigger] tables[i]).version == version && tables[i].addresses
                == addresses,
    decreases tables.len(),
{
    if tables.len() == 0 {
    } else if tables[0].version == version {
    } else {
        let rest = tables.drop_first();
        lemma_table_for(rest, version);
        assert forall|i: int| 0 < i < tables.len() implies (#[trigger] tables[i]) == rest[i - 1] by {}
        if table_for(rest, version) is None {
            assert forall|i: int| 0 <= i < tables.len() implies (#[trigger] tables[i]).version
                != version by {
                if i > 0 {
                    assert(tables[i] == rest[i - 1]);
                }
            }
        } else {
            let i = choose|i: int|
                0 <= i < rest.len() && (#[trigger] rest[i]).version == version && rest[i].addresses
                    == table_for(rest, version)->0;
            assert(tables[i + 1] == rest[i]);
        }
    }
}

/// Picks the table of the detected build. A build without a table is an
/// error: there is nothing to fall back to.
pub fn select_table(tables: &Vec<VersionTable>, detected: Version) -> (selected: Result<
    BaseAddresses,
    StartupError,
>)
    ensures
        selected == match table_for(tables@, detected) {
            Some(addresses) => Ok::<BaseAddresses, StartupError>(addresses),
            None => Err::<BaseAddresses, StartupError>(StartupError::UnsupportedVersion(detected)),
        },
{
    let mut i: usize = 0;
    assert(tables@.skip(0) =~= tables@);
    while i < tables.len()
        invariant
            i <= tables@.len(),
            table_for(tables@, detected) == table_for(tables@.skip(i as int), detected),
        decreases tables@.len() - i,
    {
        let ghost rest = tables@.skip(i as int);
        if tables[i].version == detected {
            return Ok(tables[i].addresses);
        }
        assert(rest.drop_first() =~= tables@.skip(i + 1));
        i += 1;
    }
    Err(StartupError::UnsupportedVersion(detected))
}

} // verus!
