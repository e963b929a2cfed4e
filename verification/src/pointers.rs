//! The pointers of the practice tool: every flag and value that it reads or
//! changes in the running game, built from the base addresses of the build.

use vstd::prelude::*;
use crate::base_addresses::{select_table, table_for, BaseAddresses, StartupError, VersionTable};
use crate::memedit::{Bitflag, BitflagView, Cell, ChainView, FloatBits, PointerChain};
use crate::version::Version;

verus! {

/// Three coordinates and a heading, each behind its own chain.
#[derive(Debug)]
pub struct Position {
    pub x: PointerChain<FloatBits>,
    pub y: PointerChain<FloatBits>,
    pub z: PointerChain<FloatBits>,
    pub angle: PointerChain<FloatBits>,
}

/// Every flag and value of the game that the tool works on.
#[derive(Debug)]
pub struct Pointers {
    pub one_shot: Bitflag,
    pub no_damage: Bitflag,
    pub no_dead: Bitflag,
    pub no_hit: Bitflag,
    pub no_goods_consume: Bitflag,
    pub no_stamina_consume: Bitflag,
    pub no_fp_consume: Bitflag,
    pub no_arrows_consume: Bitflag,
    pub no_attack: Bitflag,
    pub no_move: Bitflag,
    pub no_update_ai: Bitflag,
    pub no_ashes_of_war_fp_consume: Bitflag,
    pub runes: PointerChain<u32>,
    pub igt: PointerChain<u64>,
    /// The first debug sphere.
    pub weapon_hitbox1: Bitflag,
    /// The second debug sphere.
    pub weapon_hitbox2: Bitflag,
    /// The damage polygons.
    pub weapon_hitbox3: Bitflag,
    pub quitout: PointerChain<u8>,
    pub cursor_show: Bitflag,
    pub gravity: Bitflag,
    pub display_stable_pos: Bitflag,
    pub position: Position,
    pub stable_position: Position,
    pub world_position: Position,
    pub animation_speed: PointerChain<FloatBits>,
    pub hitbox_high: Bitflag,
    pub hitbox_low: Bitflag,
    pub hitbox_character: Bitflag,
    pub field_area_direction: Bitflag,
    pub field_area_altimeter: Bitflag,
    pub field_area_compass: Bitflag,
    pub show_map: Bitflag,
    pub show_chr: Bitflag,
}

/// The chain with root `base` and the offsets `offsets`.
pub open spec fn chain_at(base: int, offsets: Seq<u64>) -> ChainView {
    ChainView { base: base as u64, offsets }
}

/// The lowest bit of the byte that the chain with root `base` and the offsets
/// `offsets` leads to.
pub open spec fn flag_at(base: int, offsets: Seq<u64>) -> BitflagView {
    BitflagView { chain: chain_at(base, offsets), bit: 0 }
}

fn chain<T: Cell>(base: u64, offsets: Vec<u64>) -> (chain: PointerChain<T>)
    ensures
        chain@ == chain_at(base as int, offsets@),
{
    PointerChain::new(base, offsets)
}

fn flag(base: u64, offsets: Vec<u64>) -> (flag: Bitflag)
    ensures
        flag@ == flag_at(base as int, offsets@),
{
    Bitflag::new(PointerChain::new(base, offsets), 0)
}

impl Clone for Position {
    fn clone(&self) -> (position: Self)
        ensures
            position.x@ == self.x@,
            position.y@ == self.y@,
            position.z@ == self.z@,
            position.angle@ == self.angle@,
    {
        Position {
            x: self.x.clone(),
            y: self.y.clone(),
            z: self.z.clone(),
            angle: self.angle.clone(),
        }
    }
}

impl BaseAddresses {
    /// Whether the flags that sit at a fixed distance behind a base address
    /// still lie inside the address space.
    pub open spec fn reaches_flags(self) -> bool {
        &&& self.chr_dbg_flags + 0x12 <= u64::MAX
        &&& self.hit_ins + 0xF <= u64::MAX
        &&& self.field_area + 0xB <= u64::MAX
        &&& self.group_mask + 0xD <= u64::MAX
    }

    /// Whether `Pointers::from_addresses` can be called with the table.
    pub fn can_reach_flags(&self) -> (reaches: bool)
        ensures
            reaches == self.reaches_flags(),
    {
        self.chr_dbg_flags <= u64::MAX - 0x12 && self.hit_ins <= u64::MAX - 0xF && self.field_area
            <= u64::MAX - 0xB && self.group_mask <= u64::MAX - 0xD
    }
}

impl Pointers {
    /// The pointers of the detected build, for a module loaded at
    /// `module_base`: the table of the build is picked, rebased, and the
    /// pointers are built on it. A build without a table gives
    /// `UnsupportedVersion`, and nothing is built.
    pub fn new(tables: &Vec<VersionTable>, detected: Version, module_base: u64) -> (pointers: Result<
        Pointers,
        StartupError,
    >)
        requires
            table_for(tables@, detected) matches Some(table) ==> table.fits(module_base)
                && table.rebased(module_base).reaches_flags(),
        ensures
            match table_for(tables@, detected) {
                Some(table) => pointers matches Ok(pointers) && pointers.built_on(
                    table.rebased(module_base),
                ),
                None => pointers matches Err(error) && error == StartupError::UnsupportedVersion(
                    detected,
                ),
            },
    {
        match select_table(tables, detected) {
            Ok(table) => Ok(Pointers::from_addresses(table.with_module_base_addr(module_base))),
            Err(error) => Err(error),
        }
    }

    /// Whether these are the pointers that belong to the absolute addresses
    /// `a`.
    pub open spec fn built_on(self, a: BaseAddresses) -> bool {
        &&& self.one_shot@ =~= flag_at(a.chr_dbg_flags + 0x3, Seq::<u64>::empty())
        &&& self.no_damage@ =~= flag_at(a.chr_dbg_flags + 0xC, Seq::<u64>::empty())
        &&& self.no_dead@ =~= flag_at(a.chr_dbg_flags + 0xB, Seq::<u64>::empty())
        &&& self.no_hit@ =~= flag_at(a.chr_dbg_flags + 0xD, Seq::<u64>::empty())
        &&& self.no_goods_consume@ =~= flag_at(a.chr_dbg_flags + 0x4, Seq::<u64>::empty())
        &&& self.no_stamina_consume@ =~= flag_at(a.chr_dbg_flags + 0x5, Seq::<u64>::empty())
        &&& self.no_fp_consume@ =~= flag_at(a.chr_dbg_flags + 0x6, Seq::<u64>::empty())
        &&& self.no_arrows_consume@ =~= flag_at(a.chr_dbg_flags + 0x7, Seq::<u64>::empty())
        &&& self.no_attack@ =~= flag_at(a.chr_dbg_flags + 0xE, Seq::<u64>::empty())
        &&& self.no_move@ =~= flag_at(a.chr_dbg_flags + 0xF, Seq::<u64>::empty())
        &&& self.no_update_ai@ =~= flag_at(a.chr_dbg_flags + 0x10, Seq::<u64>::empty())
        &&& self.no_ashes_of_war_fp_consume@ =~= flag_at(
            a.chr_dbg_flags + 0x12,
            Seq::<u64>::empty(),
        )
        &&& self.runes@ =~= chain_at(a.game_data_man as int, seq![0x8u64, 0x6Cu64])
        &&& self.igt@ =~= chain_at(a.game_data_man as int, seq![0xA0u64])
        &&& self.weapon_hitbox1@ =~= flag_at(a.damage_ctrl as int, seq![0xA0u64])
        &&& self.weapon_hitbox2@ =~= flag_at(a.damage_ctrl as int, seq![0xA1u64])
        &&& self.weapon_hitbox3@ =~= flag_at(a.damage_ctrl as int, seq![0xA4u64])
        &&& self.quitout@ =~= chain_at(a.cs_menu_man_imp as int, seq![0x8u64, 0x5Du64])
        &&& self.cursor_show@ =~= flag_at(a.cs_menu_man_imp as int, seq![0xACu64])
        &&& self.gravity@ =~= flag_at(
            a.world_chr_man as int,
            seq![0x18468u64, 0x190u64, 0x68u64, 0x1D3u64],
        )
        &&& self.display_stable_pos@ =~= flag_at(a.world_chr_man as int, seq![0x18468u64, 0x6FDu64])
        &&& self.position.x@ =~= chain_at(a.world_chr_man as int, seq![0x18468u64, 0x6B8u64])
        &&& self.position.y@ =~= chain_at(a.world_chr_man as int, seq![0x18468u64, 0x6BCu64])
        &&& self.position.z@ =~= chain_at(a.world_chr_man as int, seq![0x18468u64, 0x6C0u64])
        &&& self.position.angle@ =~= chain_at(a.world_chr_man as int, seq![0x18468u64, 0x6C4u64])
        &&& self.stable_position.x@ =~= chain_at(a.world_chr_man as int, seq![0x18468u64, 0x6CCu64])
        &&& self.stable_position.y@ =~= chain_at(a.world_chr_man as int, seq![0x18468u64, 0x6D0u64])
        &&& self.stable_position.z@ =~= chain_at(a.world_chr_man as int, seq![0x18468u64, 0x6D4u64])
        &&& self.stable_position.angle@ =~= chain_at(
            a.world_chr_man as int,
            seq![0x18468u64, 0x6D8u64],
        )
        &&& self.world_position.x@ =~= chain_at(
            a.world_chr_man as int,
            seq![0x18468u64, 0x190u64, 0x68u64, 0x70u64],
        )
        &&& self.world_position.y@ =~= chain_at(
            a.world_chr_man as int,
            seq![0x18468u64, 0x190u64, 0x68u64, 0x74u64],
        )
        &&& self.world_position.z@ =~= chain_at(
            a.world_chr_man as int,
            seq![0x18468u64, 0x190u64, 0x68u64, 0x78u64],
        )
        &&& self.world_position.angle@ =~= chain_at(
            a.world_chr_man as int,
            seq![0x18468u64, 0x190u64, 0x68u64, 0x54u64],
        )
        &&& self.animation_speed@ =~= chain_at(
            a.world_chr_man as int,
            seq![0xB658u64, 0u64, 0x190u64, 0x28u64, 0x17C8u64],
        )
        &&& self.hitbox_high@ =~= flag_at(a.hit_ins + 0xC, Seq::<u64>::empty())
        &&& self.hitbox_low@ =~= flag_at(a.hit_ins + 0xD, Seq::<u64>::empty())
        &&& self.hitbox_character@ =~= flag_at(a.hit_ins + 0xF, Seq::<u64>::empty())
        &&& self.field_area_direction@ =~= flag_at(a.field_area + 0x9, Seq::<u64>::empty())
        &&& self.field_area_altimeter@ =~= flag_at(a.field_area + 0xA, Seq::<u64>::empty())
        &&& self.field_area_compass@ =~= flag_at(a.field_area + 0xB, Seq::<u64>::empty())
        &&& self.show_map@ =~= flag_at(a.group_mask + 0x1, Seq::<u64>::empty())
        &&& self.show_chr@ =~= flag_at(a.group_mask + 0xD, Seq::<u64>::empty())
    }

    /// Builds the pointers on the absolute addresses of the loaded module.
    pub fn from_addresses(a: BaseAddresses) -> (pointers: Pointers)
        requires
            a.reaches_flags(),
        ensures
            pointers.built_on(a),
    {
        Pointers {
            one_shot: flag(a.chr_dbg_flags + 0x3, Vec::new()),
            no_damage: flag(a.chr_dbg_flags + 0xC, Vec::new()),
            no_dead: flag(a.chr_dbg_flags + 0xB, Vec::new()),
            no_hit: flag(a.chr_dbg_flags + 0xD, Vec::new()),
            no_goods_consume: flag(a.chr_dbg_flags + 0x4, Vec::new()),
            no_stamina_consume: flag(a.chr_dbg_flags + 0x5, Vec::new()),
            no_fp_consume: flag(a.chr_dbg_flags + 0x6, Vec::new()),
            no_arrows_consume: flag(a.chr_dbg_flags + 0x7, Vec::new()),
            no_attack: flag(a.chr_dbg_flags + 0xE, Vec::new()),
            no_move: flag(a.chr_dbg_flags + 0xF, Vec::new()),
            no_update_ai: flag(a.chr_dbg_flags + 0x10, Vec::new()),
            no_ashes_of_war_fp_consume: flag(a.chr_dbg_flags + 0x12, Vec::new()),
            runes: chain(a.game_data_man, vec![0x8, 0x6C]),
            igt: chain(a.game_data_man, vec![0xA0]),
            weapon_hitbox1: flag(a.damage_ctrl, vec![0xA0]),
            weapon_hitbox2: flag(a.damage_ctrl, vec![0xA1]),
            weapon_hitbox3: flag(a.damage_ctrl, vec![0xA4]),
            quitout: chain(a.cs_menu_man_imp, vec![0x8, 0x5D]),
            cursor_show: flag(a.cs_menu_man_imp, vec![0xAC]),
            gravity: flag(a.world_chr_man, vec![0x18468, 0x190, 0x68, 0x1D3]),
            display_stable_pos: flag(a.world_chr_man, vec![0x18468, 0x6FD]),
            position: Position {
                x: chain(a.world_chr_man, vec![0x18468, 0x6B8]),
                y: chain(a.world_chr_man, vec![0x18468, 0x6BC]),
                z: chain(a.world_chr_man, vec![0x18468, 0x6C0]),
                angle: chain(a.world_chr_man, vec![0x18468, 0x6C4]),
            },
            stable_position: Position {
                x: chain(a.world_chr_man, vec![0x18468, 0x6CC]),
                y: chain(a.world_chr_man, vec![0x18468, 0x6D0]),
                z: chain(a.world_chr_man, vec![0x18468, 0x6D4]),
                angle: chain(a.world_chr_man, vec![0x18468, 0x6D8]),
            },
            world_position: Position {
                x: chain(a.world_chr_man, vec![0x18468, 0x190, 0x68, 0x70]),
                y: chain(a.world_chr_man, vec![0x18468, 0x190, 0x68, 0x74]),
                z: chain(a.world_chr_man, vec![0x18468, 0x190, 0x68, 0x78]),
                angle: chain(a.world_chr_man, vec![0x18468, 0x190, 0x68, 0x54]),
            },
            animation_speed: chain(a.world_chr_man, vec![0xB658, 0, 0x190, 0x28, 0x17C8]),
            hitbox_high: flag(a.hit_ins + 0xC, Vec::new()),
            hitbox_low: flag(a.hit_ins + 0xD, Vec::new()),
            hitbox_character: flag(a.hit_ins + 0xF, Vec::new()),
            field_area_direction: flag(a.field_area + 0x9, Vec::new()),
            field_area_altimeter: flag(a.field_area + 0xA, Vec::new()),
            field_area_compass: flag(a.field_area + 0xB, Vec::new()),
            show_map: flag(a.group_mask + 0x1, Vec::new()),
            show_chr: flag(a.group_mask + 0xD, Vec::new()),
        }
    }
}

} // verus!
