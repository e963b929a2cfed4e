//! The configuration of the tool: the settings, and the commands that become
//! widgets.

use vstd::prelude::*;
use vstd::string::StringExecFns;
use core::str::FromStr;
use crate::memedit::{Bitflag, BitflagView, ChainView, FloatBits, PointerChain};
use crate::pointers::{Pointers, Position};
use crate::text::same_text;
use crate::util::{clone_key, get_key_code, key_code_of, key_view, KeyState, KeyView};
use crate::widgets::runes::Runes;

verus! {

/// How much is logged: nothing, or everything down to a level.
#[derive(Clone, Copy, Debug, PartialEq, Eq, Structural)]
pub enum LogLevel {
    Off,
    Error,
    Warn,
    Info,
    Debug,
    Trace,
}

/// The log level of the settings, read from its name.
#[derive(Clone, Copy, Debug, PartialEq, Eq, Structural)]
pub struct LevelFilterSerde(pub LogLevel);

/// A letter of the upper-case ASCII alphabet as its lower-case form; every
/// other character as itself.
pub open spec fn ascii_lower(c: char) -> char {
    if 0x41 <= c as u32 <= 0x5a {
        ((c as u32) + 0x20) as char
    } else {
        c
    }
}

/// Whether two texts are the same but for the case of their ASCII letters.
pub open spec fn same_ignoring_ascii_case(a: Seq<char>, b: Seq<char>) -> bool {
    &&& a.len() == b.len()
    &&& forall|i: int| 0 <= i < a.len() ==> ascii_lower(a[i]) == ascii_lower(b[i])
}

/// The level that a name stands for, in either case.
pub open spec fn level_named(name: Seq<char>) -> Option<LogLevel> {
    if same_ignoring_ascii_case("OFF"@, name) {
        Some(LogLevel::Off)
    } else if same_ignoring_ascii_case("ERROR"@, name) {
        Some(LogLevel::Error)
    } else if same_ignoring_ascii_case("WARN"@, name) {
        Some(LogLevel::Warn)
    } else if same_ignoring_ascii_case("INFO"@, name) {
        Some(LogLevel::Info)
    } else if same_ignoring_ascii_case("DEBUG"@, name) {
        Some(LogLevel::Debug)
    } else if same_ignoring_ascii_case("TRACE"@, name) {
        Some(LogLevel::Trace)
    } else {
        None
    }
}

/// What `log` says of a name that is no level.
pub open spec fn level_parse_error() -> Seq<char> {
    "attempted to convert a string that doesn't match an existing log level"@
}

/// Calls `log::LevelFilter::from_str`, which compares the text with the six
/// level names without regard to ASCII case and gives the level of the first
/// that is the same. The level comes back as the variant of the same name;
/// for any other text the error comes back as the message that it displays.
#[verifier::external_body]
fn parse_level(value: &str) -> (parsed: Result<LogLevel, String>)
    ensures
        match level_named(value@) {
            Some(level) => parsed == Ok::<LogLevel, String>(level),
            None => parsed matches Err(message) && message@ == level_parse_error(),
        },
{
    match log::LevelFilter::from_str(value) {
        Ok(log::LevelFilter::Off) => Ok(LogLevel::Off),
        Ok(log::LevelFilter::Error) => Ok(LogLevel::Error),
        Ok(log::LevelFilter::Warn) => Ok(LogLevel::Warn),
        Ok(log::LevelFilter::Info) => Ok(LogLevel::Info),
        Ok(log::LevelFilter::Debug) => Ok(LogLevel::Debug),
        Ok(log::LevelFilter::Trace) => Ok(LogLevel::Trace),
        Err(error) => Err(error.to_string()),
    }
}

impl LevelFilterSerde {
    /// The level itself.
    pub fn inner(&self) -> (level: LogLevel)
        ensures
            level == self.0,
    {
        self.0
    }

    /// Reads a level from its name. A text that names no level gives the
    /// reason as the error.
    pub fn try_from(value: String) -> (level: Result<LevelFilterSerde, String>)
        ensures
            match level_named(value@) {
                Some(named) => level == Ok::<LevelFilterSerde, String>(LevelFilterSerde(named)),
                None => level matches Err(message) && message@
                    == "Couldn't parse log level filter: "@ + level_parse_error(),
            },
    {
        match parse_level(value.as_str()) {
            Ok(level) => Ok(LevelFilterSerde(level)),
            Err(reason) => {
                let mut message = String::new();
                message.append("Couldn't parse log level filter: ");
                message.append(reason.as_str());
                Err(message)
            },
        }
    }
}

/// The flags that a command can name.
#[derive(Clone, Copy, Debug, PartialEq, Eq, Structural)]
pub enum FlagId {
    OneShot,
    NoDamage,
    NoDead,
    NoHit,
    NoGoodsConsume,
    NoStaminaConsume,
    NoFpConsume,
    NoAshesOfWarFpConsume,
    NoArrowsConsume,
    NoAttack,
    NoMove,
    NoUpdateAi,
    Gravity,
    DisplayStablePos,
    WeaponHitbox1,
    WeaponHitbox2,
    WeaponHitbox3,
    HitboxHigh,
    HitboxLow,
    HitboxCharacter,
    FieldAreaDirection,
    FieldAreaAltimeter,
    FieldAreaCompass,
    ShowMap,
    ShowChr,
}

/// A flag that a command names, with the label under which it is shown.
#[derive(Debug)]
pub struct FlagSpec {
    pub label: String,
    pub flag: FlagId,
}

/// The flag that a specifier names, and its label.
pub open spec fn flag_named(name: Seq<char>) -> Option<(FlagId, Seq<char>)> {
    if name == "one_shot"@ {
        Some((FlagId::OneShot, "One shot"@))
    } else if name == "no_damage"@ {
        Some((FlagId::NoDamage, "All no damage"@))
    } else if name == "no_dead"@ {
        Some((FlagId::NoDead, "No death"@))
    } else if name == "no_hit"@ {
        Some((FlagId::NoHit, "No hit"@))
    } else if name == "no_goods_consume"@ {
        Some((FlagId::NoGoodsConsume, "Inf consumables"@))
    } else if name == "no_stamina_consume"@ {
        Some((FlagId::NoStaminaConsume, "Inf stamina"@))
    } else if name == "no_fp_consume"@ {
        Some((FlagId::NoFpConsume, "Inf focus"@))
    } else if name == "no_ashes_of_war_fp_consume"@ {
        Some((FlagId::NoAshesOfWarFpConsume, "Inf focus (AoW)"@))
    } else if name == "no_arrows_consume"@ {
        Some((FlagId::NoArrowsConsume, "Inf arrows"@))
    } else if name == "no_attack"@ {
        Some((FlagId::NoAttack, "No attack"@))
    } else if name == "no_move"@ {
        Some((FlagId::NoMove, "No move"@))
    } else if name == "no_update_ai"@ {
        Some((FlagId::NoUpdateAi, "No update AI"@))
    } else if name == "gravity"@ {
        Some((FlagId::Gravity, "Gravity"@))
    } else if name == "display_stable_pos"@ {
        Some((FlagId::DisplayStablePos, "Display stable position"@))
    } else if name == "weapon_hitbox1"@ {
        Some((FlagId::WeaponHitbox1, "Weapon hitbox #1"@))
    } else if name == "weapon_hitbox2"@ {
        Some((FlagId::WeaponHitbox2, "Weapon hitbox #2"@))
    } else if name == "weapon_hitbox3"@ {
        Some((FlagId::WeaponHitbox3, "Weapon hitbox #3"@))
    } else if name == "hitbox_high"@ {
        Some((FlagId::HitboxHigh, "High world hitbox"@))
    } else if name == "hitbox_low"@ {
        Some((FlagId::HitboxLow, "Low world hitbox"@))
    } else if name == "hitbox_character"@ {
        Some((FlagId::HitboxCharacter, "Character hitbox"@))
    } else if name == "field_area_direction"@ {
        Some((FlagId::FieldAreaDirection, "Direction HUD"@))
    } else if name == "field_area_altimeter"@ {
        Some((FlagId::FieldAreaAltimeter, "Altimeter HUD"@))
    } else if name == "field_area_compass"@ {
        Some((FlagId::FieldAreaCompass, "Compass HUD"@))
    } else if name == "show_map"@ {
        Some((FlagId::ShowMap, "Show/hide map"@))
    } else if name == "show_chr"@ {
        Some((FlagId::ShowChr, "Show/hide character"@))
    } else {
        None
    }
}

/// What is said of a specifier that names no flag.
pub open spec fn flag_error(name: Seq<char>) -> Seq<char> {
    "\""@ + name + "\" is not a valid flag specifier"@
}

impl Pointers {
    /// The flag that `id` names.
    pub open spec fn flag_view(self, id: FlagId) -> BitflagView {
        match id {
            FlagId::OneShot => self.one_shot@,
            FlagId::NoDamage => self.no_damage@,
            FlagId::NoDead => self.no_dead@,
            FlagId::NoHit => self.no_hit@,
            FlagId::NoGoodsConsume => self.no_goods_consume@,
            FlagId::NoStaminaConsume => self.no_stamina_consume@,
            FlagId::NoFpConsume => self.no_fp_consume@,
            FlagId::NoAshesOfWarFpConsume => self.no_ashes_of_war_fp_consume@,
            FlagId::NoArrowsConsume => self.no_arrows_consume@,
            FlagId::NoAttack => self.no_attack@,
            FlagId::NoMove => self.no_move@,
            FlagId::NoUpdateAi => self.no_update_ai@,
            FlagId::Gravity => self.gravity@,
            FlagId::DisplayStablePos => self.display_stable_pos@,
            FlagId::WeaponHitbox1 => self.weapon_hitbox1@,
            FlagId::WeaponHitbox2 => self.weapon_hitbox2@,
            FlagId::WeaponHitbox3 => self.weapon_hitbox3@,
            FlagId::HitboxHigh => self.hitbox_high@,
            FlagId::HitboxLow => self.hitbox_low@,
            FlagId::HitboxCharacter => self.hitbox_character@,
            FlagId::FieldAreaDirection => self.field_area_direction@,
            FlagId::FieldAreaAltimeter => self.field_area_altimeter@,
            FlagId::FieldAreaCompass => self.field_area_compass@,
            FlagId::ShowMap => self.show_map@,
            FlagId::ShowChr => self.show_chr@,
        }
    }

    /// The flag that `id` names.
    pub fn flag(&self, id: FlagId) -> (flag: &Bitflag)
        ensures
            flag@ == self.flag_view(id),
    {
        match id {
            FlagId::OneShot => &self.one_shot,
            FlagId::NoDamage => &self.no_damage,
            FlagId::NoDead => &self.no_dead,
            FlagId::NoHit => &self.no_hit,
            FlagId::NoGoodsConsume => &self.no_goods_consume,
            FlagId::NoStaminaConsume => &self.no_stamina_consume,
            FlagId::NoFpConsume => &self.no_fp_consume,
            FlagId::NoAshesOfWarFpConsume => &self.no_ashes_of_war_fp_consume,
            FlagId::NoArrowsConsume => &self.no_arrows_consume,
            FlagId::NoAttack => &self.no_attack,
            FlagId::NoMove => &self.no_move,
            FlagId::NoUpdateAi => &self.no_update_ai,
            FlagId::Gravity => &self.gravity,
            FlagId::DisplayStablePos => &self.display_stable_pos,
            FlagId::WeaponHitbox1 => &self.weapon_hitbox1,
            FlagId::WeaponHitbox2 => &self.weapon_hitbox2,
            FlagId::WeaponHitbox3 => &self.weapon_hitbox3,
            FlagId::HitboxHigh => &self.hitbox_high,
            FlagId::HitboxLow => &self.hitbox_low,
            FlagId::HitboxCharacter => &self.hitbox_character,
            FlagId::FieldAreaDirection => &self.field_area_direction,
            FlagId::FieldAreaAltimeter => &self.field_area_altimeter,
            FlagId::FieldAreaCompass => &self.field_area_compass,
            FlagId::ShowMap => &self.show_map,
            FlagId::ShowChr => &self.show_chr,
        }
    }
}

impl FlagSpec {
    pub fn new(label: &str, flag: FlagId) -> (spec: FlagSpec)
        ensures
            spec.label@ == label@,
            spec.flag == flag,
    {
        FlagSpec { label: label.to_owned(), flag }
    }

    /// Reads a flag from its specifier. A text that names no flag gives the
    /// reason as the error.
    pub fn try_from(value: String) -> (spec: Result<FlagSpec, String>)
        ensures
            match flag_named(value@) {
                Some((flag, label)) => spec matches Ok(spec) && spec.flag == flag && spec.label@
                    == label,
                None => spec matches Err(message) && message@ == flag_error(value@),
            },
    {
        let name = value.as_str();
        if same_text(name, "one_shot") {
            Ok(FlagSpec::new("One shot", FlagId::OneShot))
        } else if same_text(name, "no_damage") {
            Ok(FlagSpec::new("All no damage", FlagId::NoDamage))
        } else if same_text(name, "no_dead") {
            Ok(FlagSpec::new("No death", FlagId::NoDead))
        } else if same_text(name, "no_hit") {
            Ok(FlagSpec::new("No hit", FlagId::NoHit))
        } else if same_text(name, "no_goods_consume") {
            Ok(FlagSpec::new("Inf consumables", FlagId::NoGoodsConsume))
        } else if same_text(name, "no_stamina_consume") {
            Ok(FlagSpec::new("Inf stamina", FlagId::NoStaminaConsume))
        } else if same_text(name, "no_fp_consume") {
            Ok(FlagSpec::new("Inf focus", FlagId::NoFpConsume))
        } else if same_text(name, "no_ashes_of_war_fp_consume") {
            Ok(FlagSpec::new("Inf focus (AoW)", FlagId::NoAshesOfWarFpConsume))
        } else if same_text(name, "no_arrows_consume") {
            Ok(FlagSpec::new("Inf arrows", FlagId::NoArrowsConsume))
        } else if same_text(name, "no_attack") {
            Ok(FlagSpec::new("No attack", FlagId::NoAttack))
        } else if same_text(name, "no_move") {
            Ok(FlagSpec::new("No move", FlagId::NoMove))
        } else if same_text(name, "no_update_ai") {
            Ok(FlagSpec::new("No update AI", FlagId::NoUpdateAi))
        } else if same_text(name, "gravity") {
            Ok(FlagSpec::new("Gravity", FlagId::Gravity))
        } else if same_text(name, "display_stable_pos") {
            Ok(FlagSpec::new("Display stable position", FlagId::DisplayStablePos))
        } else if same_text(name, "weapon_hitbox1") {
            Ok(FlagSpec::new("Weapon hitbox #1", FlagId::WeaponHitbox1))
        } else if same_text(name, "weapon_hitbox2") {
            Ok(FlagSpec::new("Weapon hitbox #2", FlagId::WeaponHitbox2))
        } else if same_text(name, "weapon_hitbox3") {
            Ok(FlagSpec::new("Weapon hitbox #3", FlagId::WeaponHitbox3))
        } else if same_text(name, "hitbox_high") {
            Ok(FlagSpec::new("High world hitbox", FlagId::HitboxHigh))
        } else if same_text(name, "hitbox_low") {
            Ok(FlagSpec::new("Low world hitbox", FlagId::HitboxLow))
        } else if same_text(name, "hitbox_character") {
            Ok(FlagSpec::new("Character hitbox", FlagId::HitboxCharacter))
        } else if same_text(name, "field_area_direction") {
            Ok(FlagSpec::new("Direction HUD", FlagId::FieldAreaDirection))
        } else if same_text(name, "field_area_altimeter") {
            Ok(FlagSpec::new("Altimeter HUD", FlagId::FieldAreaAltimeter))
        } else if same_text(name, "field_area_compass") {
            Ok(FlagSpec::new("Compass HUD", FlagId::FieldAreaCompass))
        } else if same_text(name, "show_map") {
            Ok(FlagSpec::new("Show/hide map", FlagId::ShowMap))
        } else if same_text(name, "show_chr") {
            Ok(FlagSpec::new("Show/hide character", FlagId::ShowChr))
        } else {
            let mut message = String::new();
            message.append("\"");
            message.append(name);
            message.append("\" is not a valid flag specifier");
            Err(message)
        }
    }
}

/// The settings of the tool.
#[derive(Debug)]
pub struct Settings {
    pub log_level: LevelFilterSerde,
    pub display: KeyState,
}

/// One command of the configuration.
#[allow(inconsistent_fields)]
#[derive(Debug)]
pub enum CfgCommand {
    SavefileManager { hotkey_load: KeyState, hotkey_back: KeyState, hotkey_close: KeyState },
    Flag { flag: FlagSpec, hotkey: Option<KeyState> },
    MultiFlag { flags: Vec<FlagSpec>, hotkey: Option<KeyState>, label: String },
    Position { hotkey: KeyState, modifier: KeyState },
    CycleSpeed { cycle_speed: Vec<FloatBits>, hotkey: KeyState },
    Runes { amount: u32, hotkey: KeyState },
    Quitout { hotkey: KeyState },
}

/// The configuration: the settings, and the commands in the order in which
/// their widgets are shown.
#[derive(Debug)]
pub struct Config {
    pub settings: Settings,
    pub commands: Vec<CfgCommand>,
}

/// A widget as a command sets it up: what it shows, the key that it listens
/// to, and the pointers that it works on.
#[allow(inconsistent_fields)]
#[derive(Debug)]
pub enum Widget {
    SavefileManager { hotkey_load: KeyState, hotkey_back: KeyState, hotkey_close: KeyState },
    Flag { label: String, flag: Bitflag, hotkey: Option<KeyState> },
    MultiFlag { label: String, flags: Vec<Bitflag>, hotkey: Option<KeyState> },
    SavePosition { position: Position, hotkey: KeyState, modifier: KeyState },
    CycleSpeed { values: Vec<FloatBits>, speed: PointerChain<FloatBits>, hotkey: KeyState },
    Runes(Runes),
    Quitout { quitout: PointerChain<u8>, hotkey: KeyState },
}

/// What a [`Widget`] holds.
#[allow(inconsistent_fields)]
pub enum WidgetView {
    SavefileManager { hotkey_load: KeyView, hotkey_back: KeyView, hotkey_close: KeyView },
    Flag { label: Seq<char>, flag: BitflagView, hotkey: Option<KeyView> },
    MultiFlag { label: Seq<char>, flags: Seq<BitflagView>, hotkey: Option<KeyView> },
    SavePosition {
        x: ChainView,
        y: ChainView,
        z: ChainView,
        angle: ChainView,
        hotkey: KeyView,
        modifier: KeyView,
    },
    CycleSpeed { values: Seq<FloatBits>, speed: ChainView, hotkey: KeyView },
    Runes { label: Seq<char>, ptr: ChainView, hotkey: KeyView, amount: u32 },
    Quitout { quitout: ChainView, hotkey: KeyView },
}

impl View for Widget {
    type V = WidgetView;

    open spec fn view(&self) -> WidgetView {
        match *self {
            Widget::SavefileManager { hotkey_load, hotkey_back, hotkey_close } => {
                WidgetView::SavefileManager {
                    hotkey_load: hotkey_load@,
                    hotkey_back: hotkey_back@,
                    hotkey_close: hotkey_close@,
                }
            },
            Widget::Flag { label, flag, hotkey } => WidgetView::Flag {
                label: label@,
                flag: flag@,
                hotkey: key_view(hotkey),
            },
            Widget::MultiFlag { label, flags, hotkey } => WidgetView::MultiFlag {
                label: label@,
                flags: Seq::new(flags@.len(), |i: int| flags@[i]@),
                hotkey: key_view(hotkey),
            },
            Widget::SavePosition { position, hotkey, modifier } => WidgetView::SavePosition {
                x: position.x@,
                y: position.y@,
                z: position.z@,
                angle: position.angle@,
                hotkey: hotkey@,
                modifier: modifier@,
            },
            Widget::CycleSpeed { values, speed, hotkey } => WidgetView::CycleSpeed {
                values: values@,
                speed: speed@,
                hotkey: hotkey@,
            },
            Widget::Runes(runes) => WidgetView::Runes {
                label: runes.label@,
                ptr: runes.ptr@,
                hotkey: runes.hotkey@,
                amount: runes.amount,
            },
            Widget::Quitout { quitout, hotkey } => WidgetView::Quitout {
                quitout: quitout@,
                hotkey: hotkey@,
            },
        }
    }
}

impl CfgCommand {
    /// The widget that the command asks for, on the pointers `chains`.
    pub open spec fn widget(self, chains: Pointers) -> WidgetView {
        match self {
            CfgCommand::SavefileManager { hotkey_load, hotkey_back, hotkey_close } => {
                WidgetView::SavefileManager {
                    hotkey_load: hotkey_load@,
                    hotkey_back: hotkey_back@,
                    hotkey_close: hotkey_close@,
                }
            },
            CfgCommand::Flag { flag, hotkey } => WidgetView::Flag {
                label: flag.label@,
                flag: chains.flag_view(flag.flag),
                hotkey: key_view(hotkey),
            },
            CfgCommand::MultiFlag { flags, hotkey, label } => WidgetView::MultiFlag {
                label: label@,
                flags: Seq::new(flags@.len(), |i: int| chains.flag_view(flags@[i].flag)),
                hotkey: key_view(hotkey),
            },
            CfgCommand::Position { hotkey, modifier } => WidgetView::SavePosition {
                x: chains.world_position.x@,
                y: chains.world_position.y@,
                z: chains.world_position.z@,
                angle: chains.world_position.angle@,
                hotkey: hotkey@,
                modifier: modifier@,
            },
            CfgCommand::CycleSpeed { cycle_speed, hotkey } => WidgetView::CycleSpeed {
                values: cycle_speed@,
                speed: chains.animation_speed@,
                hotkey: hotkey@,
            },
            CfgCommand::Runes { amount, hotkey } => WidgetView::Runes {
                label: Runes::label_text(amount, hotkey.name@),
                ptr: chains.runes@,
                hotkey: hotkey@,
                amount,
            },
            CfgCommand::Quitout { hotkey } => WidgetView::Quitout {
                quitout: chains.quitout@,
                hotkey: hotkey@,
            },
        }
    }

    /// Sets up the widget that the command asks for.
    pub fn make(&self, chains: &Pointers) -> (widget: Widget)
        ensures
            widget@ == self.widget(*chains),
    {
        match self {
            CfgCommand::SavefileManager { hotkey_load, hotkey_back, hotkey_close } => {
                Widget::SavefileManager {
                    hotkey_load: hotkey_load.clone(),
                    hotkey_back: hotkey_back.clone(),
                    hotkey_close: hotkey_close.clone(),
                }
            },
            CfgCommand::Flag { flag, hotkey } => Widget::Flag {
                label: flag.label.clone(),
                flag: chains.flag(flag.flag).clone(),
                hotkey: clone_key(hotkey),
            },
            CfgCommand::MultiFlag { flags, hotkey, label } => {
                let mut chosen: Vec<Bitflag> = Vec::new();
                let mut i: usize = 0;
                while i < flags.len()
                    invariant
                        i <= flags@.len(),
                        chosen@.len() == i,
                        forall|j: int| 0 <= j < i ==> chosen@[j]@ == chains.flag_view(flags@[j].flag),
                    decreases flags@.len() - i,
                {
                    chosen.push(chains.flag(flags[i].flag).clone());
                    i += 1;
                }
                let widget = Widget::MultiFlag {
                    label: label.clone(),
                    flags: chosen,
                    hotkey: clone_key(hotkey),
                };
                assert(widget@->MultiFlag_flags =~= self.widget(*chains)->MultiFlag_flags);
                widget
            },
            CfgCommand::Position { hotkey, modifier } => Widget::SavePosition {
                position: chains.world_position.clone(),
                hotkey: hotkey.clone(),
                modifier: modifier.clone(),
            },
            CfgCommand::CycleSpeed { cycle_speed, hotkey } => {
                let mut values: Vec<FloatBits> = Vec::new();
                let mut i: usize = 0;
                while i < cycle_speed.len()
                    invariant
                        i <= cycle_speed@.len(),
                        values@ == cycle_speed@.take(i as int),
                    decreases cycle_speed@.len() - i,
                {
                    values.push(cycle_speed[i]);
                    i += 1;
                }
                assert(cycle_speed@.take(i as int) =~= cycle_speed@);
                Widget::CycleSpeed {
                    values,
                    speed: chains.animation_speed.clone(),
                    hotkey: hotkey.clone(),
                }
            },
            CfgCommand::Runes { amount, hotkey } => Widget::Runes(
                Runes::new(*amount, chains.runes.clone(), hotkey.clone()),
            ),
            CfgCommand::Quitout { hotkey } => Widget::Quitout {
                quitout: chains.quitout.clone(),
                hotkey: hotkey.clone(),
            },
        }
    }
}

impl Config {
    /// Sets up one widget for each command, in the order of the commands.
    pub fn make_commands(&self, chains: &Pointers) -> (widgets: Vec<Widget>)
        ensures
            widgets@.len() == self.commands@.len(),
            forall|i: int|
                0 <= i < widgets@.len() ==> (#[trigger] widgets@[i])@ == self.commands@[i].widget(
                    *chains,
                ),
    {
        let mut widgets: Vec<Widget> = Vec::new();
        let mut i: usize = 0;
        while i < self.commands.len()
            invariant
                i <= self.commands@.len(),
                widgets@.len() == i,
                forall|j: int|
                    0 <= j < i ==> (#[trigger] widgets@[j])@ == self.commands@[j].widget(*chains),
            decreases self.commands@.len() - i,
        {
            widgets.push(self.commands[i].make(chains));
            i += 1;
        }
        widgets
    }
}

impl Default for Config {
    /// No commands, logging down to debug, and the key `0` to show and hide
    /// the tool.
    fn default() -> (config: Config)
        ensures
            config.settings.log_level == LevelFilterSerde(LogLevel::Debug),
            Some(config.settings.display@.code) == key_code_of("0"@),
            config.settings.display@.code == 0x30,
            config.settings.display@.name == "0"@,
            config.commands@.len() == 0,
    {
        proof {
            reveal_strlit("0");
        }
        Config {
            settings: Settings {
                log_level: LevelFilterSerde(LogLevel::Debug),
                display: KeyState::new(get_key_code("0").unwrap(), "0".to_owned()),
            },
            commands: Vec::new(),
        }
    }
}

} // verus!
