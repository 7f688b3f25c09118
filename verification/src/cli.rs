//! The command-line front end's arguments and the decisions it makes on
//! them: which device request each command stands for, how a power-off
//! timer argument is read, and whether a confirmation answer is a yes.

use crate::command::{
    AMBIENT_LEVEL_MAX, AMBIENT_LEVEL_MIN, AncScene, NcLevel, NoiseCancellingMode,
    TransparencyMode,
};
use crate::disconnect_power_off::DisconnectPowerOff;
use crate::eq::EqPreset;
use crate::game_mode::GameMode;
use crate::ldac::Ldac;
use crate::multipoint::Multipoint;
use crate::notification_volume::NotificationVolume;
use crate::scheduled_power_off::{MAX_MINUTES, MIN_MINUTES, ScheduledPowerOff};
use crate::sleep_mode::SleepMode;
use crate::text::{
    ascii_lower, char_ascii_lower, chars_equal, chars_of, parse_u16, parse_u16_spec, trim,
    trim_chars,
};
use crate::touch_action::{TouchAction, TouchControl};
use crate::wear_detection::WearDetection;
use vstd::prelude::*;

verus! {

/// The parsed command line.
pub struct Cli {
    pub command: Commands,
}

/// The subcommands.
pub enum Commands {
    /// Sets the active ANC scene.
    Anc { scene: AncSceneArg },
    /// Reads the current battery level of both earbuds.
    Battery,
    /// Reads the device name and firmware version of both earbuds.
    Version,
    /// Sets the channel balance (0 = full left, 100 = full right, 50 = centered).
    Balance { value: u8 },
    /// Sets an equalizer preset.
    Eq { preset: EqPresetArg },
    /// Sets a custom 10-band equalizer curve, gains in dB (-8 to 8).
    EqCustom { bands: Vec<i16> },
    /// Resets settings to default.
    ResetDefault,
    /// Factory-resets the device; `yes` skips the confirmation prompt.
    FactoryReset { yes: bool },
    /// Renames the device's Bluetooth pairing name.
    Rename { name: String },
    /// Sets the notification volume.
    NotificationVolume { level: NotificationVolumeArg },
    /// Sets the scheduled power-off timer.
    ScheduledPowerOff { value: PowerOffArg },
    /// Sets the power-off-after-disconnect timer.
    DisconnectPowerOff { value: PowerOffArg },
    /// Sets in-ear wear detection and its ANC-on-wear sub-toggle.
    WearDetection { enabled: bool, anc_on_wear: bool },
    /// Toggles game (low-latency) mode.
    GameMode { state: ToggleArg },
    /// Toggles sleep mode.
    SleepMode { state: ToggleArg },
    /// Toggles the LDAC codec.
    Ldac { state: ToggleArg },
    /// Toggles dual-device (multipoint) connection.
    Multipoint { state: ToggleArg },
    /// Assigns a tap action to one earbud/click-count control.
    TouchAction { control: TouchControlArg, action: TouchActionArg },
}

#[derive(Clone, Copy, Debug, PartialEq, Eq, Structural)]
pub enum NotificationVolumeArg {
    Low,
    Medium,
    High,
    Max,
}

#[derive(Clone, Copy, Debug, PartialEq, Eq, Structural)]
pub enum ToggleArg {
    On,
    Off,
}

/// A power-off timer value: a number of minutes, or a disabling keyword
/// (`off`/`never`/`disabled`, since the two timers use different words).
#[derive(Clone, Copy, Debug, PartialEq, Eq, Structural)]
pub enum PowerOffArg {
    Disabled,
    Minutes(u16),
}

/// The three top-level ANC modes.
#[derive(Clone, Copy, Debug, PartialEq, Eq, Structural)]
pub enum AncSceneArg {
    /// Plain listening.
    Normal,
    /// Transparency: vocal enhancement without a level, ambient sound at
    /// `level` (1 to 6) with one.
    Transparency { level: Option<u8> },
    /// The Noise Cancelling submenu.
    NoiseCancelling { mode: NoiseCancellingArg },
}

/// Noise Cancelling submenu: five sub-modes, three of which take a 1-3
/// intensity level.
#[derive(Clone, Copy, Debug, PartialEq, Eq, Structural)]
pub enum NoiseCancellingArg {
    Adaptive,
    Wind,
    Indoor { level: u8 },
    DailyCommute { level: u8 },
    Noisy { level: u8 },
}

#[derive(Clone, Copy, Debug, PartialEq, Eq, Structural)]
pub enum TouchControlArg {
    LeftSingle,
    RightSingle,
    LeftDouble,
    RightDouble,
    LeftTriple,
    RightTriple,
}

#[derive(Clone, Copy, Debug, PartialEq, Eq, Structural)]
pub enum TouchActionArg {
    NoAction,
    PlayPause,
    Previous,
    Next,
    VoiceAssistant,
    VolumeUp,
    VolumeDown,
    GameMode,
    Anc,
}

#[derive(Clone, Copy, Debug, PartialEq, Eq, Structural)]
pub enum EqPresetArg {
    Spatial,
    Default,
    Popular,
    BassBoost,
    Rock,
    Soft,
    Classic,
}

/// What a command asks of the device.
pub enum Request {
    SetAncScene(AncScene),
    ReadBattery,
    ReadVersion,
    SetBalance(u8),
    SetEqPreset(EqPreset),
    SetEqCustom(Vec<i16>),
    ResetDefault,
    /// A factory reset; `confirmed` when the prompt may be skipped.
    FactoryReset { confirmed: bool },
    Rename(String),
    SetNotificationVolume(NotificationVolume),
    SetScheduledPowerOff(ScheduledPowerOff),
    SetDisconnectPowerOff(DisconnectPowerOff),
    SetWearDetection(WearDetection),
    SetGameMode(GameMode),
    SetSleepMode(SleepMode),
    SetLdac(Ldac),
    SetMultipoint(Multipoint),
    SetTouchAction(TouchControl, TouchAction),
}

pub open spec fn touch_control_of(arg: TouchControlArg) -> TouchControl {
    match arg {
        TouchControlArg::LeftSingle => TouchControl::LeftSingle,
        TouchControlArg::RightSingle => TouchControl::RightSingle,
        TouchControlArg::LeftDouble => TouchControl::LeftDouble,
        TouchControlArg::RightDouble => TouchControl::RightDouble,
        TouchControlArg::LeftTriple => TouchControl::LeftTriple,
        TouchControlArg::RightTriple => TouchControl::RightTriple,
    }
}

pub open spec fn touch_action_of(arg: TouchActionArg) -> TouchAction {
    match arg {
        TouchActionArg::NoAction => TouchAction::NoAction,
        TouchActionArg::PlayPause => TouchAction::PlayPause,
        TouchActionArg::Previous => TouchAction::Previous,
        TouchActionArg::Next => TouchAction::Next,
        TouchActionArg::VoiceAssistant => TouchAction::VoiceAssistant,
        TouchActionArg::VolumeUp => TouchAction::VolumeUp,
        TouchActionArg::VolumeDown => TouchAction::VolumeDown,
        TouchActionArg::GameMode => TouchAction::GameMode,
        TouchActionArg::Anc => TouchAction::Anc,
    }
}

pub open spec fn volume_of_arg(arg: NotificationVolumeArg) -> NotificationVolume {
    match arg {
        NotificationVolumeArg::Low => NotificationVolume::Low,
        NotificationVolumeArg::Medium => NotificationVolume::Medium,
        NotificationVolumeArg::High => NotificationVolume::High,
        NotificationVolumeArg::Max => NotificationVolume::Max,
    }
}

/// A 1-3 level argument: `1` and `2` are themselves, anything else the top
/// level.
pub open spec fn nc_level_of(raw: u8) -> NcLevel {
    if raw == 1 {
        NcLevel::One
    } else if raw == 2 {
        NcLevel::Two
    } else {
        NcLevel::Three
    }
}

pub open spec fn nc_mode_of(arg: NoiseCancellingArg) -> NoiseCancellingMode {
    match arg {
        NoiseCancellingArg::Adaptive => NoiseCancellingMode::Adaptive,
        NoiseCancellingArg::Wind => NoiseCancellingMode::WindResistance,
        NoiseCancellingArg::Indoor { level } => NoiseCancellingMode::Indoor(nc_level_of(level)),
        NoiseCancellingArg::DailyCommute { level } => NoiseCancellingMode::DailyCommute(
            nc_level_of(level),
        ),
        NoiseCancellingArg::Noisy { level } => NoiseCancellingMode::Noisy(nc_level_of(level)),
    }
}

pub open spec fn anc_scene_of_arg(arg: AncSceneArg) -> AncScene {
    match arg {
        AncSceneArg::Normal => AncScene::Normal,
        AncSceneArg::Transparency { level: None } => AncScene::Transparency(
            TransparencyMode::VocalEnhancement,
        ),
        AncSceneArg::Transparency { level: Some(level) } => AncScene::Transparency(
            TransparencyMode::AmbientSound { level },
        ),
        AncSceneArg::NoiseCancelling { mode } => AncScene::NoiseCancelling(nc_mode_of(mode)),
    }
}

pub open spec fn eq_preset_of_arg(arg: EqPresetArg) -> EqPreset {
    match arg {
        EqPresetArg::Spatial => EqPreset::Spatial,
        EqPresetArg::Default => EqPreset::Default,
        EqPresetArg::Popular => EqPreset::Popular,
        EqPresetArg::BassBoost => EqPreset::BassBoost,
        EqPresetArg::Rock => EqPreset::Rock,
        EqPresetArg::Soft => EqPreset::Soft,
        EqPresetArg::Classic => EqPreset::Classic,
    }
}

pub fn touch_control_from_arg(arg: TouchControlArg) -> (r: TouchControl)
    ensures
        r == touch_control_of(arg),
{
    match arg {
        TouchControlArg::LeftSingle => TouchControl::LeftSingle,
        TouchControlArg::RightSingle => TouchControl::RightSingle,
        TouchControlArg::LeftDouble => TouchControl::LeftDouble,
        TouchControlArg::RightDouble => TouchControl::RightDouble,
        TouchControlArg::LeftTriple => TouchControl::LeftTriple,
        TouchControlArg::RightTriple => TouchControl::RightTriple,
    }
}

pub fn touch_action_from_arg(arg: TouchActionArg) -> (r: TouchAction)
    ensures
        r == touch_action_of(arg),
{
    match arg {
        TouchActionArg::NoAction => TouchAction::NoAction,
        TouchActionArg::PlayPause => TouchAction::PlayPause,
        TouchActionArg::Previous => TouchAction::Previous,
        TouchActionArg::Next => TouchAction::Next,
        TouchActionArg::VoiceAssistant => TouchAction::VoiceAssistant,
        TouchActionArg::VolumeUp => TouchAction::VolumeUp,
        TouchActionArg::VolumeDown => TouchAction::VolumeDown,
        TouchActionArg::GameMode => TouchAction::GameMode,
        TouchActionArg::Anc => TouchAction::Anc,
    }
}

pub fn notification_volume_from_arg(arg: NotificationVolumeArg) -> (r: NotificationVolume)
    ensures
        r == volume_of_arg(arg),
{
    match arg {
        NotificationVolumeArg::Low => NotificationVolume::Low,
        NotificationVolumeArg::Medium => NotificationVolume::Medium,
        NotificationVolumeArg::High => NotificationVolume::High,
        NotificationVolumeArg::Max => NotificationVolume::Max,
    }
}

pub fn anc_scene_from_arg(arg: AncSceneArg) -> (r: AncScene)
    ensures
        r == anc_scene_of_arg(arg),
{
    match arg {
        AncSceneArg::Normal => AncScene::Normal,
        AncSceneArg::Transparency { level: None } => AncScene::Transparency(
            TransparencyMode::VocalEnhancement,
        ),
        AncSceneArg::Transparency { level: Some(level) } => AncScene::Transparency(
            TransparencyMode::AmbientSound { level },
        ),
        AncSceneArg::NoiseCancelling { mode } => AncScene::NoiseCancelling(
            noise_cancelling_mode_from_arg(mode),
        ),
    }
}

fn nc_level_from_arg(raw: u8) -> (r: NcLevel)
    ensures
        r == nc_level_of(raw),
{
    match raw {
        1 => NcLevel::One,
        2 => NcLevel::Two,
        _ => NcLevel::Three,
    }
}

pub fn noise_cancelling_mode_from_arg(arg: NoiseCancellingArg) -> (r: NoiseCancellingMode)
    ensures
        r == nc_mode_of(arg),
{
    match arg {
        NoiseCancellingArg::Adaptive => NoiseCancellingMode::Adaptive,
        NoiseCancellingArg::Wind => NoiseCancellingMode::WindResistance,
        NoiseCancellingArg::Indoor { level } => NoiseCancellingMode::Indoor(
            nc_level_from_arg(level),
        ),
        NoiseCancellingArg::DailyCommute { level } => NoiseCancellingMode::DailyCommute(
            nc_level_from_arg(level),
        ),
        NoiseCancellingArg::Noisy { level } => NoiseCancellingMode::Noisy(
            nc_level_from_arg(level),
        ),
    }
}

pub fn eq_preset_from_arg(arg: EqPresetArg) -> (r: EqPreset)
    ensures
        r == eq_preset_of_arg(arg),
{
    match arg {
        EqPresetArg::Spatial => EqPreset::Spatial,
        EqPresetArg::Default => EqPreset::Default,
        EqPresetArg::Popular => EqPreset::Popular,
        EqPresetArg::BassBoost => EqPreset::BassBoost,
        EqPresetArg::Rock => EqPreset::Rock,
        EqPresetArg::Soft => EqPreset::Soft,
        EqPresetArg::Classic => EqPreset::Classic,
    }
}

/// The request a command stands for.
pub open spec fn request_of(command: Commands) -> Request {
    match command {
        Commands::Anc { scene } => Request::SetAncScene(anc_scene_of_arg(scene)),
        Commands::Battery => Request::ReadBattery,
        Commands::Version => Request::ReadVersion,
        Commands::Balance { value } => Request::SetBalance(value),
        Commands::Eq { preset } => Request::SetEqPreset(eq_preset_of_arg(preset)),
        Commands::EqCustom { bands } => Request::SetEqCustom(bands),
        Commands::ResetDefault => Request::ResetDefault,
        Commands::FactoryReset { yes } => Request::FactoryReset { confirmed: yes },
        Commands::Rename { name } => Request::Rename(name),
        Commands::NotificationVolume { level } => Request::SetNotificationVolume(
            volume_of_arg(level),
        ),
        Commands::ScheduledPowerOff { value } => Request::SetScheduledPowerOff(
            match value {
                PowerOffArg::Disabled => ScheduledPowerOff::Disabled,
                PowerOffArg::Minutes(m) => ScheduledPowerOff::Minutes(m),
            },
        ),
        Commands::DisconnectPowerOff { value } => Request::SetDisconnectPowerOff(
            match value {
                PowerOffArg::Disabled => DisconnectPowerOff::Never,
                PowerOffArg::Minutes(m) => DisconnectPowerOff::Minutes(m),
            },
        ),
        Commands::WearDetection { enabled, anc_on_wear } => Request::SetWearDetection(
            WearDetection { wear_detection: enabled, anc_on_wear },
        ),
        Commands::GameMode { state } => Request::SetGameMode(
            match state {
                ToggleArg::On => GameMode::On,
                ToggleArg::Off => GameMode::Off,
            },
        ),
        Commands::SleepMode { state } => Request::SetSleepMode(
            match state {
                ToggleArg::On => SleepMode::On,
                ToggleArg::Off => SleepMode::Off,
            },
        ),
        Commands::Ldac { state } => Request::SetLdac(
            match state {
                ToggleArg::On => Ldac::On,
                ToggleArg::Off => Ldac::Off,
            },
        ),
        Commands::Multipoint { state } => Request::SetMultipoint(
            match state {
                ToggleArg::On => Multipoint::On,
                ToggleArg::Off => Multipoint::Off,
            },
        ),
        Commands::TouchAction { control, action } => Request::SetTouchAction(
            touch_control_of(control),
            touch_action_of(action),
        ),
    }
}

/// The request a command stands for.
pub fn request_for(command: Commands) -> (r: Request)
    ensures
        r == request_of(command),
{
    match command {
        Commands::Anc { scene } => Request::SetAncScene(anc_scene_from_arg(scene)),
        Commands::Battery => Request::ReadBattery,
        Commands::Version => Request::ReadVersion,
        Commands::Balance { value } => Request::SetBalance(value),
        Commands::Eq { preset } => Request::SetEqPreset(eq_preset_from_arg(preset)),
        Commands::EqCustom { bands } => Request::SetEqCustom(bands),
        Commands::ResetDefault => Request::ResetDefault,
        Commands::FactoryReset { yes } => Request::FactoryReset { confirmed: yes },
        Commands::Rename { name } => Request::Rename(name),
        Commands::NotificationVolume { level } => Request::SetNotificationVolume(
            notification_volume_from_arg(level),
        ),
        Commands::ScheduledPowerOff { value } => Request::SetScheduledPowerOff(
            match value {
                PowerOffArg::Disabled => ScheduledPowerOff::Disabled,
                PowerOffArg::Minutes(m) => ScheduledPowerOff::Minutes(m),
            },
        ),
        Commands::DisconnectPowerOff { value } => Request::SetDisconnectPowerOff(
            match value {
                PowerOffArg::Disabled => DisconnectPowerOff::Never,
                PowerOffArg::Minutes(m) => DisconnectPowerOff::Minutes(m),
            },
        ),
        Commands::WearDetection { enabled, anc_on_wear } => Request::SetWearDetection(
            WearDetection { wear_detection: enabled, anc_on_wear },
        ),
        Commands::GameMode { state } => Request::SetGameMode(
            match state {
                ToggleArg::On => GameMode::On,
                ToggleArg::Off => GameMode::Off,
            },
        ),
        Commands::SleepMode { state } => Request::SetSleepMode(
            match state {
                ToggleArg::On => SleepMode::On,
                ToggleArg::Off => SleepMode::Off,
            },
        ),
        Commands::Ldac { state } => Request::SetLdac(
            match state {
                ToggleArg::On => Ldac::On,
                ToggleArg::Off => Ldac::Off,
            },
        ),
        Commands::Multipoint { state } => Request::SetMultipoint(
            match state {
                ToggleArg::On => Multipoint::On,
                ToggleArg::Off => Multipoint::Off,
            },
        ),
        Commands::TouchAction { control, action } => Request::SetTouchAction(
            touch_control_from_arg(control),
            touch_action_from_arg(action),
        ),
    }
}

/// The ASCII lowercase of every character of `s`.
pub open spec fn lower_all(s: Seq<char>) -> Seq<char> {
    Seq::new(s.len(), |i: int| ascii_lower(s[i]))
}

/// The words that disable a timer, in ASCII lowercase.
pub open spec fn is_disabling_word(w: Seq<char>) -> bool {
    ||| w == seq!['o', 'f', 'f']
    ||| w == seq!['n', 'e', 'v', 'e', 'r']
    ||| w == seq!['d', 'i', 's', 'a', 'b', 'l', 'e', 'd']
}

/// How a power-off timer argument reads: a disabling word in any ASCII
/// case, or a minute count in [`MIN_MINUTES`]`..=`[`MAX_MINUTES`] (`0` was
/// never observed on the wire, and `65535` is the "disabled" sentinel of
/// both timers); anything else is refused.
pub open spec fn power_off_arg_of(s: Seq<char>) -> Option<PowerOffArg> {
    if is_disabling_word(lower_all(s)) {
        Some(PowerOffArg::Disabled)
    } else {
        match parse_u16_spec(s) {
            Some(m) => if MIN_MINUTES <= m && m <= MAX_MINUTES {
                Some(PowerOffArg::Minutes(m))
            } else {
                None
            },
            None => None,
        }
    }
}

impl PowerOffArg {
    /// Reads a timer argument; `None` for anything that is neither a
    /// disabling word nor an accepted minute count.
    pub fn parse(s: &str) -> (r: Option<PowerOffArg>)
        ensures
            r == power_off_arg_of(s@),
    {
        let chars = chars_of(s);
        let mut lower: Vec<char> = Vec::new();
        let mut i: usize = 0;
        while i < chars.len()
            invariant
                i <= chars@.len(),
                lower@.len() == i,
                forall|j: int| 0 <= j < i ==> lower@[j] == ascii_lower(#[trigger] chars@[j]),
            decreases chars.len() - i,
        {
            lower.push(char_ascii_lower(chars[i]));
            i = i + 1;
        }
        assert(lower@ == lower_all(s@));
        let off = vec!['o', 'f', 'f'];
        let never = vec!['n', 'e', 'v', 'e', 'r'];
        let disabled = vec!['d', 'i', 's', 'a', 'b', 'l', 'e', 'd'];
        if chars_equal(lower.as_slice(), off.as_slice()) || chars_equal(
            lower.as_slice(),
            never.as_slice(),
        ) || chars_equal(lower.as_slice(), disabled.as_slice()) {
            return Some(PowerOffArg::Disabled);
        }
        match parse_u16(chars.as_slice()) {
            Some(m) => if MIN_MINUTES <= m && m <= MAX_MINUTES {
                Some(PowerOffArg::Minutes(m))
            } else {
                None
            },
            None => None,
        }
    }
}

/// A confirmation answer is a yes when, once trimmed, it starts with `y`
/// or `Y`; anything else, including an empty answer, is a no.
pub open spec fn is_yes(answer: Seq<char>) -> bool {
    let t = trim(answer);
    t.len() > 0 && (t[0] == 'y' || t[0] == 'Y')
}

/// Reads a confirmation answer; a destructive confirmation fails closed.
pub fn is_affirmative(answer: &str) -> (r: bool)
    ensures
        r == is_yes(answer@),
{
    let chars = chars_of(answer);
    let t = trim_chars(chars.as_slice());
    t.len() > 0 && (t[0] == 'y' || t[0] == 'Y')
}

/// A transparency level argument is accepted in the wire-confirmed range.
pub fn transparency_level_accepted(level: u8) -> (r: bool)
    ensures
        r == (AMBIENT_LEVEL_MIN <= level && level <= AMBIENT_LEVEL_MAX),
{
    AMBIENT_LEVEL_MIN <= level && level <= AMBIENT_LEVEL_MAX
}

/// Every toggle command asks for the state its argument names: `on` turns
/// game mode, sleep mode, LDAC and multipoint on, `off` turns them off.
pub proof fn lemma_toggle_commands_carry_their_state()
    ensures
        request_of(Commands::GameMode { state: ToggleArg::On }) == Request::SetGameMode(GameMode::On),
        request_of(Commands::GameMode { state: ToggleArg::Off }) == Request::SetGameMode(GameMode::Off),
        request_of(Commands::SleepMode { state: ToggleArg::On }) == Request::SetSleepMode(SleepMode::On),
        request_of(Commands::SleepMode { state: ToggleArg::Off }) == Request::SetSleepMode(
            SleepMode::Off,
        ),
        request_of(Commands::Ldac { state: ToggleArg::On }) == Request::SetLdac(Ldac::On),
        request_of(Commands::Ldac { state: ToggleArg::Off }) == Request::SetLdac(Ldac::Off),
        request_of(Commands::Multipoint { state: ToggleArg::On }) == Request::SetMultipoint(
            Multipoint::On,
        ),
        request_of(Commands::Multipoint { state: ToggleArg::Off }) == Request::SetMultipoint(
            Multipoint::Off,
        ),
{
}

} // verus!
