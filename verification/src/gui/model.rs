//! Everything the graphical front end shows, as one plain value, and the
//! status notices it displays.

use crate::battery::BatteryStatus;
use crate::command::AncScene;
use crate::disconnect_power_off::DisconnectPowerOff;
use crate::eq::{CUSTOM_BAND_COUNT, EqPreset};
use crate::game_mode::GameMode;
use crate::gui::{AppState, Tab};
use crate::ldac::Ldac;
use crate::multipoint::Multipoint;
use crate::notification_volume::NotificationVolume;
use crate::profile::{Profile, ProfileView};
use crate::scheduled_power_off::ScheduledPowerOff;
use crate::sleep_mode::SleepMode;
use crate::touch_action::TouchActionMap;
use crate::version::{FirmwareVersion, opt_chars};
use crate::wear_detection::WearDetection;
use vstd::prelude::*;

verus! {

/// Which status line a notice is: one per outcome the front end reports.
#[derive(Debug, Clone, Copy, PartialEq, Eq, Structural)]
pub enum NoticeKind {
    AncApplied,
    AncUnconfirmed,
    AncEchoed,
    AncTimeout,
    AncError,
    BalanceError,
    RenameDone,
    RenameError,
    ResetDefaultDone,
    ResetDefaultError,
    FactoryResetDone,
    FactoryResetError,
    EqPresetApplied,
    EqPresetError,
    EqCustomApplied,
    EqCustomError,
    WearDetectionError,
    NotificationVolumeError,
    ScheduledPowerOffError,
    DisconnectPowerOffError,
    GameModeError,
    SleepModeError,
    LdacError,
    MultipointError,
    TouchActionError,
    ProfileApplied,
    ProfileApplyError,
    EqProfileApplied,
    EqProfileApplyError,
    ProfileSaved,
    EqProfileSaved,
    ExportDone,
    ExportError,
    ImportDone,
    EqImportDone,
    ImportError,
}

/// A status line: its kind, and the error text or profile name it quotes
/// (empty when it quotes nothing).
#[derive(Debug, Clone, PartialEq, Eq)]
pub struct Notice {
    pub kind: NoticeKind,
    pub detail: String,
}

pub struct NoticeView {
    pub kind: NoticeKind,
    pub detail: Seq<char>,
}

impl View for Notice {
    type V = NoticeView;

    open spec fn view(&self) -> NoticeView {
        NoticeView { kind: self.kind, detail: self.detail@ }
    }
}

/// The notice `Some(kind, detail)`.
pub open spec fn notice(kind: NoticeKind, detail: Seq<char>) -> Option<NoticeView> {
    Some(NoticeView { kind, detail })
}

pub open spec fn opt_notice(o: Option<Notice>) -> Option<NoticeView> {
    match o {
        Some(n) => Some(n@),
        None => None,
    }
}

/// Builds the notice `Some(kind, detail)`.
pub fn note(kind: NoticeKind, detail: String) -> (r: Option<Notice>)
    ensures
        opt_notice(r) == notice(kind, detail@),
{
    Some(Notice { kind, detail })
}

/// Builds a notice that quotes nothing.
pub fn plain_note(kind: NoticeKind) -> (r: Option<Notice>)
    ensures
        opt_notice(r) == notice(kind, Seq::empty()),
{
    Some(Notice { kind, detail: String::new() })
}

pub open spec fn opt_string(o: Option<String>) -> Option<Seq<char>> {
    match o {
        Some(s) => Some(s@),
        None => None,
    }
}

/// Both earbuds' firmware versions, as text.
pub open spec fn firmware_view(f: Option<FirmwareVersion>) -> Option<
    (Option<Seq<char>>, Option<Seq<char>>),
> {
    match f {
        Some(v) => Some((opt_chars(v.left), opt_chars(v.right))),
        None => None,
    }
}

pub open spec fn profile_views(v: Seq<Profile>) -> Seq<ProfileView> {
    v.map_values(|p: Profile| p@)
}

/// The front end's whole state.
pub struct GuiModel {
    pub state: AppState,
    pub tab: Tab,
    /// The name of the UI theme, such as `"Nord"`.
    pub theme: String,
    pub error_log: Option<String>,
    /// Last successfully read battery status.
    pub battery: Option<BatteryStatus>,
    /// Error from the most recent battery read.
    pub battery_error: Option<String>,
    /// Last read signal strength, in dBm.
    pub rssi: Option<i16>,
    /// The device's advertised name.
    pub device_name: Option<String>,
    pub firmware_version: Option<FirmwareVersion>,
    /// The ANC scene the device confirmed.
    pub active_scene: Option<AncScene>,
    /// The ANC scene being requested.
    pub pending_scene: Option<AncScene>,
    /// The transparency slider's value.
    pub transparency_level: u8,
    /// The selected built-in preset; `None` while a custom curve is active.
    pub eq_preset: Option<EqPreset>,
    pub eq_status: Option<Notice>,
    /// Custom per-band gains in dB.
    pub eq_custom_bands: [i16; CUSTOM_BAND_COUNT],
    /// Channel balance, `50` centered.
    pub balance: u8,
    pub rename_input: String,
    pub rename_status: Option<Notice>,
    /// Whether the name field is unlocked for editing.
    pub rename_editing: bool,
    /// Armed by a first press of "reset to default".
    pub reset_default_armed: bool,
    pub reset_default_status: Option<Notice>,
    /// Armed by a first press of "factory reset".
    pub factory_reset_armed: bool,
    pub factory_reset_status: Option<Notice>,
    pub wear_detection: Option<WearDetection>,
    pub wear_detection_status: Option<Notice>,
    pub notification_volume: Option<NotificationVolume>,
    pub notification_volume_status: Option<Notice>,
    pub scheduled_power_off: Option<ScheduledPowerOff>,
    pub scheduled_power_off_status: Option<Notice>,
    /// The custom power-off minutes field.
    pub scheduled_power_off_custom_input: String,
    pub disconnect_power_off: Option<DisconnectPowerOff>,
    pub disconnect_power_off_status: Option<Notice>,
    pub game_mode: Option<GameMode>,
    pub game_mode_status: Option<Notice>,
    pub sleep_mode: Option<SleepMode>,
    pub sleep_mode_status: Option<Notice>,
    pub ldac: Option<Ldac>,
    pub ldac_status: Option<Notice>,
    pub multipoint: Option<Multipoint>,
    pub multipoint_status: Option<Notice>,
    pub touch_actions: Option<TouchActionMap>,
    pub touch_actions_status: Option<Notice>,
    pub status_log: Option<Notice>,
    /// The UI language's id, such as `"en"`.
    pub language: String,
    /// Name of the profile last applied.
    pub active_profile: Option<String>,
    /// Saved full-device profiles.
    pub profiles: Vec<Profile>,
    pub profiles_status: Option<Notice>,
    pub new_profile_name: String,
    /// Saved EQ-only profiles.
    pub eq_profiles: Vec<Profile>,
    pub eq_profiles_status: Option<Notice>,
    pub new_eq_profile_name: String,
}

/// What a [`GuiModel`] holds, as plain values.
pub struct GuiView {
    pub state: AppState,
    pub tab: Tab,
    pub theme: Seq<char>,
    pub error_log: Option<Seq<char>>,
    pub battery: Option<BatteryStatus>,
    pub battery_error: Option<Seq<char>>,
    pub rssi: Option<i16>,
    pub device_name: Option<Seq<char>>,
    pub firmware_version: Option<(Option<Seq<char>>, Option<Seq<char>>)>,
    pub active_scene: Option<AncScene>,
    pub pending_scene: Option<AncScene>,
    pub transparency_level: u8,
    pub eq_preset: Option<EqPreset>,
    pub eq_status: Option<NoticeView>,
    pub eq_custom_bands: Seq<i16>,
    pub balance: u8,
    pub rename_input: Seq<char>,
    pub rename_status: Option<NoticeView>,
    pub rename_editing: bool,
    pub reset_default_armed: bool,
    pub reset_default_status: Option<NoticeView>,
    pub factory_reset_armed: bool,
    pub factory_reset_status: Option<NoticeView>,
    pub wear_detection: Option<WearDetection>,
    pub wear_detection_status: Option<NoticeView>,
    pub notification_volume: Option<NotificationVolume>,
    pub notification_volume_status: Option<NoticeView>,
    pub scheduled_power_off: Option<ScheduledPowerOff>,
    pub scheduled_power_off_status: Option<NoticeView>,
    pub scheduled_power_off_custom_input: Seq<char>,
    pub disconnect_power_off: Option<DisconnectPowerOff>,
    pub disconnect_power_off_status: Option<NoticeView>,
    pub game_mode: Option<GameMode>,
    pub game_mode_status: Option<NoticeView>,
    pub sleep_mode: Option<SleepMode>,
    pub sleep_mode_status: Option<NoticeView>,
    pub ldac: Option<Ldac>,
    pub ldac_status: Option<NoticeView>,
    pub multipoint: Option<Multipoint>,
    pub multipoint_status: Option<NoticeView>,
    pub touch_actions: Option<TouchActionMap>,
    pub touch_actions_status: Option<NoticeView>,
    pub status_log: Option<NoticeView>,
    pub language: Seq<char>,
    pub active_profile: Option<Seq<char>>,
    pub profiles: Seq<ProfileView>,
    pub profiles_status: Option<NoticeView>,
    pub new_profile_name: Seq<char>,
    pub eq_profiles: Seq<ProfileView>,
    pub eq_profiles_status: Option<NoticeView>,
    pub new_eq_profile_name: Seq<char>,
}

impl View for GuiModel {
    type V = GuiView;

    open spec fn view(&self) -> GuiView {
        GuiView {
            state: self.state,
            tab: self.tab,
            theme: self.theme@,
            error_log: opt_string(self.error_log),
            battery: self.battery,
            battery_error: opt_string(self.battery_error),
            rssi: self.rssi,
            device_name: opt_string(self.device_name),
            firmware_version: firmware_view(self.firmware_version),
            active_scene: self.active_scene,
            pending_scene: self.pending_scene,
            transparency_level: self.transparency_level,
            eq_preset: self.eq_preset,
            eq_status: opt_notice(self.eq_status),
            eq_custom_bands: self.eq_custom_bands@,
            balance: self.balance,
            rename_input: self.rename_input@,
            rename_status: opt_notice(self.rename_status),
            rename_editing: self.rename_editing,
            reset_default_armed: self.reset_default_armed,
            reset_default_status: opt_notice(self.reset_default_status),
            factory_reset_armed: self.factory_reset_armed,
            factory_reset_status: opt_notice(self.factory_reset_status),
            wear_detection: self.wear_detection,
            wear_detection_status: opt_notice(self.wear_detection_status),
            notification_volume: self.notification_volume,
            notification_volume_status: opt_notice(self.notification_volume_status),
            scheduled_power_off: self.scheduled_power_off,
            scheduled_power_off_status: opt_notice(self.scheduled_power_off_status),
            scheduled_power_off_custom_input: self.scheduled_power_off_custom_input@,
            disconnect_power_off: self.disconnect_power_off,
            disconnect_power_off_status: opt_notice(self.disconnect_power_off_status),
            game_mode: self.game_mode,
            game_mode_status: opt_notice(self.game_mode_status),
            sleep_mode: self.sleep_mode,
            sleep_mode_status: opt_notice(self.sleep_mode_status),
            ldac: self.ldac,
            ldac_status: opt_notice(self.ldac_status),
            multipoint: self.multipoint,
            multipoint_status: opt_notice(self.multipoint_status),
            touch_actions: self.touch_actions,
            touch_actions_status: opt_notice(self.touch_actions_status),
            status_log: opt_notice(self.status_log),
            language: self.language@,
            active_profile: opt_string(self.active_profile),
            profiles: profile_views(self.profiles@),
            profiles_status: opt_notice(self.profiles_status),
            new_profile_name: self.new_profile_name@,
            eq_profiles: profile_views(self.eq_profiles@),
            eq_profiles_status: opt_notice(self.eq_profiles_status),
            new_eq_profile_name: self.new_eq_profile_name@,
        }
    }
}

/// The state at start-up: connecting, the Nord theme, nothing read yet,
/// balance centered, transparency at level 1, a flat custom curve, no saved
/// profiles.
pub open spec fn initial_view() -> GuiView {
    GuiView {
        state: AppState::Connecting,
        tab: Tab::Home,
        theme: "Nord"@,
        error_log: None,
        battery: None,
        battery_error: None,
        rssi: None,
        device_name: None,
        firmware_version: None,
        active_scene: None,
        pending_scene: None,
        transparency_level: 1,
        eq_preset: None,
        eq_status: None,
        eq_custom_bands: Seq::new(CUSTOM_BAND_COUNT as nat, |i: int| 0i16),
        balance: 50,
        rename_input: Seq::empty(),
        rename_status: None,
        rename_editing: false,
        reset_default_armed: false,
        reset_default_status: None,
        factory_reset_armed: false,
        factory_reset_status: None,
        wear_detection: None,
        wear_detection_status: None,
        notification_volume: None,
        notification_volume_status: None,
        scheduled_power_off: None,
        scheduled_power_off_status: None,
        scheduled_power_off_custom_input: Seq::empty(),
        disconnect_power_off: None,
        disconnect_power_off_status: None,
        game_mode: None,
        game_mode_status: None,
        sleep_mode: None,
        sleep_mode_status: None,
        ldac: None,
        ldac_status: None,
        multipoint: None,
        multipoint_status: None,
        touch_actions: None,
        touch_actions_status: None,
        status_log: None,
        language: Seq::empty(),
        active_profile: None,
        profiles: Seq::empty(),
        profiles_status: None,
        new_profile_name: Seq::empty(),
        eq_profiles: Seq::empty(),
        eq_profiles_status: None,
        new_eq_profile_name: Seq::empty(),
    }
}

impl GuiModel {
    /// The battery reading is stale when the last read failed but an older
    /// reading is still shown.
    pub fn battery_stale(&self) -> (r: bool)
        ensures
            r == (self.battery_error is Some && self.battery is Some),
    {
        self.battery_error.is_some() && self.battery.is_some()
    }
}

impl Default for GuiModel {
    fn default() -> (m: Self)
        ensures
            m@ == initial_view(),
    {
        let m = GuiModel {
            state: AppState::Connecting,
            tab: Tab::Home,
            theme: "Nord".to_owned(),
            error_log: None,
            battery: None,
            battery_error: None,
            rssi: None,
            device_name: None,
            firmware_version: None,
            active_scene: None,
            pending_scene: None,
            transparency_level: 1,
            eq_preset: None,
            eq_status: None,
            eq_custom_bands: [0; CUSTOM_BAND_COUNT],
            balance: 50,
            rename_input: String::new(),
            rename_status: None,
            rename_editing: false,
            reset_default_armed: false,
            reset_default_status: None,
            factory_reset_armed: false,
            factory_reset_status: None,
            wear_detection: None,
            wear_detection_status: None,
            notification_volume: None,
            notification_volume_status: None,
            scheduled_power_off: None,
            scheduled_power_off_status: None,
            scheduled_power_off_custom_input: String::new(),
            disconnect_power_off: None,
            disconnect_power_off_status: None,
            game_mode: None,
            game_mode_status: None,
            sleep_mode: None,
            sleep_mode_status: None,
            ldac: None,
            ldac_status: None,
            multipoint: None,
            multipoint_status: None,
            touch_actions: None,
            touch_actions_status: None,
            status_log: None,
            language: String::new(),
            active_profile: None,
            profiles: Vec::new(),
            profiles_status: None,
            new_profile_name: String::new(),
            eq_profiles: Vec::new(),
            eq_profiles_status: None,
            new_eq_profile_name: String::new(),
        };
        assert(m.eq_custom_bands@ =~= Seq::new(CUSTOM_BAND_COUNT as nat, |i: int| 0i16));
        assert(profile_views(m.profiles@) =~= Seq::empty());
        assert(profile_views(m.eq_profiles@) =~= Seq::empty());
        m
    }
}

} // verus!
