//! What reaches the front end's state machine ([`Message`]), and the outside
//! work it asks for in return ([`Effect`]).

use crate::battery::BatteryStatus;
use crate::client::AncConfirmation;
use crate::command::AncScene;
use crate::disconnect_power_off::DisconnectPowerOff;
use crate::eq::{CUSTOM_BAND_COUNT, EqPreset};
use crate::game_mode::GameMode;
use crate::gui::{ProfileScope, Tab};
use crate::ldac::Ldac;
use crate::multipoint::Multipoint;
use crate::notification_volume::NotificationVolume;
use crate::profile::{Profile, ProfileView};
use crate::scheduled_power_off::ScheduledPowerOff;
use crate::session::ConnectionInfo;
use crate::sleep_mode::SleepMode;
use crate::touch_action::{TouchAction, TouchControl};
use crate::wear_detection::WearDetection;
use vstd::prelude::*;

verus! {

/// A user action, or the outcome of outside work the front end performed.
#[derive(Debug)]
pub enum Message {
    /// The persistent session connected.
    Connected(ConnectionInfo),
    /// Result of a battery read.
    BatteryResult(Result<BatteryStatus, String>),
    /// Result of a signal-strength read.
    RssiResult(Result<Option<i16>, String>),
    /// The persistent connection was lost.
    Disconnected,
    /// Connecting failed for good.
    ConnectionError(String),
    /// Try connecting again.
    Retry,
    /// Request an ANC scene.
    SetAnc(AncScene),
    AncResult(AncScene, Result<AncConfirmation, String>),
    TabSelected(Tab),
    /// A UI theme picked, by name.
    ThemeSelected(String),
    /// Balance slider dragged.
    BalanceChanged(u8),
    /// Balance slider released: write it.
    BalanceCommit(u8),
    BalanceResult(Result<(), String>),
    RenameInputChanged(String),
    /// Unlocks the name field; pressed while editing, submits it.
    RenameEditToggled,
    /// Discards the typed name and locks the field.
    RenameEditCancelled,
    RenameResult(Result<(), String>),
    /// Arms on a first press, resets on the second.
    ResetDefaultPressed,
    ResetDefaultResult(Result<(), String>),
    /// Arms on a first press, resets on the second.
    FactoryResetPressed,
    FactoryResetResult(Result<(), String>),
    /// Transparency slider dragged.
    TransparencyLevelChanged(u8),
    SetEqPreset(EqPreset),
    EqPresetResult(EqPreset, Result<(), String>),
    /// A custom band's slider dragged, by band index.
    EqCustomBandChanged(usize, i16),
    /// A custom band's slider released: write the whole curve.
    EqCustomBandCommit(usize, i16),
    /// Flatten the custom curve and write it.
    EqCustomReset,
    EqCustomResult(Result<(), String>),
    /// The in-ear detection toggle flipped.
    WearDetectionToggled(bool),
    WearDetectionResult(WearDetection, Result<(), String>),
    SetNotificationVolume(NotificationVolume),
    NotificationVolumeResult(NotificationVolume, Result<(), String>),
    SetScheduledPowerOff(ScheduledPowerOff),
    ScheduledPowerOffResult(ScheduledPowerOff, Result<(), String>),
    ScheduledPowerOffCustomInputChanged(String),
    ScheduledPowerOffCustomSubmit,
    SetDisconnectPowerOff(DisconnectPowerOff),
    DisconnectPowerOffResult(DisconnectPowerOff, Result<(), String>),
    SetGameMode(GameMode),
    GameModeResult(GameMode, Result<(), String>),
    SetSleepMode(SleepMode),
    SleepModeResult(SleepMode, Result<(), String>),
    SetLdac(Ldac),
    LdacResult(Ldac, Result<(), String>),
    SetMultipoint(Multipoint),
    MultipointResult(Multipoint, Result<(), String>),
    SetTouchAction(TouchControl, TouchAction),
    TouchActionResult(TouchControl, TouchAction, Result<(), String>),
    /// A UI language picked, by id.
    LanguageSelected(String),
    /// The picked language was loaded.
    LanguageApplied(String),
    /// Apply a profile to the device.
    ApplyProfile(ProfileScope, Profile),
    /// Outcome of applying the named profile.
    ApplyProfileResult(ProfileScope, String, Result<(), String>),
    NewProfileNameChanged(ProfileScope, String),
    /// Save the live settings under the typed name.
    SaveCurrentAsProfile(ProfileScope),
    /// Delete a saved profile by name.
    DeleteProfile(ProfileScope, String),
    ExportProfile(ProfileScope, Profile),
    /// `Ok(false)`: the save dialog was cancelled.
    ExportProfileResult(ProfileScope, Result<bool, String>),
    ImportProfile(ProfileScope),
    /// `Ok(None)`: the open dialog was cancelled.
    ImportProfileResult(ProfileScope, Result<Option<Profile>, String>),
    /// Clears the active-profile indicator.
    ClearActiveProfile,
}

/// The outside work a message asks for; each write's outcome comes back as
/// the matching result message.
#[derive(Debug, Clone)]
pub enum Effect {
    Nothing,
    SetAnc(AncScene),
    SetBalance(u8),
    SetName(String),
    ResetDefault,
    FactoryReset,
    SetEqPreset(EqPreset),
    SetEqCustom([i16; CUSTOM_BAND_COUNT]),
    SetWearDetection(WearDetection),
    SetNotificationVolume(NotificationVolume),
    SetScheduledPowerOff(ScheduledPowerOff),
    SetDisconnectPowerOff(DisconnectPowerOff),
    SetGameMode(GameMode),
    SetSleepMode(SleepMode),
    SetLdac(Ldac),
    SetMultipoint(Multipoint),
    SetTouchAction(TouchControl, TouchAction),
    /// Load the language with this id.
    ApplyLanguage(String),
    /// Persist the language choice.
    SaveLanguage(String),
    /// Persist the theme choice.
    SaveTheme(String),
    /// Write the profile's settings, in the order [`profile_writes`] gives.
    ApplyProfile(ProfileScope, Profile),
    /// Persist the scope's saved-profile list.
    SaveProfiles(ProfileScope),
    /// Ask for a file and write the profile to it.
    ExportProfile(ProfileScope, Profile),
    /// Ask for a file and read a profile from it.
    ImportProfile(ProfileScope),
}

pub enum EffectView {
    Nothing,
    SetAnc(AncScene),
    SetBalance(u8),
    SetName(Seq<char>),
    ResetDefault,
    FactoryReset,
    SetEqPreset(EqPreset),
    SetEqCustom(Seq<i16>),
    SetWearDetection(WearDetection),
    SetNotificationVolume(NotificationVolume),
    SetScheduledPowerOff(ScheduledPowerOff),
    SetDisconnectPowerOff(DisconnectPowerOff),
    SetGameMode(GameMode),
    SetSleepMode(SleepMode),
    SetLdac(Ldac),
    SetMultipoint(Multipoint),
    SetTouchAction(TouchControl, TouchAction),
    ApplyLanguage(Seq<char>),
    SaveLanguage(Seq<char>),
    SaveTheme(Seq<char>),
    ApplyProfile(ProfileScope, ProfileView),
    SaveProfiles(ProfileScope),
    ExportProfile(ProfileScope, ProfileView),
    ImportProfile(ProfileScope),
}

impl View for Effect {
    type V = EffectView;

    open spec fn view(&self) -> EffectView {
        match self {
            Effect::Nothing => EffectView::Nothing,
            Effect::SetAnc(s) => EffectView::SetAnc(*s),
            Effect::SetBalance(b) => EffectView::SetBalance(*b),
            Effect::SetName(n) => EffectView::SetName(n@),
            Effect::ResetDefault => EffectView::ResetDefault,
            Effect::FactoryReset => EffectView::FactoryReset,
            Effect::SetEqPreset(p) => EffectView::SetEqPreset(*p),
            Effect::SetEqCustom(g) => EffectView::SetEqCustom(g@),
            Effect::SetWearDetection(w) => EffectView::SetWearDetection(*w),
            Effect::SetNotificationVolume(v) => EffectView::SetNotificationVolume(*v),
            Effect::SetScheduledPowerOff(v) => EffectView::SetScheduledPowerOff(*v),
            Effect::SetDisconnectPowerOff(v) => EffectView::SetDisconnectPowerOff(*v),
            Effect::SetGameMode(v) => EffectView::SetGameMode(*v),
            Effect::SetSleepMode(v) => EffectView::SetSleepMode(*v),
            Effect::SetLdac(v) => EffectView::SetLdac(*v),
            Effect::SetMultipoint(v) => EffectView::SetMultipoint(*v),
            Effect::SetTouchAction(c, a) => EffectView::SetTouchAction(*c, *a),
            Effect::ApplyLanguage(l) => EffectView::ApplyLanguage(l@),
            Effect::SaveLanguage(l) => EffectView::SaveLanguage(l@),
            Effect::SaveTheme(t) => EffectView::SaveTheme(t@),
            Effect::ApplyProfile(s, p) => EffectView::ApplyProfile(*s, p@),
            Effect::SaveProfiles(s) => EffectView::SaveProfiles(*s),
            Effect::ExportProfile(s, p) => EffectView::ExportProfile(*s, p@),
            Effect::ImportProfile(s) => EffectView::ImportProfile(*s),
        }
    }
}

/// One device write that applying a profile makes.
#[derive(Debug, Clone, Copy)]
pub enum ProfileWrite {
    Anc(AncScene),
    EqCustom([i16; CUSTOM_BAND_COUNT]),
    EqPreset(EqPreset),
    Balance(u8),
    NotificationVolume(NotificationVolume),
    GameMode(GameMode),
}

/// The writes that apply `p`, in order: ANC scene, then the custom curve or
/// else the preset, then balance, notification volume and game mode. A
/// setting the profile leaves `None` is not written.
pub open spec fn writes_of(p: Profile) -> Seq<ProfileWrite> {
    let anc = match p.anc_scene {
        Some(s) => seq![ProfileWrite::Anc(s)],
        None => Seq::empty(),
    };
    let eq = match p.eq_custom {
        Some(g) => seq![ProfileWrite::EqCustom(g)],
        None => match p.eq_preset {
            Some(e) => seq![ProfileWrite::EqPreset(e)],
            None => Seq::empty(),
        },
    };
    let balance = match p.balance {
        Some(b) => seq![ProfileWrite::Balance(b)],
        None => Seq::empty(),
    };
    let volume = match p.notification_volume {
        Some(v) => seq![ProfileWrite::NotificationVolume(v)],
        None => Seq::empty(),
    };
    let game = match p.game_mode {
        Some(g) => seq![ProfileWrite::GameMode(g)],
        None => Seq::empty(),
    };
    anc + eq + balance + volume + game
}

/// The device writes applying `p` takes; the front end performs them in
/// order and stops at the first that fails.
pub fn profile_writes(p: &Profile) -> (v: Vec<ProfileWrite>)
    ensures
        v@ == writes_of(*p),
{
    let mut v: Vec<ProfileWrite> = Vec::new();
    if let Some(s) = p.anc_scene {
        v.push(ProfileWrite::Anc(s));
    }
    let ghost after_anc = v@;
    if let Some(g) = p.eq_custom {
        v.push(ProfileWrite::EqCustom(g));
    } else if let Some(e) = p.eq_preset {
        v.push(ProfileWrite::EqPreset(e));
    }
    let ghost after_eq = v@;
    if let Some(b) = p.balance {
        v.push(ProfileWrite::Balance(b));
    }
    let ghost after_balance = v@;
    if let Some(n) = p.notification_volume {
        v.push(ProfileWrite::NotificationVolume(n));
    }
    let ghost after_volume = v@;
    if let Some(g) = p.game_mode {
        v.push(ProfileWrite::GameMode(g));
    }
    proof {
        let w = writes_of(*p);
        assert(after_anc == (match p.anc_scene {
            Some(s) => seq![ProfileWrite::Anc(s)],
            None => Seq::<ProfileWrite>::empty(),
        }));
        assert(v@ =~= w);
    }
    v
}

} // verus!
