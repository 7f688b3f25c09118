//! What each message does to the front end's state, and which outside work
//! it asks for: the specification that [`crate::gui::update`] implements.

use crate::client::AncConfirmation;
use crate::command::{AncScene, TransparencyMode};
use crate::eq::CUSTOM_BAND_COUNT;
use crate::gui::message::{EffectView, Message};
use crate::gui::model::{
    GuiView, NoticeKind, NoticeView, firmware_view, initial_view, notice, opt_string,
};
use crate::gui::{AppState, ProfileScope, custom_minutes_of, minutes_input_of};
use crate::profile::ProfileView;
use crate::scheduled_power_off::ScheduledPowerOff;
use crate::session::ConnectionInfo;
use crate::text::trim;
use crate::touch_action::with_slot;
use crate::wear_detection::WearDetection;
use vstd::prelude::*;

verus! {

/// The profiles of `ps` not named `name`, in their order.
pub open spec fn without_name(ps: Seq<ProfileView>, name: Seq<char>) -> Seq<ProfileView>
    decreases ps.len(),
{
    if ps.len() == 0 {
        ps
    } else if ps[0].name == name {
        without_name(ps.drop_first(), name)
    } else {
        seq![ps[0]] + without_name(ps.drop_first(), name)
    }
}

/// `ps` with `p` saved: a profile of the same name is replaced, and `p`
/// comes last.
pub open spec fn saved(ps: Seq<ProfileView>, p: ProfileView) -> Seq<ProfileView> {
    without_name(ps, p.name).push(p)
}

/// A status after a write's outcome: unchanged on success, the error
/// quoted on failure.
pub open spec fn status_after(
    status: Option<NoticeView>,
    r: Result<(), String>,
    error: NoticeKind,
) -> Option<NoticeView> {
    match r {
        Ok(_) => status,
        Err(e) => notice(error, e@),
    }
}

/// A status that reports either outcome of a write.
pub open spec fn done_or_error(
    r: Result<(), String>,
    done: NoticeKind,
    error: NoticeKind,
) -> Option<NoticeView> {
    match r {
        Ok(_) => notice(done, Seq::empty()),
        Err(e) => notice(error, e@),
    }
}

/// The ambient level a scene carries, else `current`.
pub open spec fn ambient_level_or(scene: AncScene, current: u8) -> u8 {
    match scene {
        AncScene::Transparency(TransparencyMode::AmbientSound { level }) => level,
        _ => current,
    }
}

/// `bands` with band `band` set to `value`; unchanged for an index past
/// the last band.
pub open spec fn set_band(bands: Seq<i16>, band: usize, value: i16) -> Seq<i16> {
    if band < bands.len() {
        bands.update(band as int, value)
    } else {
        bands
    }
}

/// The flat custom curve.
pub open spec fn flat_curve() -> Seq<i16> {
    Seq::new(CUSTOM_BAND_COUNT as nat, |i: int| 0i16)
}

/// `s` with the scope's profile status set.
pub open spec fn with_scope_status(
    s: GuiView,
    scope: ProfileScope,
    status: Option<NoticeView>,
) -> GuiView {
    match scope {
        ProfileScope::Full => GuiView { profiles_status: status, ..s },
        ProfileScope::Eq => GuiView { eq_profiles_status: status, ..s },
    }
}

/// The custom curve a snapshot records: the live curve while no preset is
/// selected.
pub open spec fn snapshot_curve(s: GuiView) -> Option<Seq<i16>> {
    if s.eq_preset is None {
        Some(s.eq_custom_bands)
    } else {
        None
    }
}

pub open spec fn connected(s: GuiView, info: ConnectionInfo) -> GuiView {
    GuiView {
        state: AppState::Connected,
        error_log: None,
        active_scene: info.initial_anc_scene,
        transparency_level: match info.initial_anc_scene {
            Some(scene) => ambient_level_or(scene, s.transparency_level),
            None => s.transparency_level,
        },
        balance: match info.initial_balance {
            Some(b) => b,
            None => 50,
        },
        rename_input: match opt_string(info.device_name) {
            Some(n) => n,
            None => Seq::empty(),
        },
        rename_editing: false,
        device_name: opt_string(info.device_name),
        firmware_version: firmware_view(info.firmware_version),
        wear_detection: info.initial_wear_detection,
        notification_volume: info.initial_notification_volume,
        scheduled_power_off: info.initial_scheduled_power_off,
        disconnect_power_off: info.initial_disconnect_power_off,
        game_mode: info.initial_game_mode,
        sleep_mode: info.initial_sleep_mode,
        ldac: info.initial_ldac,
        multipoint: info.initial_multipoint,
        touch_actions: info.initial_touch_actions,
        ..s
    }
}

pub open spec fn disconnected(s: GuiView) -> GuiView {
    GuiView {
        state: AppState::Connecting,
        battery: None,
        battery_error: None,
        rssi: None,
        device_name: None,
        firmware_version: None,
        active_scene: None,
        pending_scene: None,
        transparency_level: 1,
        eq_preset: None,
        eq_status: None,
        balance: 50,
        rename_input: Seq::empty(),
        rename_status: None,
        rename_editing: false,
        reset_default_armed: false,
        reset_default_status: None,
        factory_reset_armed: false,
        factory_reset_status: None,
        wear_detection: None,
        wear_detection_status: None,
        notification_volume: None,
        notification_volume_status: None,
        scheduled_power_off: None,
        scheduled_power_off_status: None,
        scheduled_power_off_custom_input: Seq::empty(),
        disconnect_power_off: None,
        disconnect_power_off_status: None,
        game_mode: None,
        game_mode_status: None,
        sleep_mode: None,
        sleep_mode_status: None,
        ldac: None,
        ldac_status: None,
        multipoint: None,
        multipoint_status: None,
        touch_actions: None,
        touch_actions_status: None,
        status_log: None,
        active_profile: None,
        profiles_status: None,
        eq_profiles_status: None,
        ..s
    }
}

pub open spec fn anc_result(
    s: GuiView,
    scene: AncScene,
    r: Result<AncConfirmation, String>,
) -> GuiView {
    let s = GuiView { pending_scene: None, ..s };
    match r {
        Ok(AncConfirmation::Applied) => GuiView {
            active_scene: Some(scene),
            status_log: notice(NoticeKind::AncApplied, Seq::empty()),
            ..s
        },
        Ok(AncConfirmation::Rejected) => GuiView {
            status_log: notice(NoticeKind::AncUnconfirmed, Seq::empty()),
            ..s
        },
        Ok(AncConfirmation::EchoedOnly) => GuiView {
            active_scene: Some(scene),
            status_log: notice(NoticeKind::AncEchoed, Seq::empty()),
            ..s
        },
        Ok(AncConfirmation::NoResponse) => GuiView {
            status_log: notice(NoticeKind::AncTimeout, Seq::empty()),
            ..s
        },
        Err(e) => GuiView { status_log: notice(NoticeKind::AncError, e@), ..s },
    }
}

/// Applying a profile's ANC scene locally.
pub open spec fn scene_applied(s: GuiView, p: ProfileView) -> GuiView {
    match p.anc_scene {
        Some(scene) => GuiView {
            active_scene: Some(scene),
            pending_scene: None,
            transparency_level: ambient_level_or(scene, s.transparency_level),
            ..s
        },
        None => s,
    }
}

/// Applying a profile's EQ locally: its custom curve, else its preset.
pub open spec fn eq_applied(s: GuiView, p: ProfileView) -> GuiView {
    match p.eq_custom {
        Some(g) => GuiView { eq_custom_bands: g, eq_preset: None, ..s },
        None => match p.eq_preset {
            Some(e) => GuiView { eq_preset: Some(e), ..s },
            None => s,
        },
    }
}

/// Applying a profile's balance, notification volume and game mode locally.
pub open spec fn rest_applied(s: GuiView, p: ProfileView) -> GuiView {
    GuiView {
        balance: match p.balance {
            Some(b) => b,
            None => s.balance,
        },
        notification_volume: match p.notification_volume {
            Some(v) => Some(v),
            None => s.notification_volume,
        },
        game_mode: match p.game_mode {
            Some(g) => Some(g),
            None => s.game_mode,
        },
        ..s
    }
}

/// What applying a profile changes locally, before the device confirms.
pub open spec fn applied_locally(s: GuiView, scope: ProfileScope, p: ProfileView) -> GuiView {
    with_scope_status(rest_applied(eq_applied(scene_applied(s, p), p), p), scope, None)
}

pub open spec fn apply_result(
    s: GuiView,
    scope: ProfileScope,
    name: Seq<char>,
    r: Result<(), String>,
) -> GuiView {
    match (scope, r) {
        (ProfileScope::Full, Ok(_)) => GuiView {
            active_profile: Some(name),
            profiles_status: notice(NoticeKind::ProfileApplied, Seq::empty()),
            ..s
        },
        (ProfileScope::Full, Err(e)) => GuiView {
            profiles_status: notice(NoticeKind::ProfileApplyError, e@),
            ..s
        },
        (ProfileScope::Eq, Ok(_)) => GuiView {
            eq_profiles_status: notice(NoticeKind::EqProfileApplied, Seq::empty()),
            ..s
        },
        (ProfileScope::Eq, Err(e)) => GuiView {
            eq_profiles_status: notice(NoticeKind::EqProfileApplyError, e@),
            ..s
        },
    }
}

/// The snapshot "save current settings" takes under `name`.
pub open spec fn snapshot(s: GuiView, scope: ProfileScope, name: Seq<char>) -> ProfileView {
    match scope {
        ProfileScope::Full => ProfileView {
            name,
            anc_scene: s.active_scene,
            eq_preset: s.eq_preset,
            eq_custom: snapshot_curve(s),
            balance: Some(s.balance),
            notification_volume: s.notification_volume,
            game_mode: s.game_mode,
            built_in: false,
        },
        ProfileScope::Eq => ProfileView {
            name,
            anc_scene: None,
            eq_preset: s.eq_preset,
            eq_custom: snapshot_curve(s),
            balance: None,
            notification_volume: None,
            game_mode: None,
            built_in: false,
        },
    }
}

pub open spec fn save_current(s: GuiView, scope: ProfileScope) -> (GuiView, EffectView) {
    match scope {
        ProfileScope::Full => {
            let name = trim(s.new_profile_name);
            if name.len() == 0 {
                (s, EffectView::Nothing)
            } else {
                (
                    GuiView {
                        profiles: saved(s.profiles, snapshot(s, scope, name)),
                        new_profile_name: Seq::empty(),
                        profiles_status: notice(NoticeKind::ProfileSaved, name),
                        ..s
                    },
                    EffectView::SaveProfiles(scope),
                )
            }
        },
        ProfileScope::Eq => {
            let name = trim(s.new_eq_profile_name);
            if name.len() == 0 {
                (s, EffectView::Nothing)
            } else {
                (
                    GuiView {
                        eq_profiles: saved(s.eq_profiles, snapshot(s, scope, name)),
                        new_eq_profile_name: Seq::empty(),
                        eq_profiles_status: notice(NoticeKind::EqProfileSaved, name),
                        ..s
                    },
                    EffectView::SaveProfiles(scope),
                )
            }
        },
    }
}

pub open spec fn delete_profile(s: GuiView, scope: ProfileScope, name: Seq<char>) -> GuiView {
    match scope {
        ProfileScope::Full => GuiView {
            profiles: without_name(s.profiles, name),
            active_profile: if s.active_profile == Some(name) {
                None
            } else {
                s.active_profile
            },
            ..s
        },
        ProfileScope::Eq => GuiView { eq_profiles: without_name(s.eq_profiles, name), ..s },
    }
}

pub open spec fn import_profile(s: GuiView, scope: ProfileScope, p: ProfileView) -> GuiView {
    match scope {
        ProfileScope::Full => GuiView {
            profiles: saved(s.profiles, p),
            profiles_status: notice(NoticeKind::ImportDone, p.name),
            ..s
        },
        ProfileScope::Eq => GuiView {
            eq_profiles: saved(s.eq_profiles, p),
            eq_profiles_status: notice(NoticeKind::EqImportDone, p.name),
            ..s
        },
    }
}

/// The state after `m`, and the outside work it asks for.
pub open spec fn step(s: GuiView, m: Message) -> (GuiView, EffectView) {
    match m {
        Message::Connected(info) => (connected(s, info), EffectView::Nothing),
        Message::BatteryResult(r) => (
            match r {
                Ok(b) => GuiView { battery: Some(b), battery_error: None, ..s },
                Err(e) => GuiView { battery_error: Some(e@), ..s },
            },
            EffectView::Nothing,
        ),
        Message::RssiResult(r) => (
            GuiView {
                rssi: match r {
                    Ok(v) => v,
                    Err(_) => None,
                },
                ..s
            },
            EffectView::Nothing,
        ),
        Message::Disconnected => (disconnected(s), EffectView::Nothing),
        Message::ConnectionError(e) => (
            GuiView { state: AppState::Error, error_log: Some(e@), ..s },
            EffectView::Nothing,
        ),
        Message::Retry => (
            GuiView { state: AppState::Connecting, error_log: None, ..s },
            EffectView::Nothing,
        ),
        Message::SetAnc(scene) => if s.pending_scene is Some {
            (s, EffectView::Nothing)
        } else {
            (
                GuiView { pending_scene: Some(scene), status_log: None, ..s },
                EffectView::SetAnc(scene),
            )
        },
        Message::AncResult(scene, r) => (anc_result(s, scene, r), EffectView::Nothing),
        Message::TabSelected(tab) => (
            GuiView { tab, reset_default_armed: false, factory_reset_armed: false, ..s },
            EffectView::Nothing,
        ),
        Message::BalanceChanged(v) => (GuiView { balance: v, ..s }, EffectView::Nothing),
        Message::BalanceCommit(v) => (GuiView { balance: v, ..s }, EffectView::SetBalance(v)),
        Message::BalanceResult(r) => (
            GuiView { status_log: status_after(s.status_log, r, NoticeKind::BalanceError), ..s },
            EffectView::Nothing,
        ),
        Message::RenameInputChanged(v) => (GuiView { rename_input: v@, ..s }, EffectView::Nothing),
        Message::RenameEditToggled => if s.rename_editing {
            let name = trim(s.rename_input);
            if name.len() == 0 {
                (s, EffectView::Nothing)
            } else {
                (GuiView { rename_status: None, ..s }, EffectView::SetName(name))
            }
        } else {
            (GuiView { rename_editing: true, rename_status: None, ..s }, EffectView::Nothing)
        },
        Message::RenameEditCancelled => (
            GuiView {
                rename_input: match s.device_name {
                    Some(n) => n,
                    None => Seq::empty(),
                },
                rename_editing: false,
                rename_status: None,
                ..s
            },
            EffectView::Nothing,
        ),
        Message::RenameResult(r) => (
            match r {
                Ok(_) => GuiView {
                    rename_status: notice(NoticeKind::RenameDone, Seq::empty()),
                    rename_editing: false,
                    ..s
                },
                Err(e) => GuiView { rename_status: notice(NoticeKind::RenameError, e@), ..s },
            },
            EffectView::Nothing,
        ),
        Message::ResetDefaultPressed => if s.reset_default_armed {
            (
                GuiView { reset_default_armed: false, reset_default_status: None, ..s },
                EffectView::ResetDefault,
            )
        } else {
            (GuiView { reset_default_armed: true, ..s }, EffectView::Nothing)
        },
        Message::ResetDefaultResult(r) => (
            GuiView {
                reset_default_status: done_or_error(
                    r,
                    NoticeKind::ResetDefaultDone,
                    NoticeKind::ResetDefaultError,
                ),
                ..s
            },
            EffectView::Nothing,
        ),
        Message::FactoryResetPressed => if s.factory_reset_armed {
            (
                GuiView { factory_reset_armed: false, factory_reset_status: None, ..s },
                EffectView::FactoryReset,
            )
        } else {
            (GuiView { factory_reset_armed: true, ..s }, EffectView::Nothing)
        },
        Message::FactoryResetResult(r) => (
            GuiView {
                factory_reset_status: done_or_error(
                    r,
                    NoticeKind::FactoryResetDone,
                    NoticeKind::FactoryResetError,
                ),
                ..s
            },
            EffectView::Nothing,
        ),
        Message::TransparencyLevelChanged(v) => (
            GuiView { transparency_level: v, ..s },
            EffectView::Nothing,
        ),
        Message::SetEqPreset(p) => (
            GuiView { eq_preset: Some(p), eq_status: None, ..s },
            EffectView::SetEqPreset(p),
        ),
        Message::EqPresetResult(_, r) => (
            GuiView {
                eq_status: done_or_error(
                    r,
                    NoticeKind::EqPresetApplied,
                    NoticeKind::EqPresetError,
                ),
                ..s
            },
            EffectView::Nothing,
        ),
        Message::EqCustomBandChanged(band, v) => (
            GuiView { eq_custom_bands: set_band(s.eq_custom_bands, band, v), ..s },
            EffectView::Nothing,
        ),
        Message::EqCustomBandCommit(band, v) => {
            let bands = set_band(s.eq_custom_bands, band, v);
            (
                GuiView { eq_custom_bands: bands, eq_preset: None, eq_status: None, ..s },
                EffectView::SetEqCustom(bands),
            )
        },
        Message::EqCustomReset => (
            GuiView { eq_custom_bands: flat_curve(), eq_preset: None, eq_status: None, ..s },
            EffectView::SetEqCustom(flat_curve()),
        ),
        Message::EqCustomResult(r) => (
            GuiView {
                eq_status: done_or_error(
                    r,
                    NoticeKind::EqCustomApplied,
                    NoticeKind::EqCustomError,
                ),
                ..s
            },
            EffectView::Nothing,
        ),
        Message::WearDetectionToggled(enabled) => {
            let w = WearDetection {
                wear_detection: enabled,
                anc_on_wear: match s.wear_detection {
                    Some(x) => x.anc_on_wear,
                    None => true,
                },
            };
            (
                GuiView { wear_detection: Some(w), wear_detection_status: None, ..s },
                EffectView::SetWearDetection(w),
            )
        },
        Message::WearDetectionResult(_, r) => (
            GuiView {
                wear_detection_status: status_after(
                    s.wear_detection_status,
                    r,
                    NoticeKind::WearDetectionError,
                ),
                ..s
            },
            EffectView::Nothing,
        ),
        Message::SetNotificationVolume(v) => (
            GuiView { notification_volume: Some(v), notification_volume_status: None, ..s },
            EffectView::SetNotificationVolume(v),
        ),
        Message::NotificationVolumeResult(_, r) => (
            GuiView {
                notification_volume_status: status_after(
                    s.notification_volume_status,
                    r,
                    NoticeKind::NotificationVolumeError,
                ),
                ..s
            },
            EffectView::Nothing,
        ),
        Message::SetScheduledPowerOff(v) => (
            GuiView { scheduled_power_off: Some(v), scheduled_power_off_status: None, ..s },
            EffectView::SetScheduledPowerOff(v),
        ),
        Message::ScheduledPowerOffResult(_, r) => (
            GuiView {
                scheduled_power_off_status: status_after(
                    s.scheduled_power_off_status,
                    r,
                    NoticeKind::ScheduledPowerOffError,
                ),
                ..s
            },
            EffectView::Nothing,
        ),
        Message::ScheduledPowerOffCustomInputChanged(v) => (
            GuiView { scheduled_power_off_custom_input: minutes_input_of(v@), ..s },
            EffectView::Nothing,
        ),
        Message::ScheduledPowerOffCustomSubmit => match custom_minutes_of(
            s.scheduled_power_off_custom_input,
        ) {
            None => (s, EffectView::Nothing),
            Some(minutes) => (
                GuiView {
                    scheduled_power_off: Some(ScheduledPowerOff::Minutes(minutes)),
                    scheduled_power_off_status: None,
                    ..s
                },
                EffectView::SetScheduledPowerOff(ScheduledPowerOff::Minutes(minutes)),
            ),
        },
        Message::SetDisconnectPowerOff(v) => (
            GuiView { disconnect_power_off: Some(v), disconnect_power_off_status: None, ..s },
            EffectView::SetDisconnectPowerOff(v),
        ),
        Message::DisconnectPowerOffResult(_, r) => (
            GuiView {
                disconnect_power_off_status: status_after(
                    s.disconnect_power_off_status,
                    r,
                    NoticeKind::DisconnectPowerOffError,
                ),
                ..s
            },
            EffectView::Nothing,
        ),
        Message::SetGameMode(v) => (
            GuiView { game_mode: Some(v), game_mode_status: None, ..s },
            EffectView::SetGameMode(v),
        ),
        Message::GameModeResult(_, r) => (
            GuiView {
                game_mode_status: status_after(s.game_mode_status, r, NoticeKind::GameModeError),
                ..s
            },
            EffectView::Nothing,
        ),
        Message::SetSleepMode(v) => (
            GuiView { sleep_mode: Some(v), sleep_mode_status: None, ..s },
            EffectView::SetSleepMode(v),
        ),
        Message::SleepModeResult(_, r) => (
            GuiView {
                sleep_mode_status: status_after(
                    s.sleep_mode_status,
                    r,
                    NoticeKind::SleepModeError,
                ),
                ..s
            },
            EffectView::Nothing,
        ),
        Message::SetLdac(v) => (
            GuiView { ldac: Some(v), ldac_status: None, ..s },
            EffectView::SetLdac(v),
        ),
        Message::LdacResult(_, r) => (
            GuiView { ldac_status: status_after(s.ldac_status, r, NoticeKind::LdacError), ..s },
            EffectView::Nothing,
        ),
        Message::SetMultipoint(v) => (
            GuiView { multipoint: Some(v), multipoint_status: None, ..s },
            EffectView::SetMultipoint(v),
        ),
        Message::MultipointResult(_, r) => (
            GuiView {
                multipoint_status: status_after(
                    s.multipoint_status,
                    r,
                    NoticeKind::MultipointError,
                ),
                ..s
            },
            EffectView::Nothing,
        ),
        Message::SetTouchAction(control, action) => (
            GuiView {
                touch_actions: match s.touch_actions {
                    Some(map) => Some(with_slot(map, control, Some(action))),
                    None => None,
                },
                touch_actions_status: None,
                ..s
            },
            EffectView::SetTouchAction(control, action),
        ),
        Message::TouchActionResult(_, _, r) => (
            GuiView {
                touch_actions_status: status_after(
                    s.touch_actions_status,
                    r,
                    NoticeKind::TouchActionError,
                ),
                ..s
            },
            EffectView::Nothing,
        ),
        Message::ThemeSelected(t) => (GuiView { theme: t@, ..s }, EffectView::SaveTheme(t@)),
        Message::LanguageSelected(l) => (s, EffectView::ApplyLanguage(l@)),
        Message::LanguageApplied(l) => (
            GuiView { language: l@, ..s },
            EffectView::SaveLanguage(l@),
        ),
        Message::ApplyProfile(scope, p) => (
            applied_locally(s, scope, p@),
            EffectView::ApplyProfile(scope, p@),
        ),
        Message::ApplyProfileResult(scope, name, r) => (
            apply_result(s, scope, name@, r),
            EffectView::Nothing,
        ),
        Message::NewProfileNameChanged(scope, v) => (
            match scope {
                ProfileScope::Full => GuiView { new_profile_name: v@, ..s },
                ProfileScope::Eq => GuiView { new_eq_profile_name: v@, ..s },
            },
            EffectView::Nothing,
        ),
        Message::SaveCurrentAsProfile(scope) => save_current(s, scope),
        Message::DeleteProfile(scope, name) => (
            delete_profile(s, scope, name@),
            EffectView::SaveProfiles(scope),
        ),
        Message::ExportProfile(scope, p) => (s, EffectView::ExportProfile(scope, p@)),
        Message::ExportProfileResult(scope, r) => (
            match r {
                Ok(true) => with_scope_status(
                    s,
                    scope,
                    notice(NoticeKind::ExportDone, Seq::empty()),
                ),
                Ok(false) => s,
                Err(e) => with_scope_status(s, scope, notice(NoticeKind::ExportError, e@)),
            },
            EffectView::Nothing,
        ),
        Message::ImportProfile(scope) => (s, EffectView::ImportProfile(scope)),
        Message::ImportProfileResult(scope, r) => match r {
            Ok(Some(p)) => (import_profile(s, scope, p@), EffectView::SaveProfiles(scope)),
            Ok(None) => (s, EffectView::Nothing),
            Err(e) => (
                with_scope_status(s, scope, notice(NoticeKind::ImportError, e@)),
                EffectView::Nothing,
            ),
        },
        Message::ClearActiveProfile => (
            GuiView { active_profile: None, profiles_status: None, ..s },
            EffectView::Nothing,
        ),
    }
}

} // verus!
