//! The front end's message handling: [`GuiModel::update`] moves the state
//! exactly as [`step`] says and returns the outside work to perform.

use crate::client::AncConfirmation;
use crate::command::{AncScene, TransparencyMode};
use crate::eq::CUSTOM_BAND_COUNT;
use crate::gui::message::{Effect, Message};
use crate::gui::model::{
    GuiModel, GuiView, Notice, NoticeKind, note, opt_notice, plain_note, profile_views,
};
use crate::gui::transition::{
    anc_result, applied_locally, apply_result, connected, delete_profile, disconnected,
    done_or_error, eq_applied, flat_curve, import_profile, rest_applied, save_current, saved,
    scene_applied, set_band, status_after, step, with_scope_status, without_name,
};
use crate::gui::{AppState, ProfileScope, custom_minutes, filter_minutes_input};
use crate::profile::{Profile, ProfileView};
use crate::scheduled_power_off::ScheduledPowerOff;
use crate::session::ConnectionInfo;
use crate::text::{chars_of, str_eq, string_of, trim_chars};
use crate::wear_detection::WearDetection;
use vstd::prelude::*;

verus! {

/// Drops every profile named `name`, keeping the others in order.
fn remove_named(ps: &mut Vec<Profile>, name: &str)
    ensures
        profile_views(final(ps)@) == without_name(profile_views(old(ps)@), name@),
{
    let ghost orig = profile_views(ps@);
    let mut i: usize = ps.len();
    assert(orig.skip(i as int) =~= Seq::<ProfileView>::empty());
    assert(orig.take(i as int) =~= orig);
    assert(profile_views(ps@) =~= orig.take(i as int) + without_name(
        orig.skip(i as int),
        name@,
    ));
    while i > 0
        invariant
            i <= orig.len(),
            profile_views(ps@) == orig.take(i as int) + without_name(orig.skip(i as int), name@),
        decreases i,
    {
        i = i - 1;
        let ghost before = ps@;
        let ghost rest = without_name(orig.skip(i + 1), name@);
        assert(profile_views(before).len() == before.len());
        assert(orig.skip(i as int).drop_first() =~= orig.skip(i + 1));
        assert(profile_views(before)[i as int] == orig[i as int]);
        if str_eq(ps[i].name.as_str(), name) {
            ps.remove(i);
            assert(profile_views(ps@) =~= profile_views(before).remove(i as int));
            assert(profile_views(ps@) =~= orig.take(i as int) + rest);
        } else {
            assert(profile_views(ps@) =~= orig.take(i as int) + without_name(
                orig.skip(i as int),
                name@,
            ));
        }
    }
    assert(orig.skip(0) =~= orig);
    assert(orig.take(0) =~= Seq::<ProfileView>::empty());
}

/// Saves `p` into `ps`, replacing a profile of the same name.
fn save_into(ps: &mut Vec<Profile>, p: Profile)
    ensures
        profile_views(final(ps)@) == saved(profile_views(old(ps)@), p@),
{
    remove_named(ps, p.name.as_str());
    let ghost before = ps@;
    ps.push(p);
    assert(profile_views(ps@) =~= profile_views(before).push(p@));
}

/// Keeps `status` on success; quotes the error on failure.
fn keep_or_error(status: &mut Option<Notice>, r: Result<(), String>, error: NoticeKind)
    ensures
        opt_notice(*final(status)) == status_after(opt_notice(*old(status)), r, error),
{
    if let Err(e) = r {
        *status = note(error, e);
    }
}

/// The notice reporting a write's outcome.
fn report(r: Result<(), String>, done: NoticeKind, error: NoticeKind) -> (n: Option<Notice>)
    ensures
        opt_notice(n) == done_or_error(r, done, error),
{
    match r {
        Ok(()) => plain_note(done),
        Err(e) => note(error, e),
    }
}

impl GuiModel {
    fn set_scope_status(&mut self, scope: ProfileScope, status: Option<Notice>)
        ensures
            final(self)@ == with_scope_status(old(self)@, scope, opt_notice(status)),
    {
        match scope {
            ProfileScope::Full => self.profiles_status = status,
            ProfileScope::Eq => self.eq_profiles_status = status,
        }
    }

    fn on_connected(&mut self, info: ConnectionInfo)
        ensures
            final(self)@ == connected(old(self)@, info),
    {
        self.state = AppState::Connected;
        self.error_log = None;
        self.active_scene = info.initial_anc_scene;
        if let Some(AncScene::Transparency(TransparencyMode::AmbientSound { level })) =
            info.initial_anc_scene {
            self.transparency_level = level;
        }
        self.balance = match info.initial_balance {
            Some(b) => b,
            None => 50,
        };
        self.rename_input = match &info.device_name {
            Some(n) => n.clone(),
            None => String::new(),
        };
        self.rename_editing = false;
        self.device_name = info.device_name;
        self.firmware_version = info.firmware_version;
        self.wear_detection = info.initial_wear_detection;
        self.notification_volume = info.initial_notification_volume;
        self.scheduled_power_off = info.initial_scheduled_power_off;
        self.disconnect_power_off = info.initial_disconnect_power_off;
        self.game_mode = info.initial_game_mode;
        self.sleep_mode = info.initial_sleep_mode;
        self.ldac = info.initial_ldac;
        self.multipoint = info.initial_multipoint;
        self.touch_actions = info.initial_touch_actions;
    }

    fn on_disconnected(&mut self)
        ensures
            final(self)@ == disconnected(old(self)@),
    {
        self.state = AppState::Connecting;
        self.battery = None;
        self.battery_error = None;
        self.rssi = None;
        self.device_name = None;
        self.firmware_version = None;
        self.active_scene = None;
        self.pending_scene = None;
        self.transparency_level = 1;
        self.eq_preset = None;
        self.eq_status = None;
        self.balance = 50;
        self.rename_input = String::new();
        self.rename_status = None;
        self.rename_editing = false;
        self.reset_default_armed = false;
        self.reset_default_status = None;
        self.factory_reset_armed = false;
        self.factory_reset_status = None;
        self.wear_detection = None;
        self.wear_detection_status = None;
        self.notification_volume = None;
        self.notification_volume_status = None;
        self.scheduled_power_off = None;
        self.scheduled_power_off_status = None;
        self.scheduled_power_off_custom_input = String::new();
        self.disconnect_power_off = None;
        self.disconnect_power_off_status = None;
        self.game_mode = None;
        self.game_mode_status = None;
        self.sleep_mode = None;
        self.sleep_mode_status = None;
        self.ldac = None;
        self.ldac_status = None;
        self.multipoint = None;
        self.multipoint_status = None;
        self.touch_actions = None;
        self.touch_actions_status = None;
        self.status_log = None;
        self.active_profile = None;
        self.profiles_status = None;
        self.eq_profiles_status = None;
    }

    fn on_anc_result(&mut self, scene: AncScene, r: Result<AncConfirmation, String>)
        ensures
            final(self)@ == anc_result(old(self)@, scene, r),
    {
        self.pending_scene = None;
        match r {
            Ok(AncConfirmation::Applied) => {
                self.active_scene = Some(scene);
                self.status_log = plain_note(NoticeKind::AncApplied);
            },
            Ok(AncConfirmation::Rejected) => {
                self.status_log = plain_note(NoticeKind::AncUnconfirmed);
            },
            Ok(AncConfirmation::EchoedOnly) => {
                self.active_scene = Some(scene);
                self.status_log = plain_note(NoticeKind::AncEchoed);
            },
            Ok(AncConfirmation::NoResponse) => {
                self.status_log = plain_note(NoticeKind::AncTimeout);
            },
            Err(e) => {
                self.status_log = note(NoticeKind::AncError, e);
            },
        }
    }

    fn on_rename_toggled(&mut self) -> (effect: Effect)
        ensures
            (final(self)@, effect@) == step(old(self)@, Message::RenameEditToggled),
    {
        if self.rename_editing {
            let chars = chars_of(self.rename_input.as_str());
            let t = trim_chars(chars.as_slice());
            if t.len() == 0 {
                return Effect::Nothing;
            }
            self.rename_status = None;
            Effect::SetName(string_of(t.as_slice()))
        } else {
            self.rename_editing = true;
            self.rename_status = None;
            Effect::Nothing
        }
    }

    fn on_custom_minutes_submit(&mut self) -> (effect: Effect)
        ensures
            (final(self)@, effect@) == step(old(self)@, Message::ScheduledPowerOffCustomSubmit),
    {
        match custom_minutes(self.scheduled_power_off_custom_input.as_str()) {
            None => Effect::Nothing,
            Some(minutes) => {
                let value = ScheduledPowerOff::Minutes(minutes);
                self.scheduled_power_off = Some(value);
                self.scheduled_power_off_status = None;
                Effect::SetScheduledPowerOff(value)
            },
        }
    }

    fn on_band(&mut self, band: usize, value: i16)
        ensures
            final(self)@ == (GuiView {
                eq_custom_bands: set_band(old(self)@.eq_custom_bands, band, value),
                ..old(self)@
            }),
    {
        if band < CUSTOM_BAND_COUNT {
            self.eq_custom_bands[band] = value;
        }
    }

    fn apply_scene_part(&mut self, p: &Profile)
        ensures
            final(self)@ == scene_applied(old(self)@, p@),
    {
        if let Some(scene) = p.anc_scene {
            self.active_scene = Some(scene);
            self.pending_scene = None;
            if let AncScene::Transparency(TransparencyMode::AmbientSound { level }) = scene {
                self.transparency_level = level;
            }
        }
    }

    fn apply_eq_part(&mut self, p: &Profile)
        ensures
            final(self)@ == eq_applied(old(self)@, p@),
    {
        if let Some(bands) = p.eq_custom {
            self.eq_custom_bands = bands;
            self.eq_preset = None;
        } else if let Some(preset) = p.eq_preset {
            self.eq_preset = Some(preset);
        }
    }

    fn apply_rest_part(&mut self, p: &Profile)
        ensures
            final(self)@ == rest_applied(old(self)@, p@),
    {
        if let Some(b) = p.balance {
            self.balance = b;
        }
        if let Some(v) = p.notification_volume {
            self.notification_volume = Some(v);
        }
        if let Some(g) = p.game_mode {
            self.game_mode = Some(g);
        }
    }

    fn on_apply_profile(&mut self, scope: ProfileScope, p: &Profile)
        ensures
            final(self)@ == applied_locally(old(self)@, scope, p@),
    {
        self.apply_scene_part(p);
        self.apply_eq_part(p);
        self.apply_rest_part(p);
        self.set_scope_status(scope, None);
    }

    fn on_apply_result(&mut self, scope: ProfileScope, name: String, r: Result<(), String>)
        ensures
            final(self)@ == apply_result(old(self)@, scope, name@, r),
    {
        match (scope, r) {
            (ProfileScope::Full, Ok(())) => {
                self.active_profile = Some(name);
                self.profiles_status = plain_note(NoticeKind::ProfileApplied);
            },
            (ProfileScope::Full, Err(e)) => {
                self.profiles_status = note(NoticeKind::ProfileApplyError, e);
            },
            (ProfileScope::Eq, Ok(())) => {
                self.eq_profiles_status = plain_note(NoticeKind::EqProfileApplied);
            },
            (ProfileScope::Eq, Err(e)) => {
                self.eq_profiles_status = note(NoticeKind::EqProfileApplyError, e);
            },
        }
    }

    fn on_save_current(&mut self, scope: ProfileScope) -> (effect: Effect)
        ensures
            (final(self)@, effect@) == save_current(old(self)@, scope),
    {
        let typed = match scope {
            ProfileScope::Full => chars_of(self.new_profile_name.as_str()),
            ProfileScope::Eq => chars_of(self.new_eq_profile_name.as_str()),
        };
        let t = trim_chars(typed.as_slice());
        if t.len() == 0 {
            return Effect::Nothing;
        }
        let name = string_of(t.as_slice());
        let custom = if self.eq_preset.is_none() {
            Some(self.eq_custom_bands)
        } else {
            None
        };
        match scope {
            ProfileScope::Full => {
                let profile = Profile::from_current(
                    name.clone(),
                    self.active_scene,
                    self.eq_preset,
                    custom,
                    Some(self.balance),
                    self.notification_volume,
                    self.game_mode,
                );
                save_into(&mut self.profiles, profile);
                self.new_profile_name = String::new();
                self.profiles_status = note(NoticeKind::ProfileSaved, name);
            },
            ProfileScope::Eq => {
                let profile = Profile::from_current_eq(name.clone(), self.eq_preset, custom);
                save_into(&mut self.eq_profiles, profile);
                self.new_eq_profile_name = String::new();
                self.eq_profiles_status = note(NoticeKind::EqProfileSaved, name);
            },
        }
        Effect::SaveProfiles(scope)
    }

    fn on_delete(&mut self, scope: ProfileScope, name: String)
        ensures
            final(self)@ == delete_profile(old(self)@, scope, name@),
    {
        match scope {
            ProfileScope::Full => {
                remove_named(&mut self.profiles, name.as_str());
                let is_active = match &self.active_profile {
                    Some(a) => str_eq(a.as_str(), name.as_str()),
                    None => false,
                };
                if is_active {
                    self.active_profile = None;
                }
            },
            ProfileScope::Eq => {
                remove_named(&mut self.eq_profiles, name.as_str());
            },
        }
    }

    fn on_import(&mut self, scope: ProfileScope, p: Profile)
        ensures
            final(self)@ == import_profile(old(self)@, scope, p@),
    {
        let name = p.name.clone();
        match scope {
            ProfileScope::Full => {
                save_into(&mut self.profiles, p);
                self.profiles_status = note(NoticeKind::ImportDone, name);
            },
            ProfileScope::Eq => {
                save_into(&mut self.eq_profiles, p);
                self.eq_profiles_status = note(NoticeKind::EqImportDone, name);
            },
        }
    }

    /// Handles the connection, battery, signal, ANC and tab messages.
    fn update_link(&mut self, message: Message) -> (effect: Effect)
        requires
            message is Connected
            || message is BatteryResult
            || message is RssiResult
            || message is Disconnected
            || message is ConnectionError
            || message is Retry
            || message is SetAnc
            || message is AncResult
            || message is TabSelected,
        ensures
            (final(self)@, effect@) == step(old(self)@, message),
    {
        match message {
            Message::Connected(info) => {
                self.on_connected(info);
                Effect::Nothing
            },
            Message::BatteryResult(r) => {
                match r {
                    Ok(b) => {
                        self.battery = Some(b);
                        self.battery_error = None;
                    },
                    Err(e) => {
                        self.battery_error = Some(e);
                    },
                }
                Effect::Nothing
            },
            Message::RssiResult(r) => {
                self.rssi = match r {
                    Ok(v) => v,
                    Err(_) => None,
                };
                Effect::Nothing
            },
            Message::Disconnected => {
                self.on_disconnected();
                Effect::Nothing
            },
            Message::ConnectionError(e) => {
                self.state = AppState::Error;
                self.error_log = Some(e);
                Effect::Nothing
            },
            Message::Retry => {
                self.state = AppState::Connecting;
                self.error_log = None;
                Effect::Nothing
            },
            Message::SetAnc(scene) => {
                if self.pending_scene.is_some() {
                    return Effect::Nothing;
                }
                self.pending_scene = Some(scene);
                self.status_log = None;
                Effect::SetAnc(scene)
            },
            Message::AncResult(scene, r) => {
                self.on_anc_result(scene, r);
                Effect::Nothing
            },
            Message::TabSelected(tab) => {
                self.tab = tab;
                self.reset_default_armed = false;
                self.factory_reset_armed = false;
                Effect::Nothing
            },
            _ => Effect::Nothing,
        }
    }

    /// Handles the balance, rename, reset and transparency messages.
    fn update_device_actions(&mut self, message: Message) -> (effect: Effect)
        requires
            message is BalanceChanged
            || message is BalanceCommit
            || message is BalanceResult
            || message is RenameInputChanged
            || message is RenameEditToggled
            || message is RenameEditCancelled
            || message is RenameResult
            || message is ResetDefaultPressed
            || message is ResetDefaultResult
            || message is FactoryResetPressed
            || message is FactoryResetResult
            || message is TransparencyLevelChanged,
        ensures
            (final(self)@, effect@) == step(old(self)@, message),
    {
        match message {
            Message::BalanceChanged(v) => {
                self.balance = v;
                Effect::Nothing
            },
            Message::BalanceCommit(v) => {
                self.balance = v;
                Effect::SetBalance(v)
            },
            Message::BalanceResult(r) => {
                keep_or_error(&mut self.status_log, r, NoticeKind::BalanceError);
                Effect::Nothing
            },
            Message::RenameInputChanged(v) => {
                self.rename_input = v;
                Effect::Nothing
            },
            Message::RenameEditToggled => self.on_rename_toggled(),
            Message::RenameEditCancelled => {
                self.rename_input = match &self.device_name {
                    Some(n) => n.clone(),
                    None => String::new(),
                };
                self.rename_editing = false;
                self.rename_status = None;
                Effect::Nothing
            },
            Message::RenameResult(r) => {
                match r {
                    Ok(()) => {
                        self.rename_status = plain_note(NoticeKind::RenameDone);
                        self.rename_editing = false;
                    },
                    Err(e) => {
                        self.rename_status = note(NoticeKind::RenameError, e);
                    },
                }
                Effect::Nothing
            },
            Message::ResetDefaultPressed => {
                if self.reset_default_armed {
                    self.reset_default_armed = false;
                    self.reset_default_status = None;
                    Effect::ResetDefault
                } else {
                    self.reset_default_armed = true;
                    Effect::Nothing
                }
            },
            Message::ResetDefaultResult(r) => {
                self.reset_default_status = report(
                    r,
                    NoticeKind::ResetDefaultDone,
                    NoticeKind::ResetDefaultError,
                );
                Effect::Nothing
            },
            Message::FactoryResetPressed => {
                if self.factory_reset_armed {
                    self.factory_reset_armed = false;
                    self.factory_reset_status = None;
                    Effect::FactoryReset
                } else {
                    self.factory_reset_armed = true;
                    Effect::Nothing
                }
            },
            Message::FactoryResetResult(r) => {
                self.factory_reset_status = report(
                    r,
                    NoticeKind::FactoryResetDone,
                    NoticeKind::FactoryResetError,
                );
                Effect::Nothing
            },
            Message::TransparencyLevelChanged(v) => {
                self.transparency_level = v;
                Effect::Nothing
            },
            _ => Effect::Nothing,
        }
    }

    /// Handles the equalizer and wear-detection messages.
    fn update_eq(&mut self, message: Message) -> (effect: Effect)
        requires
            message is SetEqPreset
            || message is EqPresetResult
            || message is EqCustomBandChanged
            || message is EqCustomBandCommit
            || message is EqCustomReset
            || message is EqCustomResult
            || message is WearDetectionToggled
            || message is WearDetectionResult,
        ensures
            (final(self)@, effect@) == step(old(self)@, message),
    {
        match message {
            Message::SetEqPreset(p) => {
                self.eq_preset = Some(p);
                self.eq_status = None;
                Effect::SetEqPreset(p)
            },
            Message::EqPresetResult(_, r) => {
                self.eq_status = report(r, NoticeKind::EqPresetApplied, NoticeKind::EqPresetError);
                Effect::Nothing
            },
            Message::EqCustomBandChanged(band, v) => {
                self.on_band(band, v);
                Effect::Nothing
            },
            Message::EqCustomBandCommit(band, v) => {
                self.on_band(band, v);
                self.eq_preset = None;
                self.eq_status = None;
                Effect::SetEqCustom(self.eq_custom_bands)
            },
            Message::EqCustomReset => {
                self.eq_custom_bands = [0; CUSTOM_BAND_COUNT];
                self.eq_preset = None;
                self.eq_status = None;
                assert(self.eq_custom_bands@ =~= flat_curve());
                Effect::SetEqCustom([0; CUSTOM_BAND_COUNT])
            },
            Message::EqCustomResult(r) => {
                self.eq_status = report(r, NoticeKind::EqCustomApplied, NoticeKind::EqCustomError);
                Effect::Nothing
            },
            Message::WearDetectionToggled(enabled) => {
                let anc_on_wear = match self.wear_detection {
                    Some(w) => w.anc_on_wear,
                    None => true,
                };
                let w = WearDetection { wear_detection: enabled, anc_on_wear };
                self.wear_detection = Some(w);
                self.wear_detection_status = None;
                Effect::SetWearDetection(w)
            },
            Message::WearDetectionResult(_, r) => {
                keep_or_error(&mut self.wear_detection_status, r, NoticeKind::WearDetectionError);
                Effect::Nothing
            },
            _ => Effect::Nothing,
        }
    }

    /// Handles the notification-volume, power-off and game-mode messages.
    fn update_timers(&mut self, message: Message) -> (effect: Effect)
        requires
            message is SetNotificationVolume
            || message is NotificationVolumeResult
            || message is SetScheduledPowerOff
            || message is ScheduledPowerOffResult
            || message is ScheduledPowerOffCustomInputChanged
            || message is ScheduledPowerOffCustomSubmit
            || message is SetDisconnectPowerOff
            || message is DisconnectPowerOffResult
            || message is SetGameMode
            || message is GameModeResult,
        ensures
            (final(self)@, effect@) == step(old(self)@, message),
    {
        match message {
            Message::SetNotificationVolume(v) => {
                self.notification_volume = Some(v);
                self.notification_volume_status = None;
                Effect::SetNotificationVolume(v)
            },
            Message::NotificationVolumeResult(_, r) => {
                keep_or_error(
                    &mut self.notification_volume_status,
                    r,
                    NoticeKind::NotificationVolumeError,
                );
                Effect::Nothing
            },
            Message::SetScheduledPowerOff(v) => {
                self.scheduled_power_off = Some(v);
                self.scheduled_power_off_status = None;
                Effect::SetScheduledPowerOff(v)
            },
            Message::ScheduledPowerOffResult(_, r) => {
                keep_or_error(
                    &mut self.scheduled_power_off_status,
                    r,
                    NoticeKind::ScheduledPowerOffError,
                );
                Effect::Nothing
            },
            Message::ScheduledPowerOffCustomInputChanged(v) => {
                self.scheduled_power_off_custom_input = filter_minutes_input(v.as_str());
                Effect::Nothing
            },
            Message::ScheduledPowerOffCustomSubmit => self.on_custom_minutes_submit(),
            Message::SetDisconnectPowerOff(v) => {
                self.disconnect_power_off = Some(v);
                self.disconnect_power_off_status = None;
                Effect::SetDisconnectPowerOff(v)
            },
            Message::DisconnectPowerOffResult(_, r) => {
                keep_or_error(
                    &mut self.disconnect_power_off_status,
                    r,
                    NoticeKind::DisconnectPowerOffError,
                );
                Effect::Nothing
            },
            Message::SetGameMode(v) => {
                self.game_mode = Some(v);
                self.game_mode_status = None;
                Effect::SetGameMode(v)
            },
            Message::GameModeResult(_, r) => {
                keep_or_error(&mut self.game_mode_status, r, NoticeKind::GameModeError);
                Effect::Nothing
            },
            _ => Effect::Nothing,
        }
    }

    /// Handles the sleep, LDAC, multipoint, touch, theme and language messages.
    fn update_toggles(&mut self, message: Message) -> (effect: Effect)
        requires
            message is SetSleepMode
            || message is SleepModeResult
            || message is SetLdac
            || message is LdacResult
            || message is SetMultipoint
            || message is MultipointResult
            || message is SetTouchAction
            || message is TouchActionResult
            || message is ThemeSelected
            || message is LanguageSelected
            || message is LanguageApplied,
        ensures
            (final(self)@, effect@) == step(old(self)@, message),
    {
        match message {
            Message::SetSleepMode(v) => {
                self.sleep_mode = Some(v);
                self.sleep_mode_status = None;
                Effect::SetSleepMode(v)
            },
            Message::SleepModeResult(_, r) => {
                keep_or_error(&mut self.sleep_mode_status, r, NoticeKind::SleepModeError);
                Effect::Nothing
            },
            Message::SetLdac(v) => {
                self.ldac = Some(v);
                self.ldac_status = None;
                Effect::SetLdac(v)
            },
            Message::LdacResult(_, r) => {
                keep_or_error(&mut self.ldac_status, r, NoticeKind::LdacError);
                Effect::Nothing
            },
            Message::SetMultipoint(v) => {
                self.multipoint = Some(v);
                self.multipoint_status = None;
                Effect::SetMultipoint(v)
            },
            Message::MultipointResult(_, r) => {
                keep_or_error(&mut self.multipoint_status, r, NoticeKind::MultipointError);
                Effect::Nothing
            },
            Message::SetTouchAction(control, action) => {
                if let Some(mut map) = self.touch_actions {
                    map.set_slot(control, Some(action));
                    self.touch_actions = Some(map);
                }
                self.touch_actions_status = None;
                Effect::SetTouchAction(control, action)
            },
            Message::TouchActionResult(_, _, r) => {
                keep_or_error(&mut self.touch_actions_status, r, NoticeKind::TouchActionError);
                Effect::Nothing
            },
            Message::ThemeSelected(t) => {
                self.theme = t.clone();
                Effect::SaveTheme(t)
            },
            Message::LanguageSelected(l) => Effect::ApplyLanguage(l),
            Message::LanguageApplied(l) => {
                self.language = l.clone();
                Effect::SaveLanguage(l)
            },
            _ => Effect::Nothing,
        }
    }

    /// Handles the profile messages.
    fn update_profiles(&mut self, message: Message) -> (effect: Effect)
        requires
            message is ApplyProfile
            || message is ApplyProfileResult
            || message is NewProfileNameChanged
            || message is SaveCurrentAsProfile
            || message is DeleteProfile
            || message is ExportProfile
            || message is ExportProfileResult
            || message is ImportProfile
            || message is ImportProfileResult
            || message is ClearActiveProfile,
        ensures
            (final(self)@, effect@) == step(old(self)@, message),
    {
        match message {
            Message::ApplyProfile(scope, p) => {
                self.on_apply_profile(scope, &p);
                Effect::ApplyProfile(scope, p)
            },
            Message::ApplyProfileResult(scope, name, r) => {
                self.on_apply_result(scope, name, r);
                Effect::Nothing
            },
            Message::NewProfileNameChanged(scope, v) => {
                match scope {
                    ProfileScope::Full => self.new_profile_name = v,
                    ProfileScope::Eq => self.new_eq_profile_name = v,
                }
                Effect::Nothing
            },
            Message::SaveCurrentAsProfile(scope) => self.on_save_current(scope),
            Message::DeleteProfile(scope, name) => {
                self.on_delete(scope, name);
                Effect::SaveProfiles(scope)
            },
            Message::ExportProfile(scope, p) => Effect::ExportProfile(scope, p),
            Message::ExportProfileResult(scope, r) => {
                match r {
                    Ok(true) => self.set_scope_status(scope, plain_note(NoticeKind::ExportDone)),
                    Ok(false) => {},
                    Err(e) => self.set_scope_status(scope, note(NoticeKind::ExportError, e)),
                }
                Effect::Nothing
            },
            Message::ImportProfile(scope) => Effect::ImportProfile(scope),
            Message::ImportProfileResult(scope, r) => {
                match r {
                    Ok(Some(p)) => {
                        self.on_import(scope, p);
                        Effect::SaveProfiles(scope)
                    },
                    Ok(None) => Effect::Nothing,
                    Err(e) => {
                        self.set_scope_status(scope, note(NoticeKind::ImportError, e));
                        Effect::Nothing
                    },
                }
            },
            Message::ClearActiveProfile => {
                self.active_profile = None;
                self.profiles_status = None;
                Effect::Nothing
            },

            _ => Effect::Nothing,
        }
    }

    /// Handles one message: moves to the next state and returns the outside
    /// work the front end must perform next.
    pub fn update(&mut self, message: Message) -> (effect: Effect)
        ensures
            (final(self)@, effect@) == step(old(self)@, message),
    {
        match message {
            Message::Connected(..)
            | Message::BatteryResult(..)
            | Message::RssiResult(..)
            | Message::Disconnected
            | Message::ConnectionError(..)
            | Message::Retry
            | Message::SetAnc(..)
            | Message::AncResult(..)
            | Message::TabSelected(..) => self.update_link(message),
            Message::BalanceChanged(..)
            | Message::BalanceCommit(..)
            | Message::BalanceResult(..)
            | Message::RenameInputChanged(..)
            | Message::RenameEditToggled
            | Message::RenameEditCancelled
            | Message::RenameResult(..)
            | Message::ResetDefaultPressed
            | Message::ResetDefaultResult(..)
            | Message::FactoryResetPressed
            | Message::FactoryResetResult(..)
            | Message::TransparencyLevelChanged(..) => self.update_device_actions(message),
            Message::SetEqPreset(..)
            | Message::EqPresetResult(..)
            | Message::EqCustomBandChanged(..)
            | Message::EqCustomBandCommit(..)
            | Message::EqCustomReset
            | Message::EqCustomResult(..)
            | Message::WearDetectionToggled(..)
            | Message::WearDetectionResult(..) => self.update_eq(message),
            Message::SetNotificationVolume(..)
            | Message::NotificationVolumeResult(..)
            | Message::SetScheduledPowerOff(..)
            | Message::ScheduledPowerOffResult(..)
            | Message::ScheduledPowerOffCustomInputChanged(..)
            | Message::ScheduledPowerOffCustomSubmit
            | Message::SetDisconnectPowerOff(..)
            | Message::DisconnectPowerOffResult(..)
            | Message::SetGameMode(..)
            | Message::GameModeResult(..) => self.update_timers(message),
            Message::SetSleepMode(..)
            | Message::SleepModeResult(..)
            | Message::SetLdac(..)
            | Message::LdacResult(..)
            | Message::SetMultipoint(..)
            | Message::MultipointResult(..)
            | Message::SetTouchAction(..)
            | Message::TouchActionResult(..)
            | Message::ThemeSelected(..)
            | Message::LanguageSelected(..)
            | Message::LanguageApplied(..) => self.update_toggles(message),
            Message::ApplyProfile(..)
            | Message::ApplyProfileResult(..)
            | Message::NewProfileNameChanged(..)
            | Message::SaveCurrentAsProfile(..)
            | Message::DeleteProfile(..)
            | Message::ExportProfile(..)
            | Message::ExportProfileResult(..)
            | Message::ImportProfile(..)
            | Message::ImportProfileResult(..)
            | Message::ClearActiveProfile => self.update_profiles(message),
        }
    }
}

} // verus!
