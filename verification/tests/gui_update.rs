use qcyx::version::FirmwareVersion;
use qcyx::client::{AncConfirmation, StateSync};
use qcyx::response::AncSetting;
use qcyx::session::{connection_info, ConnectionReads};
use qcyx::command::{AncScene, NcLevel, NoiseCancellingMode, TransparencyMode};
use qcyx::eq::EqPreset;
use qcyx::game_mode::GameMode;
use qcyx::gui::message::{profile_writes, Effect, Message, ProfileWrite};
use qcyx::gui::model::{GuiModel, NoticeKind};
use qcyx::gui::workers::{connect_step, workers_for, ConnectStep, Worker};
use qcyx::gui::{vocal_enhancement_on, vocal_enhancement_request, profile_row_actions, RowAction, is_built_in_key, preset_icon, scene_tone, state_tone, AppState, ProfileScope, Tab, Tone};
use qcyx::notification_volume::NotificationVolume;
use qcyx::profile::Profile;
use qcyx::scheduled_power_off::ScheduledPowerOff;
use qcyx::session::ConnectionInfo;
use qcyx::touch_action::{TouchAction, TouchActionMap, TouchControl};
use qcyx::wear_detection::WearDetection;

fn connected_model() -> GuiModel {
    let mut m = GuiModel::default();
    let mut info = ConnectionInfo::default();
    info.initial_anc_scene = Some(AncScene::Transparency(TransparencyMode::AmbientSound {
        level: 4,
    }));
    info.initial_balance = Some(30);
    info.device_name = Some("QCY HT08".to_string());
    info.initial_touch_actions = Some(TouchActionMap::default());
    let e = m.update(Message::Connected(info));
    assert!(matches!(e, Effect::Nothing));
    m
}

fn named(name: &str, balance: u8) -> Profile {
    Profile::from_current(name.to_string(), None, None, None, Some(balance), None, None)
}

#[test]
fn start_up_state() {
    let m = GuiModel::default();
    assert_eq!(m.state, AppState::Connecting);
    assert_eq!(m.tab, Tab::Home);
    assert_eq!(m.balance, 50);
    assert_eq!(m.transparency_level, 1);
    assert_eq!(m.eq_custom_bands, [0; 10]);
    assert!(m.profiles.is_empty());
}

#[test]
fn connecting_reads_the_initial_state() {
    let m = connected_model();
    assert_eq!(m.state, AppState::Connected);
    assert_eq!(m.transparency_level, 4);
    assert_eq!(m.balance, 30);
    assert_eq!(m.rename_input, "QCY HT08");
    assert_eq!(m.device_name.as_deref(), Some("QCY HT08"));
    assert!(!m.rename_editing);
}

#[test]
fn connecting_without_a_balance_centers_it() {
    let mut m = GuiModel::default();
    m.balance = 10;
    m.update(Message::Connected(ConnectionInfo::default()));
    assert_eq!(m.balance, 50);
    assert_eq!(m.rename_input, "");
}

#[test]
fn disconnect_forgets_the_device_but_keeps_profiles() {
    let mut m = connected_model();
    m.profiles.push(named("mine", 40));
    m.new_profile_name = "draft".to_string();
    m.tab = Tab::Settings;
    m.update(Message::ResetDefaultPressed);
    m.eq_custom_bands[2] = 5;
    let e = m.update(Message::Disconnected);
    assert!(matches!(e, Effect::Nothing));
    assert_eq!(m.state, AppState::Connecting);
    assert_eq!(m.balance, 50);
    assert_eq!(m.transparency_level, 1);
    assert!(m.device_name.is_none());
    assert!(m.touch_actions.is_none());
    assert!(!m.reset_default_armed);
    assert_eq!(m.rename_input, "");
    assert_eq!(m.tab, Tab::Settings);
    assert_eq!(m.profiles.len(), 1);
    assert_eq!(m.new_profile_name, "draft");
    assert_eq!(m.eq_custom_bands[2], 5);
}

#[test]
fn connection_error_and_retry() {
    let mut m = GuiModel::default();
    m.update(Message::ConnectionError("no adapter".to_string()));
    assert_eq!(m.state, AppState::Error);
    assert_eq!(m.error_log.as_deref(), Some("no adapter"));
    m.update(Message::Retry);
    assert_eq!(m.state, AppState::Connecting);
    assert!(m.error_log.is_none());
}

#[test]
fn battery_and_signal_reads() {
    let mut m = connected_model();
    m.update(Message::BatteryResult(Err("timeout".to_string())));
    assert_eq!(m.battery_error.as_deref(), Some("timeout"));
    m.update(Message::RssiResult(Ok(Some(-60))));
    assert_eq!(m.rssi, Some(-60));
    m.update(Message::RssiResult(Err("gone".to_string())));
    assert_eq!(m.rssi, None);
}

#[test]
fn anc_request_waits_for_the_pending_one() {
    let mut m = connected_model();
    let quiet = AncScene::NoiseCancelling(NoiseCancellingMode::Indoor(NcLevel::Two));
    let e = m.update(Message::SetAnc(quiet));
    assert!(matches!(e, Effect::SetAnc(s) if s == quiet));
    assert_eq!(m.pending_scene, Some(quiet));
    let e = m.update(Message::SetAnc(AncScene::Normal));
    assert!(matches!(e, Effect::Nothing));
    assert_eq!(m.pending_scene, Some(quiet));
    m.update(Message::AncResult(quiet, Ok(AncConfirmation::Applied)));
    assert!(m.pending_scene.is_none());
    assert_eq!(m.active_scene, Some(quiet));
    assert_eq!(m.status_log.as_ref().map(|n| n.kind), Some(NoticeKind::AncApplied));
}

#[test]
fn anc_outcomes() {
    let mut m = connected_model();
    let before = m.active_scene;
    m.update(Message::AncResult(AncScene::Normal, Ok(AncConfirmation::Rejected)));
    assert_eq!(m.active_scene, before);
    assert_eq!(m.status_log.as_ref().map(|n| n.kind), Some(NoticeKind::AncUnconfirmed));
    m.update(Message::AncResult(AncScene::Normal, Ok(AncConfirmation::EchoedOnly)));
    assert_eq!(m.active_scene, Some(AncScene::Normal));
    assert_eq!(m.status_log.as_ref().map(|n| n.kind), Some(NoticeKind::AncEchoed));
    m.update(Message::AncResult(AncScene::Normal, Ok(AncConfirmation::NoResponse)));
    assert_eq!(m.status_log.as_ref().map(|n| n.kind), Some(NoticeKind::AncTimeout));
    m.update(Message::AncResult(AncScene::Normal, Err("lost".to_string())));
    let n = m.status_log.clone().unwrap();
    assert_eq!(n.kind, NoticeKind::AncError);
    assert_eq!(n.detail, "lost");
}

#[test]
fn resets_need_two_presses() {
    let mut m = connected_model();
    assert!(matches!(m.update(Message::ResetDefaultPressed), Effect::Nothing));
    assert!(m.reset_default_armed);
    assert!(matches!(m.update(Message::ResetDefaultPressed), Effect::ResetDefault));
    assert!(!m.reset_default_armed);

    assert!(matches!(m.update(Message::FactoryResetPressed), Effect::Nothing));
    m.update(Message::TabSelected(Tab::Home));
    assert!(!m.factory_reset_armed);
    assert!(matches!(m.update(Message::FactoryResetPressed), Effect::Nothing));
    assert!(matches!(m.update(Message::FactoryResetPressed), Effect::FactoryReset));

    m.update(Message::ResetDefaultResult(Ok(())));
    assert_eq!(
        m.reset_default_status.as_ref().map(|n| n.kind),
        Some(NoticeKind::ResetDefaultDone)
    );
    m.update(Message::FactoryResetResult(Err("x".to_string())));
    assert_eq!(
        m.factory_reset_status.as_ref().map(|n| n.kind),
        Some(NoticeKind::FactoryResetError)
    );
}

#[test]
fn rename_flow() {
    let mut m = connected_model();
    assert!(matches!(m.update(Message::RenameEditToggled), Effect::Nothing));
    assert!(m.rename_editing);
    m.update(Message::RenameInputChanged("   ".to_string()));
    assert!(matches!(m.update(Message::RenameEditToggled), Effect::Nothing));
    m.update(Message::RenameInputChanged("  Buds  ".to_string()));
    match m.update(Message::RenameEditToggled) {
        Effect::SetName(n) => assert_eq!(n, "Buds"),
        other => panic!("unexpected {other:?}"),
    }
    assert!(m.rename_editing);
    m.update(Message::RenameResult(Err("busy".to_string())));
    assert!(m.rename_editing);
    m.update(Message::RenameResult(Ok(())));
    assert!(!m.rename_editing);
    assert_eq!(m.rename_status.as_ref().map(|n| n.kind), Some(NoticeKind::RenameDone));
}

#[test]
fn rename_cancel_restores_the_device_name() {
    let mut m = connected_model();
    m.update(Message::RenameEditToggled);
    m.update(Message::RenameInputChanged("typo".to_string()));
    m.update(Message::RenameEditCancelled);
    assert_eq!(m.rename_input, "QCY HT08");
    assert!(!m.rename_editing);
}

#[test]
fn balance_slider_writes_on_release() {
    let mut m = connected_model();
    assert!(matches!(m.update(Message::BalanceChanged(70)), Effect::Nothing));
    assert!(matches!(m.update(Message::BalanceCommit(75)), Effect::SetBalance(75)));
    assert_eq!(m.balance, 75);
    m.update(Message::BalanceResult(Err("nope".to_string())));
    assert_eq!(m.status_log.as_ref().map(|n| n.kind), Some(NoticeKind::BalanceError));
}

#[test]
fn custom_eq_edits_deselect_the_preset() {
    let mut m = connected_model();
    assert!(matches!(m.update(Message::SetEqPreset(EqPreset::Rock)), Effect::SetEqPreset(EqPreset::Rock)));
    assert_eq!(m.eq_preset, Some(EqPreset::Rock));
    m.update(Message::EqCustomBandChanged(3, 4));
    assert_eq!(m.eq_custom_bands[3], 4);
    assert_eq!(m.eq_preset, Some(EqPreset::Rock));
    match m.update(Message::EqCustomBandCommit(9, -6)) {
        Effect::SetEqCustom(b) => assert_eq!(b, [0, 0, 0, 4, 0, 0, 0, 0, 0, -6]),
        other => panic!("unexpected {other:?}"),
    }
    assert_eq!(m.eq_preset, None);
    m.update(Message::EqCustomBandChanged(10, 8));
    assert_eq!(m.eq_custom_bands, [0, 0, 0, 4, 0, 0, 0, 0, 0, -6]);
    match m.update(Message::EqCustomReset) {
        Effect::SetEqCustom(b) => assert_eq!(b, [0; 10]),
        other => panic!("unexpected {other:?}"),
    }
    assert_eq!(m.eq_custom_bands, [0; 10]);
}

#[test]
fn wear_toggle_keeps_the_anc_sub_flag() {
    let mut m = connected_model();
    match m.update(Message::WearDetectionToggled(true)) {
        Effect::SetWearDetection(w) => {
            assert_eq!(w, WearDetection { wear_detection: true, anc_on_wear: true })
        }
        other => panic!("unexpected {other:?}"),
    }
    m.wear_detection = Some(WearDetection { wear_detection: true, anc_on_wear: false });
    match m.update(Message::WearDetectionToggled(false)) {
        Effect::SetWearDetection(w) => {
            assert_eq!(w, WearDetection { wear_detection: false, anc_on_wear: false })
        }
        other => panic!("unexpected {other:?}"),
    }
}

#[test]
fn custom_power_off_minutes() {
    let mut m = connected_model();
    m.update(Message::ScheduledPowerOffCustomInputChanged("a1b2c3d4".to_string()));
    assert_eq!(m.scheduled_power_off_custom_input, "123");
    match m.update(Message::ScheduledPowerOffCustomSubmit) {
        Effect::SetScheduledPowerOff(v) => assert_eq!(v, ScheduledPowerOff::Minutes(123)),
        other => panic!("unexpected {other:?}"),
    }
    assert_eq!(m.scheduled_power_off, Some(ScheduledPowerOff::Minutes(123)));
    m.update(Message::ScheduledPowerOffCustomInputChanged("xyz".to_string()));
    assert!(matches!(m.update(Message::ScheduledPowerOffCustomSubmit), Effect::Nothing));
}

#[test]
fn touch_action_updates_the_map() {
    let mut m = connected_model();
    let e = m.update(Message::SetTouchAction(TouchControl::RightDouble, TouchAction::Next));
    assert!(matches!(e, Effect::SetTouchAction(TouchControl::RightDouble, TouchAction::Next)));
    assert_eq!(m.touch_actions.unwrap().right_double, Some(TouchAction::Next));
    m.update(Message::TouchActionResult(
        TouchControl::RightDouble,
        TouchAction::Next,
        Err("e".to_string()),
    ));
    assert_eq!(
        m.touch_actions_status.as_ref().map(|n| n.kind),
        Some(NoticeKind::TouchActionError)
    );
}

#[test]
fn write_results_quote_errors_only() {
    let mut m = connected_model();
    m.update(Message::SetGameMode(GameMode::On));
    m.update(Message::GameModeResult(GameMode::On, Ok(())));
    assert!(m.game_mode_status.is_none());
    m.update(Message::GameModeResult(GameMode::On, Err("busy".to_string())));
    let n = m.game_mode_status.clone().unwrap();
    assert_eq!(n.kind, NoticeKind::GameModeError);
    assert_eq!(n.detail, "busy");
}

#[test]
fn language_is_applied_then_saved() {
    let mut m = GuiModel::default();
    match m.update(Message::LanguageSelected("pt-BR".to_string())) {
        Effect::ApplyLanguage(l) => assert_eq!(l, "pt-BR"),
        other => panic!("unexpected {other:?}"),
    }
    assert_eq!(m.language, "");
    match m.update(Message::LanguageApplied("pt-BR".to_string())) {
        Effect::SaveLanguage(l) => assert_eq!(l, "pt-BR"),
        other => panic!("unexpected {other:?}"),
    }
    assert_eq!(m.language, "pt-BR");
}

#[test]
fn saving_replaces_a_profile_of_the_same_name() {
    let mut m = connected_model();
    m.profiles.push(named("Desk", 10));
    m.profiles.push(named("Walk", 20));
    m.balance = 60;
    m.update(Message::NewProfileNameChanged(ProfileScope::Full, "  Desk ".to_string()));
    let e = m.update(Message::SaveCurrentAsProfile(ProfileScope::Full));
    assert!(matches!(e, Effect::SaveProfiles(ProfileScope::Full)));
    let names: Vec<&str> = m.profiles.iter().map(|p| p.name.as_str()).collect();
    assert_eq!(names, vec!["Walk", "Desk"]);
    assert_eq!(m.profiles[1].balance, Some(60));
    assert_eq!(m.profiles[1].eq_custom, Some([0; 10]));
    assert_eq!(m.new_profile_name, "");
    let n = m.profiles_status.clone().unwrap();
    assert_eq!(n.kind, NoticeKind::ProfileSaved);
    assert_eq!(n.detail, "Desk");
}

#[test]
fn saving_under_a_blank_name_does_nothing() {
    let mut m = connected_model();
    m.update(Message::NewProfileNameChanged(ProfileScope::Eq, "   ".to_string()));
    assert!(matches!(m.update(Message::SaveCurrentAsProfile(ProfileScope::Eq)), Effect::Nothing));
    assert!(m.eq_profiles.is_empty());
}

#[test]
fn eq_profile_snapshot_holds_only_the_eq() {
    let mut m = connected_model();
    m.update(Message::SetEqPreset(EqPreset::Classic));
    m.update(Message::NewProfileNameChanged(ProfileScope::Eq, "Calm".to_string()));
    m.update(Message::SaveCurrentAsProfile(ProfileScope::Eq));
    let p = &m.eq_profiles[0];
    assert_eq!(p.eq_preset, Some(EqPreset::Classic));
    assert_eq!(p.eq_custom, None);
    assert_eq!(p.balance, None);
    assert_eq!(p.anc_scene, None);
}

#[test]
fn deleting_the_active_profile_clears_the_indicator() {
    let mut m = connected_model();
    m.profiles.push(named("A", 1));
    m.profiles.push(named("B", 2));
    m.profiles.push(named("A", 3));
    m.update(Message::ApplyProfileResult(ProfileScope::Full, "A".to_string(), Ok(())));
    assert_eq!(m.active_profile.as_deref(), Some("A"));
    let e = m.update(Message::DeleteProfile(ProfileScope::Full, "A".to_string()));
    assert!(matches!(e, Effect::SaveProfiles(ProfileScope::Full)));
    assert_eq!(m.profiles.len(), 1);
    assert_eq!(m.profiles[0].name, "B");
    assert!(m.active_profile.is_none());
}

#[test]
fn applying_a_profile_sets_only_what_it_holds() {
    let mut m = connected_model();
    m.update(Message::SetEqPreset(EqPreset::Rock));
    let mut p = named("Gym", 45);
    p.eq_custom = Some([1, 2, 3, 4, 5, 6, 7, 8, 0, 0]);
    p.game_mode = Some(GameMode::Off);
    let e = m.update(Message::ApplyProfile(ProfileScope::Full, p));
    assert!(matches!(e, Effect::ApplyProfile(ProfileScope::Full, _)));
    assert_eq!(m.balance, 45);
    assert_eq!(m.eq_custom_bands, [1, 2, 3, 4, 5, 6, 7, 8, 0, 0]);
    assert_eq!(m.eq_preset, None);
    assert_eq!(m.game_mode, Some(GameMode::Off));
    assert_eq!(m.transparency_level, 4);
}

#[test]
fn profile_writes_follow_the_fixed_order() {
    let p = Profile::from_current(
        "All".to_string(),
        Some(AncScene::Normal),
        Some(EqPreset::Soft),
        None,
        Some(50),
        Some(NotificationVolume::Low),
        Some(GameMode::On),
    );
    let w = profile_writes(&p);
    assert_eq!(w.len(), 5);
    assert!(matches!(w[0], ProfileWrite::Anc(AncScene::Normal)));
    assert!(matches!(w[1], ProfileWrite::EqPreset(EqPreset::Soft)));
    assert!(matches!(w[2], ProfileWrite::Balance(50)));
    assert!(matches!(w[3], ProfileWrite::NotificationVolume(NotificationVolume::Low)));
    assert!(matches!(w[4], ProfileWrite::GameMode(GameMode::On)));

    let eq = Profile::from_current_eq("Eq".to_string(), Some(EqPreset::Rock), Some([2; 10]));
    let w = profile_writes(&eq);
    assert_eq!(w.len(), 1);
    assert!(matches!(w[0], ProfileWrite::EqCustom(g) if g == [2; 10]));
}

#[test]
fn import_and_export_outcomes() {
    let mut m = connected_model();
    let e = m.update(Message::ImportProfileResult(ProfileScope::Eq, Ok(Some(named("X", 5)))));
    assert!(matches!(e, Effect::SaveProfiles(ProfileScope::Eq)));
    assert_eq!(m.eq_profiles.len(), 1);
    assert_eq!(m.eq_profiles_status.as_ref().map(|n| n.kind), Some(NoticeKind::EqImportDone));
    let e = m.update(Message::ImportProfileResult(ProfileScope::Full, Ok(None)));
    assert!(matches!(e, Effect::Nothing));
    assert!(m.profiles_status.is_none());
    m.update(Message::ImportProfileResult(ProfileScope::Full, Err("bad".to_string())));
    assert_eq!(m.profiles_status.as_ref().map(|n| n.kind), Some(NoticeKind::ImportError));
    m.update(Message::ExportProfileResult(ProfileScope::Eq, Ok(true)));
    assert_eq!(m.eq_profiles_status.as_ref().map(|n| n.kind), Some(NoticeKind::ExportDone));
    m.update(Message::ExportProfileResult(ProfileScope::Full, Ok(false)));
    assert_eq!(m.profiles_status.as_ref().map(|n| n.kind), Some(NoticeKind::ImportError));
    assert!(matches!(m.update(Message::ImportProfile(ProfileScope::Full)), Effect::ImportProfile(ProfileScope::Full)));
    m.update(Message::ClearActiveProfile);
    assert!(m.profiles_status.is_none());
}

fn failed<T>() -> Result<T, qcyx::error::CoreError> {
    Err(qcyx::error::CoreError::OperationTimeout("parameter query"))
}

#[test]
fn connection_info_is_best_effort() {
    let reads = ConnectionReads {
        state: Ok(StateSync {
            anc: Some(AncSetting { mode: 0x03, sub_scene: 0x01, noise_value: 3 }),
            balance: Some(40),
        }),
        device_name: Some("Buds".to_string()),
        firmware: failed(),
        wear_detection: Ok(vec![1, 0, 0]),
        notification_volume: failed(),
        scheduled_power_off: Ok(vec![0x1e, 0x00]),
        disconnect_power_off: Ok(vec![]),
        game_mode: Ok(vec![0x01]),
        sleep_mode: failed(),
        ldac: failed(),
        multipoint: failed(),
        touch_actions: Ok(vec![0x02, 0x03]),
    };
    let info = connection_info(reads);
    assert_eq!(
        info.initial_anc_scene,
        Some(AncScene::Transparency(TransparencyMode::AmbientSound { level: 3 }))
    );
    assert_eq!(info.initial_balance, Some(40));
    assert_eq!(info.device_name.as_deref(), Some("Buds"));
    assert!(info.firmware_version.is_none());
    assert_eq!(
        info.initial_wear_detection,
        Some(WearDetection { wear_detection: true, anc_on_wear: false })
    );
    assert_eq!(info.initial_notification_volume, None);
    assert_eq!(info.initial_scheduled_power_off, Some(ScheduledPowerOff::Minutes(30)));
    assert_eq!(info.initial_disconnect_power_off, None);
    assert_eq!(info.initial_game_mode, Some(GameMode::On));
    assert_eq!(info.initial_sleep_mode, None);
    assert_eq!(info.initial_touch_actions.unwrap().right_single, Some(TouchAction::Next));
}

#[test]
fn connection_info_without_a_sync_read() {
    let reads = ConnectionReads {
        state: failed(),
        device_name: None,
        firmware: failed(),
        wear_detection: failed(),
        notification_volume: failed(),
        scheduled_power_off: failed(),
        disconnect_power_off: failed(),
        game_mode: failed(),
        sleep_mode: failed(),
        ldac: failed(),
        multipoint: failed(),
        touch_actions: failed(),
    };
    let info = connection_info(reads);
    assert!(info.initial_anc_scene.is_none());
    assert!(info.initial_balance.is_none());
    assert!(info.initial_touch_actions.is_none());
}

#[test]
fn widget_decisions() {
    assert_eq!(state_tone(AppState::Connecting), Tone::Warning);
    assert_eq!(state_tone(AppState::Connected), Tone::Success);
    assert_eq!(state_tone(AppState::Error), Tone::Danger);
    assert_eq!(scene_tone(Some(AncScene::Normal)), Tone::Success);
    assert_eq!(scene_tone(None), Tone::Neutral);
    assert_eq!(preset_icon(EqPreset::Rock), "🎸");
    assert_eq!(preset_icon(EqPreset::BassBoost), "🥁");
    assert!(is_built_in_key("built-in-gaming"));
    assert!(!is_built_in_key("built-in-other"));
    assert!(!is_built_in_key("Gaming"));
    let mut m = GuiModel::default();
    assert!(!m.battery_stale());
    m.update(Message::BatteryResult(Err("x".to_string())));
    assert!(!m.battery_stale());
    m.battery = Some(qcyx::battery::BatteryStatus::parse(&[50, 60, 70]).unwrap());
    assert!(m.battery_stale());
}

#[test]
fn workers_follow_the_connection_state() {
    assert_eq!(workers_for(AppState::Connecting), vec![Worker::Connect]);
    assert_eq!(
        workers_for(AppState::Connected),
        vec![Worker::WatchDisconnect, Worker::BatteryPoll, Worker::RssiPoll]
    );
    assert!(workers_for(AppState::Error).is_empty());
}

#[test]
fn connect_worker_retries_only_transient_failures() {
    match connect_step(Err(qcyx::error::CoreError::DeviceNotFound), 16) {
        ConnectStep::RetryAfter { wait_secs, next_backoff_secs } => {
            assert_eq!(wait_secs, 16);
            assert_eq!(next_backoff_secs, 30);
        }
        other => panic!("unexpected {other:?}"),
    }
    match connect_step(Err(qcyx::error::CoreError::OperationTimeout("scan")), 1) {
        ConnectStep::RetryAfter { next_backoff_secs, .. } => assert_eq!(next_backoff_secs, 2),
        other => panic!("unexpected {other:?}"),
    }
    assert!(matches!(
        connect_step(Err(qcyx::error::CoreError::AdapterNotFound), 1),
        ConnectStep::GiveUp(qcyx::error::CoreError::AdapterNotFound)
    ));
    assert!(matches!(
        connect_step(Ok(ConnectionInfo::default()), 1),
        ConnectStep::Connected(_)
    ));
}

#[test]
fn zero_custom_minutes_are_refused() {
    let mut m = connected_model();
    m.update(Message::ScheduledPowerOffCustomInputChanged("0".to_string()));
    assert_eq!(m.scheduled_power_off_custom_input, "0");
    assert!(matches!(m.update(Message::ScheduledPowerOffCustomSubmit), Effect::Nothing));
    assert!(m.scheduled_power_off.is_none());
}

#[test]
fn theme_choice_is_kept_and_saved() {
    let mut m = GuiModel::default();
    assert_eq!(m.theme, "Nord");
    match m.update(Message::ThemeSelected("Dracula".to_string())) {
        Effect::SaveTheme(t) => assert_eq!(t, "Dracula"),
        other => panic!("unexpected {other:?}"),
    }
    assert_eq!(m.theme, "Dracula");
    m.update(Message::Disconnected);
    assert_eq!(m.theme, "Dracula");
}

#[test]
fn vocal_enhancement_switch() {
    let vocal = AncScene::Transparency(TransparencyMode::VocalEnhancement);
    assert!(vocal_enhancement_on(Some(vocal)));
    assert!(!vocal_enhancement_on(Some(AncScene::Normal)));
    assert!(!vocal_enhancement_on(None));
    assert_eq!(vocal_enhancement_request(true, 3), vocal);
    assert_eq!(
        vocal_enhancement_request(false, 3),
        AncScene::Transparency(TransparencyMode::AmbientSound { level: 3 })
    );
}

#[test]
fn profile_row_buttons() {
    assert_eq!(
        profile_row_actions(false, false),
        vec![RowAction::Apply, RowAction::Export, RowAction::Delete]
    );
    assert_eq!(profile_row_actions(true, true), vec![RowAction::Deactivate, RowAction::Export]);
    assert_eq!(
        profile_row_actions(false, true),
        vec![RowAction::Deactivate, RowAction::Export, RowAction::Delete]
    );
}

#[test]
fn firmware_line_joins_both_sides() {
    let both = FirmwareVersion { left: Some("1.2.3".to_string()), right: Some("1.2.3".to_string()) };
    assert_eq!(qcyx::gui::firmware_line(&Some(both)).as_deref(), Some("1.2.3 / 1.2.3"));
    let left = FirmwareVersion { left: Some("1.0.0".to_string()), right: None };
    assert_eq!(qcyx::gui::firmware_line(&Some(left)).as_deref(), Some("1.0.0"));
    let right = FirmwareVersion { left: None, right: Some("2.0.0".to_string()) };
    assert_eq!(qcyx::gui::firmware_line(&Some(right)).as_deref(), Some("2.0.0"));
    assert_eq!(qcyx::gui::firmware_line(&None), None);
}
