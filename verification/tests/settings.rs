use qcyx::device_actions::{factory_reset, reset_default, sanitize, set_name, MAX_NAME_BYTES};
use qcyx::disconnect_power_off::{
    parse_disconnect_power_off, set_disconnect_power_off, DisconnectPowerOff, DEFAULT_MINUTES,
};
use qcyx::game_mode::{parse_game_mode, set_game_mode, GameMode};
use qcyx::ldac::{parse_ldac, set_ldac, Ldac};
use qcyx::multipoint::{parse_multipoint, set_multipoint, Multipoint};
use qcyx::notification_volume::{
    parse_notification_volume, set_notification_volume, NotificationVolume,
};
use qcyx::scheduled_power_off::{
    parse_scheduled_power_off, set_scheduled_power_off, ScheduledPowerOff, MAX_MINUTES,
};
use qcyx::sleep_mode::{parse_sleep_mode, set_sleep_mode, SleepMode};
use qcyx::wear_detection::{parse_wear_detection, set_wear_detection, WearDetection};

#[test]
fn packs_reset_default() {
    assert_eq!(reset_default().pack(), vec![0xFF, 0x02, 0x01, 0x00]);
}

#[test]
fn packs_factory_reset() {
    assert_eq!(factory_reset().pack(), vec![0xFF, 0x02, 0x03, 0x00]);
}

#[test]
fn packs_name() {
    let cmd = set_name("HT08");
    assert_eq!(cmd.parameters, b"HT08".to_vec());
    assert_eq!(cmd.pack(), vec![0xFF, 0x06, 0x18, 0x04, b'H', b'T', b'0', b'8']);
}

#[test]
fn truncates_oversized_name_to_the_firmware_field() {
    let long_name = "a".repeat(300);
    let cmd = set_name(&long_name);
    assert_eq!(cmd.parameters.len(), MAX_NAME_BYTES);
}

#[test]
fn truncates_multibyte_names_at_a_char_boundary() {
    let cmd = set_name(&"ç".repeat(17));
    assert_eq!(cmd.parameters.len(), MAX_NAME_BYTES);
    assert!(std::str::from_utf8(&cmd.parameters).is_ok());
}

#[test]
fn strips_control_characters_and_surrounding_space() {
    let cmd = set_name("  QCY\u{0}Melo\nBuds  ");
    assert_eq!(cmd.parameters, b"QCYMeloBuds".to_vec());
}

#[test]
fn every_name_stays_framable() {
    assert!(set_name(&"a".repeat(300)).validate().is_ok());
}

#[test]
fn blank_or_control_only_input_sanitizes_to_empty_parameters() {
    assert!(set_name("   ").parameters.is_empty());
    assert!(set_name("\u{0}\u{1}\n\t").parameters.is_empty());
    assert!(set_name("").parameters.is_empty());
}

#[test]
fn names_left_blank_by_control_characters_are_empty() {
    assert!(set_name("\u{0} \u{0}").parameters.is_empty());
    assert!(set_name("\u{7f}\t\u{1b} ").parameters.is_empty());
    assert_eq!(set_name("Buds \u{0}").parameters, b"Buds ".to_vec());
    assert_eq!(set_name("\u{0} Buds").parameters, b" Buds".to_vec());
    assert_eq!(set_name("\u{0} X").parameters, b" X".to_vec());
}

#[test]
fn sanitize_backs_off_to_a_char_boundary_and_keeps_inner_spaces() {
    // 31 ASCII bytes then a 3-byte char: the char does not fit and is dropped.
    let name = format!("{}€tail", "x".repeat(31));
    assert_eq!(sanitize(&name), "x".repeat(31));
    assert_eq!(sanitize("\u{0} Buds "), " Buds");
    assert_eq!(sanitize("\u{3000}ｑ\u{2003}"), "ｑ");
}

#[test]
fn sanitize_matches_the_standard_library_on_sample_names() {
    for name in ["  plain  ", "tab\there", "\u{a0}nbsp\u{a0}", "ëmoji 🎧 name that is rather long indeed"] {
        let expected: String = name.trim().chars().filter(|c| !c.is_control()).collect();
        let mut end = expected.len().min(MAX_NAME_BYTES);
        while !expected.is_char_boundary(end) {
            end -= 1;
        }
        assert_eq!(sanitize(name), expected[..end].to_string());
    }
}

#[test]
fn disconnect_power_off_packs_presets_matching_capture() {
    let cases = [(5, [0x05, 0x00]), (10, [0x0A, 0x00]), (30, [0x1E, 0x00]), (60, [0x3C, 0x00])];
    for (minutes, [lo, hi]) in cases {
        let cmd = set_disconnect_power_off(DisconnectPowerOff::Minutes(minutes));
        assert_eq!(cmd.parameters, vec![lo, hi]);
        assert_eq!(cmd.pack(), vec![0xFF, 0x04, 0x1F, 0x02, lo, hi]);
    }
}

#[test]
fn packs_never_matching_capture() {
    let cmd = set_disconnect_power_off(DisconnectPowerOff::Never);
    assert_eq!(cmd.parameters, vec![0xFF, 0xFF]);
}

#[test]
fn disconnect_power_off_parses_query_response_matching_capture() {
    assert_eq!(
        parse_disconnect_power_off(&[0x05, 0x00]),
        Some(DisconnectPowerOff::Minutes(DEFAULT_MINUTES))
    );
    assert_eq!(parse_disconnect_power_off(&[0xFF, 0xFF]), Some(DisconnectPowerOff::Never));
}

#[test]
fn disconnect_power_off_rejects_short_payload() {
    assert_eq!(parse_disconnect_power_off(&[0x05]), None);
}

#[test]
fn game_mode_packs_on_matching_capture() {
    let cmd = set_game_mode(GameMode::On);
    assert_eq!(cmd.parameters, vec![0x01]);
    assert_eq!(cmd.pack(), vec![0xFF, 0x03, 0x09, 0x01, 0x01]);
}

#[test]
fn game_mode_packs_off_matching_capture() {
    let cmd = set_game_mode(GameMode::Off);
    assert_eq!(cmd.parameters, vec![0x02]);
    assert_eq!(cmd.pack(), vec![0xFF, 0x03, 0x09, 0x01, 0x02]);
}

#[test]
fn parses_default_off_matching_capture() {
    assert_eq!(parse_game_mode(&[0x02]), Some(GameMode::Off));
}

#[test]
fn game_mode_rejects_unknown_raw_value() {
    assert_eq!(parse_game_mode(&[0x00]), None);
}

#[test]
fn game_mode_rejects_empty_payload() {
    assert_eq!(parse_game_mode(&[]), None);
}

#[test]
fn ldac_packs_on() {
    assert_eq!(set_ldac(Ldac::On).pack(), vec![0xFF, 0x03, 0x23, 0x01, 0x01]);
}

#[test]
fn ldac_packs_off() {
    assert_eq!(set_ldac(Ldac::Off).pack(), vec![0xFF, 0x03, 0x23, 0x01, 0x02]);
}

#[test]
fn ldac_parses_off() {
    assert_eq!(parse_ldac(&[0x00]), Some(Ldac::Off));
}

#[test]
fn ldac_parses_on() {
    assert_eq!(parse_ldac(&[0x01]), Some(Ldac::On));
}

#[test]
fn rejects_write_only_off_selector() {
    assert_eq!(parse_ldac(&[0x02]), None);
}

#[test]
fn ldac_rejects_empty_payload() {
    assert_eq!(parse_ldac(&[]), None);
}

#[test]
fn multipoint_packs_on() {
    assert_eq!(set_multipoint(Multipoint::On).pack(), vec![0xFF, 0x03, 0x24, 0x01, 0x01]);
}

#[test]
fn multipoint_packs_off() {
    assert_eq!(set_multipoint(Multipoint::Off).pack(), vec![0xFF, 0x03, 0x24, 0x01, 0x02]);
}

#[test]
fn multipoint_parses_off() {
    assert_eq!(parse_multipoint(&[0x00]), Some(Multipoint::Off));
}

#[test]
fn multipoint_parses_on() {
    assert_eq!(parse_multipoint(&[0x01]), Some(Multipoint::On));
}

#[test]
fn multipoint_rejects_empty_payload() {
    assert_eq!(parse_multipoint(&[]), None);
}

#[test]
fn packs_each_level_matching_capture() {
    let cases = [
        (NotificationVolume::Low, 0x04),
        (NotificationVolume::Medium, 0x06),
        (NotificationVolume::High, 0x08),
        (NotificationVolume::Max, 0x0A),
    ];
    for (level, raw) in cases {
        let cmd = set_notification_volume(level);
        assert_eq!(cmd.parameters, vec![raw, 0x00]);
        assert_eq!(cmd.pack(), vec![0xFF, 0x04, 0x1D, 0x02, raw, 0x00]);
    }
}

#[test]
fn notification_volume_parses_query_response_matching_capture() {
    assert_eq!(parse_notification_volume(&[0x08, 0x0F]), Some(NotificationVolume::High));
    assert_eq!(parse_notification_volume(&[0x04, 0x0F]), Some(NotificationVolume::Low));
}

#[test]
fn notification_volume_rejects_unknown_raw_value() {
    assert_eq!(parse_notification_volume(&[0x99, 0x0F]), None);
}

#[test]
fn notification_volume_rejects_empty_payload() {
    assert_eq!(parse_notification_volume(&[]), None);
}

#[test]
fn scheduled_power_off_packs_presets_matching_capture() {
    let cases = [(15, [0x0F, 0x00]), (30, [0x1E, 0x00]), (60, [0x3C, 0x00]), (90, [0x5A, 0x00])];
    for (minutes, [lo, hi]) in cases {
        let cmd = set_scheduled_power_off(ScheduledPowerOff::Minutes(minutes));
        assert_eq!(cmd.parameters, vec![lo, hi, 0x00, 0x00]);
        assert_eq!(cmd.pack(), vec![0xFF, 0x06, 0x14, 0x04, lo, hi, 0x00, 0x00]);
    }
}

#[test]
fn packs_custom_value_matching_capture() {
    let cmd = set_scheduled_power_off(ScheduledPowerOff::Minutes(183));
    assert_eq!(cmd.parameters, vec![0xB7, 0x00, 0x00, 0x00]);
}

#[test]
fn packs_disabled_matching_capture() {
    let cmd = set_scheduled_power_off(ScheduledPowerOff::Disabled);
    assert_eq!(cmd.parameters, vec![0xFF, 0xFF, 0x00, 0x00]);
}

#[test]
fn scheduled_power_off_parses_query_response_matching_capture() {
    assert_eq!(
        parse_scheduled_power_off(&[0x3C, 0x00, 0x3C, 0x00]),
        Some(ScheduledPowerOff::Minutes(60))
    );
    assert_eq!(
        parse_scheduled_power_off(&[0xFF, 0xFF, 0x00, 0x00]),
        Some(ScheduledPowerOff::Disabled)
    );
}

#[test]
fn scheduled_power_off_rejects_short_payload() {
    assert_eq!(parse_scheduled_power_off(&[0x3C]), None);
}

#[test]
fn max_minutes_stays_clear_of_the_disabled_sentinel() {
    let cmd = set_scheduled_power_off(ScheduledPowerOff::Minutes(MAX_MINUTES));
    assert_eq!(
        parse_scheduled_power_off(&cmd.parameters),
        Some(ScheduledPowerOff::Minutes(MAX_MINUTES))
    );
}

#[test]
fn timer_minutes_round_trip_including_the_high_byte() {
    for minutes in [1u16, 255, 256, 0x1234, MAX_MINUTES] {
        let cmd = set_disconnect_power_off(DisconnectPowerOff::Minutes(minutes));
        assert_eq!(parse_disconnect_power_off(&cmd.parameters), Some(DisconnectPowerOff::Minutes(minutes)));
    }
    assert_eq!(
        parse_scheduled_power_off(&set_scheduled_power_off(ScheduledPowerOff::Minutes(0xFFFF)).parameters),
        Some(ScheduledPowerOff::Disabled)
    );
}

#[test]
fn sleep_mode_packs_on_matching_capture() {
    let cmd = set_sleep_mode(SleepMode::On);
    assert_eq!(cmd.parameters, vec![0x01]);
    assert_eq!(cmd.pack(), vec![0xFF, 0x03, 0x10, 0x01, 0x01]);
}

#[test]
fn sleep_mode_packs_off_matching_capture() {
    let cmd = set_sleep_mode(SleepMode::Off);
    assert_eq!(cmd.parameters, vec![0x02]);
    assert_eq!(cmd.pack(), vec![0xFF, 0x03, 0x10, 0x01, 0x02]);
}

#[test]
fn parses_toggle_values() {
    assert_eq!(parse_sleep_mode(&[0x01]), Some(SleepMode::On));
    assert_eq!(parse_sleep_mode(&[0x02]), Some(SleepMode::Off));
}

#[test]
fn sleep_mode_rejects_empty_payload() {
    assert_eq!(parse_sleep_mode(&[]), None);
}

#[test]
fn packs_enabling_wear_detection_matching_capture() {
    let cmd = set_wear_detection(WearDetection { wear_detection: true, anc_on_wear: true });
    assert_eq!(cmd.parameters, vec![0x01, 0x01, 0x01]);
    assert_eq!(cmd.pack(), vec![0xFF, 0x05, 0x2C, 0x03, 0x01, 0x01, 0x01]);
}

#[test]
fn packs_disabling_anc_sub_toggle_matching_capture() {
    let cmd = set_wear_detection(WearDetection { wear_detection: true, anc_on_wear: false });
    assert_eq!(cmd.parameters, vec![0x01, 0x01, 0x00]);
}

#[test]
fn packs_disabling_main_toggle_matching_capture() {
    let cmd = set_wear_detection(WearDetection { wear_detection: false, anc_on_wear: true });
    assert_eq!(cmd.parameters, vec![0x00, 0x01, 0x01]);
}

#[test]
fn parses_initial_state_matching_capture() {
    assert_eq!(
        parse_wear_detection(&[0x00, 0x01, 0x01, 0x00]),
        Some(WearDetection { wear_detection: false, anc_on_wear: true })
    );
}

#[test]
fn parses_after_enabling_both_matching_capture() {
    assert_eq!(
        parse_wear_detection(&[0x01, 0x01, 0x01, 0x00]),
        Some(WearDetection { wear_detection: true, anc_on_wear: true })
    );
}

#[test]
fn wear_detection_rejects_short_payload() {
    assert_eq!(parse_wear_detection(&[0x01, 0x01]), None);
}
