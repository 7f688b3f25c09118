use qcyx::cli::{
    anc_scene_from_arg, is_affirmative, request_for, AncSceneArg, Commands, NoiseCancellingArg,
    PowerOffArg, Request,
};
use qcyx::command::{AncScene, NcLevel, NoiseCancellingMode, TransparencyMode};
use qcyx::error::CoreError;
use qcyx::gui::{
    bars_for_rssi, balance_side, built_in_icon, connect_error_is_retryable, custom_minutes,
    filter_minutes_input, freq_label, gain_label, load_settings, next_backoff,
    sanitize_file_name, AppSettings, BalanceSide, LanguageOption,
};

#[test]
fn power_off_minutes_exclude_zero_and_the_disabled_sentinel() {
    assert!(matches!(PowerOffArg::parse("1"), Some(PowerOffArg::Minutes(1))));
    assert!(matches!(PowerOffArg::parse("65534"), Some(PowerOffArg::Minutes(65534))));
    assert!(matches!(PowerOffArg::parse("Never"), Some(PowerOffArg::Disabled)));
    assert!(PowerOffArg::parse("0").is_none());
    assert!(PowerOffArg::parse("65535").is_none());
    assert!(PowerOffArg::parse("soon").is_none());
    assert_eq!(qcyx::disconnect_power_off::MAX_MINUTES, qcyx::scheduled_power_off::MAX_MINUTES);
}

#[test]
fn power_off_words_and_numbers() {
    assert_eq!(PowerOffArg::parse("OFF"), Some(PowerOffArg::Disabled));
    assert_eq!(PowerOffArg::parse("disabled"), Some(PowerOffArg::Disabled));
    assert_eq!(PowerOffArg::parse("+30"), Some(PowerOffArg::Minutes(30)));
    assert_eq!(PowerOffArg::parse("99999"), None);
    assert_eq!(PowerOffArg::parse(""), None);
    assert_eq!(PowerOffArg::parse(" 5"), None);
}

#[test]
fn cli_arguments_map_to_scenes() {
    assert_eq!(
        anc_scene_from_arg(AncSceneArg::Transparency { level: None }),
        AncScene::Transparency(TransparencyMode::VocalEnhancement)
    );
    assert_eq!(
        anc_scene_from_arg(AncSceneArg::Transparency { level: Some(5) }),
        AncScene::Transparency(TransparencyMode::AmbientSound { level: 5 })
    );
    assert_eq!(
        anc_scene_from_arg(AncSceneArg::NoiseCancelling { mode: NoiseCancellingArg::DailyCommute { level: 2 } }),
        AncScene::NoiseCancelling(NoiseCancellingMode::DailyCommute(NcLevel::Two))
    );
    assert!(matches!(request_for(Commands::Balance { value: 40 }), Request::SetBalance(40)));
    assert!(matches!(
        request_for(Commands::FactoryReset { yes: false }),
        Request::FactoryReset { confirmed: false }
    ));
}

#[test]
fn confirmation_fails_closed() {
    assert!(is_affirmative("y"));
    assert!(is_affirmative("  Yes\n"));
    assert!(!is_affirmative(""));
    assert!(!is_affirmative("no"));
    assert!(!is_affirmative(" n y"));
}

#[test]
fn signal_bars_follow_the_thresholds() {
    assert_eq!(bars_for_rssi(-40), 4);
    assert_eq!(bars_for_rssi(-60), 4);
    assert_eq!(bars_for_rssi(-61), 3);
    assert_eq!(bars_for_rssi(-80), 2);
    assert_eq!(bars_for_rssi(-90), 1);
    assert_eq!(bars_for_rssi(-91), 0);
}

#[test]
fn labels_for_bands_and_gains() {
    assert_eq!(freq_label(31), "31");
    assert_eq!(freq_label(500), "500");
    assert_eq!(freq_label(2000), "2k");
    assert_eq!(freq_label(16000), "16k");
    assert_eq!(gain_label(3), "+3");
    assert_eq!(gain_label(-8), "-8");
    assert_eq!(gain_label(0), "0");
    assert_eq!(gain_label(i16::MIN), "-32768");
}

#[test]
fn languages_and_icons() {
    assert_eq!(LanguageOption::from_id("pt-BR"), Some(LanguageOption("pt-BR")));
    assert_eq!(LanguageOption::from_id("de"), None);
    assert_eq!(LanguageOption("en").label(), "English");
    assert_eq!(LanguageOption("xx").label(), "xx");
    assert_eq!(built_in_icon("built-in-gaming"), "🎮");
    assert_eq!(built_in_icon("mine"), "🗂️");
}

#[test]
fn file_names_are_cleaned() {
    assert_eq!(sanitize_file_name("Night/Day: v2"), "Night_Day_ v2");
    assert_eq!(sanitize_file_name("   "), "profile");
    assert_eq!(sanitize_file_name("Ação-1"), "Ação-1");
}

#[test]
fn balance_sides() {
    assert_eq!(balance_side(50), BalanceSide::Centered);
    assert_eq!(balance_side(60), BalanceSide::Right(20));
    assert_eq!(balance_side(0), BalanceSide::Left(100));
}

#[test]
fn reconnect_backoff_doubles_up_to_the_ceiling() {
    assert_eq!(next_backoff(1), 2);
    assert_eq!(next_backoff(16), 30);
    assert_eq!(next_backoff(30), 30);
    assert!(connect_error_is_retryable(&CoreError::DeviceNotFound));
    assert!(connect_error_is_retryable(&CoreError::OperationTimeout("scan")));
    assert!(!connect_error_is_retryable(&CoreError::AdapterNotFound));
}

#[test]
fn custom_minutes_field() {
    assert_eq!(filter_minutes_input("1a2b34"), "123");
    assert_eq!(filter_minutes_input("x"), "");
    assert_eq!(custom_minutes(" 183 "), Some(183));
    assert_eq!(custom_minutes(""), None);
    assert_eq!(custom_minutes("0"), None);
    assert_eq!(custom_minutes("000"), None);
    assert_eq!(custom_minutes("1"), Some(1));
    assert_eq!(custom_minutes("65534"), Some(65534));
    assert_eq!(custom_minutes("65535"), None);
}

#[test]
fn settings_default_when_nothing_was_saved() {
    assert_eq!(load_settings(None), AppSettings { theme: None, language: None });
    let saved = AppSettings { theme: Some("Nord".into()), language: Some("en".into()) };
    assert_eq!(load_settings(Some(saved.clone())), saved);
}

#[test]
fn whitespace_and_control_classes_match_the_standard_library() {
    for u in 0u32..0x3100 {
        if let Some(c) = char::from_u32(u) {
            assert_eq!(qcyx::text::char_is_whitespace(c), c.is_whitespace(), "{u:#x}");
            assert_eq!(qcyx::text::char_is_control(c), c.is_control(), "{u:#x}");
        }
    }
}

#[test]
fn decimal_parsing_matches_the_standard_library() {
    for s in ["0", "65535", "65536", "+7", "-7", "+", "", "00012", "1 ", "12a"] {
        let chars: Vec<char> = s.chars().collect();
        assert_eq!(qcyx::text::parse_u16(&chars), s.parse::<u16>().ok(), "{s}");
    }
}
