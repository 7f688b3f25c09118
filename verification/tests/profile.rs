use qcyx::command::{AncScene, TransparencyMode};
use qcyx::eq::{EqPreset, CUSTOM_BAND_COUNT, CUSTOM_GAIN_MAX_DB};
use qcyx::game_mode::GameMode;
use qcyx::notification_volume::NotificationVolume;
use qcyx::profile::{Profile, ProfileError, MAX_JSON_BYTES, MAX_NAME_CHARS};

fn sample() -> Profile {
    Profile::from_current(
        "My profile".into(),
        Some(AncScene::Normal),
        Some(EqPreset::Rock),
        None,
        Some(60),
        Some(NotificationVolume::Low),
        Some(GameMode::Off),
    )
}

/// What an export followed by an import gives back: the built-in flag is
/// never written, so it always comes back `false`.
fn import(profile: &Profile) -> Result<Profile, ProfileError> {
    let mut written = profile.clone();
    written.built_in = false;
    Profile::from_json_outcome(512, Ok(written))
}

#[test]
fn built_in_profiles_are_reserved_and_valid() {
    let profiles = Profile::built_in();
    assert!(!profiles.is_empty());
    for profile in profiles {
        assert!(profile.built_in);
        assert!(Profile::is_reserved_name(&profile.name));
        assert_eq!(profile.validate(), Ok(()));
    }
}

#[test]
fn round_trips_through_json() {
    let parsed = import(&sample()).unwrap();
    assert_eq!(parsed.name, "My profile");
    assert_eq!(parsed.anc_scene, Some(AncScene::Normal));
    assert_eq!(parsed.eq_preset, Some(EqPreset::Rock));
    assert_eq!(parsed.balance, Some(60));
    assert!(!parsed.built_in);
}

#[test]
fn eq_only_profile_leaves_other_fields_none() {
    let profile = Profile::from_current_eq("Bass".into(), None, Some([1; CUSTOM_BAND_COUNT]));
    assert_eq!(profile.anc_scene, None);
    assert_eq!(profile.balance, None);
    assert!(profile.eq_custom.is_some());
}

#[test]
fn eq_only_strips_non_eq_fields() {
    let profile = sample().eq_only();
    assert_eq!(profile.eq_preset, Some(EqPreset::Rock));
    assert!(profile.anc_scene.is_none() && profile.balance.is_none());
    assert!(profile.notification_volume.is_none() && profile.game_mode.is_none());
}

#[test]
fn sanitizes_the_name_on_import() {
    let mut profile = sample();
    profile.name = "  Night\u{7} mode ".into();
    assert_eq!(import(&profile).unwrap().name, "Night mode");
}

#[test]
fn sanitize_name_caps_length_and_is_idempotent() {
    let once = Profile::sanitize_name(&format!("{} tail", "n".repeat(MAX_NAME_CHARS - 1)));
    assert_eq!(once, "n".repeat(MAX_NAME_CHARS - 1));
    assert_eq!(Profile::sanitize_name(&once), once);
}

#[test]
fn rejects_blank_and_reserved_names() {
    let mut profile = sample();
    profile.name = " \u{0} ".into();
    assert_eq!(import(&profile), Err(ProfileError::InvalidName));

    profile.name = "built-in-focus".into();
    assert_eq!(import(&profile), Err(ProfileError::InvalidName));
}

#[test]
fn rejects_out_of_range_values() {
    let mut profile = sample();
    profile.anc_scene = Some(AncScene::Transparency(TransparencyMode::AmbientSound { level: 9 }));
    assert_eq!(import(&profile), Err(ProfileError::OutOfRange("anc_scene")));

    let mut profile = sample();
    profile.balance = Some(101);
    assert_eq!(import(&profile), Err(ProfileError::OutOfRange("balance")));

    let mut profile = sample();
    profile.eq_preset = None;
    profile.eq_custom = Some([CUSTOM_GAIN_MAX_DB + 1; CUSTOM_BAND_COUNT]);
    assert_eq!(import(&profile), Err(ProfileError::OutOfRange("eq_custom")));
}

#[test]
fn rejects_a_preset_and_a_custom_curve_together() {
    let mut profile = sample();
    profile.eq_custom = Some([0; CUSTOM_BAND_COUNT]);
    assert_eq!(import(&profile), Err(ProfileError::EqConflict));
}

#[test]
fn rejects_profiles_without_settings() {
    let profile = Profile::from_current_eq("Empty".into(), None, None);
    assert_eq!(import(&profile), Err(ProfileError::Empty));
}

#[test]
fn rejects_malformed_and_oversized_documents() {
    assert!(matches!(
        Profile::from_json_outcome(1, Err("EOF while parsing an object".into())),
        Err(ProfileError::Parse(_))
    ));

    let padded = format!("{{\"name\":\"{}\"}}", "a".repeat(MAX_JSON_BYTES));
    assert_eq!(Profile::from_json_outcome(padded.len(), Ok(sample())), Err(ProfileError::TooLarge));
    assert_eq!(Profile::check_json_size(padded.len()), Err(ProfileError::TooLarge));
    assert_eq!(Profile::check_json_size(MAX_JSON_BYTES), Ok(()));
}

#[test]
fn error_messages_resolve_at_runtime() {
    for error in [
        ProfileError::Parse("eof".into()),
        ProfileError::TooLarge,
        ProfileError::InvalidName,
        ProfileError::Empty,
        ProfileError::EqConflict,
        ProfileError::OutOfRange("balance"),
    ] {
        assert!(!error.message().contains("No localization"), "{error:?}");
    }
}

#[test]
fn built_in_profiles_stay_valid_after_import_as_user_profiles_only_when_renamed() {
    let focus = Profile::built_in().remove(0);
    assert_eq!(import(&focus), Err(ProfileError::InvalidName));
    let mut renamed = focus.clone();
    renamed.name = "Focus copy".into();
    assert_eq!(import(&renamed).unwrap().name, "Focus copy");
}

#[test]
fn validate_requires_an_already_sanitized_name() {
    let mut profile = sample();
    profile.name = " padded ".into();
    assert_eq!(profile.validate(), Err(ProfileError::InvalidName));
    profile.name = "padded".into();
    assert_eq!(profile.validate(), Ok(()));
    assert!(!Profile::is_reserved_name("built-in"));
    assert!(Profile::is_reserved_name("built-in-"));
}

#[test]
fn custom_gain_bounds_are_inclusive() {
    let mut profile = sample();
    profile.eq_preset = None;
    profile.eq_custom = Some([-8, 8, 0, 0, 0, 0, 0, 0, 0, 0]);
    assert_eq!(profile.validate_settings(), Ok(()));
    profile.eq_custom = Some([-9, 0, 0, 0, 0, 0, 0, 0, 0, 0]);
    assert_eq!(profile.validate_settings(), Err(ProfileError::OutOfRange("eq_custom")));
}
