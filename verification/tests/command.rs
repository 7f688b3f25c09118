use qcyx::command::{
    anc_scene, AncScene, NcLevel, NoiseCancellingMode, TransparencyMode, AMBIENT_LEVEL_MAX,
    AMBIENT_LEVEL_MIN,
};

#[test]
fn anc_scene_normal_matches_capture() {
    let cmd = anc_scene(AncScene::Normal);
    assert_eq!(cmd.parameters, vec![0x02, 0x00, 0x00]);
    assert_eq!(cmd.pack(), vec![0xFF, 0x05, 0x17, 0x03, 0x02, 0x00, 0x00]);
}

#[test]
fn anc_scene_vocal_enhancement_matches_capture() {
    let cmd = anc_scene(AncScene::Transparency(TransparencyMode::VocalEnhancement));
    assert_eq!(cmd.parameters, vec![0x03, 0x02, 0x00]);
    assert_eq!(cmd.pack(), vec![0xFF, 0x05, 0x17, 0x03, 0x03, 0x02, 0x00]);
}

#[test]
fn anc_scene_ambient_sound_matches_capture() {
    for level in [0x01, 0x03, 0x06] {
        let cmd = anc_scene(AncScene::Transparency(TransparencyMode::AmbientSound { level }));
        assert_eq!(cmd.parameters, vec![0x03, 0x01, level]);
    }
}

#[test]
fn anc_scene_noise_cancelling_submodes_match_capture() {
    let cases = [
        (NoiseCancellingMode::Adaptive, [0x01, 0x05, 0x00]),
        (NoiseCancellingMode::Indoor(NcLevel::One), [0x01, 0x01, 0x00]),
        (NoiseCancellingMode::Indoor(NcLevel::Two), [0x01, 0x01, 0x01]),
        (NoiseCancellingMode::Indoor(NcLevel::Three), [0x01, 0x01, 0x02]),
        (NoiseCancellingMode::DailyCommute(NcLevel::One), [0x01, 0x02, 0x00]),
        (NoiseCancellingMode::DailyCommute(NcLevel::Two), [0x01, 0x02, 0x01]),
        (NoiseCancellingMode::DailyCommute(NcLevel::Three), [0x01, 0x02, 0x02]),
        (NoiseCancellingMode::Noisy(NcLevel::One), [0x01, 0x03, 0x00]),
        (NoiseCancellingMode::Noisy(NcLevel::Two), [0x01, 0x03, 0x01]),
        (NoiseCancellingMode::Noisy(NcLevel::Three), [0x01, 0x03, 0x02]),
        (NoiseCancellingMode::WindResistance, [0x01, 0x04, 0x00]),
    ];

    for (mode, expected_params) in cases {
        let cmd = anc_scene(AncScene::NoiseCancelling(mode));
        assert_eq!(cmd.parameters, expected_params.to_vec());
    }
}

#[test]
fn from_triplet_recovers_known_scenes() {
    assert_eq!(AncScene::from_triplet(0x02, 0x00, 0x00), Some(AncScene::Normal));
    assert_eq!(
        AncScene::from_triplet(0x03, 0x02, 0x00),
        Some(AncScene::Transparency(TransparencyMode::VocalEnhancement))
    );
    assert_eq!(
        AncScene::from_triplet(0x01, 0x01, 0x02),
        Some(AncScene::NoiseCancelling(NoiseCancellingMode::Indoor(NcLevel::Three)))
    );
}

#[test]
fn from_triplet_rejects_unknown_level() {
    assert_eq!(AncScene::from_triplet(0x01, 0x01, 0x05), None);
}

#[test]
fn from_triplet_rejects_unknown_values() {
    assert_eq!(AncScene::from_triplet(0x00, 0x00, 0x00), None);
    assert_eq!(AncScene::from_triplet(0xFF, 0xFF, 0xFF), None);
}

#[test]
fn anc_scene_clamps_ambient_level_to_the_confirmed_range() {
    let build = |level| {
        anc_scene(AncScene::Transparency(TransparencyMode::AmbientSound { level })).parameters
    };
    assert_eq!(build(0), vec![0x03, 0x01, AMBIENT_LEVEL_MIN]);
    assert_eq!(build(200), vec![0x03, 0x01, AMBIENT_LEVEL_MAX]);
}

#[test]
fn is_valid_rejects_out_of_range_ambient_levels() {
    let ambient = |level| AncScene::Transparency(TransparencyMode::AmbientSound { level });
    assert!(ambient(AMBIENT_LEVEL_MIN).is_valid());
    assert!(ambient(AMBIENT_LEVEL_MAX).is_valid());
    assert!(!ambient(0).is_valid());
    assert!(!ambient(AMBIENT_LEVEL_MAX + 1).is_valid());
    assert!(AncScene::Normal.is_valid());
}

#[test]
fn every_scene_triplet_parses_back() {
    let mut scenes = vec![
        AncScene::Normal,
        AncScene::Transparency(TransparencyMode::VocalEnhancement),
        AncScene::NoiseCancelling(NoiseCancellingMode::Adaptive),
        AncScene::NoiseCancelling(NoiseCancellingMode::WindResistance),
    ];
    for level in [NcLevel::One, NcLevel::Two, NcLevel::Three] {
        scenes.push(AncScene::NoiseCancelling(NoiseCancellingMode::Indoor(level)));
        scenes.push(AncScene::NoiseCancelling(NoiseCancellingMode::DailyCommute(level)));
        scenes.push(AncScene::NoiseCancelling(NoiseCancellingMode::Noisy(level)));
    }
    for level in 0..=255u8 {
        scenes.push(AncScene::Transparency(TransparencyMode::AmbientSound { level }));
    }
    for scene in scenes {
        let (m, s, n) = scene.triplet();
        assert_eq!(AncScene::from_triplet(m, s, n), Some(scene));
        let p = anc_scene(scene).parameters;
        let written = AncScene::from_triplet(p[0], p[1], p[2]).unwrap();
        assert!(written.is_valid());
    }
}

#[test]
fn nc_level_raw_values_round_trip() {
    for level in [NcLevel::One, NcLevel::Two, NcLevel::Three] {
        assert_eq!(NcLevel::from_raw(level.raw()), Some(level));
    }
    assert_eq!(NcLevel::Three.raw(), 0x02);
    assert_eq!(NcLevel::from_raw(0x03), None);
}
