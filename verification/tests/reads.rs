use qcyx::touch_action::{set_touch_action, TouchAction, TouchActionMap, TouchControl};
use qcyx::version::FirmwareVersion;

#[test]
fn packs_left_single_none() {
    assert_eq!(set_touch_action(TouchControl::LeftSingle, TouchAction::NoAction), [0x01, 0x00]);
}

#[test]
fn packs_right_triple_anc() {
    assert_eq!(set_touch_action(TouchControl::RightTriple, TouchAction::Anc), [0x06, 0x0b]);
}

#[test]
fn parses_full_table() {
    let data = [
        0x01, 0x01, 0x02, 0x01, 0x03, 0x06, 0x04, 0x05, 0x05, 0x02, 0x06, 0x03, 0x07, 0x00, 0x08,
        0x00, 0x00, 0x00, 0x00, 0x00,
    ];
    let map = TouchActionMap::parse(&data);
    assert_eq!(map.left_single, Some(TouchAction::PlayPause));
    assert_eq!(map.right_single, Some(TouchAction::PlayPause));
    assert_eq!(map.left_double, Some(TouchAction::VolumeDown));
    assert_eq!(map.right_double, Some(TouchAction::VolumeUp));
    assert_eq!(map.left_triple, Some(TouchAction::Previous));
    assert_eq!(map.right_triple, Some(TouchAction::Next));
}

#[test]
fn parses_updated_table_after_a_write() {
    let data = [
        0x01, 0x00, 0x02, 0x01, 0x03, 0x06, 0x04, 0x05, 0x05, 0x02, 0x06, 0x03, 0x07, 0x00, 0x08,
        0x00, 0x00, 0x00, 0x00, 0x00,
    ];
    assert_eq!(TouchActionMap::parse(&data).left_single, Some(TouchAction::NoAction));
}

#[test]
fn later_pairs_win_and_odd_tails_are_ignored() {
    let map = TouchActionMap::parse(&[0x01, 0x01, 0x01, 0x0b, 0x02, 0x09, 0x03]);
    assert_eq!(map.left_single, Some(TouchAction::Anc));
    assert_eq!(map.right_single, None);
    assert_eq!(map.left_double, None);
    assert_eq!(TouchActionMap::parse(&[]), TouchActionMap::default());
}

#[test]
fn every_assignment_reads_back() {
    for control in qcyx::touch_action::all_controls() {
        for action in qcyx::touch_action::all_actions() {
            let payload = set_touch_action(control, action);
            let map = TouchActionMap::parse(&payload);
            let mut expected = TouchActionMap::default();
            expected.set_slot(control, Some(action));
            assert_eq!(map, expected);
        }
    }
}

#[test]
fn action_labels() {
    assert_eq!(TouchAction::NoAction.label(), "No action");
    assert_eq!(TouchAction::PlayPause.label(), "Play / Pause");
    assert_eq!(TouchAction::Anc.label(), "ANC");
}

#[test]
fn parses_both_earbuds() {
    let v = FirmwareVersion::parse(&[1, 2, 3, 4, 5, 6]).unwrap();
    assert_eq!(v.left.as_deref(), Some("1.2.3"));
    assert_eq!(v.right.as_deref(), Some("4.5.6"));
}

#[test]
fn left_only_when_payload_short() {
    let v = FirmwareVersion::parse(&[9, 9, 9]).unwrap();
    assert_eq!(v.left.as_deref(), Some("9.9.9"));
    assert_eq!(v.right, None);
}

#[test]
fn empty_payload_is_none() {
    assert_eq!(FirmwareVersion::parse(&[]), None);
}

#[test]
fn display_collapses_matching_versions() {
    let v = FirmwareVersion::parse(&[1, 2, 3, 1, 2, 3]).unwrap();
    assert_eq!(v.display().as_deref(), Some("1.2.3"));
}

#[test]
fn display_shows_both_when_different() {
    let v = FirmwareVersion::parse(&[1, 2, 3, 4, 5, 6]).unwrap();
    assert_eq!(v.display().as_deref(), Some("1.2.3 / 4.5.6"));
}

#[test]
fn display_none_when_both_missing() {
    let v = FirmwareVersion { left: None, right: None };
    assert_eq!(v.display(), None);
}

#[test]
fn versions_print_multi_digit_numbers() {
    let v = FirmwareVersion::parse(&[10, 0, 255, 1, 2]).unwrap();
    assert_eq!(v.left.as_deref(), Some("10.0.255"));
    assert_eq!(v.right, None);
    let only_right = FirmwareVersion { left: None, right: Some("4.5.6".to_string()) };
    assert_eq!(only_right.display().as_deref(), Some("4.5.6"));
}
