use qcyx::balance;
use qcyx::battery::{BatteryComponent, BatteryStatus};
use qcyx::client::WriteKind;
use qcyx::device::profile::{
    plan_setup, BATTERY_UUID, COMMAND_UUID, NOTIFY_UUID, SERVICE_UUID, TOUCH_ACTION_UUID,
    VERSION_UUID,
};
use qcyx::error::CoreError;
use qcyx::protocol::{Command, MAX_PARAMETERS};
use qcyx::query::request;
use qcyx::response::{dispatch, AncResult, AncSetting, Event};
use qcyx::command::opcode;

#[test]
fn packs_frame_correctly() {
    let cmd = Command::new(0x17, vec![0x02, 0x00, 0x00]);
    assert_eq!(cmd.pack(), vec![0xFF, 0x05, 0x17, 0x03, 0x02, 0x00, 0x00]);
}

#[test]
fn parses_single_command() {
    let packet = [0xFF, 0x05, 0x17, 0x03, 0x02, 0x00, 0x00];
    let commands = Command::parse(&packet).unwrap();
    assert_eq!(commands.len(), 1);
    assert_eq!(commands[0].opcode, 0x17);
    assert_eq!(commands[0].parameters, vec![0x02, 0x00, 0x00]);
}

#[test]
fn rejects_missing_sof() {
    assert!(Command::parse(&[0x00, 0x05, 0x17, 0x03, 0x02, 0x00, 0x00]).is_err());
}

#[test]
fn rejects_body_length_mismatch() {
    assert!(Command::parse(&[0xFF, 0x09, 0x17, 0x03, 0x02, 0x00, 0x00]).is_err());
}

#[test]
fn parses_two_blocks_in_one_frame() {
    let packet = [0xFF, 0x08, 0x17, 0x03, 0x03, 0x02, 0x00, 0x16, 0x01, 0x32];
    let commands = Command::parse(&packet).unwrap();
    assert_eq!(commands.len(), 2);
    assert_eq!(commands[1], Command::new(0x16, vec![0x32]));
}

#[test]
fn rejects_truncated_blocks_and_short_packets() {
    assert!(Command::parse(&[0xFF, 0x02, 0x17, 0x05]).is_err());
    assert!(Command::parse(&[0xFF, 0x03, 0x17, 0x00, 0x16]).is_err());
    assert!(Command::parse(&[0xFF, 0x01, 0x17]).is_err());
}

#[test]
fn pack_then_parse_round_trips() {
    let cmd = Command::new(0x2C, vec![0x01, 0x01, 0x00]);
    assert_eq!(Command::parse(&cmd.pack()).unwrap(), vec![cmd]);
    let empty = Command::new(0x01, vec![]);
    assert_eq!(Command::parse(&empty.pack()).unwrap(), vec![empty]);
}

#[test]
fn validate_rejects_oversized_parameters() {
    assert!(Command::new(0x18, vec![0; MAX_PARAMETERS]).validate().is_ok());
    assert_eq!(
        Command::new(0x18, vec![0; MAX_PARAMETERS + 1]).validate(),
        Err(qcyx::error::CoreError::FrameTooLarge(MAX_PARAMETERS + 1))
    );
}

#[test]
fn packs_lengths_modulo_256() {
    let cmd = Command::new(0x01, vec![7; 300]);
    let packet = cmd.pack();
    assert_eq!(packet[1], ((300 + 2) % 256) as u8);
    assert_eq!(packet[3], (300 % 256) as u8);
    assert_eq!(packet.len(), 304);
}

#[test]
fn packs_centered_value() {
    let cmd = balance::set_balance(50);
    assert_eq!(cmd.parameters, vec![50]);
    assert_eq!(cmd.pack(), vec![0xFF, 0x03, 0x16, 0x01, 50]);
}

#[test]
fn clamps_above_100() {
    assert_eq!(balance::set_balance(200).parameters, vec![100]);
}

#[test]
fn balance_parses_real_capture_reading() {
    assert_eq!(balance::parse_balance(&[0x32]), Some(50));
}

#[test]
fn balance_rejects_empty_payload() {
    assert_eq!(balance::parse_balance(&[]), None);
}

#[test]
fn parses_non_charging_levels() {
    let status = BatteryStatus::parse(&[80, 75, 90]).unwrap();
    assert_eq!(status.left, BatteryComponent { level: 80, charging: false });
    assert_eq!(status.right, BatteryComponent { level: 75, charging: false });
    assert_eq!(status.case, BatteryComponent { level: 90, charging: false });
}

#[test]
fn parses_charging_flag_from_high_bit() {
    let status = BatteryStatus::parse(&[0xB7, 50, 0xFF]).unwrap();
    assert_eq!(status.left, BatteryComponent { level: 55, charging: true });
    assert_eq!(status.right, BatteryComponent { level: 50, charging: false });
    assert_eq!(status.case, BatteryComponent { level: 127, charging: true });
}

#[test]
fn battery_rejects_short_payload() {
    assert_eq!(BatteryStatus::parse(&[1, 2]), None);
}

#[test]
fn battery_parses_real_capture_reading() {
    let status = BatteryStatus::parse(&[0x5f, 0x5f, 0x00]).unwrap();
    assert_eq!(status.left, BatteryComponent { level: 95, charging: false });
    assert_eq!(status.right, BatteryComponent { level: 95, charging: false });
    assert_eq!(status.case, BatteryComponent { level: 0, charging: false });
}

#[test]
fn packs_query_matching_capture() {
    let cmd = request(0x1D);
    assert_eq!(cmd.parameters, vec![0x1D]);
    assert_eq!(cmd.pack(), vec![0xFF, 0x03, 0xFE, 0x01, 0x1D]);
}

#[test]
fn packs_query_for_pairname_matching_docs() {
    let cmd = request(0x18);
    assert_eq!(cmd.pack(), vec![0xFF, 0x03, 0xFE, 0x01, 0x18]);
}

#[test]
fn dispatches_anc_result_from_capture() {
    assert_eq!(
        dispatch(opcode::ANC_RESULT, &[0x01]),
        Event::AncResult(AncResult { applied: true })
    );
}

#[test]
fn dispatches_anc_setting_from_capture() {
    assert_eq!(
        dispatch(opcode::ANC_SETTING, &[0x03, 0x02, 0x00]),
        Event::AncSetting(AncSetting { mode: 0x03, sub_scene: 0x02, noise_value: 0x00 })
    );
}

#[test]
fn falls_back_to_raw_for_unknown_opcode() {
    assert_eq!(
        dispatch(0x99, &[0x07, 0x08]),
        Event::Raw { opcode: 0x99, params: vec![0x07, 0x08] }
    );
}

#[test]
fn dispatches_balance_from_capture() {
    assert_eq!(dispatch(balance::OPCODE, &[0x32]), Event::Balance(50));
}

#[test]
fn short_known_blocks_fall_back_to_raw() {
    assert_eq!(
        dispatch(opcode::ANC_SETTING, &[0x03]),
        Event::Raw { opcode: opcode::ANC_SETTING, params: vec![0x03] }
    );
    assert_eq!(
        dispatch(opcode::ANC_RESULT, &[]),
        Event::Raw { opcode: opcode::ANC_RESULT, params: vec![] }
    );
    assert_eq!(
        dispatch(opcode::ANC_RESULT, &[0x00]),
        Event::AncResult(AncResult { applied: false })
    );
}

#[test]
fn service_and_command_uuids_differ() {
    assert_ne!(SERVICE_UUID, COMMAND_UUID);
    assert_ne!(COMMAND_UUID, NOTIFY_UUID);
    assert_ne!(BATTERY_UUID, COMMAND_UUID);
    assert_ne!(BATTERY_UUID, NOTIFY_UUID);
    assert_ne!(VERSION_UUID, BATTERY_UUID);
    assert_ne!(VERSION_UUID, COMMAND_UUID);
}

#[test]
fn finds_characteristics_only_in_the_qcy_service() {
    let other_service = 0x00007033_0000_1000_8000_00805f9b34fbu128;
    let chars = [(COMMAND_UUID, other_service), (NOTIFY_UUID, SERVICE_UUID), (COMMAND_UUID, SERVICE_UUID)];
    assert_eq!(qcyx::device::profile::find_characteristic(&chars, COMMAND_UUID), Some(2));
    assert_eq!(qcyx::device::profile::find_characteristic(&chars, NOTIFY_UUID), Some(1));
    assert_eq!(qcyx::device::profile::find_characteristic(&chars, BATTERY_UUID), None);
}

#[test]
fn setup_plan_needs_notify_then_command() {
    let other_service = 0x00007033_0000_1000_8000_00805f9b34fbu128;
    let chars = [
        (COMMAND_UUID, other_service),
        (NOTIFY_UUID, SERVICE_UUID),
        (COMMAND_UUID, SERVICE_UUID),
        (TOUCH_ACTION_UUID, SERVICE_UUID),
    ];
    let plan = plan_setup(&chars, &[true, false, true, false]).unwrap();
    assert_eq!(plan.notify, 1);
    assert_eq!(plan.command, 2);
    assert_eq!(plan.battery, None);
    assert_eq!(plan.touch_action, Some(3));
    assert_eq!(plan.write_kind, WriteKind::WithoutResponse);
    let plan = plan_setup(&chars, &[true, false, false, false]).unwrap();
    assert_eq!(plan.write_kind, WriteKind::WithResponse);

    assert_eq!(
        plan_setup(&chars[..1], &[true]),
        Err(CoreError::CharacteristicNotFound("notify (00001002)".to_string()))
    );
    assert_eq!(
        plan_setup(&chars[..2], &[true, true]),
        Err(CoreError::CharacteristicNotFound("command (00001001)".to_string()))
    );
}
