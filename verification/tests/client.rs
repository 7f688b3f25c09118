use qcyx::client::{
    anc_notification_step, anc_timeout_outcome, battery_from_read, frame_for_write,
    preferred_write_kind, query_reply, rename_command, retry_delay_ms, version_from_read,
    write_kind_for, AncConfirmation, AncStep, StateSync, WriteKind,
};
use qcyx::error::CoreError;
use qcyx::protocol::Command;
use qcyx::response::AncSetting;
use qcyx::session::{best_effort, drops_session, initial_scene_and_balance};
use qcyx::command::AncScene;

#[test]
fn link_failures_are_transport_errors() {
    assert!(CoreError::ConnectionDropped.is_transport());
    assert!(CoreError::NotConnected.is_transport());
    assert!(CoreError::OperationTimeout("write").is_transport());
    assert!(CoreError::BluetoothError("Peripheral not connected".into()).is_transport());
}

#[test]
fn validation_and_parse_failures_keep_the_session() {
    assert!(!CoreError::InvalidName.is_transport());
    assert!(!CoreError::FrameTooLarge(300).is_transport());
    assert!(!CoreError::InvalidPacket("short".into()).is_transport());
    assert!(!CoreError::CharacteristicNotFound("battery".into()).is_transport());
}

#[test]
fn sessions_drop_only_on_transport_failures() {
    assert!(!drops_session::<()>(&Ok(())));
    assert!(drops_session::<()>(&Err(CoreError::ConnectionDropped)));
    assert!(!drops_session::<()>(&Err(CoreError::InvalidName)));
    assert_eq!(best_effort::<u8>(Err(CoreError::DeviceNotFound)), None);
    assert_eq!(best_effort(Ok(7u8)), Some(7));
}

#[test]
fn sync_read_keeps_the_last_anc_and_balance_blocks() {
    let data = [0xFF, 0x0B, 0x17, 0x03, 0x03, 0x02, 0x00, 0x16, 0x01, 0x32, 0x09, 0x01, 0x02];
    let state = StateSync::from_read(&data).unwrap();
    assert_eq!(state.anc, Some(AncSetting { mode: 0x03, sub_scene: 0x02, noise_value: 0x00 }));
    assert_eq!(state.balance, Some(50));
    assert!(matches!(StateSync::from_read(&[0x00, 0x01]), Err(CoreError::InvalidPacket(_))));
    let (scene, balance) = initial_scene_and_balance(Some(state));
    assert_eq!(scene, Some(AncScene::Transparency(qcyx::command::TransparencyMode::VocalEnhancement)));
    assert_eq!(balance, Some(50));
    assert_eq!(initial_scene_and_balance(None), (None, None));
}

#[test]
fn anc_wait_follows_echo_and_result() {
    let echo = Command::new(0x17, vec![0x02, 0x00, 0x00]).pack();
    assert_eq!(anc_notification_step(false, &echo), AncStep::Waiting { echoed: true });
    let applied = Command::new(0x28, vec![0x01]).pack();
    assert_eq!(anc_notification_step(false, &applied), AncStep::Finished(AncConfirmation::Applied));
    let rejected = Command::new(0x28, vec![0x00]).pack();
    assert_eq!(anc_notification_step(true, &rejected), AncStep::Finished(AncConfirmation::Rejected));
    assert_eq!(anc_notification_step(true, &[0x01, 0x02]), AncStep::Waiting { echoed: true });
    let empty_result = Command::new(0x28, vec![]).pack();
    assert_eq!(anc_notification_step(false, &empty_result), AncStep::Waiting { echoed: false });
    assert_eq!(anc_timeout_outcome(true), AncConfirmation::EchoedOnly);
    assert_eq!(anc_timeout_outcome(false), AncConfirmation::NoResponse);
}

#[test]
fn query_replies_pick_the_requested_block() {
    let packet = [0xFF, 0x08, 0x16, 0x01, 0x32, 0x1D, 0x02, 0x08, 0x0F, 0x00];
    assert!(Command::parse(&packet).is_err());
    let packet = [0xFF, 0x07, 0x16, 0x01, 0x32, 0x1D, 0x02, 0x08, 0x0F];
    assert_eq!(query_reply(&packet, 0x1D), Some(vec![0x08, 0x0F]));
    assert_eq!(query_reply(&packet, 0x16), Some(vec![0x32]));
    assert_eq!(query_reply(&packet, 0x09), None);
}

#[test]
fn long_payloads_go_out_with_response() {
    assert_eq!(write_kind_for(23, 20, WriteKind::WithoutResponse), WriteKind::WithoutResponse);
    assert_eq!(write_kind_for(23, 21, WriteKind::WithoutResponse), WriteKind::WithResponse);
    assert_eq!(write_kind_for(2, 1, WriteKind::WithoutResponse), WriteKind::WithResponse);
    assert_eq!(preferred_write_kind(true), WriteKind::WithoutResponse);
    assert_eq!(preferred_write_kind(false), WriteKind::WithResponse);
}

#[test]
fn frames_are_checked_before_writing() {
    let ok = Command::new(0x16, vec![0x32]);
    assert_eq!(frame_for_write(&ok), Ok(vec![0xFF, 0x03, 0x16, 0x01, 0x32]));
    let big = Command::new(0x16, vec![0; 254]);
    assert_eq!(frame_for_write(&big), Err(CoreError::FrameTooLarge(254)));
}

#[test]
fn retries_back_off_linearly() {
    assert_eq!(retry_delay_ms(0), 0);
    assert_eq!(retry_delay_ms(2), 1000);
}

#[test]
fn reads_are_interpreted_or_rejected() {
    assert!(matches!(battery_from_read(&[1]), Err(CoreError::InvalidPacket(_))));
    assert_eq!(battery_from_read(&[0x80, 1, 2]).unwrap().left.charging, true);
    assert!(matches!(version_from_read(&[]), Err(CoreError::InvalidPacket(_))));
    assert_eq!(version_from_read(&[1, 2, 3]).unwrap().left.as_deref(), Some("1.2.3"));
}

#[test]
fn blank_renames_are_refused() {
    assert_eq!(rename_command("  \n ").unwrap_err(), CoreError::InvalidName);
    assert_eq!(rename_command(" Buds ").unwrap().parameters, b"Buds".to_vec());
    assert_eq!(rename_command("\u{0} \u{0}").unwrap_err(), CoreError::InvalidName);
}
