//! Notification volume control.
//! Written to the command characteristic (`00001001`, `0xFF`-framed).

use crate::balance::first_byte;
use crate::protocol::Command;
use vstd::prelude::*;

verus! {

/// Opcode for notification volume (read and write).
pub const OPCODE: u8 = 0x1D;

/// The four levels the official app exposes for notification volume.
#[derive(Debug, Clone, Copy, PartialEq, Eq, Structural)]
pub enum NotificationVolume {
    Low,
    Medium,
    High,
    Max,
}

pub open spec fn volume_raw(level: NotificationVolume) -> u8 {
    match level {
        NotificationVolume::Low => 0x04,
        NotificationVolume::Medium => 0x06,
        NotificationVolume::High => 0x08,
        NotificationVolume::Max => 0x0A,
    }
}

pub open spec fn volume_from_raw(value: u8) -> Option<NotificationVolume> {
    if value == 0x04 {
        Some(NotificationVolume::Low)
    } else if value == 0x06 {
        Some(NotificationVolume::Medium)
    } else if value == 0x08 {
        Some(NotificationVolume::High)
    } else if value == 0x0A {
        Some(NotificationVolume::Max)
    } else {
        None
    }
}

/// What [`parse_notification_volume`] yields: only the first byte carries
/// the level; the second is a status flag.
pub open spec fn volume_of(params: Seq<u8>) -> Option<NotificationVolume> {
    match first_byte(params) {
        Some(b) => volume_from_raw(b),
        None => None,
    }
}

impl NotificationVolume {
    pub fn raw(self) -> (r: u8)
        ensures
            r == volume_raw(self),
    {
        match self {
            NotificationVolume::Low => 0x04,
            NotificationVolume::Medium => 0x06,
            NotificationVolume::High => 0x08,
            NotificationVolume::Max => 0x0A,
        }
    }

    pub fn from_raw(value: u8) -> (r: Option<Self>)
        ensures
            r == volume_from_raw(value),
    {
        match value {
            0x04 => Some(NotificationVolume::Low),
            0x06 => Some(NotificationVolume::Medium),
            0x08 => Some(NotificationVolume::High),
            0x0A => Some(NotificationVolume::Max),
            _ => None,
        }
    }
}

/// Builds the notification-volume-set write command.
///
/// Wire shape is `[level, 0x00]`; the device echoes back `[level, 0x0F]`.
pub fn set_notification_volume(level: NotificationVolume) -> (cmd: Command)
    ensures
        cmd.opcode == OPCODE,
        cmd.parameters@ == seq![volume_raw(level), 0x00u8],
{
    Command::new(OPCODE, vec![level.raw(), 0x00])
}

/// Parses a notification-volume reading from a query/echo payload.
pub fn parse_notification_volume(params: &[u8]) -> (r: Option<NotificationVolume>)
    ensures
        r == volume_of(params@),
{
    if params.len() < 1 {
        return None;
    }
    NotificationVolume::from_raw(params[0])
}

/// A written level reads back as itself, from the write or from the echo.
pub proof fn lemma_notification_volume_round_trip(level: NotificationVolume, status: u8)
    ensures
        volume_of(seq![volume_raw(level), 0x00u8]) == Some(level),
        volume_of(seq![volume_raw(level), status]) == Some(level),
{
}

} // verus!
