//! Scheduled power-off timer.
//! Written to the command characteristic (`00001001`, `0xFF`-framed).
//!
//! An idle-independent countdown: once armed the device powers off after the
//! given number of minutes regardless of playback or connection state.

use crate::protocol::Command;
use vstd::prelude::*;

verus! {

/// Opcode for the scheduled power-off timer (read and write).
pub const OPCODE: u8 = 0x14;

/// Sentinel `u16` value meaning "disabled".
pub const DISABLED: u16 = 0xFFFF;

/// Smallest arming value accepted from user input; `0` was never observed
/// on the wire.
pub const MIN_MINUTES: u16 = 1;

/// Largest arming value accepted from user input: [`DISABLED`] itself would
/// silently turn the timer off.
pub const MAX_MINUTES: u16 = DISABLED - 1;

/// A scheduled power-off setting: disabled, or armed for a number of minutes.
#[derive(Debug, Clone, Copy, PartialEq, Eq, Structural)]
pub enum ScheduledPowerOff {
    Disabled,
    /// Minutes until power-off. User input is limited to [`MIN_MINUTES`]`..=`[`MAX_MINUTES`].
    Minutes(u16),
}

pub open spec fn scheduled_power_off_raw(value: ScheduledPowerOff) -> u16 {
    match value {
        ScheduledPowerOff::Disabled => DISABLED,
        ScheduledPowerOff::Minutes(m) => m,
    }
}

pub open spec fn scheduled_power_off_from_raw(value: u16) -> ScheduledPowerOff {
    if value == DISABLED {
        ScheduledPowerOff::Disabled
    } else {
        ScheduledPowerOff::Minutes(value)
    }
}

/// Little-endian `u16` from two bytes.
pub open spec fn le_u16(lo: u8, hi: u8) -> u16 {
    (lo as int + 256 * (hi as int)) as u16
}

/// What [`parse_scheduled_power_off`] yields: the first two bytes, little-endian.
pub open spec fn scheduled_power_off_of(params: Seq<u8>) -> Option<ScheduledPowerOff> {
    if params.len() < 2 {
        None
    } else {
        Some(scheduled_power_off_from_raw(le_u16(params[0], params[1])))
    }
}

impl ScheduledPowerOff {
    pub fn raw(self) -> (r: u16)
        ensures
            r == scheduled_power_off_raw(self),
    {
        match self {
            ScheduledPowerOff::Disabled => DISABLED,
            ScheduledPowerOff::Minutes(m) => m,
        }
    }

    pub fn from_raw(value: u16) -> (r: Self)
        ensures
            r == scheduled_power_off_from_raw(value),
    {
        if value == DISABLED {
            ScheduledPowerOff::Disabled
        } else {
            ScheduledPowerOff::Minutes(value)
        }
    }
}

/// Builds the scheduled power-off timer-set write command.
///
/// Wire shape is `[lo, hi, 0x00, 0x00]` (little-endian minutes, then two
/// zero bytes the device fills in on its own echo).
pub fn set_scheduled_power_off(value: ScheduledPowerOff) -> (cmd: Command)
    ensures
        cmd.opcode == OPCODE,
        cmd.parameters@ == seq![(scheduled_power_off_raw(value) % 256) as u8, (scheduled_power_off_raw(value) / 256) as u8, 0x00u8, 0x00u8],
{
    let raw = value.raw();
    let lo = (raw % 256) as u8;
    let hi = (raw / 256) as u8;
    Command::new(OPCODE, vec![lo, hi, 0x00, 0x00])
}

/// Parses a scheduled power-off timer reading from a query/echo payload.
/// Only the first two bytes (little-endian minutes) are read.
pub fn parse_scheduled_power_off(params: &[u8]) -> (r: Option<ScheduledPowerOff>)
    ensures
        r == scheduled_power_off_of(params@),
{
    if params.len() < 2 {
        return None;
    }
    let lo = params[0] as u16;
    let hi = params[1] as u16;
    Some(ScheduledPowerOff::from_raw(lo + 256 * hi))
}

/// A written setting reads back as itself, except a minute count equal to
/// the [`DISABLED`] sentinel, which the wire cannot tell apart from it.
pub proof fn lemma_scheduled_power_off_round_trip(value: ScheduledPowerOff)
    requires
        value != ScheduledPowerOff::Minutes(DISABLED),
    ensures
        scheduled_power_off_of(seq![(scheduled_power_off_raw(value) % 256) as u8, (scheduled_power_off_raw(value) / 256) as u8, 0x00u8, 0x00u8]) == Some(value),
{
    let r = scheduled_power_off_raw(value);
    assert(((r % 256) as u8 as int + 256 * ((r / 256) as u8 as int)) as u16 == r);
}

} // verus!
