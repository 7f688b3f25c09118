//! Power-off-after-disconnect timer.
//! Written to the command characteristic (`00001001`, `0xFF`-framed).
//!
//! Distinct from the scheduled timer: this one only starts once the earbuds
//! lose the Bluetooth connection, and powers them off after it elapses
//! unless reconnected first.

use crate::protocol::Command;
use vstd::prelude::*;

verus! {

/// Opcode for the disconnect power-off timer (read and write).
pub const OPCODE: u8 = 0x1F;

/// Sentinel `u16` value meaning "never power off".
pub const NEVER: u16 = 0xFFFF;

/// The device's default on first connect, before any user change.
pub const DEFAULT_MINUTES: u16 = 5;

/// Smallest arming value accepted from user input; `0` was never observed
/// on the wire.
pub const MIN_MINUTES: u16 = 1;

/// Largest arming value accepted from user input: [`NEVER`] itself would
/// silently turn the timer off.
pub const MAX_MINUTES: u16 = NEVER - 1;

/// A disconnect power-off setting: never, or a number of minutes.
#[derive(Debug, Clone, Copy, PartialEq, Eq, Structural)]
pub enum DisconnectPowerOff {
    Never,
    /// Minutes after disconnect until power-off. Official app presets are 5/10/30/60.
    Minutes(u16),
}

pub open spec fn disconnect_power_off_raw(value: DisconnectPowerOff) -> u16 {
    match value {
        DisconnectPowerOff::Never => NEVER,
        DisconnectPowerOff::Minutes(m) => m,
    }
}

pub open spec fn disconnect_power_off_from_raw(value: u16) -> DisconnectPowerOff {
    if value == NEVER {
        DisconnectPowerOff::Never
    } else {
        DisconnectPowerOff::Minutes(value)
    }
}

/// Little-endian `u16` from two bytes.
pub open spec fn le_u16(lo: u8, hi: u8) -> u16 {
    (lo as int + 256 * (hi as int)) as u16
}

/// What [`parse_disconnect_power_off`] yields: the first two bytes, little-endian.
pub open spec fn disconnect_power_off_of(params: Seq<u8>) -> Option<DisconnectPowerOff> {
    if params.len() < 2 {
        None
    } else {
        Some(disconnect_power_off_from_raw(le_u16(params[0], params[1])))
    }
}

impl DisconnectPowerOff {
    pub fn raw(self) -> (r: u16)
        ensures
            r == disconnect_power_off_raw(self),
    {
        match self {
            DisconnectPowerOff::Never => NEVER,
            DisconnectPowerOff::Minutes(m) => m,
        }
    }

    pub fn from_raw(value: u16) -> (r: Self)
        ensures
            r == disconnect_power_off_from_raw(value),
    {
        if value == NEVER {
            DisconnectPowerOff::Never
        } else {
            DisconnectPowerOff::Minutes(value)
        }
    }
}

/// Builds the disconnect power-off timer-set write command.
///
/// Wire shape is `[lo, hi]` (little-endian minutes), with no trailing pair.
pub fn set_disconnect_power_off(value: DisconnectPowerOff) -> (cmd: Command)
    ensures
        cmd.opcode == OPCODE,
        cmd.parameters@ == seq![(disconnect_power_off_raw(value) % 256) as u8, (disconnect_power_off_raw(value) / 256) as u8],
{
    let raw = value.raw();
    let lo = (raw % 256) as u8;
    let hi = (raw / 256) as u8;
    Command::new(OPCODE, vec![lo, hi])
}

/// Parses a disconnect power-off timer reading from a query/echo payload.
/// Only the first two bytes (little-endian minutes) are read.
pub fn parse_disconnect_power_off(params: &[u8]) -> (r: Option<DisconnectPowerOff>)
    ensures
        r == disconnect_power_off_of(params@),
{
    if params.len() < 2 {
        return None;
    }
    let lo = params[0] as u16;
    let hi = params[1] as u16;
    Some(DisconnectPowerOff::from_raw(lo + 256 * hi))
}

/// A written setting reads back as itself, except a minute count equal to
/// the [`NEVER`] sentinel, which the wire cannot tell apart from it.
pub proof fn lemma_disconnect_power_off_round_trip(value: DisconnectPowerOff)
    requires
        value != DisconnectPowerOff::Minutes(NEVER),
    ensures
        disconnect_power_off_of(seq![(disconnect_power_off_raw(value) % 256) as u8, (disconnect_power_off_raw(value) / 256) as u8]) == Some(value),
{
    let r = disconnect_power_off_raw(value);
    assert(((r % 256) as u8 as int + 256 * ((r / 256) as u8 as int)) as u16 == r);
}

} // verus!
