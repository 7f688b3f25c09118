//! Sleep mode toggle.
//! Written to the command characteristic (`00001001`, `0xFF`-framed).
//!
//! Same `0x01`/`0x02` on/off encoding as game mode, on a different opcode.

use crate::balance::first_byte;
use crate::protocol::Command;
use vstd::prelude::*;

verus! {

/// Opcode for sleep mode (read and write).
pub const OPCODE: u8 = 0x10;

/// Sleep mode state.
#[derive(Debug, Clone, Copy, PartialEq, Eq, Structural)]
pub enum SleepMode {
    On,
    Off,
}

/// Write-side selector: On = `0x01`, Off = `0x02`.
pub open spec fn sleep_mode_raw(state: SleepMode) -> u8 {
    match state {
        SleepMode::On => 0x01,
        SleepMode::Off => 0x02,
    }
}

/// Read-side decoding: On = `0x01`, Off = `0x02`.
pub open spec fn sleep_mode_from_raw(value: u8) -> Option<SleepMode> {
    if value == 0x01 {
        Some(SleepMode::On)
    } else if value == 0x02 {
        Some(SleepMode::Off)
    } else {
        None
    }
}

/// What [`parse_sleep_mode`] yields for a payload.
pub open spec fn sleep_mode_of(params: Seq<u8>) -> Option<SleepMode> {
    match first_byte(params) {
        Some(b) => sleep_mode_from_raw(b),
        None => None,
    }
}

impl SleepMode {
    pub fn raw(self) -> (r: u8)
        ensures
            r == sleep_mode_raw(self),
    {
        match self {
            SleepMode::On => 0x01,
            SleepMode::Off => 0x02,
        }
    }

    pub fn from_raw(value: u8) -> (r: Option<Self>)
        ensures
            r == sleep_mode_from_raw(value),
    {
        match value {
            0x01 => Some(SleepMode::On),
            0x02 => Some(SleepMode::Off),
            _ => None,
        }
    }
}

/// Builds the sleep mode-set write command.
pub fn set_sleep_mode(state: SleepMode) -> (cmd: Command)
    ensures
        cmd.opcode == OPCODE,
        cmd.parameters@ == seq![sleep_mode_raw(state)],
{
    Command::new(OPCODE, vec![state.raw()])
}

/// Parses a sleep mode reading from a query/echo payload.
pub fn parse_sleep_mode(params: &[u8]) -> (r: Option<SleepMode>)
    ensures
        r == sleep_mode_of(params@),
{
    if params.len() < 1 {
        return None;
    }
    SleepMode::from_raw(params[0])
}

/// A written state reads back as itself.
pub proof fn lemma_sleep_mode_round_trip(state: SleepMode)
    ensures
        sleep_mode_of(seq![sleep_mode_raw(state)]) == Some(state),
{
}

} // verus!
