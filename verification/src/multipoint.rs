//! Dual-device (multipoint) connection toggle.
//! Written to the command characteristic (`00001001`, `0xFF`-framed).
//!
//! Same write/read asymmetry as LDAC: write selector `0x01`/`0x02`, but the
//! device reports state back as `0x00`/`0x01`.

use crate::balance::first_byte;
use crate::protocol::Command;
use vstd::prelude::*;

verus! {

/// Opcode for multipoint (read and write).
pub const OPCODE: u8 = 0x24;

/// Dual-device (multipoint) connection state.
#[derive(Debug, Clone, Copy, PartialEq, Eq, Structural)]
pub enum Multipoint {
    On,
    Off,
}

/// Write-side selector: On = `0x01`, Off = `0x02`.
pub open spec fn multipoint_raw(state: Multipoint) -> u8 {
    match state {
        Multipoint::On => 0x01,
        Multipoint::Off => 0x02,
    }
}

/// Read-side decoding: Off = `0x00`, On = `0x01`.
pub open spec fn multipoint_from_raw(value: u8) -> Option<Multipoint> {
    if value == 0x01 {
        Some(Multipoint::On)
    } else if value == 0x00 {
        Some(Multipoint::Off)
    } else {
        None
    }
}

/// What [`parse_multipoint`] yields for a payload.
pub open spec fn multipoint_of(params: Seq<u8>) -> Option<Multipoint> {
    match first_byte(params) {
        Some(b) => multipoint_from_raw(b),
        None => None,
    }
}

impl Multipoint {
    pub fn raw(self) -> (r: u8)
        ensures
            r == multipoint_raw(self),
    {
        match self {
            Multipoint::On => 0x01,
            Multipoint::Off => 0x02,
        }
    }

    pub fn from_raw(value: u8) -> (r: Option<Self>)
        ensures
            r == multipoint_from_raw(value),
    {
        match value {
            0x01 => Some(Multipoint::On),
            0x00 => Some(Multipoint::Off),
            _ => None,
        }
    }
}

/// Builds the multipoint-set write command.
pub fn set_multipoint(state: Multipoint) -> (cmd: Command)
    ensures
        cmd.opcode == OPCODE,
        cmd.parameters@ == seq![multipoint_raw(state)],
{
    Command::new(OPCODE, vec![state.raw()])
}

/// Parses a multipoint reading from a query/echo payload.
pub fn parse_multipoint(params: &[u8]) -> (r: Option<Multipoint>)
    ensures
        r == multipoint_of(params@),
{
    if params.len() < 1 {
        return None;
    }
    Multipoint::from_raw(params[0])
}

/// Writes and reads use different encodings: the On selector reads back as
/// On, while the Off selector is not a value the device reports.
pub proof fn lemma_multipoint_asymmetric_encoding()
    ensures
        multipoint_of(seq![multipoint_raw(Multipoint::On)]) == Some(Multipoint::On),
        multipoint_of(seq![multipoint_raw(Multipoint::Off)]) is None,
        multipoint_of(seq![0x00u8]) == Some(Multipoint::Off),
{
}

} // verus!
