//! LDAC codec toggle.
//! Written to the command characteristic (`00001001`, `0xFF`-framed).
//!
//! Writes take a `0x01`/`0x02` mode selector, but the device reports state
//! back as a plain `0x00`/`0x01` boolean: encode and decode are asymmetric.

use crate::balance::first_byte;
use crate::protocol::Command;
use vstd::prelude::*;

verus! {

/// Opcode for LDAC (read and write).
pub const OPCODE: u8 = 0x23;

/// LDAC codec state.
#[derive(Debug, Clone, Copy, PartialEq, Eq, Structural)]
pub enum Ldac {
    On,
    Off,
}

/// Write-side selector: On = `0x01`, Off = `0x02`.
pub open spec fn ldac_raw(state: Ldac) -> u8 {
    match state {
        Ldac::On => 0x01,
        Ldac::Off => 0x02,
    }
}

/// Read-side decoding: Off = `0x00`, On = `0x01`.
pub open spec fn ldac_from_raw(value: u8) -> Option<Ldac> {
    if value == 0x01 {
        Some(Ldac::On)
    } else if value == 0x00 {
        Some(Ldac::Off)
    } else {
        None
    }
}

/// What [`parse_ldac`] yields for a payload.
pub open spec fn ldac_of(params: Seq<u8>) -> Option<Ldac> {
    match first_byte(params) {
        Some(b) => ldac_from_raw(b),
        None => None,
    }
}

impl Ldac {
    pub fn raw(self) -> (r: u8)
        ensures
            r == ldac_raw(self),
    {
        match self {
            Ldac::On => 0x01,
            Ldac::Off => 0x02,
        }
    }

    pub fn from_raw(value: u8) -> (r: Option<Self>)
        ensures
            r == ldac_from_raw(value),
    {
        match value {
            0x01 => Some(Ldac::On),
            0x00 => Some(Ldac::Off),
            _ => None,
        }
    }
}

/// Builds the LDAC-set write command.
pub fn set_ldac(state: Ldac) -> (cmd: Command)
    ensures
        cmd.opcode == OPCODE,
        cmd.parameters@ == seq![ldac_raw(state)],
{
    Command::new(OPCODE, vec![state.raw()])
}

/// Parses a LDAC reading from a query/echo payload.
pub fn parse_ldac(params: &[u8]) -> (r: Option<Ldac>)
    ensures
        r == ldac_of(params@),
{
    if params.len() < 1 {
        return None;
    }
    Ldac::from_raw(params[0])
}

/// Writes and reads use different encodings: the On selector reads back as
/// On, while the Off selector is not a value the device reports.
pub proof fn lemma_ldac_asymmetric_encoding()
    ensures
        ldac_of(seq![ldac_raw(Ldac::On)]) == Some(Ldac::On),
        ldac_of(seq![ldac_raw(Ldac::Off)]) is None,
        ldac_of(seq![0x00u8]) == Some(Ldac::Off),
{
}

} // verus!
