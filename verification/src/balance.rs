//! Channel balance control.
//! Written to the command characteristic (`00001001`, `0xFF`-framed).

use crate::protocol::Command;
use vstd::prelude::*;

verus! {

/// Opcode for channel balance (read and write).
pub const OPCODE: u8 = 0x16;

/// Largest balance value: full right. `0` is full left, `50` centered.
pub const MAX_VALUE: u8 = 100;

/// The first byte of a payload, if any.
pub open spec fn first_byte(params: Seq<u8>) -> Option<u8> {
    if params.len() >= 1 {
        Some(params[0])
    } else {
        None
    }
}

/// Builds the balance-set write command.
/// `value` is clamped to `0..=100` (0: full left, 100: full right, 50: centered).
pub fn set_balance(value: u8) -> (cmd: Command)
    ensures
        cmd.opcode == OPCODE,
        cmd.parameters@ == seq![if value <= MAX_VALUE { value } else { MAX_VALUE }],
{
    let clamped = if value <= MAX_VALUE { value } else { MAX_VALUE };
    Command::new(OPCODE, vec![clamped])
}

/// Parses a balance value from the payload: its first byte.
pub fn parse_balance(params: &[u8]) -> (r: Option<u8>)
    ensures
        r == first_byte(params@),
{
    if params.len() >= 1 {
        Some(params[0])
    } else {
        None
    }
}

/// A written balance reads back as the value written, once clamped.
pub proof fn lemma_balance_round_trip(value: u8)
    ensures
        first_byte(seq![if value <= MAX_VALUE { value } else { MAX_VALUE }]) == Some(
            if value <= MAX_VALUE { value } else { MAX_VALUE },
        ),
{
}

} // verus!
