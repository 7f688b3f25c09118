//! Generic parameter query ("GET") for the `0xFF`-framed protocol.
//! Written to the command characteristic (`00001001`), answered on the
//! notify characteristic (`00001002`) with a block carrying the requested
//! opcode and the parameter's current payload.

use crate::protocol::Command;
use vstd::prelude::*;

verus! {

/// Opcode for a parameter query.
pub const OPCODE: u8 = 0xFE;

/// Builds a query for the current value of `target_opcode`.
pub fn request(target_opcode: u8) -> (cmd: Command)
    ensures
        cmd.opcode == OPCODE,
        cmd.parameters@ == seq![target_opcode],
{
    Command::new(OPCODE, vec![target_opcode])
}

} // verus!
