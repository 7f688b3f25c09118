//! Opcodes for device actions.

use vstd::prelude::*;

verus! {

/// Resets settings to default.
pub const RESET_DEFAULT: u8 = 0x01;

/// Factory reset.
pub const FACTORY_RESET: u8 = 0x03;

/// Device rename. Opcode + length-prefixed UTF-8 name bytes.
pub const PAIRNAME: u8 = 0x18;

} // verus!
