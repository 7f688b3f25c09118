//! Opcodes used by the ANC control flow.

use vstd::prelude::*;

verus! {

/// ANC control write.
pub const ANC_SETTING: u8 = 0x17;

/// Asynchronous ANC apply-result notification.
pub const ANC_RESULT: u8 = 0x28;

} // verus!
