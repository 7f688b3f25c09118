//! In-ear wear detection and its "ANC" sub-option.
//! Written to the command characteristic (`00001001`, `0xFF`-framed).
//!
//! Enabling wear detection reveals a second toggle that re-applies the last
//! ANC scene when the earbuds are put back in. Both flags live in the same
//! opcode.

use crate::protocol::Command;
use vstd::prelude::*;

verus! {

/// Opcode for wear detection (read and write).
pub const OPCODE: u8 = 0x2C;

/// The two flags exposed by opcode `0x2C`.
#[derive(Debug, Clone, Copy, PartialEq, Eq, Structural)]
pub struct WearDetection {
    /// Main wear-detection toggle.
    pub wear_detection: bool,
    /// The "ANC" sub-toggle revealed once wear detection is on.
    pub anc_on_wear: bool,
}

pub open spec fn flag_byte(enabled: bool) -> u8 {
    if enabled {
        0x01
    } else {
        0x00
    }
}

/// What [`parse_wear_detection`] yields: the first and third bytes carry
/// the flags, any non-zero value meaning on.
pub open spec fn wear_detection_of(params: Seq<u8>) -> Option<WearDetection> {
    if params.len() < 3 {
        None
    } else {
        Some(WearDetection { wear_detection: params[0] != 0, anc_on_wear: params[2] != 0 })
    }
}

pub fn flag(enabled: bool) -> (b: u8)
    ensures
        b == flag_byte(enabled),
{
    if enabled {
        0x01
    } else {
        0x00
    }
}

/// Builds the wear-detection-set write command.
///
/// Wire shape is `[wear_flag, 0x01, anc_flag]`; the middle byte is a
/// constant reserved value.
pub fn set_wear_detection(state: WearDetection) -> (cmd: Command)
    ensures
        cmd.opcode == OPCODE,
        cmd.parameters@ == seq![flag_byte(state.wear_detection), 0x01u8, flag_byte(state.anc_on_wear)],
{
    Command::new(OPCODE, vec![flag(state.wear_detection), 0x01, flag(state.anc_on_wear)])
}

/// Parses a wear-detection reading from a query/echo payload.
pub fn parse_wear_detection(params: &[u8]) -> (r: Option<WearDetection>)
    ensures
        r == wear_detection_of(params@),
{
    if params.len() < 3 {
        return None;
    }
    Some(WearDetection { wear_detection: params[0] != 0x00, anc_on_wear: params[2] != 0x00 })
}

/// A written state reads back as itself.
pub proof fn lemma_wear_detection_round_trip(state: WearDetection)
    ensures
        wear_detection_of(
            seq![flag_byte(state.wear_detection), 0x01u8, flag_byte(state.anc_on_wear)],
        ) == Some(state),
{
}

} // verus!
