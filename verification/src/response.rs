//! Decoders for notifications received on characteristic `00001002`, and
//! [`dispatch`], which turns a parsed command block into a typed [`Event`].

use crate::balance;
use crate::command::opcode;
use vstd::prelude::*;

verus! {

/// Echo of the last ANC-setting write, as reported back by the device.
#[derive(Debug, Clone, Copy, PartialEq, Eq, Structural)]
pub struct AncSetting {
    pub mode: u8,
    pub sub_scene: u8,
    pub noise_value: u8,
}

/// What [`AncSetting::parse`] yields: the first three bytes.
pub open spec fn anc_setting_of(params: Seq<u8>) -> Option<AncSetting> {
    if params.len() < 3 {
        None
    } else {
        Some(AncSetting { mode: params[0], sub_scene: params[1], noise_value: params[2] })
    }
}

impl AncSetting {
    pub fn parse(params: &[u8]) -> (r: Option<Self>)
        ensures
            r == anc_setting_of(params@),
    {
        if params.len() < 3 {
            return None;
        }
        Some(Self { mode: params[0], sub_scene: params[1], noise_value: params[2] })
    }
}

/// Asynchronous confirmation that an ANC-setting write was applied.
#[derive(Debug, Clone, Copy, PartialEq, Eq, Structural)]
pub struct AncResult {
    pub applied: bool,
}

/// What [`AncResult::parse`] yields: applied when the first byte is `0x01`.
pub open spec fn anc_result_of(params: Seq<u8>) -> Option<AncResult> {
    if params.len() < 1 {
        None
    } else {
        Some(AncResult { applied: params[0] == 0x01 })
    }
}

impl AncResult {
    pub fn parse(params: &[u8]) -> (r: Option<Self>)
        ensures
            r == anc_result_of(params@),
    {
        if params.len() < 1 {
            return None;
        }
        Some(Self { applied: params[0] == 0x01 })
    }
}

/// A decoded device notification.
#[derive(Debug, Clone, PartialEq, Eq)]
pub enum Event {
    AncSetting(AncSetting),
    /// Asynchronous confirmation that an ANC scene write was applied.
    AncResult(AncResult),
    /// Channel balance, `0..=100` (`50` = centered).
    Balance(u8),
    /// Any other notification that wasn't specifically decoded.
    Raw { opcode: u8, params: Vec<u8> },
}

/// The typed event for a block, or `None` when it decodes to [`Event::Raw`].
pub open spec fn known_event(opcode_byte: u8, params: Seq<u8>) -> Option<Event> {
    if opcode_byte == opcode::ANC_SETTING {
        match anc_setting_of(params) {
            Some(s) => Some(Event::AncSetting(s)),
            None => None,
        }
    } else if opcode_byte == opcode::ANC_RESULT {
        match anc_result_of(params) {
            Some(a) => Some(Event::AncResult(a)),
            None => None,
        }
    } else if opcode_byte == balance::OPCODE {
        match balance::first_byte(params) {
            Some(b) => Some(Event::Balance(b)),
            None => None,
        }
    } else {
        None
    }
}

fn copy_slice(params: &[u8]) -> (v: Vec<u8>)
    ensures
        v@ == params@,
{
    let v = crate::protocol::copy_range(params, 0, params.len());
    assert(params@.subrange(0, params@.len() as int) == params@);
    v
}

/// Decodes one notification block. A block that is not an ANC echo, an ANC
/// result or a balance reading, or is too short to be one, comes back raw.
pub fn dispatch(opcode_byte: u8, params: &[u8]) -> (e: Event)
    ensures
        match known_event(opcode_byte, params@) {
            Some(k) => e == k,
            None => e matches Event::Raw { opcode, params: p } && opcode == opcode_byte && p@
                == params@,
        },
{
    let known = if opcode_byte == opcode::ANC_SETTING {
        match AncSetting::parse(params) {
            Some(s) => Some(Event::AncSetting(s)),
            None => None,
        }
    } else if opcode_byte == opcode::ANC_RESULT {
        match AncResult::parse(params) {
            Some(a) => Some(Event::AncResult(a)),
            None => None,
        }
    } else if opcode_byte == balance::OPCODE {
        match balance::parse_balance(params) {
            Some(b) => Some(Event::Balance(b)),
            None => None,
        }
    } else {
        None
    };
    match known {
        Some(event) => event,
        None => Event::Raw { opcode: opcode_byte, params: copy_slice(params) },
    }
}

} // verus!
