//! GATT profile constants for the QCY BLE protocol, as 128-bit UUID values.
//!
//! The device exposes at least one other GATT service (`0x7033`) that reuses
//! the same 16-bit characteristic numbers as [`SERVICE_UUID`]: every
//! characteristic lookup must filter by both the characteristic's UUID and
//! its service's UUID.

use crate::client::{WriteKind, preferred_write_kind};
use crate::error::CoreError;
use vstd::prelude::*;

verus! {

/// BLE manufacturer-data Company ID broadcast by QCY earbuds.
pub const QCY_COMPANY_ID: u16 = 0x521c;

/// Main QCY BLE GATT service.
pub const SERVICE_UUID: u128 = 0x0000a001_0000_1000_8000_00805f9b34fb;

/// Command write characteristic. Main protocol channel, `0xFF`-framed.
pub const COMMAND_UUID: u128 = 0x00001001_0000_1000_8000_00805f9b34fb;

/// Notification characteristic. Receives `0xFF`-framed responses,
/// including the ANC echo and the asynchronous ANC result.
pub const NOTIFY_UUID: u128 = 0x00001002_0000_1000_8000_00805f9b34fb;

/// Battery-status characteristic: 3 raw bytes `[left, right, case]`.
pub const BATTERY_UUID: u128 = 0x00000008_0000_1000_8000_00805f9b34fb;

/// Firmware version characteristic. Direct-read pattern.
pub const VERSION_UUID: u128 = 0x00000007_0000_1000_8000_00805f9b34fb;

/// Touch-action characteristic. Raw 2-byte `[control, action]` writes,
/// not `0xFF`-framed.
pub const TOUCH_ACTION_UUID: u128 = 0x0000000d_0000_1000_8000_00805f9b34fb;

/// The characteristic a lookup should resolve to: the one with the wanted
/// UUID that belongs to the QCY service.
pub open spec fn is_qcy_characteristic(uuid: u128, service_uuid: u128, wanted: u128) -> bool {
    uuid == wanted && service_uuid == SERVICE_UUID
}

/// `r` is the index of the first characteristic, among `(uuid,
/// service_uuid)` pairs, that is `wanted` within the QCY service, or `None`
/// when there is none.
pub open spec fn is_first_match(chars: Seq<(u128, u128)>, wanted: u128, r: Option<usize>) -> bool {
    match r {
        Some(i) => i < chars.len() && is_qcy_characteristic(chars[i as int].0, chars[i as int].1, wanted)
            && forall|j: int| 0 <= j < i ==> !is_qcy_characteristic(#[trigger] chars[j].0, chars[j].1, wanted),
        None => forall|j: int| 0 <= j < chars.len() ==> !is_qcy_characteristic(#[trigger] chars[j].0, chars[j].1, wanted),
    }
}

/// The index of the first characteristic, among `(uuid, service_uuid)`
/// pairs, that is `wanted` within the QCY service.
pub fn find_characteristic(chars: &[(u128, u128)], wanted: u128) -> (r: Option<usize>)
    ensures
        is_first_match(chars@, wanted, r),
{
    let mut i: usize = 0;
    while i < chars.len()
        invariant
            i <= chars@.len(),
            forall|j: int| 0 <= j < i ==> !is_qcy_characteristic(#[trigger] chars@[j].0, chars@[j].1, wanted),
        decreases chars.len() - i,
    {
        let (uuid, service) = chars[i];
        if uuid == wanted && service == SERVICE_UUID {
            return Some(i);
        }
        i = i + 1;
    }
    None
}

/// Where each characteristic the client uses sits among the discovered
/// ones, and how commands are written.
#[derive(Debug, Clone, Copy, PartialEq, Eq, Structural)]
pub struct SetupPlan {
    pub notify: usize,
    pub command: usize,
    pub battery: Option<usize>,
    pub version: Option<usize>,
    pub touch_action: Option<usize>,
    /// Without response when the command characteristic supports it.
    pub write_kind: WriteKind,
}

/// Plans a connection's setup from the discovered characteristics, given
/// as `(uuid, service_uuid)` pairs with, for each, whether it supports
/// writes without response. The notify and command characteristics are
/// required, checked in that order; battery, version and touch action are
/// optional.
pub fn plan_setup(chars: &[(u128, u128)], without_response: &[bool]) -> (r: Result<
    SetupPlan,
    CoreError,
>)
    requires
        without_response@.len() == chars@.len(),
    ensures
        match r {
            Ok(plan) => {
                &&& is_first_match(chars@, NOTIFY_UUID, Some(plan.notify))
                &&& is_first_match(chars@, COMMAND_UUID, Some(plan.command))
                &&& is_first_match(chars@, BATTERY_UUID, plan.battery)
                &&& is_first_match(chars@, VERSION_UUID, plan.version)
                &&& is_first_match(chars@, TOUCH_ACTION_UUID, plan.touch_action)
                &&& plan.write_kind == if without_response@[plan.command as int] {
                    WriteKind::WithoutResponse
                } else {
                    WriteKind::WithResponse
                }
            },
            Err(e) => {
                ||| is_first_match(chars@, NOTIFY_UUID, None) && (e matches CoreError::CharacteristicNotFound(m)
                    && m@ == "notify (00001002)"@)
                ||| !is_first_match(chars@, NOTIFY_UUID, None) && is_first_match(chars@, COMMAND_UUID, None)
                    && (e matches CoreError::CharacteristicNotFound(m) && m@ == "command (00001001)"@)
            },
        },
{
    let notify = match find_characteristic(chars, NOTIFY_UUID) {
        Some(i) => i,
        None => return Err(CoreError::CharacteristicNotFound("notify (00001002)".to_owned())),
    };
    let command = match find_characteristic(chars, COMMAND_UUID) {
        Some(i) => i,
        None => return Err(CoreError::CharacteristicNotFound("command (00001001)".to_owned())),
    };
    Ok(SetupPlan {
        notify,
        command,
        battery: find_characteristic(chars, BATTERY_UUID),
        version: find_characteristic(chars, VERSION_UUID),
        touch_action: find_characteristic(chars, TOUCH_ACTION_UUID),
        write_kind: preferred_write_kind(without_response[command]),
    })
}

} // verus!
