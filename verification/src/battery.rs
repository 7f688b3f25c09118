//! Battery status parsing.
//!
//! The payload is 3 raw bytes: `[left, right, case]`.
//! For each byte, the high bit is the charging flag and the low 7 bits are the percentage (0-100).

use vstd::prelude::*;

verus! {

/// A single component's charge level and charging state.
#[derive(Debug, Clone, Copy, PartialEq, Eq, Structural)]
pub struct BatteryComponent {
    /// Level from 0 to 100.
    pub level: u8,
    pub charging: bool,
}

/// Battery status for both earbuds and the case.
#[derive(Debug, Clone, Copy, PartialEq, Eq, Structural)]
pub struct BatteryStatus {
    pub left: BatteryComponent,
    pub right: BatteryComponent,
    pub case: BatteryComponent,
}

/// One component byte: the low 7 bits are the level, the high bit the
/// charging flag.
pub open spec fn component_of(byte: u8) -> BatteryComponent {
    BatteryComponent { level: (byte % 128) as u8, charging: byte >= 128 }
}

/// What [`BatteryStatus::parse`] yields for a payload.
pub open spec fn battery_of(data: Seq<u8>) -> Option<BatteryStatus> {
    if data.len() < 3 {
        None
    } else {
        Some(
            BatteryStatus {
                left: component_of(data[0]),
                right: component_of(data[1]),
                case: component_of(data[2]),
            },
        )
    }
}

fn component(byte: u8) -> (c: BatteryComponent)
    ensures
        c == component_of(byte),
{
    assert(byte & 0x7F == byte % 128) by (bit_vector);
    assert((byte & 0x80 != 0) == (byte >= 128)) by (bit_vector);
    BatteryComponent { level: byte & 0x7F, charging: byte & 0x80 != 0 }
}

impl BatteryStatus {
    /// Parses the raw 3-byte `[left, right, case]` payload; extra bytes are
    /// ignored.
    pub fn parse(data: &[u8]) -> (r: Option<Self>)
        ensures
            r == battery_of(data@),
    {
        if data.len() < 3 {
            return None;
        }
        Some(Self { left: component(data[0]), right: component(data[1]), case: component(data[2]) })
    }
}

} // verus!
