//! Equalizer settings: the seven built-in presets and the bounds of a custom
//! ten-band curve.

use vstd::prelude::*;

verus! {

/// The built-in equalizer presets.
#[derive(Debug, Clone, Copy, PartialEq, Eq, Structural)]
pub enum EqPreset {
    Spatial,
    Default,
    Popular,
    BassBoost,
    Rock,
    Soft,
    Classic,
}

/// Number of bands in a custom curve.
pub const CUSTOM_BAND_COUNT: usize = 10;

/// Lowest gain a custom band accepts, in dB.
pub const CUSTOM_GAIN_MIN_DB: i16 = -8;

/// Highest gain a custom band accepts, in dB.
pub const CUSTOM_GAIN_MAX_DB: i16 = 8;

/// The center frequencies of the custom bands, in Hz, low to high.
pub fn custom_band_freqs_hz() -> (f: [u16; CUSTOM_BAND_COUNT])
    ensures
        f@ == seq![31u16, 62, 125, 250, 500, 1000, 2000, 4000, 8000, 16000],
{
    let f = [31u16, 62, 125, 250, 500, 1000, 2000, 4000, 8000, 16000];
    assert(f@ == seq![31u16, 62, 125, 250, 500, 1000, 2000, 4000, 8000, 16000]);
    f
}

/// Every band of a custom curve is within the accepted gain range.
pub open spec fn gains_in_range(gains: Seq<i16>) -> bool {
    forall|i: int|
        0 <= i < gains.len() ==> CUSTOM_GAIN_MIN_DB <= #[trigger] gains[i] <= CUSTOM_GAIN_MAX_DB
}

/// Checks every band of a custom curve against the accepted gain range.
pub fn gains_valid(gains: &[i16; CUSTOM_BAND_COUNT]) -> (r: bool)
    ensures
        r == gains_in_range(gains@),
{
    let mut i: usize = 0;
    while i < CUSTOM_BAND_COUNT
        invariant
            i <= CUSTOM_BAND_COUNT,
            gains@.len() == CUSTOM_BAND_COUNT,
            forall|j: int| 0 <= j < i ==> CUSTOM_GAIN_MIN_DB <= #[trigger] gains@[j] <= CUSTOM_GAIN_MAX_DB,
        decreases CUSTOM_BAND_COUNT - i,
    {
        let g = gains[i];
        if g < CUSTOM_GAIN_MIN_DB || g > CUSTOM_GAIN_MAX_DB {
            return false;
        }
        i = i + 1;
    }
    true
}

} // verus!
