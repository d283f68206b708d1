//! The broadcast FM band every tuner is held to.
use vstd::prelude::*;

verus! {

/// Lowest frequency of the broadcast FM band, in kHz.
pub const FM_BAND_MIN_KHZ: u32 = 87_500;

/// Highest frequency of the broadcast FM band, in kHz.
pub const FM_BAND_MAX_KHZ: u32 = 108_000;

/// The frequency nearest to `khz` inside the FM band.
pub open spec fn band_clamped(khz: int) -> u32 {
    if khz < FM_BAND_MIN_KHZ {
        FM_BAND_MIN_KHZ
    } else if khz > FM_BAND_MAX_KHZ {
        FM_BAND_MAX_KHZ
    } else {
        khz as u32
    }
}

/// `khz` limited to the FM band: below it gives the band's lowest
/// frequency, above it the highest, inside it `khz` itself.
pub fn clamp_to_band(khz: u32) -> (r: u32)
    ensures
        r == band_clamped(khz as int),
{
    if khz < FM_BAND_MIN_KHZ {
        FM_BAND_MIN_KHZ
    } else if khz > FM_BAND_MAX_KHZ {
        FM_BAND_MAX_KHZ
    } else {
        khz
    }
}

/// Clamping always lands inside the band, leaves frequencies inside the
/// band alone, and clamping twice is clamping once.
pub proof fn law_band_clamp(khz: int)
    ensures
        FM_BAND_MIN_KHZ <= band_clamped(khz) <= FM_BAND_MAX_KHZ,
        FM_BAND_MIN_KHZ <= khz <= FM_BAND_MAX_KHZ ==> band_clamped(khz) == khz,
        band_clamped(band_clamped(khz) as int) == band_clamped(khz),
{
}

} // verus!
