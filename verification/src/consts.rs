//! Rates and offsets shared by the block catalogue and the live-update bridge.
//!
//! Every quantity is a whole number of hertz (or a plain ratio). The unit
//! factory and the bridge both read these constants, so the offset that is
//! applied when a tuner is built is by construction the one that is applied
//! when it is retuned.

use vstd::prelude::*;

verus! {

/// Sample rate of the tuner, in hertz.
pub const RATE: u32 = 1_000_000;

/// Distance, in hertz, by which the tuner is set off the wanted frequency;
/// the frequency shifter moves the signal back by the same amount.
pub const FREQ_OFFSET: u32 = 250_000;

/// Sample rate of the audio sink, in hertz.
pub const AUDIO_RATE: u32 = 48_000;

/// Ratio between the intermediate rate and the audio rate.
pub const AUDIO_MULT: u32 = 5;

/// The intermediate rate, in hertz: `AUDIO_RATE * AUDIO_MULT`.
pub open spec fn intermediate_rate() -> int {
    AUDIO_RATE * AUDIO_MULT
}

/// Computes the intermediate rate between the two resamplers.
pub fn audio_intermediate_rate() -> (r: u32)
    ensures
        r == intermediate_rate(),
        r == 240_000,
{
    AUDIO_RATE * AUDIO_MULT
}

} // verus!
