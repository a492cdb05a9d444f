//! Classification of a sampled hardware gamma ramp.
use vstd::prelude::*;

verus! {

/// Number of colour channels in a gamma ramp (red, green, blue).
pub const CHANNELS: usize = 3;

/// Number of intensity levels per channel.
pub const LEVELS: usize = 256;

/// Largest distance, out of 65535, at which an entry still counts as linear.
pub const TOLERANCE: u32 = 256;

/// A sampled gamma ramp: for each channel, the 16-bit output for each level.
pub type GammaRamp = [[u16; 256]; 3];

/// Why no ramp could be sampled.
#[derive(Clone, Copy, Debug, PartialEq, Eq, Structural)]
pub enum ProbeError {
    /// The gamma API is missing, or the read failed.
    Unavailable,
}

/// What a sample says about the calibration currently applied.
#[derive(Clone, Copy, Debug, PartialEq, Eq, Structural)]
pub enum DriftState {
    /// The ramp is the identity: the calibration has been lost.
    Linear,
    /// The ramp differs from the identity: a calibration is in effect.
    Calibrated,
    /// No ramp could be read.
    Unavailable,
}

/// The identity ramp's output for `level`: `round(level * 65535 / 255)`.
/// As 65535 is exactly 257 * 255, the quotient needs no rounding.
pub open spec fn identity_level(level: int) -> int {
    level * 65535 / 255
}

/// The absolute difference of two integers.
pub open spec fn distance(a: int, b: int) -> int {
    if a >= b { a - b } else { b - a }
}

/// One entry lies within the tolerance of the identity ramp.
pub open spec fn entry_is_linear(observed: u16, level: int) -> bool {
    distance(observed as int, identity_level(level)) <= TOLERANCE as int
}

/// Every entry of every channel lies within the tolerance of the identity ramp.
pub open spec fn ramp_is_linear(ramp: GammaRamp) -> bool {
    forall|c: int, i: int|
        0 <= c < CHANNELS as int && 0 <= i < LEVELS as int ==> #[trigger] entry_is_linear(
            ramp[c][i],
            i,
        )
}

/// The classification of a ramp that was read.
pub open spec fn classify_spec(ramp: GammaRamp) -> DriftState {
    if ramp_is_linear(ramp) {
        DriftState::Linear
    } else {
        DriftState::Calibrated
    }
}

/// The classification of a sampling attempt.
pub open spec fn drift_of(sample: Result<GammaRamp, ProbeError>) -> DriftState {
    match sample {
        Ok(ramp) => classify_spec(ramp),
        Err(_) => DriftState::Unavailable,
    }
}

/// Whether one entry lies within the tolerance of the identity ramp.
pub fn entry_within_tolerance(observed: u16, level: usize) -> (r: bool)
    requires
        level < LEVELS,
    ensures
        r == entry_is_linear(observed, level as int),
{
    let expected: u32 = (level as u32) * 65535 / 255;
    let actual: u32 = observed as u32;
    if actual >= expected {
        actual - expected <= TOLERANCE
    } else {
        expected - actual <= TOLERANCE
    }
}

/// Classifies a sampled ramp: `Linear` when every entry of every channel is
/// within the tolerance of the identity ramp, `Calibrated` otherwise.
pub fn classify(ramp: &GammaRamp) -> (r: DriftState)
    ensures
        r == classify_spec(*ramp),
{
    let mut c: usize = 0;
    while c < CHANNELS
        invariant
            c <= CHANNELS,
            forall|cc: int, i: int|
                0 <= cc < c && 0 <= i < LEVELS as int ==> #[trigger] entry_is_linear(
                    ramp[cc][i],
                    i,
                ),
        decreases CHANNELS - c,
    {
        let mut i: usize = 0;
        while i < LEVELS
            invariant
                c < CHANNELS,
                i <= LEVELS,
                forall|cc: int, j: int|
                    0 <= cc < c && 0 <= j < LEVELS as int ==> #[trigger] entry_is_linear(
                        ramp[cc][j],
                        j,
                    ),
                forall|j: int| 0 <= j < i ==> #[trigger] entry_is_linear(ramp[c as int][j], j),
            decreases LEVELS - i,
        {
            if !entry_within_tolerance(ramp[c][i], i) {
                return DriftState::Calibrated;
            }
            i = i + 1;
        }
        c = c + 1;
    }
    DriftState::Linear
}

/// Classifies a sampling attempt. A failed read counts as `Unavailable`,
/// which callers treat as "not drifted".
pub fn sample_drift(sample: &Result<GammaRamp, ProbeError>) -> (r: DriftState)
    ensures
        r == drift_of(*sample),
{
    match sample {
        Ok(ramp) => classify(ramp),
        Err(_) => DriftState::Unavailable,
    }
}

/// Whether a sampling attempt shows the identity ramp. A failed read never
/// does, so that an unreadable ramp never causes a reload.
pub fn is_gamma_linear(sample: &Result<GammaRamp, ProbeError>) -> (r: bool)
    ensures
        r == (drift_of(*sample) == DriftState::Linear),
        r == (sample.is_ok() && ramp_is_linear(sample.unwrap())),
{
    match sample_drift(sample) {
        DriftState::Linear => true,
        _ => false,
    }
}

/// A ramp whose every entry is within the tolerance of the identity ramp is
/// classified `Linear`.
pub proof fn lemma_within_tolerance_is_linear(ramp: GammaRamp)
    requires
        forall|c: int, i: int|
            0 <= c < CHANNELS as int && 0 <= i < LEVELS as int ==> distance(
                #[trigger] ramp[c][i] as int,
                identity_level(i),
            ) <= TOLERANCE as int,
    ensures
        classify_spec(ramp) == DriftState::Linear,
{
    assert forall|c: int, i: int|
        0 <= c < CHANNELS as int && 0 <= i < LEVELS as int implies #[trigger] entry_is_linear(
        ramp[c][i],
        i,
    ) by {
        assert(distance(ramp[c][i] as int, identity_level(i)) <= TOLERANCE as int);
    }
}

/// A single entry outside the tolerance makes the whole ramp `Calibrated`,
/// whatever the other entries hold.
pub proof fn lemma_single_entry_flips(ramp: GammaRamp, c: int, i: int)
    requires
        0 <= c < CHANNELS as int,
        0 <= i < LEVELS as int,
        distance(ramp[c][i] as int, identity_level(i)) > TOLERANCE as int,
    ensures
        classify_spec(ramp) == DriftState::Calibrated,
{
    assert(!entry_is_linear(ramp[c][i], i));
}

} // verus!
