use vstd::prelude::*;

verus! {

/// Number of oscillators in the bank, and the dimension of every square
/// complex matrix the engine evolves.
pub const DIM: usize = 7;

/// Number of matrices in the Hermitian stack that drives the unitary matrix.
pub const STACK_DEPTH: usize = 3;

/// Number of samples written per channel by one processing call.
pub const BLOCK_SIZE: usize = 128;

/// Base frequency of the oscillator bank, in hertz.
pub const FREQ_HZ: u32 = 100;

/// Rate factor of the matrix flow: one block advances the flow by
/// `BLOCK_SIZE * VAR_RATE / sample_rate`.
pub const VAR_RATE: u32 = 3;

/// Full turns the base (ratio 1) oscillator makes across a rendered preview
/// buffer: a preview of `len` samples steps its bank by `PREVIEW_TURNS`
/// turns divided by `len` per sample.
pub const PREVIEW_TURNS: u32 = 4;

/// How the two output channels share engine state.
#[derive(Clone, Copy, PartialEq, Eq, Structural, Debug)]
pub enum StereoMode {
    /// Each channel owns its own matrix stack, unitary matrix and
    /// oscillator bank, and evolves on its own.
    Independent,
    /// Both channels share one matrix stack, one unitary matrix and one
    /// oscillator bank; the second channel is the shared projection rotated
    /// by an accumulated phase.
    PhaseCoupled,
}

/// How many independent engine state sets a stereo pair needs in each mode.
pub open spec fn spec_state_sets(mode: StereoMode) -> nat {
    match mode {
        StereoMode::Independent => 2,
        StereoMode::PhaseCoupled => 1,
    }
}

/// Number of independent engine state sets (matrix stack + unitary matrix +
/// oscillator bank) a stereo pair holds in the given mode.
pub fn state_sets(mode: StereoMode) -> (n: usize)
    ensures
        n == spec_state_sets(mode),
{
    match mode {
        StereoMode::Independent => 2,
        StereoMode::PhaseCoupled => 1,
    }
}

/// The oscillator frequency ratio of harmonic `i`, in quarter units: the
/// i-th oscillator runs at `FREQ_HZ * spec_ratio_quarters(i) / 4` hertz.
/// In whole units the table reads 1, 1.25, 1.5, 2, 2.5, 3, 4.
pub open spec fn spec_ratio_quarters(i: int) -> u32 {
    if i == 0 {
        4
    } else if i == 1 {
        5
    } else if i == 2 {
        6
    } else if i == 3 {
        8
    } else if i == 4 {
        10
    } else if i == 5 {
        12
    } else {
        16
    }
}

/// Frequency ratio of oscillator `i`, in quarter units (see
/// [`spec_ratio_quarters`]).
pub fn ratio_quarters(i: usize) -> (r: u32)
    requires
        i < DIM,
    ensures
        r == spec_ratio_quarters(i as int),
{
    if i == 0 {
        4
    } else if i == 1 {
        5
    } else if i == 2 {
        6
    } else if i == 3 {
        8
    } else if i == 4 {
        10
    } else if i == 5 {
        12
    } else {
        16
    }
}

} // verus!
