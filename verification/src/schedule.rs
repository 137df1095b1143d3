use vstd::prelude::*;

verus! {

use crate::config::BLOCK_SIZE;

/// Blocks between renormalization points at the given sample rate:
/// `floor(sample_rate / BLOCK_SIZE)`. A zero threshold (sample rate below
/// the block size) is a defined but degenerate configuration in which
/// renormalization fires on every block.
pub open spec fn spec_renorm_threshold(sample_rate: u32) -> int {
    sample_rate as int / BLOCK_SIZE as int
}

/// Blocks between renormalization points at the given sample rate.
pub fn renorm_threshold(sample_rate: u32) -> (t: u32)
    ensures
        t == spec_renorm_threshold(sample_rate),
{
    sample_rate / (BLOCK_SIZE as u32)
}

/// Counts processed blocks and decides when the renormalizer fires.
pub struct RenormClock {
    /// Blocks processed since the last renormalization point.
    pub count: u32,
    /// Renormalization fires on the block that brings the count up to this
    /// threshold; with a zero threshold it fires on every block.
    pub threshold: u32,
}

impl RenormClock {
    /// The count never reaches the threshold: it is reset by the very block
    /// that would bring it there.
    pub open spec fn wf(self) -> bool {
        self.count < self.threshold || self.count == 0
    }

    /// A fresh clock for the given sample rate, starting at a
    /// renormalization point.
    pub fn new(sample_rate: u32) -> (c: RenormClock)
        ensures
            c.count == 0,
            c.threshold == spec_renorm_threshold(sample_rate),
            c.wf(),
    {
        RenormClock { count: 0, threshold: renorm_threshold(sample_rate) }
    }

    /// Account for one processed block. Returns true exactly when this block
    /// is a renormalization point, in which case the count resets to zero.
    pub fn tick(&mut self) -> (fired: bool)
        requires
            old(self).wf(),
        ensures
            fired == (old(self).count + 1 >= old(self).threshold),
            final(self).threshold == old(self).threshold,
            final(self).count == (if fired { 0int } else { old(self).count + 1 }),
            final(self).wf(),
    {
        let next = self.count + 1;
        if next >= self.threshold {
            self.count = 0;
            true
        } else {
            self.count = next;
            false
        }
    }
}

/// The count a clock with threshold `t` holds `k` blocks after a
/// renormalization point.
pub open spec fn spec_count_after(t: nat, k: nat) -> nat
    decreases k,
{
    if k == 0 {
        0
    } else if spec_count_after(t, (k - 1) as nat) + 1 >= t {
        0
    } else {
        spec_count_after(t, (k - 1) as nat) + 1
    }
}

/// Whether the `k`-th block after a renormalization point (`k >= 1`) is
/// itself a renormalization point, for a clock with threshold `t`.
pub open spec fn spec_fires_at(t: nat, k: nat) -> bool
    recommends
        k >= 1,
{
    spec_count_after(t, (k - 1) as nat) + 1 >= t
}

/// Below the threshold the count simply counts blocks.
pub proof fn lemma_count_below_threshold(t: nat, k: nat)
    requires
        k < t,
    ensures
        spec_count_after(t, k) == k,
    decreases k,
{
    if k > 0 {
        lemma_count_below_threshold(t, (k - 1) as nat);
    }
}

/// Renormalization fires exactly every `t` blocks: of the `t` blocks that
/// follow a renormalization point, with threshold `t >= 1`, only the last
/// is again a renormalization point. Between them, drift goes uncorrected.
pub proof fn lemma_fires_exactly_at_threshold(t: nat, k: nat)
    requires
        t >= 1,
        1 <= k <= t,
    ensures
        spec_fires_at(t, k) <==> k == t,
{
    lemma_count_below_threshold(t, (k - 1) as nat);
}

/// With the degenerate zero threshold, every block is a renormalization
/// point.
pub proof fn lemma_zero_threshold_fires_every_block(k: nat)
    requires
        k >= 1,
    ensures
        spec_fires_at(0, k),
{
}

} // verus!
