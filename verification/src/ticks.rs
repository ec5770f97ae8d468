//! Runs of cycle counts, as the driver hands them to the chips.

use vstd::prelude::*;

verus! {

/// The cycles of the ticks `ticks` taken together.
pub open spec fn total_cycles(ticks: Seq<u8>) -> int
    decreases ticks.len(),
{
    if ticks.len() == 0 {
        0
    } else {
        total_cycles(ticks.drop_last()) + ticks.last()
    }
}

/// No run of ticks takes less than no time.
pub proof fn lemma_total_nonnegative(ticks: Seq<u8>)
    ensures
        0 <= total_cycles(ticks),
    decreases ticks.len(),
{
    if ticks.len() > 0 {
        lemma_total_nonnegative(ticks.drop_last());
    }
}

} // verus!
