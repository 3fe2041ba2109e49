//! Counting what a release call destroys: sums of per-element costs.

use vstd::prelude::*;

verus! {

/// The sum of a sequence of counts.
pub open spec fn sum_of(s: Seq<nat>) -> nat
    decreases s.len(),
{
    if s.len() == 0 {
        0
    } else {
        sum_of(s.drop_last()) + s.last()
    }
}

} // verus!
