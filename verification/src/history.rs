//! Counting events in a history.
//!
//! A lock's behaviour over time is modelled as a sequence of events. The
//! counting function here lets the accounting laws (every acquisition is
//! balanced by exactly one release) be stated over such histories.

use vstd::prelude::*;

verus! {

/// How many times the event `x` occurs in the history `t`.
pub open spec fn count_ops<A>(t: Seq<A>, x: A) -> nat
    decreases t.len(),
{
    if t.len() == 0 {
        0
    } else {
        count_ops(t.drop_last(), x) + (if t.last() == x {
            1nat
        } else {
            0nat
        })
    }
}

} // verus!
