//! The bound on the remote fetches that one delivery may cause.
//!
//! A delivery owns one counter of the fetches that it may still make. It is
//! handed on to everything that works for the delivery, and every fetch is
//! charged to it before it is made.

use vstd::prelude::*;

verus! {

/// What is left of a budget of `remaining` after one more fetch is asked
/// for: `None` where nothing was left to pay for it.
pub open spec fn charged(remaining: int) -> Option<int> {
    if remaining > 0 {
        Some(remaining - 1)
    } else {
        None
    }
}

/// Charges one fetch to the budget.
///
/// Where something is left, one unit is taken whatever becomes of the fetch,
/// and the fetch may be made. Where nothing is left, the budget stays as it
/// is and the fetch must not be made.
///
/// So the budget never grows, and one that is not negative never becomes so.
pub fn charge_fetch(request_counter: &mut i32) -> (granted: bool)
    ensures
        match charged(*old(request_counter) as int) {
            Some(left) => granted && *final(request_counter) == left,
            None => !granted && *final(request_counter) == *old(request_counter),
        },
        *final(request_counter) <= *old(request_counter),
        *old(request_counter) >= 0 ==> *final(request_counter) >= 0,
        *old(request_counter) == 0 ==> !granted,
{
    if *request_counter > 0 {
        *request_counter = *request_counter - 1;
        true
    } else {
        false
    }
}

} // verus!
