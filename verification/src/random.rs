//! Random choices, drawn from the thread-local generator of `rand`.
//!
//! Each choice is split in two: a draw of a whole number from a range, whose
//! value only the generator decides, and a verified mapping from the drawn
//! number to the outcome.
use vstd::prelude::*;
use rand::Rng;

verus! {

/// Calls `rand::thread_rng().gen_range(low..high)`. The contract states what
/// holds of every draw: the number lies in `[low, high)`. Which number comes
/// out is left unsaid; it depends on the generator's state. The range must
/// not be empty, as `gen_range` panics on an empty range.
#[verifier::external_body]
pub(crate) fn random_below(low: i32, high: i32) -> (r: i32)
    requires
        low < high,
    ensures
        low <= r < high,
{
    rand::thread_rng().gen_range(low..high)
}

/// Calls `rand::thread_rng().gen_range(low..=high)`. The contract states what
/// holds of every draw: the number lies in `[low, high]`. Which number comes
/// out is left unsaid; it depends on the generator's state. The range must
/// not be empty, as `gen_range` panics on an empty range.
#[verifier::external_body]
pub(crate) fn random_between(low: i32, high: i32) -> (r: i32)
    requires
        low <= high,
    ensures
        low <= r <= high,
{
    rand::thread_rng().gen_range(low..=high)
}

} // verus!
