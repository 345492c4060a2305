use vstd::prelude::*;

verus! {

/// Sum of two unsigned integers.
pub fn add(left: u64, right: u64) -> (r: u64)
    requires
        left + right <= u64::MAX,
    ensures
        r == left + right,
{
    left + right
}

/// Difference of two unsigned integers; `right` may not exceed `left`.
pub fn subtract(left: u64, right: u64) -> (r: u64)
    requires
        right <= left,
    ensures
        r == left - right,
{
    left - right
}

/// Relies on `rand::random_range`: a value drawn from the half-open range
/// `0..bound`, which it panics on only when that range is empty.
#[verifier::external_body]
fn random_below(bound: u64) -> (r: u64)
    requires
        bound > 0,
    ensures
        r < bound,
{
    rand::random_range(0..bound)
}

/// A random number below one hundred.
pub fn random_number() -> (r: u64)
    ensures
        r < 100,
{
    random_below(100)
}

} // verus!
