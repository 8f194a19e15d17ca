//! Bounds on integers.
use vstd::prelude::*;

verus! {

/// The lesser of two integers.
pub open spec fn lesser(a: int, b: int) -> int {
    if a <= b {
        a
    } else {
        b
    }
}

/// The greater of two integers.
pub open spec fn greater(a: int, b: int) -> int {
    if a <= b {
        b
    } else {
        a
    }
}

/// `value` confined to the range from `low` to `high`.
pub open spec fn confined(value: int, low: int, high: int) -> int {
    greater(low, lesser(value, high))
}

/// The lesser of two integers is one of them, and neither is less; likewise the
/// greater.
pub proof fn bounds_are_met(a: int, b: int)
    ensures
        lesser(a, b) <= a && lesser(a, b) <= b && (lesser(a, b) == a || lesser(a, b) == b),
        greater(a, b) >= a && greater(a, b) >= b && (greater(a, b) == a || greater(a, b) == b),
{
}

/// A value within a range stays, and one outside of it becomes the nearest bound.
pub proof fn confining_is_going_to_the_nearest(value: int, low: int, high: int)
    requires
        low <= high,
    ensures
        low <= value <= high ==> confined(value, low, high) == value,
        value < low ==> confined(value, low, high) == low,
        value > high ==> confined(value, low, high) == high,
{
}

} // verus!
