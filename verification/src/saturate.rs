//! Arithmetic that stops at the ends of the clock.
use vstd::prelude::*;

verus! {

/// The number of 64 bits and a sign that is nearest to an integer.
pub open spec fn clamped(value: int) -> i64 {
    if value < i64::MIN {
        i64::MIN
    } else if value > i64::MAX {
        i64::MAX
    } else {
        value as i64
    }
}

fn clamp(value: i128) -> (nearest: i64)
    ensures
        nearest == clamped(value as int),
{
    if value < i64::MIN as i128 {
        i64::MIN
    } else if value > i64::MAX as i128 {
        i64::MAX
    } else {
        value as i64
    }
}

pub fn sum(left: i64, right: i64) -> (nearest: i64)
    ensures
        nearest == clamped(left + right),
{
    clamp(left as i128 + right as i128)
}

pub fn difference(left: i64, right: i64) -> (nearest: i64)
    ensures
        nearest == clamped(left - right),
{
    clamp(left as i128 - right as i128)
}

pub fn product(left: i64, right: i64) -> (nearest: i64)
    ensures
        nearest == clamped(left * right),
{
    proof {
        let a = left as int;
        let b = right as int;
        assert(-0x4000_0000_0000_0000_0000_0000_0000_0000 <= a * b
            <= 0x4000_0000_0000_0000_0000_0000_0000_0000) by (nonlinear_arith)
            requires
                -0x8000_0000_0000_0000 <= a <= 0x7fff_ffff_ffff_ffff,
                -0x8000_0000_0000_0000 <= b <= 0x7fff_ffff_ffff_ffff,
        ;
    }
    clamp(left as i128 * right as i128)
}

/// A number that fits is its own nearest; one that does not is nearest to the end that it lies
/// beyond. So clamping keeps order.
pub proof fn law_clamping_keeps_order(left: int, right: int)
    ensures
        i64::MIN <= left <= i64::MAX ==> clamped(left) == left,
        left > i64::MAX ==> clamped(left) == i64::MAX,
        left < i64::MIN ==> clamped(left) == i64::MIN,
        left <= right ==> clamped(left) <= clamped(right),
{
}

} // verus!
