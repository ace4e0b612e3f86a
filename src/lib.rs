//! Thirty-two-bit signed addition with two's-complement wraparound, meant to be
//! exported by name to a host that loads the compiled module.
use vstd::prelude::*;

verus! {

/// The number of distinct 32-bit values.
pub open spec fn modulus() -> int {
    0x1_0000_0000
}

/// The 32-bit signed integer that `x` stands for modulo 2^32: the residue of
/// `x`, read as a two's-complement bit pattern.
pub open spec fn wrap_i32(x: int) -> int {
    let m = x % modulus();
    if m > i32::MAX {
        m - modulus()
    } else {
        m
    }
}

/// The sum of two 32-bit signed integers under 32-bit wraparound.
pub open spec fn sum_i32(a: i32, b: i32) -> int {
    wrap_i32(a + b)
}

/// Adds `a` and `b`; a sum outside the range of `i32` wraps around modulo 2^32
/// instead of failing.
pub fn add(a: i32, b: i32) -> (r: i32)
    ensures
        r == sum_i32(a, b),
        i32::MIN <= a + b <= i32::MAX ==> r == a + b,
        a + b > i32::MAX ==> r == a + b - modulus(),
        a + b < i32::MIN ==> r == a + b + modulus(),
{
    a.wrapping_add(b)
}

/// Addition under wraparound does not depend on the order of the operands.
pub proof fn lemma_add_commutative(a: i32, b: i32)
    ensures
        sum_i32(a, b) == sum_i32(b, a),
{
}

/// Adding zero gives back the other operand.
pub proof fn lemma_add_zero_identity(a: i32)
    ensures
        sum_i32(a, 0) == a,
        sum_i32(0, a) == a,
{
}

} // verus!
