//! Thirty-two-bit machine arithmetic, stated over the mathematical integers.
//!
//! The compensation formulas are defined step by step on 32-bit words, with
//! quotients rounded toward zero. The functions here say what a step yields
//! as an integer, so that contracts can speak of the formulas directly.

use vstd::prelude::*;

verus! {

/// The unsigned 32-bit word that is congruent to `v` modulo 2^32.
pub open spec fn wrap_u32(v: int) -> int {
    v % 0x1_0000_0000
}

/// The signed 32-bit word that is congruent to `v` modulo 2^32.
pub open spec fn wrap_i32(v: int) -> int {
    let m = v % 0x1_0000_0000;
    if m >= 0x8000_0000 {
        m - 0x1_0000_0000
    } else {
        m
    }
}

/// The quotient of `a` by `b`, rounded toward zero.
///
/// It is the quotient of the magnitude of `a`, carrying the sign of `a`; the
/// quotient of a non-negative number already rounds toward zero, whatever the
/// sign of `b`.
pub open spec fn trunc_div(a: int, b: int) -> int
    recommends
        b != 0,
{
    if a >= 0 {
        a / b
    } else {
        -((-a) / b)
    }
}

/// `trunc_div` rounds toward zero: the quotient times the divisor never goes
/// past the dividend, and misses it by less than the divisor's magnitude.
pub proof fn lemma_trunc_div_rounds_toward_zero(a: int, b: int)
    by (nonlinear_arith)
    requires
        b != 0,
    ensures
        a >= 0 ==> 0 <= a - trunc_div(a, b) * b < (if b > 0 { b } else { -b }),
        a <= 0 ==> 0 <= trunc_div(a, b) * b - a < (if b > 0 { b } else { -b }),
{
}

/// A quotient rounded toward zero is no larger in magnitude than the dividend.
pub proof fn lemma_trunc_div_bound(a: int, b: int)
    by (nonlinear_arith)
    requires
        b != 0,
    ensures
        a >= 0 ==> -a <= trunc_div(a, b) <= a,
        a <= 0 ==> a <= trunc_div(a, b) <= -a,
{
}

/// Reads the bits of a signed word as an unsigned one.
pub fn reinterpret_unsigned(x: i32) -> (y: u32)
    ensures
        y == wrap_u32(x as int),
{
    assert(x as u32 == (if x < 0 { x + 0x1_0000_0000 } else { x as int })) by (bit_vector);
    #[verifier::truncate]
    (x as u32)
}

/// Reads the bits of an unsigned word as a signed one.
pub fn reinterpret_signed(y: u32) -> (x: i32)
    ensures
        x == wrap_i32(y as int),
{
    assert(y as i32 == (if y >= 0x8000_0000u32 { y - 0x1_0000_0000 } else { y as int }))
        by (bit_vector);
    #[verifier::truncate]
    (y as i32)
}

/// The product of two signed words, as the machine keeps it.
pub fn mul_i32(a: i32, b: i32) -> (r: i32)
    ensures
        r == wrap_i32(a * b),
{
    a.wrapping_mul(b)
}

/// The sum of two signed words, as the machine keeps it.
pub fn add_i32(a: i32, b: i32) -> (r: i32)
    ensures
        r == wrap_i32(a + b),
{
    a.wrapping_add(b)
}

/// The product of two unsigned words, as the machine keeps it.
pub fn mul_u32(a: u32, b: u32) -> (r: u32)
    ensures
        r == wrap_u32(a * b),
{
    a.wrapping_mul(b)
}

/// The difference of two unsigned words, as the machine keeps it.
pub fn sub_u32(a: u32, b: u32) -> (r: u32)
    ensures
        r == wrap_u32(a - b),
{
    a.wrapping_sub(b)
}

} // verus!
