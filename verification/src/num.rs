//! Integer conversions of the Win32 message world, stated as arithmetic.

use vstd::prelude::*;

verus! {

/// Division that rounds toward zero, for a positive divisor.
pub open spec fn trunc_div(a: int, b: int) -> int
    recommends
        b > 0,
{
    if a >= 0 {
        a / b
    } else {
        -((-a) / b)
    }
}

/// The signed 32-bit value that keeps the low 32 bits of `x`.
pub open spec fn wrap_i32(x: int) -> int {
    let m = x % 0x1_0000_0000;
    if m < 0x8000_0000 {
        m
    } else {
        m - 0x1_0000_0000
    }
}

/// The signed 16-bit value that keeps the low 16 bits of `x`.
pub open spec fn wrap_i16(x: int) -> int {
    let m = x % 0x1_0000;
    if m < 0x8000 {
        m
    } else {
        m - 0x1_0000
    }
}

/// Keeps the low 32 bits of a 64-bit value.
pub fn narrow(x: i64) -> (r: i32)
    ensures
        r == wrap_i32(x as int),
{
    assert((x as i32) == (if x % 0x1_0000_0000 < 0x8000_0000 {
        (x % 0x1_0000_0000) as int
    } else {
        x % 0x1_0000_0000 - 0x1_0000_0000
    })) by (bit_vector);
    #[verifier::truncate]
    (x as i32)
}

/// Reads the bits of an unsigned size as a signed one.
pub fn signed(x: u32) -> (r: i32)
    ensures
        r == wrap_i32(x as int),
{
    assert((x as i32) == (if x < 0x8000_0000 {
        x as int
    } else {
        x - 0x1_0000_0000
    })) by (bit_vector);
    #[verifier::truncate]
    (x as i32)
}

/// The signed low word of a message's `lparam`: the x coordinate of a mouse message.
pub fn low_word(lparam: isize) -> (r: i32)
    ensures
        r == wrap_i16(lparam as int),
{
    assert(((lparam & 0xFFFF) as i16) == (if lparam % 0x1_0000 < 0x8000 {
        (lparam % 0x1_0000) as int
    } else {
        lparam % 0x1_0000 - 0x1_0000
    })) by (bit_vector);
    #[verifier::truncate]
    ((lparam & 0xFFFF) as i16 as i32)
}

/// The signed high word of a message's `lparam`: the y coordinate of a mouse message.
pub fn high_word(lparam: isize) -> (r: i32)
    ensures
        r == wrap_i16(lparam as int / 0x1_0000),
{
    let shifted: isize = lparam >> 16;
    assert((lparam >> 16) == lparam / 0x1_0000) by (bit_vector);
    low_word(shifted)
}

/// The signed high word of a wheel message's `wparam`: how far the wheel turned.
pub fn wheel_delta(wparam: usize) -> (r: i32)
    ensures
        r == wrap_i16(wparam as int / 0x1_0000),
{
    assert(((wparam as u32 >> 16) as i16) == (if (wparam / 0x1_0000) % 0x1_0000 < 0x8000 {
        ((wparam / 0x1_0000) % 0x1_0000) as int
    } else {
        (wparam / 0x1_0000) % 0x1_0000 - 0x1_0000
    })) by (bit_vector);
    #[verifier::truncate]
    ((wparam as u32 >> 16) as i16 as i32)
}

/// Narrowing keeps the low bits: the narrowed value fits and differs from `x` by a multiple of the
/// range, and it is the only such value.
pub proof fn law_narrowing_keeps_the_low_bits(x: int, r: int)
    ensures
        -0x8000_0000 <= wrap_i32(x) < 0x8000_0000,
        (x - wrap_i32(x)) % 0x1_0000_0000 == 0,
        -0x8000_0000 <= r < 0x8000_0000 && (x - r) % 0x1_0000_0000 == 0 ==> wrap_i32(x) == r,
        -0x8000 <= wrap_i16(x) < 0x8000,
        (x - wrap_i16(x)) % 0x1_0000 == 0,
        -0x8000 <= r < 0x8000 && (x - r) % 0x1_0000 == 0 ==> wrap_i16(x) == r,
{
}

/// Division rounds toward zero: the quotient has the sign of the dividend, and what is left over
/// is smaller than the divisor.
pub proof fn law_division_rounds_toward_zero(a: int, b: int)
    requires
        b > 0,
    ensures
        a >= 0 ==> 0 <= trunc_div(a, b) && trunc_div(a, b) * b <= a < (trunc_div(a, b) + 1) * b,
        a <= 0 ==> trunc_div(a, b) <= 0 && (trunc_div(a, b) - 1) * b < a <= trunc_div(a, b) * b,
{
    let m = if a >= 0 {
        a
    } else {
        -a
    };
    let q = m / b;
    assert(0 <= q && q * b <= m < (q + 1) * b) by (nonlinear_arith)
        requires
            m >= 0,
            b > 0,
            q == m / b,
    ;
    assert((-q) * b == -(q * b) && (-q - 1) * b == -((q + 1) * b)) by (nonlinear_arith);
}

} // verus!
