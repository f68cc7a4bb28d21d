//! Saturating signed arithmetic and DPI scaling.
use vstd::prelude::*;

verus! {

/// The value of `x` clamped into the range of `i32`.
pub open spec fn clamp_i32(x: int) -> int {
    if x < i32::MIN {
        i32::MIN as int
    } else if x > i32::MAX {
        i32::MAX as int
    } else {
        x
    }
}

/// Integer division of `a` by a positive `b`, rounding toward zero as Rust does.
pub open spec fn div_toward_zero(a: int, b: int) -> int
    recommends
        b > 0,
{
    if a >= 0 {
        a / b
    } else {
        -((-a) / b)
    }
}

/// The larger of two integers.
pub open spec fn max_int(a: int, b: int) -> int {
    if a >= b {
        a
    } else {
        b
    }
}

/// The smaller of two integers.
pub open spec fn min_int(a: int, b: int) -> int {
    if a <= b {
        a
    } else {
        b
    }
}

/// Adds two `i32` values, saturating at the bounds of the type.
pub fn sat_add(a: i32, b: i32) -> (r: i32)
    ensures
        r == clamp_i32(a + b),
{
    let wide: i64 = a as i64 + b as i64;
    if wide > i32::MAX as i64 {
        i32::MAX
    } else if wide < i32::MIN as i64 {
        i32::MIN
    } else {
        wide as i32
    }
}

/// Subtracts two `i32` values, saturating at the bounds of the type.
pub fn sat_sub(a: i32, b: i32) -> (r: i32)
    ensures
        r == clamp_i32(a - b),
{
    let wide: i64 = a as i64 - b as i64;
    if wide > i32::MAX as i64 {
        i32::MAX
    } else if wide < i32::MIN as i64 {
        i32::MIN
    } else {
        wide as i32
    }
}

/// Multiplies two `i32` values, saturating at the bounds of the type.
pub fn sat_mul(a: i32, b: i32) -> (r: i32)
    ensures
        r == clamp_i32(a * b),
{
    assert(-0x8000_0000_0000_0000 <= (a as int) * (b as int) <= 0x7fff_ffff_ffff_ffff)
        by (nonlinear_arith)
        requires
            i32::MIN <= a <= i32::MAX,
            i32::MIN <= b <= i32::MAX,
    ;
    let wide: i64 = a as i64 * b as i64;
    if wide > i32::MAX as i64 {
        i32::MAX
    } else if wide < i32::MIN as i64 {
        i32::MIN
    } else {
        wide as i32
    }
}

/// The larger of two `i32` values.
pub fn max_i32(a: i32, b: i32) -> (r: i32)
    ensures
        r == max_int(a as int, b as int),
{
    if a >= b {
        a
    } else {
        b
    }
}

/// The smaller of two `i32` values.
pub fn min_i32(a: i32, b: i32) -> (r: i32)
    ensures
        r == min_int(a as int, b as int),
{
    if a <= b {
        a
    } else {
        b
    }
}

/// What `scale_logical` computes: the logical value times the DPI, saturated, plus 95,
/// saturated, divided by 96 toward zero (a rounding-up scale from 96 DPI for positive values).
pub open spec fn scale_logical_spec(value: int, dpi: int) -> int {
    div_toward_zero(clamp_i32(clamp_i32(value * (dpi as i32)) + 95), 96)
}

/// Scales a length given at 96 DPI to `dpi`, rounding up for positive lengths.
pub fn scale_logical(value: i32, dpi: u32) -> (r: i32)
    ensures
        r == scale_logical_spec(value as int, dpi as int),
{
    #[verifier::truncate]
    let factor: i32 = dpi as i32;
    let product = sat_mul(value, factor);
    let sum = sat_add(product, 95);
    if sum >= 0 {
        sum / 96
    } else {
        let magnitude: i32 = -sum;
        -(magnitude / 96)
    }
}

} // verus!
