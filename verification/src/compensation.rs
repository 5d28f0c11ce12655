//! The compensation algorithm: pure fixed-point integer arithmetic turning
//! raw ADC codes and calibration coefficients into calibrated temperature
//! (tenths of a degree Celsius) and pressure (Pa).
//!
//! The datasheet's reference algorithm is reproduced intermediate by
//! intermediate; reordering would change results through integer truncation.
//! A division by zero, or an intermediate that leaves its fixed-width
//! integer domain, is an arithmetic failure: the functions here return
//! `None` for it, and callers surface it as an error rather than clamp.

use vstd::prelude::*;
use vstd::arithmetic::div_mod::{
    lemma_div_is_ordered, lemma_div_nonincreasing, lemma_div_pos_is_pos,
    lemma_fundamental_div_mod, lemma_fundamental_div_mod_converse,
    lemma_mod_division_less_than_divisor,
};

use crate::calibration::Calibration;
use crate::mode::Mode;

verus! {

/// Whether `x` is in the signed 32-bit domain.
pub open spec fn fits_i32(x: int) -> bool {
    i32::MIN <= x <= i32::MAX
}

/// Whether `x` is in the unsigned 32-bit domain.
pub open spec fn fits_u32(x: int) -> bool {
    0 <= x <= u32::MAX
}

/// Truncating (round-toward-zero) division, the division of the machine.
pub open spec fn tdiv(a: int, d: int) -> int
    recommends
        d != 0,
{
    if a == 0 {
        0
    } else if a > 0 && d > 0 {
        a / d
    } else if a < 0 && d < 0 {
        (a * -1) / (d * -1)
    } else if a < 0 {
        ((a * -1) / d) * -1
    } else {
        (a / (d * -1)) * -1
    }
}

/// The unsigned 32-bit representation of a signed 32-bit value.
pub open spec fn as_u32(x: int) -> int
    recommends
        fits_i32(x),
{
    if x >= 0 {
        x
    } else {
        x + 0x1_0000_0000
    }
}

/// The signed 32-bit value an unsigned 32-bit representation stands for.
pub open spec fn as_i32(x: int) -> int
    recommends
        fits_u32(x),
{
    if x < 0x8000_0000 {
        x
    } else {
        x - 0x1_0000_0000
    }
}

/// Wrapping difference of two unsigned 32-bit values.
pub open spec fn u32_diff(a: int, b: int) -> int
    recommends
        fits_u32(a),
        fits_u32(b),
{
    if a - b < 0 {
        a - b + 0x1_0000_0000
    } else {
        a - b
    }
}

/// 2 to the power of an oversampling ordinal.
pub open spec fn pow2m(m: int) -> int
    recommends
        0 <= m <= 3,
{
    if m == 0 {
        1
    } else if m == 1 {
        2
    } else if m == 2 {
        4
    } else {
        8
    }
}

/// The B7 scale factor, 50000 shifted right by the oversampling ordinal.
pub open spec fn b7_scale(m: int) -> int
    recommends
        0 <= m <= 3,
{
    if m == 0 {
        50000
    } else if m == 1 {
        25000
    } else if m == 2 {
        12500
    } else {
        6250
    }
}

/// The X1 intermediate of the B5 computation: `((UT - AC6) * AC5) >> 15`.
pub open spec fn b5_x1(c: Calibration, ut: int) -> int {
    ((ut - c.ac6) * c.ac5) / 0x8000
}

/// The X2 intermediate of the B5 computation: `(MC << 11) / (X1 + MD)`.
pub open spec fn b5_x2(c: Calibration, ut: int) -> int {
    tdiv(c.mc * 0x800, b5_x1(c, ut) + c.md)
}

/// The B5 intermediate shared by temperature and pressure compensation.
pub open spec fn spec_b5(c: Calibration, ut: int) -> int {
    b5_x1(c, ut) + b5_x2(c, ut)
}

/// Whether the B5 computation succeeds: its one product stays in the
/// signed 32-bit domain and the X2 divisor `X1 + MD` is not zero.
pub open spec fn b5_defined(c: Calibration, ut: int) -> bool {
    &&& fits_i32((ut - c.ac6) * c.ac5)
    &&& b5_x1(c, ut) + c.md != 0
}

/// Calibrated temperature in tenths of a degree Celsius: `(B5 + 8) >> 4`.
pub open spec fn spec_temperature(c: Calibration, ut: int) -> int {
    (spec_b5(c, ut) + 8) / 16
}

/// Bounds of every value the B5 computation can produce.
proof fn lemma_b5_intermediate_bounds(c: Calibration, ut: int)
    requires
        b5_defined(c, ut),
    ensures
        -0x10000 <= b5_x1(c, ut) <= 0xffff,
        -0x400_0000 <= b5_x2(c, ut) <= 0x400_0000,
        -0x401_0000 <= spec_b5(c, ut) <= 0x400_ffff,
{
    lemma_div_between(i32::MIN as int, (ut - c.ac6) * c.ac5, i32::MAX as int, 0x8000);
    lemma_tdiv_bound(c.mc * 0x800, b5_x1(c, ut) + c.md);
}

/// Division by a positive divisor is monotone, so a dividend between two
/// bounds gives a quotient between the bounds' quotients.
proof fn lemma_div_between(lo: int, x: int, hi: int, d: int)
    requires
        lo <= x <= hi,
        1 <= d,
    ensures
        lo / d <= x / d <= hi / d,
{
    lemma_div_is_ordered(lo, x, d);
    lemma_div_is_ordered(x, hi, d);
}

/// Truncating division never grows the dividend's magnitude.
proof fn lemma_tdiv_bound(a: int, d: int)
    requires
        d != 0,
    ensures
        a >= 0 ==> -a <= tdiv(a, d) <= a,
        a <= 0 ==> a <= tdiv(a, d) <= -a,
{
    if a > 0 {
        if d > 0 {
            lemma_div_pos_is_pos(a, d);
            lemma_div_nonincreasing(a, d);
        } else {
            lemma_div_pos_is_pos(a, d * -1);
            lemma_div_nonincreasing(a, d * -1);
        }
    } else if a < 0 {
        if d > 0 {
            lemma_div_pos_is_pos(a * -1, d);
            lemma_div_nonincreasing(a * -1, d);
        } else {
            lemma_div_pos_is_pos(a * -1, d * -1);
            lemma_div_nonincreasing(a * -1, d * -1);
        }
    }
}

/// Floor division (the value of an arithmetic right shift) by a positive
/// divisor, with the range of the result.
fn floor_div(x: i32, d: i32) -> (r: i32)
    requires
        1 <= d,
    ensures
        r == x as int / d as int,
        i32::MIN as int / d as int <= r <= i32::MAX as int / d as int,
{
    proof {
        lemma_tdiv_bound(x as int, d as int);
    }
    let q = x.checked_div(d).unwrap();
    let rem = x.checked_rem(d).unwrap();
    proof {
        if x < 0 && rem != 0 {
            let m = (x as int) * -1;
            if d == 1 {
                lemma_fundamental_div_mod(m, 1);
                vstd::arithmetic::div_mod::lemma_div_basics(m);
            } else {
                vstd::arithmetic::div_mod::lemma_div_is_strictly_smaller(m, d as int);
            }
        }
    }
    let r = if x < 0 && rem != 0 {
        q - 1
    } else {
        q
    };
    proof {
        let xi = x as int;
        let di = d as int;
        if xi >= 0 {
            if xi == 0 {
                vstd::arithmetic::div_mod::lemma_div_of0(di);
            }
            assert(r == xi / di);
        } else {
            let m = xi * -1;
            let q0 = m / di;
            let r0 = m % di;
            lemma_fundamental_div_mod(m, di);
            lemma_mod_division_less_than_divisor(m, di);
            if r0 == 0 {
                assert(xi == (q0 * -1) * di + 0) by (nonlinear_arith)
                    requires
                        m == di * q0 + r0,
                        r0 == 0,
                        m == xi * -1,
                ;
                lemma_fundamental_div_mod_converse(xi, di, q0 * -1, 0);
                assert(r == xi / di);
            } else {
                assert(xi == (q0 * -1 - 1) * di + (di - r0)) by (nonlinear_arith)
                    requires
                        m == di * q0 + r0,
                        m == xi * -1,
                ;
                lemma_fundamental_div_mod_converse(xi, di, q0 * -1 - 1, di - r0);
                assert(r == xi / di);
            }
        }
        lemma_div_between(i32::MIN as int, xi, i32::MAX as int, di);
    }
    r
}

/// The unsigned 32-bit representation of a signed 32-bit value.
fn wrap_to_u32(x: i32) -> (r: u32)
    ensures
        r == as_u32(x as int),
{
    if x >= 0 {
        x as u32
    } else {
        ((x as i64) + 0x1_0000_0000i64) as u32
    }
}

/// The signed 32-bit value an unsigned 32-bit representation stands for.
fn wrap_to_i32(x: u32) -> (r: i32)
    ensures
        r == as_i32(x as int),
{
    if x < 0x8000_0000 {
        x as i32
    } else {
        ((x as i64) - 0x1_0000_0000i64) as i32
    }
}

/// Compute the B5 intermediate from the raw temperature code.
///
/// Returns `None` exactly when the computation is an arithmetic failure:
/// the product `(UT - AC6) * AC5` leaves the signed 32-bit domain, or the
/// divisor `X1 + MD` is zero.
pub fn compute_b5(c: &Calibration, raw_temperature: i16) -> (r: Option<i32>)
    ensures
        r is Some <==> b5_defined(*c, raw_temperature as int),
        r matches Some(b5) ==> b5 == spec_b5(*c, raw_temperature as int),
        r matches Some(b5) ==> -0x401_0000 <= b5 <= 0x400_ffff,
{
    let ut = raw_temperature as i32;
    let diff = ut - (c.ac6 as i32);
    let prod = match diff.checked_mul(c.ac5 as i32) {
        Some(p) => p,
        None => {
            return None;
        },
    };
    let x1 = floor_div(prod, 0x8000);
    let den = x1 + (c.md as i32);
    if den == 0 {
        return None;
    }
    let shifted_mc = (c.mc as i32) * 0x800;
    proof {
        lemma_tdiv_bound(shifted_mc as int, den as int);
    }
    let x2 = shifted_mc.checked_div(den).unwrap();
    proof {
        lemma_b5_intermediate_bounds(*c, raw_temperature as int);
    }
    Some(x1 + x2)
}

/// Compute the calibrated temperature, in tenths of a degree Celsius, from
/// the raw temperature code: `(B5 + 8) >> 4`.
///
/// Returns `None` exactly when the B5 computation is an arithmetic failure.
pub fn compute_temperature(c: &Calibration, raw_temperature: i16) -> (r: Option<i32>)
    ensures
        r is Some <==> b5_defined(*c, raw_temperature as int),
        r matches Some(t) ==> t == spec_temperature(*c, raw_temperature as int),
{
    match compute_b5(c, raw_temperature) {
        Some(b5) => Some(floor_div(b5 + 8, 16)),
        None => None,
    }
}

/// Calibrated pressure in Pa from the raw pressure code `up`, the
/// oversampling ordinal `m` and the shared B5 intermediate, following the
/// datasheet intermediates B6, X1..X3, B3, B4, B7 and the final filter.
pub open spec fn spec_pressure_from_b5(c: Calibration, m: int, up: int, b5: int) -> int {
    let b6 = b5 - 4000;
    let bsq = (b6 * b6) / 0x1000;
    let x1 = (c.b2 * bsq) / 0x800;
    let x2 = (c.ac2 * b6) / 0x800;
    let x3 = x1 + x2;
    let b3 = tdiv((c.ac1 * 4 + x3) * pow2m(m) + 2, 4);
    let x4 = (c.ac3 * b6) / 0x2000;
    let x5 = (c.b1 * bsq) / 0x10000;
    let x6 = (x4 + x5 + 2) / 4;
    let b4 = (c.ac4 * as_u32(x6 + 32768)) / 0x8000;
    let b7 = u32_diff(as_u32(up), as_u32(b3)) * b7_scale(m);
    let p = if b7 < 0x8000_0000 {
        (b7 * 2) / b4
    } else {
        (b7 / b4) * 2
    };
    let pi = as_i32(p);
    let pq = pi / 256;
    let x7 = (pq * pq * 3038) / 0x10000;
    let x8 = (-7357 * pi) / 0x10000;
    pi + (x7 + x8 + 3791) / 16
}

/// Whether the pressure computation from a given B5 succeeds: every
/// product stays in its fixed-width domain and the B4 divisor is not zero.
pub open spec fn pressure_defined_from_b5(c: Calibration, m: int, up: int, b5: int) -> bool {
    let b6 = b5 - 4000;
    let bsq = (b6 * b6) / 0x1000;
    let x1 = (c.b2 * bsq) / 0x800;
    let x2 = (c.ac2 * b6) / 0x800;
    let x3 = x1 + x2;
    let b3 = tdiv((c.ac1 * 4 + x3) * pow2m(m) + 2, 4);
    let x4 = (c.ac3 * b6) / 0x2000;
    let x5 = (c.b1 * bsq) / 0x10000;
    let x6 = (x4 + x5 + 2) / 4;
    let b4 = (c.ac4 * as_u32(x6 + 32768)) / 0x8000;
    let b7 = u32_diff(as_u32(up), as_u32(b3)) * b7_scale(m);
    let p = if b7 < 0x8000_0000 {
        (b7 * 2) / b4
    } else {
        (b7 / b4) * 2
    };
    let pi = as_i32(p);
    let pq = pi / 256;
    let x7 = (pq * pq * 3038) / 0x10000;
    let x8 = (-7357 * pi) / 0x10000;
    &&& fits_i32(b6 * b6)
    &&& fits_i32(c.b2 * bsq)
    &&& fits_i32(c.ac2 * b6)
    &&& fits_i32(c.ac3 * b6)
    &&& fits_i32(c.b1 * bsq)
    &&& fits_u32(c.ac4 * as_u32(x6 + 32768))
    &&& fits_u32(u32_diff(as_u32(up), as_u32(b3)) * b7_scale(m))
    &&& b4 != 0
    &&& (b7 >= 0x8000_0000 ==> fits_u32((b7 / b4) * 2))
    &&& fits_i32(pq * pq)
    &&& fits_i32(pq * pq * 3038)
    &&& fits_i32(-7357 * pi)
    &&& fits_i32(pi + (x7 + x8 + 3791) / 16)
}

/// Whether the whole pressure computation from the raw codes succeeds.
pub open spec fn pressure_defined(c: Calibration, m: int, ut: int, up: int) -> bool {
    &&& b5_defined(c, ut)
    &&& pressure_defined_from_b5(c, m, up, spec_b5(c, ut))
}

/// Calibrated pressure in Pa from the raw temperature and pressure codes.
pub open spec fn spec_pressure(c: Calibration, m: int, ut: int, up: int) -> int {
    spec_pressure_from_b5(c, m, up, spec_b5(c, ut))
}

/// Compute the calibrated pressure in Pa from the raw temperature and
/// pressure codes, in the given mode.
///
/// Returns `None` exactly when the computation is an arithmetic failure:
/// a division by zero, or an intermediate leaving its fixed-width integer
/// domain. The B7 subtraction is not such a failure: the datasheet
/// reference code computes it on unsigned representations, where it wraps.
#[verifier::rlimit(100)]
pub fn compute_pressure(c: &Calibration, mode: Mode, raw_temperature: i16, raw_pressure: i32) -> (r:
    Option<i32>)
    ensures
        r is Some <==> pressure_defined(
            *c,
            mode.ordinal(),
            raw_temperature as int,
            raw_pressure as int,
        ),
        r matches Some(p) ==> p == spec_pressure(
            *c,
            mode.ordinal(),
            raw_temperature as int,
            raw_pressure as int,
        ),
{
    let b5 = match compute_b5(c, raw_temperature) {
        Some(b5) => b5,
        None => {
            return None;
        },
    };
    let b6 = b5 - 4000;
    let b6sq = match b6.checked_mul(b6) {
        Some(v) => v,
        None => {
            return None;
        },
    };
    let bsq = floor_div(b6sq, 0x1000);
    let x1n = match (c.b2 as i32).checked_mul(bsq) {
        Some(v) => v,
        None => {
            return None;
        },
    };
    let x1 = floor_div(x1n, 0x800);
    let x2n = match (c.ac2 as i32).checked_mul(b6) {
        Some(v) => v,
        None => {
            return None;
        },
    };
    let x2 = floor_div(x2n, 0x800);
    let x3 = x1 + x2;
    let scaled = (c.ac1 as i32) * 4 + x3;
    let shifted = match mode {
        Mode::UltraLowPower => scaled * 1,
        Mode::Standard => scaled * 2,
        Mode::HighResolution => scaled * 4,
        Mode::UltraHighResolution => scaled * 8,
    };
    proof {
        lemma_tdiv_bound(shifted + 2, 4);
    }
    let b3 = (shifted + 2).checked_div(4).unwrap();
    let x4n = match (c.ac3 as i32).checked_mul(b6) {
        Some(v) => v,
        None => {
            return None;
        },
    };
    let x4 = floor_div(x4n, 0x2000);
    let x5n = match (c.b1 as i32).checked_mul(bsq) {
        Some(v) => v,
        None => {
            return None;
        },
    };
    let x5 = floor_div(x5n, 0x10000);
    let x6 = floor_div(x4 + x5 + 2, 4);
    let b4n = wrap_to_u32(x6 + 32768);
    let b4w = match (c.ac4 as u32).checked_mul(b4n) {
        Some(v) => v,
        None => {
            return None;
        },
    };
    let b4 = b4w / 0x8000;
    let diff = wrap_to_u32(raw_pressure).wrapping_sub(wrap_to_u32(b3));
    let scale: u32 = match mode {
        Mode::UltraLowPower => 50000,
        Mode::Standard => 25000,
        Mode::HighResolution => 12500,
        Mode::UltraHighResolution => 6250,
    };
    let b7 = match diff.checked_mul(scale) {
        Some(v) => v,
        None => {
            return None;
        },
    };
    if b4 == 0 {
        return None;
    }
    let p: u32 = if b7 < 0x8000_0000 {
        (b7 * 2) / b4
    } else {
        match (b7 / b4).checked_mul(2) {
            Some(v) => v,
            None => {
                return None;
            },
        }
    };
    let pi = wrap_to_i32(p);
    let pq = floor_div(pi, 256);
    let sq = match pq.checked_mul(pq) {
        Some(v) => v,
        None => {
            return None;
        },
    };
    let x7n = match sq.checked_mul(3038) {
        Some(v) => v,
        None => {
            return None;
        },
    };
    let x7 = floor_div(x7n, 0x10000);
    let x8n = match (-7357i32).checked_mul(pi) {
        Some(v) => v,
        None => {
            return None;
        },
    };
    let x8 = floor_div(x8n, 0x10000);
    let adj = floor_div(x7 + x8 + 3791, 16);
    match pi.checked_add(adj) {
        Some(v) => Some(v),
        None => None,
    }
}

/// Whether `t` is the calibrated temperature of some raw temperature code
/// under the coefficients `c`: what a successful temperature update stores.
pub open spec fn is_compensated_temperature(c: Calibration, t: int) -> bool {
    exists|ut: int|
        -0x8000 <= ut < 0x8000 && #[trigger] b5_defined(c, ut) && t == spec_temperature(c, ut)
}

/// Whether `p` is the calibrated pressure of some raw temperature and
/// pressure codes under the coefficients `c` and oversampling ordinal `m`:
/// what a successful pressure update stores.
pub open spec fn is_compensated_pressure(c: Calibration, m: int, p: int) -> bool {
    exists|ut: int, up: int|
        {
            &&& -0x8000 <= ut < 0x8000
            &&& 0 <= up < 0x100_0000
            &&& #[trigger] pressure_defined(c, m, ut, up)
            &&& p == spec_pressure(c, m, ut, up)
        }
}

/// Whether `t` and `p` are the calibrated temperature and pressure of one
/// shared pair of raw codes (one shared B5): what a successful combined
/// update stores.
pub open spec fn is_compensated_reading(c: Calibration, m: int, t: int, p: int) -> bool {
    exists|ut: int, up: int|
        {
            &&& -0x8000 <= ut < 0x8000
            &&& 0 <= up < 0x100_0000
            &&& b5_defined(c, ut)
            &&& #[trigger] pressure_defined(c, m, ut, up)
            &&& t == spec_temperature(c, ut)
            &&& p == spec_pressure(c, m, ut, up)
        }
}

/// A coefficient combination that zeroes the X2 divisor `X1 + MD` makes
/// the whole temperature computation an arithmetic failure: no calibrated
/// temperature is defined for it.
pub proof fn lemma_zero_b5_divisor_fails(c: Calibration, ut: int)
    requires
        b5_x1(c, ut) + c.md == 0,
    ensures
        !b5_defined(c, ut),
{
}

} // verus!
