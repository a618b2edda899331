//! From raw counts to tenths of a degree Celsius and pascals.
//!
//! The datasheet gives the compensation as a chain of integer steps on 32-bit
//! words. Every quotient rounds toward zero, so the order of the steps is part
//! of the result. The spec functions below are that chain over the
//! mathematical integers: `trunc_div` is the rounding quotient, and `wrap_i32`
//! and `wrap_u32` stand exactly where a 32-bit product, sum or change of
//! signedness can leave the range of its word. Where none is written, the step
//! stays in range for every input.

use crate::calibration::{be_unsigned, CalibrationCoefficients};
use crate::fixed_point::{
    add_i32, lemma_trunc_div_bound, mul_i32, mul_u32, reinterpret_signed, reinterpret_unsigned,
    sub_u32, trunc_div, wrap_i32, wrap_u32,
};
use crate::oversampling::Oss;
use vstd::prelude::*;

verus! {

/// Temperature in tenths of a degree Celsius: 217 is 21.7 °C.
#[derive(Clone, Copy, Debug, PartialEq, Eq, Structural)]
pub struct Temperature(pub i32);

impl Temperature {
    /// The temperature of `v` tenths of a degree Celsius.
    pub fn from_tenth_of_celcius(v: i32) -> (t: Self)
        ensures
            t == Temperature(v),
    {
        Temperature(v)
    }
}

/// Pressure in pascals.
#[derive(Clone, Copy, Debug, PartialEq, Eq, Structural)]
pub struct Pressure(pub i32);

impl Pressure {
    /// The pressure of `v` pascals.
    pub fn from_pascal(v: i32) -> (p: Self)
        ensures
            p == Pressure(v),
    {
        Pressure(v)
    }
}

/// Why a compensation has no result.
#[derive(Clone, Copy, Debug, PartialEq, Eq, Structural)]
pub enum ArithmeticError {
    /// A divisor of the formulas is zero: the calibration data is corrupt or
    /// a raw count is far out of range.
    DivisionByZero,
}

/// The raw temperature count that the output registers hold: sixteen bits,
/// most significant byte first.
pub open spec fn spec_raw_temperature(msb: u8, lsb: u8) -> int {
    be_unsigned(msb, lsb)
}

/// The raw pressure count that the output registers hold: the 24 bits of the
/// three bytes, without the low-order bits that the oversampling setting does
/// not fill. Those are 8 less the setting's shift, so the divisor is 2^8 over
/// the setting's scale.
pub open spec fn spec_raw_pressure(msb: u8, lsb: u8, xlsb: u8, mode: Oss) -> int {
    (msb * 65536 + lsb * 256 + xlsb) / (256int / mode.spec_scale())
}

/// First step of the temperature formula: the raw count against `ac6`,
/// scaled by `ac5` over 2^15.
pub open spec fn temperature_x1(cal: CalibrationCoefficients, ut: u16) -> int {
    trunc_div(wrap_i32((ut - cal.ac6) * cal.ac5), 32768)
}

/// The divisor of the temperature formula's second step.
pub open spec fn temperature_divisor(cal: CalibrationCoefficients, ut: u16) -> int {
    temperature_x1(cal, ut) + cal.md
}

/// The term `b5` that couples the two formulas, where the divisor is not zero.
pub open spec fn spec_b5(cal: CalibrationCoefficients, ut: u16) -> int {
    temperature_x1(cal, ut) + trunc_div(cal.mc * 2048, temperature_divisor(cal, ut))
}

/// True temperature in tenths of a degree Celsius, from `b5`.
pub open spec fn temperature_of(b5: int) -> int {
    trunc_div(b5 + 8, 16)
}

/// The square of `b6` over 2^12, which two steps of the pressure formula use.
pub open spec fn pressure_b6_squared(b6: int) -> int {
    trunc_div(wrap_i32(b6 * b6), 4096)
}

/// The term `b3` of the pressure formula: the offset at the given
/// oversampling setting.
pub open spec fn pressure_b3(cal: CalibrationCoefficients, b5: int, mode: Oss) -> int {
    let b6 = b5 - 4000;
    let x1 = trunc_div(wrap_i32(cal.b2 * pressure_b6_squared(b6)), 2048);
    let x2 = trunc_div(wrap_i32(cal.ac2 * b6), 2048);
    let x3 = x1 + x2;
    trunc_div((cal.ac1 * 4 + x3) * mode.spec_scale() + 2, 4)
}

/// The term `b4` of the pressure formula: the sensitivity, an unsigned word
/// and the divisor of the formula.
pub open spec fn pressure_b4(cal: CalibrationCoefficients, b5: int) -> int {
    let b6 = b5 - 4000;
    let x1 = trunc_div(wrap_i32(cal.ac3 * b6), 8192);
    let x2 = trunc_div(wrap_i32(cal.b1 * pressure_b6_squared(b6)), 65536);
    let x3 = trunc_div(x1 + x2 + 2, 4);
    wrap_u32(cal.ac4 * wrap_u32(x3 + 32768)) / 32768
}

/// The term `b7` of the pressure formula: the raw count less the offset, as
/// an unsigned word, scaled by 50000 over the setting's scale.
pub open spec fn pressure_b7(b3: int, up: u32, mode: Oss) -> int {
    wrap_u32(wrap_u32(up - b3) * (50000int / mode.spec_scale()))
}

/// The first estimate `p` of the pressure: twice `b7` over `b4`, doubling
/// before the division while that fits an unsigned word and after it
/// otherwise, read as a signed word.
pub open spec fn pressure_p(b7: int, b4: int) -> int
    recommends
        b4 != 0,
{
    if b7 < 0x8000_0000 {
        wrap_i32((b7 * 2) / b4)
    } else {
        wrap_i32(wrap_u32((b7 / b4) * 2))
    }
}

/// True pressure in pascals, from the first estimate.
pub open spec fn pressure_of(p: int) -> int {
    let q = trunc_div(p, 256);
    let x1 = trunc_div(wrap_i32(wrap_i32(q * q) * 3038), 65536);
    let x2 = trunc_div(wrap_i32(-7357 * p), 65536);
    wrap_i32(p + trunc_div(x1 + x2 + 3791, 16))
}

/// True pressure in pascals from `b5` and the raw pressure count, or the
/// error where `b4` is zero.
pub open spec fn spec_pressure(cal: CalibrationCoefficients, b5: int, up: u32, mode: Oss) -> Result<
    Pressure,
    ArithmeticError,
> {
    let b4 = pressure_b4(cal, b5);
    if b4 == 0 {
        Err(ArithmeticError::DivisionByZero)
    } else {
        let b7 = pressure_b7(pressure_b3(cal, b5, mode), up, mode);
        Ok(Pressure(pressure_of(pressure_p(b7, b4)) as i32))
    }
}

/// What `compensate` returns: the error where the temperature formula's
/// divisor or `b4` is zero, and else both true values.
///
/// The body is opaque, so that proofs about the measurement cycle do not
/// carry the formulas along; `lemma_compensate_unfolded` states it in full.
#[verifier::opaque]
pub open spec fn spec_compensate(cal: CalibrationCoefficients, ut: u16, up: u32, mode: Oss) -> Result<
    (Temperature, Pressure),
    ArithmeticError,
> {
    if temperature_divisor(cal, ut) == 0 {
        Err(ArithmeticError::DivisionByZero)
    } else {
        let b5 = spec_b5(cal, ut);
        match spec_pressure(cal, b5, up, mode) {
            Ok(pressure) => Ok((Temperature(temperature_of(b5) as i32), pressure)),
            Err(e) => Err(e),
        }
    }
}

/// `spec_compensate` in full: the error exactly where one of the two divisors
/// is zero, and else the true temperature from `b5` and the true pressure from
/// `b3`, `b4`, `b7` and the first estimate, each by its formula.
pub proof fn lemma_compensate_unfolded(cal: CalibrationCoefficients, ut: u16, up: u32, mode: Oss)
    ensures
        spec_compensate(cal, ut, up, mode) is Err <==> temperature_divisor(cal, ut) == 0
            || pressure_b4(cal, spec_b5(cal, ut)) == 0,
        spec_compensate(cal, ut, up, mode) matches Err(e) ==> e == ArithmeticError::DivisionByZero,
        spec_compensate(cal, ut, up, mode) matches Ok((temperature, pressure)) ==> {
            let b5 = spec_b5(cal, ut);
            let b7 = pressure_b7(pressure_b3(cal, b5, mode), up, mode);
            &&& temperature.0 == temperature_of(b5)
            &&& pressure.0 == pressure_of(pressure_p(b7, pressure_b4(cal, b5)))
        },
{
    reveal(spec_compensate);
    if temperature_divisor(cal, ut) != 0 {
        lemma_b5_bound(cal, ut);
    }
}

/// Whatever the calibration and the raw count, `b5` stays within 2^26 + 2^16
/// of zero.
pub proof fn lemma_b5_bound(cal: CalibrationCoefficients, ut: u16)
    requires
        temperature_divisor(cal, ut) != 0,
    ensures
        -0x401_0000 <= spec_b5(cal, ut) <= 0x401_0000,
{
    lemma_trunc_div_bound(cal.mc * 2048, temperature_divisor(cal, ut));
}

/// The raw pressure count is the 24-bit word of the three bytes shifted right
/// by 8 less the setting's shift.
pub proof fn lemma_raw_pressure_is_shifted_word(msb: u8, lsb: u8, xlsb: u8, mode: Oss)
    ensures
        spec_raw_pressure(msb, lsb, xlsb, mode) == ((msb * 65536 + lsb * 256 + xlsb) as u32) >> ((8
            - mode.spec_policy().shift_bits) as u32),
        0 <= spec_raw_pressure(msb, lsb, xlsb, mode) < 0x8_0000,
{
    let word = (msb * 65536 + lsb * 256 + xlsb) as u32;
    assert(word >> 8u32 == word / 256) by (bit_vector);
    assert(word >> 7u32 == word / 128) by (bit_vector);
    assert(word >> 6u32 == word / 64) by (bit_vector);
    assert(word >> 5u32 == word / 32) by (bit_vector);
}

/// Where `md` is zero and the first step of the temperature formula yields
/// zero, the divisor of its second step is zero, and compensation is the
/// error and no value: whatever the other coefficients, `mc` among them, the
/// raw pressure count and the setting are.
pub proof fn lemma_zero_divisor_is_error(cal: CalibrationCoefficients, ut: u16, up: u32, mode: Oss)
    requires
        cal.md == 0,
        temperature_x1(cal, ut) == 0,
    ensures
        spec_compensate(cal, ut, up, mode) == Err::<(Temperature, Pressure), ArithmeticError>(
            ArithmeticError::DivisionByZero,
        ),
{
    reveal(spec_compensate);
}

/// The first step of the temperature formula yields zero where the raw count
/// equals `ac6`, and where `ac5` is zero.
pub proof fn lemma_temperature_x1_zero(cal: CalibrationCoefficients, ut: u16)
    requires
        ut == cal.ac6 || cal.ac5 == 0,
    ensures
        temperature_x1(cal, ut) == 0,
{
    assert((ut - cal.ac6) * cal.ac5 == 0) by (nonlinear_arith)
        requires
            ut == cal.ac6 || cal.ac5 == 0,
    ;
}

/// The true temperature depends on the calibration and the raw temperature
/// count alone.
pub proof fn lemma_temperature_ignores_pressure(
    cal: CalibrationCoefficients,
    ut: u16,
    up1: u32,
    mode1: Oss,
    up2: u32,
    mode2: Oss,
)
    requires
        spec_compensate(cal, ut, up1, mode1) is Ok,
        spec_compensate(cal, ut, up2, mode2) is Ok,
    ensures
        spec_compensate(cal, ut, up1, mode1)->Ok_0.0 == spec_compensate(cal, ut, up2, mode2)->Ok_0.0,
        spec_compensate(cal, ut, up1, mode1)->Ok_0.0 == Temperature(
            temperature_of(spec_b5(cal, ut)) as i32,
        ),
{
    reveal(spec_compensate);
}

/// Assembles the raw temperature count from the two output bytes.
pub fn raw_temperature(msb: u8, lsb: u8) -> (ut: u16)
    ensures
        ut == spec_raw_temperature(msb, lsb),
{
    (msb as u16) * 256 + (lsb as u16)
}

/// Assembles the raw pressure count from the three output bytes, shifting
/// out the bits that the oversampling setting leaves unused.
pub fn raw_pressure(msb: u8, lsb: u8, xlsb: u8, mode: Oss) -> (up: u32)
    ensures
        up == spec_raw_pressure(msb, lsb, xlsb, mode),
        up < 0x8_0000,
{
    let word: u32 = (msb as u32) * 65536 + (lsb as u32) * 256 + (xlsb as u32);
    let shift: u8 = mode.policy().shift_bits;
    assert(word >> 8u8 == word / 256) by (bit_vector);
    assert(word >> 7u8 == word / 128) by (bit_vector);
    assert(word >> 6u8 == word / 64) by (bit_vector);
    assert(word >> 5u8 == word / 32) by (bit_vector);
    word >> (8 - shift)
}

/// Computes the coupling term `b5` of the two formulas from the raw
/// temperature count.
pub fn b5(cal: &CalibrationCoefficients, ut: u16) -> (r: Result<i32, ArithmeticError>)
    ensures
        r is Err <==> temperature_divisor(*cal, ut) == 0,
        r matches Ok(v) ==> v == spec_b5(*cal, ut),
{
    let x1: i32 = mul_i32(ut as i32 - cal.ac6 as i32, cal.ac5 as i32) / 32768;
    let divisor: i32 = x1 + cal.md as i32;
    if divisor == 0 {
        return Err(ArithmeticError::DivisionByZero);
    }
    proof {
        lemma_trunc_div_bound(cal.mc * 2048, divisor as int);
    }
    let x2: i32 = cal.mc as i32 * 2048 / divisor;
    Ok(x1 + x2)
}

/// Computes the true temperature from `b5`.
fn true_temperature(b5: i32) -> (t: Temperature)
    requires
        -0x401_0000 <= b5 <= 0x401_0000,
    ensures
        t == Temperature(temperature_of(b5 as int) as i32),
{
    Temperature::from_tenth_of_celcius((b5 + 8) / 16)
}

/// Computes the square of `b6` over 2^12.
fn b6_squared(b6: i32) -> (r: i32)
    ensures
        r == pressure_b6_squared(b6 as int),
        -0x8_0000 <= r < 0x8_0000,
{
    mul_i32(b6, b6) / 4096
}

/// Computes the offset `b3`.
fn offset_b3(cal: &CalibrationCoefficients, b5: i32, mode: Oss) -> (b3: i32)
    requires
        -0x401_0000 <= b5 <= 0x401_0000,
    ensures
        b3 == pressure_b3(*cal, b5 as int, mode),
        -0x400_0000 <= b3 < 0x400_0000,
{
    let b6: i32 = b5 - 4000;
    let x1: i32 = mul_i32(cal.b2 as i32, b6_squared(b6)) / 2048;
    let x2: i32 = mul_i32(cal.ac2 as i32, b6) / 2048;
    let x3: i32 = x1 + x2;
    let unscaled: i32 = cal.ac1 as i32 * 4 + x3;
    let shift: u8 = mode.policy().shift_bits;
    assert(unscaled << 0u8 == unscaled) by (bit_vector);
    assert(unscaled << 1u8 == unscaled * 2) by (bit_vector)
        requires
            -0x100_0000 <= unscaled < 0x100_0000,
    ;
    assert(unscaled << 2u8 == unscaled * 4) by (bit_vector)
        requires
            -0x100_0000 <= unscaled < 0x100_0000,
    ;
    assert(unscaled << 3u8 == unscaled * 8) by (bit_vector)
        requires
            -0x100_0000 <= unscaled < 0x100_0000,
    ;
    ((unscaled << shift) + 2) / 4
}

/// Computes the sensitivity `b4`.
fn sensitivity_b4(cal: &CalibrationCoefficients, b5: i32) -> (b4: u32)
    requires
        -0x401_0000 <= b5 <= 0x401_0000,
    ensures
        b4 == pressure_b4(*cal, b5 as int),
{
    let b6: i32 = b5 - 4000;
    let x1: i32 = mul_i32(cal.ac3 as i32, b6) / 8192;
    let x2: i32 = mul_i32(cal.b1 as i32, b6_squared(b6)) / 65536;
    let x3: i32 = ((x1 + x2) + 2) / 4;
    mul_u32(cal.ac4 as u32, reinterpret_unsigned(x3 + 32768)) / 32768
}

/// Computes the scaled difference `b7`.
fn scaled_b7(b3: i32, up: u32, mode: Oss) -> (b7: u32)
    requires
        -0x400_0000 <= b3 < 0x400_0000,
    ensures
        b7 == pressure_b7(b3 as int, up, mode),
{
    let shift: u8 = mode.policy().shift_bits;
    assert(50000u32 >> 0u8 == 50000u32) by (bit_vector);
    assert(50000u32 >> 1u8 == 25000u32) by (bit_vector);
    assert(50000u32 >> 2u8 == 12500u32) by (bit_vector);
    assert(50000u32 >> 3u8 == 6250u32) by (bit_vector);
    let difference: u32 = sub_u32(up, reinterpret_unsigned(b3));
    assert(difference == wrap_u32(up - b3));
    mul_u32(difference, 50000u32 >> shift)
}

/// Computes the first estimate `p` of the pressure.
fn first_estimate(b7: u32, b4: u32) -> (p: i32)
    requires
        b4 != 0,
    ensures
        p == pressure_p(b7 as int, b4 as int),
{
    if b7 < 0x8000_0000 {
        reinterpret_signed((b7 * 2) / b4)
    } else {
        reinterpret_signed(mul_u32(b7 / b4, 2))
    }
}

/// Computes the true pressure from the first estimate.
fn refine(p: i32) -> (pascal: i32)
    ensures
        pascal == pressure_of(p as int),
{
    let q: i32 = p / 256;
    let x1: i32 = mul_i32(mul_i32(q, q), 3038) / 65536;
    let x2: i32 = mul_i32(-7357, p) / 65536;
    add_i32(p, (x1 + x2 + 3791) / 16)
}

/// Computes the true pressure from `b5` and the raw pressure count.
fn true_pressure(cal: &CalibrationCoefficients, b5: i32, up: u32, mode: Oss) -> (r: Result<
    Pressure,
    ArithmeticError,
>)
    requires
        -0x401_0000 <= b5 <= 0x401_0000,
    ensures
        r == spec_pressure(*cal, b5 as int, up, mode),
{
    let b3 = offset_b3(cal, b5, mode);
    let b4 = sensitivity_b4(cal, b5);
    if b4 == 0 {
        return Err(ArithmeticError::DivisionByZero);
    }
    let b7 = scaled_b7(b3, up, mode);
    Ok(Pressure::from_pascal(refine(first_estimate(b7, b4))))
}

/// Turns the raw counts of one measurement into the true temperature and
/// pressure. `mode` is the oversampling setting at which `up` was taken.
///
/// The result is a function of the four arguments. It is the error exactly
/// where a divisor of the formulas is zero; else the temperature is the
/// formula's value for `b5`, and the pressure the formula's value for `b5`,
/// the raw pressure count and the setting. No input is refused, and on no
/// input does a step fail: a product, sum or change of signedness that leaves
/// the range of its 32-bit word wraps, as `spec_b5` and the `pressure_`
/// functions spell out.
pub fn compensate(cal: &CalibrationCoefficients, ut: u16, up: u32, mode: Oss) -> (r: Result<
    (Temperature, Pressure),
    ArithmeticError,
>)
    ensures
        r == spec_compensate(*cal, ut, up, mode),
        r is Err <==> temperature_divisor(*cal, ut) == 0 || pressure_b4(*cal, spec_b5(*cal, ut))
            == 0,
        r matches Err(e) ==> e == ArithmeticError::DivisionByZero,
        r matches Ok((temperature, pressure)) ==> {
            let b5 = spec_b5(*cal, ut);
            let b7 = pressure_b7(pressure_b3(*cal, b5, mode), up, mode);
            &&& temperature.0 == temperature_of(b5)
            &&& pressure.0 == pressure_of(pressure_p(b7, pressure_b4(*cal, b5)))
        },
{
    proof {
        reveal(spec_compensate);
    }
    let b5 = match b5(cal, ut) {
        Ok(v) => v,
        Err(e) => {
            return Err(e);
        },
    };
    proof {
        lemma_b5_bound(*cal, ut);
    }
    let temperature = true_temperature(b5);
    match true_pressure(cal, b5, up, mode) {
        Ok(pressure) => Ok((temperature, pressure)),
        Err(e) => Err(e),
    }
}

/// The true temperature and pressure of one measurement, from the bytes as
/// they came off the bus: the calibration block, the two bytes of the
/// temperature read and the three bytes of the pressure read, taken at the
/// setting `oss`. It is `compensate` on the decoded block and the two
/// assembled counts; `lemma_compensate_unfolded` says what that is.
pub fn get_temperature_and_pressure(
    calibration: &[u8; 22],
    temperature: &[u8; 2],
    pressure: &[u8; 3],
    oss: Oss,
) -> (r: Result<(Temperature, Pressure), ArithmeticError>)
    ensures
        r == spec_compensate(
            CalibrationCoefficients::spec_decode(calibration@),
            spec_raw_temperature(temperature@[0], temperature@[1]) as u16,
            spec_raw_pressure(pressure@[0], pressure@[1], pressure@[2], oss) as u32,
            oss,
        ),
{
    let cal = CalibrationCoefficients::decode(calibration);
    let ut = raw_temperature(temperature[0], temperature[1]);
    let up = raw_pressure(pressure[0], pressure[1], pressure[2], oss);
    compensate(&cal, ut, up, oss)
}

} // verus!
