//! IEEE 754 binary32 arithmetic on `u32` bit patterns.
//!
//! Verus cannot reason about floating-point values, so this crate never holds
//! one: a number is carried as the `u32` bit pattern of a binary32 value, and
//! the four arithmetic operations are named, uninterpreted functions of the
//! operand patterns. The trusted wrappers below compute them with
//! `rustc_apfloat`'s software implementation of binary32 arithmetic, which
//! rounds to nearest (ties to even) exactly as hardware does, and whose
//! results depend on the operand bit patterns alone.

use vstd::prelude::*;

use rustc_apfloat::Float;

verus! {

/// Bit pattern of +0.0 in binary32.
pub const ZERO_BITS: u32 = 0x0000_0000;

/// Bit pattern of 0.5 in binary32.
pub const HALF_BITS: u32 = 0x3F00_0000;

/// Bit pattern of 1.0 in binary32.
pub const ONE_BITS: u32 = 0x3F80_0000;

/// Bit pattern of 4.0 in binary32, the size of the training set.
pub const FOUR_BITS: u32 = 0x4080_0000;

/// The binary32 sum of the values with bit patterns `a` and `b`, as a bit
/// pattern (round to nearest, ties to even).
pub uninterp spec fn add_bits(a: u32, b: u32) -> u32;

/// The binary32 difference of the values with bit patterns `a` and `b`.
pub uninterp spec fn sub_bits(a: u32, b: u32) -> u32;

/// The binary32 product of the values with bit patterns `a` and `b`.
pub uninterp spec fn mul_bits(a: u32, b: u32) -> u32;

/// The binary32 quotient of the values with bit patterns `a` and `b`.
pub uninterp spec fn div_bits(a: u32, b: u32) -> u32;

/// Relies on `rustc_apfloat::ieee::Single`'s `Add` impl (`Float::add_r` with
/// round to nearest, ties to even): binary32 addition, a function of the two
/// operand bit patterns alone.
#[verifier::external_body]
pub fn fadd(a: u32, b: u32) -> (r: u32)
    ensures
        r == add_bits(a, b),
{
    let x = rustc_apfloat::ieee::Single::from_bits(a as u128);
    let y = rustc_apfloat::ieee::Single::from_bits(b as u128);
    (x + y).value.to_bits() as u32
}

/// Relies on `rustc_apfloat::ieee::Single`'s `Sub` impl (`Float::sub_r` with
/// round to nearest, ties to even): binary32 subtraction, a function of the
/// two operand bit patterns alone.
#[verifier::external_body]
pub fn fsub(a: u32, b: u32) -> (r: u32)
    ensures
        r == sub_bits(a, b),
{
    let x = rustc_apfloat::ieee::Single::from_bits(a as u128);
    let y = rustc_apfloat::ieee::Single::from_bits(b as u128);
    (x - y).value.to_bits() as u32
}

/// Relies on `rustc_apfloat::ieee::Single`'s `Mul` impl (`Float::mul_r` with
/// round to nearest, ties to even): binary32 multiplication, a function of
/// the two operand bit patterns alone.
#[verifier::external_body]
pub fn fmul(a: u32, b: u32) -> (r: u32)
    ensures
        r == mul_bits(a, b),
{
    let x = rustc_apfloat::ieee::Single::from_bits(a as u128);
    let y = rustc_apfloat::ieee::Single::from_bits(b as u128);
    (x * y).value.to_bits() as u32
}

/// Relies on `rustc_apfloat::ieee::Single`'s `Div` impl (`Float::div_r` with
/// round to nearest, ties to even): binary32 division, a function of the two
/// operand bit patterns alone.
#[verifier::external_body]
pub fn fdiv(a: u32, b: u32) -> (r: u32)
    ensures
        r == div_bits(a, b),
{
    let x = rustc_apfloat::ieee::Single::from_bits(a as u128);
    let y = rustc_apfloat::ieee::Single::from_bits(b as u128);
    (x / y).value.to_bits() as u32
}

} // verus!
