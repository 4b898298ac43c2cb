//! The floating-point unit of both virtual machines.
//!
//! Registers hold untyped 64-bit patterns; float instructions reinterpret
//! them as IEEE-754 doubles.  The arithmetic is done in software by
//! `rustc_apfloat`, which works directly on bit patterns, so every operation
//! here is a pure function from operand bits to result bits.  Each result is
//! given a name below; the virtual machines' contracts speak of those names.

use vstd::prelude::*;

use rustc_apfloat::Float;
use rustc_apfloat::ieee::Double;

verus! {

/// Bit pattern of the IEEE-754 double sum of the doubles encoded by `a` and
/// `b`, rounded to nearest even.
pub uninterp spec fn fadd_bits(a: u64, b: u64) -> u64;

/// Bit pattern of the IEEE-754 double difference `a - b`.
pub uninterp spec fn fsub_bits(a: u64, b: u64) -> u64;

/// Bit pattern of the IEEE-754 double product `a * b`.
pub uninterp spec fn fmul_bits(a: u64, b: u64) -> u64;

/// Bit pattern of the IEEE-754 double quotient `a / b`; division by zero
/// yields an infinity or NaN pattern, never an error.
pub uninterp spec fn fdiv_bits(a: u64, b: u64) -> u64;

/// Bit pattern of the floating-point remainder `a % b` (C `fmod`).
pub uninterp spec fn frem_bits(a: u64, b: u64) -> u64;

/// IEEE-754 equality of the doubles encoded by `a` and `b` (false when
/// either is NaN).
pub uninterp spec fn feq_bits(a: u64, b: u64) -> bool;

/// IEEE-754 less-than of the doubles encoded by `a` and `b` (false when
/// either is NaN).
pub uninterp spec fn flt_bits(a: u64, b: u64) -> bool;

/// IEEE-754 greater-than of the doubles encoded by `a` and `b` (false when
/// either is NaN).
pub uninterp spec fn fgt_bits(a: u64, b: u64) -> bool;

/// The decimal text of the double encoded by `bits`: shortest decimal form,
/// `+Inf`/`-Inf` for the infinities, `NaN` for any NaN.
pub uninterp spec fn float_text_of(bits: u64) -> Seq<char>;

/// Relies on `rustc_apfloat::ieee::Double`'s `Add` (IEEE-754 addition,
/// round to nearest even): a pure function of the operand bit patterns.
#[verifier::external_body]
pub(crate) fn fadd(a: u64, b: u64) -> (r: u64)
    ensures
        r == fadd_bits(a, b),
{
    (Double::from_bits(a as u128) + Double::from_bits(b as u128)).value.to_bits() as u64
}

/// Relies on `rustc_apfloat::ieee::Double`'s `Sub` (IEEE-754 subtraction,
/// round to nearest even): a pure function of the operand bit patterns.
#[verifier::external_body]
pub(crate) fn fsub(a: u64, b: u64) -> (r: u64)
    ensures
        r == fsub_bits(a, b),
{
    (Double::from_bits(a as u128) - Double::from_bits(b as u128)).value.to_bits() as u64
}

/// Relies on `rustc_apfloat::ieee::Double`'s `Mul` (IEEE-754 multiplication,
/// round to nearest even): a pure function of the operand bit patterns.
#[verifier::external_body]
pub(crate) fn fmul(a: u64, b: u64) -> (r: u64)
    ensures
        r == fmul_bits(a, b),
{
    (Double::from_bits(a as u128) * Double::from_bits(b as u128)).value.to_bits() as u64
}

/// Relies on `rustc_apfloat::ieee::Double`'s `Div` (IEEE-754 division, round
/// to nearest even): total on all bit patterns, never panics; x/0 is an
/// infinity or NaN per IEEE-754.
#[verifier::external_body]
pub(crate) fn fdiv(a: u64, b: u64) -> (r: u64)
    ensures
        r == fdiv_bits(a, b),
{
    (Double::from_bits(a as u128) / Double::from_bits(b as u128)).value.to_bits() as u64
}

/// Relies on `rustc_apfloat::ieee::Double`'s `Rem` (C `fmod`): total on all
/// bit patterns, never panics.
#[verifier::external_body]
pub(crate) fn frem(a: u64, b: u64) -> (r: u64)
    ensures
        r == frem_bits(a, b),
{
    (Double::from_bits(a as u128) % Double::from_bits(b as u128)).value.to_bits() as u64
}

/// Relies on `rustc_apfloat::ieee::Double`'s `PartialEq::eq`: IEEE-754
/// equality, a pure function of the operand bit patterns.
#[verifier::external_body]
pub(crate) fn feq(a: u64, b: u64) -> (r: bool)
    ensures
        r == feq_bits(a, b),
{
    Double::from_bits(a as u128) == Double::from_bits(b as u128)
}

/// Relies on `rustc_apfloat::ieee::Double`'s `PartialOrd::lt`: IEEE-754
/// less-than, a pure function of the operand bit patterns.
#[verifier::external_body]
pub(crate) fn flt(a: u64, b: u64) -> (r: bool)
    ensures
        r == flt_bits(a, b),
{
    Double::from_bits(a as u128) < Double::from_bits(b as u128)
}

/// Relies on `rustc_apfloat::ieee::Double`'s `PartialOrd::gt`: IEEE-754
/// greater-than, a pure function of the operand bit patterns.
#[verifier::external_body]
pub(crate) fn fgt(a: u64, b: u64) -> (r: bool)
    ensures
        r == fgt_bits(a, b),
{
    Double::from_bits(a as u128) > Double::from_bits(b as u128)
}

/// Relies on `rustc_apfloat::ieee::Double`'s `Display`: a deterministic
/// decimal rendering of the double encoded by `bits`.
#[verifier::external_body]
pub(crate) fn float_text(bits: u64) -> (r: String)
    ensures
        r@ == float_text_of(bits),
{
    format!("{}", Double::from_bits(bits as u128))
}

} // verus!
