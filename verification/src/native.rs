//! Values as the comparisons see them.
//!
//! Floating-point numbers are carried by their IEEE 754 bit patterns, so that
//! both notions of equality that the predicate uses can be stated on integers.

use vstd::prelude::*;

verus! {

/// A 32-bit floating-point number, held as its bit pattern.
#[derive(Clone, Copy, Debug)]
pub struct F32 {
    pub bits: u32,
}

/// A 64-bit floating-point number, held as its bit pattern.
#[derive(Clone, Copy, Debug)]
pub struct F64 {
    pub bits: u64,
}

/// The quiet NaN that stands for every NaN in a canonical 32-bit pattern.
pub const CANONICAL_NAN_32: u32 = 0x7fc0_0000u32;

/// The quiet NaN that stands for every NaN in a canonical 64-bit pattern.
pub const CANONICAL_NAN_64: u64 = 0x7ff8_0000_0000_0000u64;

/// The pattern is a NaN: all exponent bits set and a mantissa that is not zero.
pub open spec fn f32_is_nan(bits: u32) -> bool {
    (bits & 0x7fff_ffffu32) > 0x7f80_0000u32
}

/// The pattern is a zero of either sign.
pub open spec fn f32_is_zero(bits: u32) -> bool {
    (bits & 0x7fff_ffffu32) == 0u32
}

/// IEEE 754 equality: no NaN equals anything, the two zeros are equal, and
/// every other number equals only itself.
pub open spec fn f32_native_eq(a: u32, b: u32) -> bool {
    !f32_is_nan(a) && !f32_is_nan(b) && (a == b || (f32_is_zero(a) && f32_is_zero(b)))
}

/// Total equality: as IEEE 754, but all NaNs equal one another.
pub open spec fn f32_total_eq(a: u32, b: u32) -> bool {
    if f32_is_nan(a) {
        f32_is_nan(b)
    } else {
        f32_native_eq(a, b)
    }
}

/// One pattern for each class of `f32_total_eq`.
pub open spec fn f32_canonical(bits: u32) -> u32 {
    if f32_is_nan(bits) {
        CANONICAL_NAN_32
    } else if f32_is_zero(bits) {
        0u32
    } else {
        bits
    }
}

/// The pattern is a NaN: all exponent bits set and a mantissa that is not zero.
pub open spec fn f64_is_nan(bits: u64) -> bool {
    (bits & 0x7fff_ffff_ffff_ffffu64) > 0x7ff0_0000_0000_0000u64
}

/// The pattern is a zero of either sign.
pub open spec fn f64_is_zero(bits: u64) -> bool {
    (bits & 0x7fff_ffff_ffff_ffffu64) == 0u64
}

/// IEEE 754 equality: no NaN equals anything, the two zeros are equal, and
/// every other number equals only itself.
pub open spec fn f64_native_eq(a: u64, b: u64) -> bool {
    !f64_is_nan(a) && !f64_is_nan(b) && (a == b || (f64_is_zero(a) && f64_is_zero(b)))
}

/// Total equality: as IEEE 754, but all NaNs equal one another.
pub open spec fn f64_total_eq(a: u64, b: u64) -> bool {
    if f64_is_nan(a) {
        f64_is_nan(b)
    } else {
        f64_native_eq(a, b)
    }
}

/// One pattern for each class of `f64_total_eq`.
pub open spec fn f64_canonical(bits: u64) -> u64 {
    if f64_is_nan(bits) {
        CANONICAL_NAN_64
    } else if f64_is_zero(bits) {
        0u64
    } else {
        bits
    }
}

/// Two 32-bit patterns are totally equal exactly when their canonical
/// patterns are the same.
pub proof fn lemma_f32_canonical(a: u32, b: u32)
    ensures
        f32_total_eq(a, b) <==> f32_canonical(a) == f32_canonical(b),
{
    assert((0u32 & 0x7fff_ffffu32) == 0u32) by (bit_vector);
    assert((0x7fc0_0000u32 & 0x7fff_ffffu32) > 0x7f80_0000u32) by (bit_vector);
}

/// Two 64-bit patterns are totally equal exactly when their canonical
/// patterns are the same.
pub proof fn lemma_f64_canonical(a: u64, b: u64)
    ensures
        f64_total_eq(a, b) <==> f64_canonical(a) == f64_canonical(b),
{
    assert((0u64 & 0x7fff_ffff_ffff_ffffu64) == 0u64) by (bit_vector);
    assert((0x7ff8_0000_0000_0000u64 & 0x7fff_ffff_ffff_ffffu64) > 0x7ff0_0000_0000_0000u64)
        by (bit_vector);
}

impl F32 {
    /// The number with the given bit pattern.
    pub fn from_bits(bits: u32) -> (r: Self)
        ensures
            r.bits == bits,
    {
        F32 { bits }
    }

    /// The number's bit pattern.
    pub fn to_bits(self) -> (r: u32)
        ensures
            r == self.bits,
    {
        self.bits
    }

    /// Whether the number is a NaN.
    pub fn is_nan(self) -> (r: bool)
        ensures
            r == f32_is_nan(self.bits),
    {
        (self.bits & 0x7fff_ffffu32) > 0x7f80_0000u32
    }

    /// Whether the number is a zero of either sign.
    pub fn is_zero(self) -> (r: bool)
        ensures
            r == f32_is_zero(self.bits),
    {
        (self.bits & 0x7fff_ffffu32) == 0u32
    }

    /// IEEE 754 equality.
    pub fn ieee_eq(self, other: F32) -> (r: bool)
        ensures
            r == f32_native_eq(self.bits, other.bits),
    {
        !self.is_nan() && !other.is_nan() && (self.bits == other.bits || (self.is_zero()
            && other.is_zero()))
    }

    /// Total equality, under which a NaN equals every NaN.
    pub fn total_eq(self, other: F32) -> (r: bool)
        ensures
            r == f32_total_eq(self.bits, other.bits),
    {
        if self.is_nan() {
            other.is_nan()
        } else {
            self.ieee_eq(other)
        }
    }
}

impl F64 {
    /// The number with the given bit pattern.
    pub fn from_bits(bits: u64) -> (r: Self)
        ensures
            r.bits == bits,
    {
        F64 { bits }
    }

    /// The number's bit pattern.
    pub fn to_bits(self) -> (r: u64)
        ensures
            r == self.bits,
    {
        self.bits
    }

    /// Whether the number is a NaN.
    pub fn is_nan(self) -> (r: bool)
        ensures
            r == f64_is_nan(self.bits),
    {
        (self.bits & 0x7fff_ffff_ffff_ffffu64) > 0x7ff0_0000_0000_0000u64
    }

    /// Whether the number is a zero of either sign.
    pub fn is_zero(self) -> (r: bool)
        ensures
            r == f64_is_zero(self.bits),
    {
        (self.bits & 0x7fff_ffff_ffff_ffffu64) == 0u64
    }

    /// IEEE 754 equality.
    pub fn ieee_eq(self, other: F64) -> (r: bool)
        ensures
            r == f64_native_eq(self.bits, other.bits),
    {
        !self.is_nan() && !other.is_nan() && (self.bits == other.bits || (self.is_zero()
            && other.is_zero()))
    }

    /// Total equality, under which a NaN equals every NaN.
    pub fn total_eq(self, other: F64) -> (r: bool)
        ensures
            r == f64_total_eq(self.bits, other.bits),
    {
        if self.is_nan() {
            other.is_nan()
        } else {
            self.ieee_eq(other)
        }
    }
}

/// A value that is not null, without its column's type.
///
/// Integers of every width are one case; the column's type stands beside the
/// value wherever the width matters.
pub enum Datum {
    Boolean(bool),
    Int(int),
    Float32(u32),
    Float64(u64),
    Utf8(Seq<char>),
}

/// Equality as a list comparison sees it: IEEE 754 on floating-point numbers,
/// sameness on everything else.
pub open spec fn native_eq(a: Datum, b: Datum) -> bool {
    match (a, b) {
        (Datum::Float32(x), Datum::Float32(y)) => f32_native_eq(x, y),
        (Datum::Float64(x), Datum::Float64(y)) => f64_native_eq(x, y),
        _ => a == b,
    }
}

/// Equality as a set lookup sees it: total equality on floating-point
/// numbers, sameness on everything else.
pub open spec fn total_eq(a: Datum, b: Datum) -> bool {
    match (a, b) {
        (Datum::Float32(x), Datum::Float32(y)) => f32_total_eq(x, y),
        (Datum::Float64(x), Datum::Float64(y)) => f64_total_eq(x, y),
        _ => a == b,
    }
}

/// The value that stands for every value totally equal to `d`.
pub open spec fn canonical(d: Datum) -> Datum {
    match d {
        Datum::Float32(x) => Datum::Float32(f32_canonical(x)),
        Datum::Float64(x) => Datum::Float64(f64_canonical(x)),
        _ => d,
    }
}

/// A floating-point NaN.
pub open spec fn is_nan(d: Datum) -> bool {
    match d {
        Datum::Float32(x) => f32_is_nan(x),
        Datum::Float64(x) => f64_is_nan(x),
        _ => false,
    }
}

/// Two values are totally equal exactly when their canonical values are the
/// same.
pub proof fn lemma_canonical(a: Datum, b: Datum)
    ensures
        total_eq(a, b) <==> canonical(a) == canonical(b),
{
    match (a, b) {
        (Datum::Float32(x), Datum::Float32(y)) => lemma_f32_canonical(x, y),
        (Datum::Float64(x), Datum::Float64(y)) => lemma_f64_canonical(x, y),
        _ => {},
    }
}

/// Away from NaN the two equalities agree, and with a NaN on either side
/// nothing is natively equal.
pub proof fn lemma_native_total(a: Datum, b: Datum)
    ensures
        !is_nan(a) && !is_nan(b) ==> (native_eq(a, b) <==> total_eq(a, b)),
        is_nan(a) || is_nan(b) ==> !native_eq(a, b),
        !is_nan(a) ==> native_eq(a, a),
        total_eq(a, a),
{
}

} // verus!
