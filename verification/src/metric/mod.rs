//! Metric handling and storage.
use vstd::prelude::*;

pub mod storage;

verus! {

/// The value of a metric sample. A floating-point value is held as the bit
/// pattern of its IEEE-754 double (`f64::to_bits`); two values compare as
/// the doubles do.
#[derive(Debug)]
pub enum MetricValue {
    Integer(i64),
    Float(u64),
    String(String),
}

/// One sample of a metric.
#[derive(Debug, PartialEq)]
pub struct Metric {
    /// e.g. "engine.rpm"
    pub id: String,
    pub timestamp: i64,
    pub value: MetricValue,
}

/// Whether the double with these bits is NaN: all exponent bits set and a
/// fraction that is not zero.
pub open spec fn is_nan_bits(bits: u64) -> bool {
    (bits & 0x7ff0_0000_0000_0000u64) == 0x7ff0_0000_0000_0000u64 && (bits
        & 0x000f_ffff_ffff_ffffu64) != 0
}

/// Whether the double with these bits is +0.0 or -0.0.
pub open spec fn is_zero_bits(bits: u64) -> bool {
    (bits & 0x7fff_ffff_ffff_ffffu64) == 0
}

/// IEEE-754 equality of two doubles given by their bits: neither is NaN,
/// and they have the same bits or are both zeros.
pub open spec fn float_bits_eq(a: u64, b: u64) -> bool {
    !is_nan_bits(a) && !is_nan_bits(b) && (a == b || (is_zero_bits(a) && is_zero_bits(b)))
}

/// Whether two metric values are equal: same variant, equal payloads, the
/// floats compared as doubles.
pub open spec fn metric_value_eq(a: MetricValue, b: MetricValue) -> bool {
    match (a, b) {
        (MetricValue::Integer(x), MetricValue::Integer(y)) => x == y,
        (MetricValue::Float(x), MetricValue::Float(y)) => float_bits_eq(x, y),
        (MetricValue::String(x), MetricValue::String(y)) => x@ == y@,
        _ => false,
    }
}

/// IEEE-754 equality of two doubles given by their bits.
pub fn float_bits_equal(a: u64, b: u64) -> (r: bool)
    ensures
        r == float_bits_eq(a, b),
{
    let a_nan = (a & 0x7ff0_0000_0000_0000u64) == 0x7ff0_0000_0000_0000u64 && (a
        & 0x000f_ffff_ffff_ffffu64) != 0;
    let b_nan = (b & 0x7ff0_0000_0000_0000u64) == 0x7ff0_0000_0000_0000u64 && (b
        & 0x000f_ffff_ffff_ffffu64) != 0;
    let a_zero = (a & 0x7fff_ffff_ffff_ffffu64) == 0;
    let b_zero = (b & 0x7fff_ffff_ffff_ffffu64) == 0;
    !a_nan && !b_nan && (a == b || (a_zero && b_zero))
}

/// The zero doubles are exactly +0.0 (all bits clear) and -0.0 (only the
/// sign bit set).
pub proof fn lemma_zero_bits(x: u64)
    ensures
        is_zero_bits(x) <==> (x == 0 || x == 0x8000_0000_0000_0000u64),
{
    assert(((x & 0x7fff_ffff_ffff_ffffu64) == 0) <==> (x == 0 || x == 0x8000_0000_0000_0000u64))
        by (bit_vector);
}

/// The NaN doubles are exactly those whose 11 exponent bits are all set and
/// whose 52 fraction bits are not all clear; no NaN is a zero.
pub proof fn lemma_nan_bits(x: u64)
    ensures
        is_nan_bits(x) <==> (((x >> 52u64) & 0x7ffu64) == 0x7ffu64 && (x << 12u64) != 0),
        is_nan_bits(x) ==> !is_zero_bits(x),
{
    assert(((x & 0x7ff0_0000_0000_0000u64) == 0x7ff0_0000_0000_0000u64 && (x
        & 0x000f_ffff_ffff_ffffu64) != 0) <==> (((x >> 52u64) & 0x7ffu64) == 0x7ffu64 && (x
        << 12u64) != 0)) by (bit_vector);
    assert(((x & 0x7ff0_0000_0000_0000u64) == 0x7ff0_0000_0000_0000u64) ==> (x
        & 0x7fff_ffff_ffff_ffffu64) != 0) by (bit_vector);
}

/// Equality of doubles by their bits: NaN equals nothing, not even itself;
/// every other double equals itself; two doubles that are not zeros are
/// equal only when their bits are identical, so a double and its negation
/// are unequal; the two zeros are equal; and equality is symmetric.
pub proof fn lemma_float_bits_eq(a: u64, b: u64)
    ensures
        is_nan_bits(a) ==> !float_bits_eq(a, b) && !float_bits_eq(b, a),
        !is_nan_bits(a) ==> float_bits_eq(a, a),
        float_bits_eq(a, b) && !is_zero_bits(a) ==> a == b,
        float_bits_eq(a, b) ==> (is_zero_bits(a) <==> is_zero_bits(b)),
        !is_zero_bits(a) ==> !float_bits_eq(a, a ^ 0x8000_0000_0000_0000u64),
        float_bits_eq(0, 0x8000_0000_0000_0000u64),
        float_bits_eq(a, b) == float_bits_eq(b, a),
{
    assert(a != (a ^ 0x8000_0000_0000_0000u64)) by (bit_vector);
    assert(!is_zero_bits(a) ==> !is_zero_bits(a ^ 0x8000_0000_0000_0000u64)) by (bit_vector);
    assert(is_zero_bits(0)) by (bit_vector);
    assert(is_zero_bits(0x8000_0000_0000_0000u64)) by (bit_vector);
    assert(!is_nan_bits(0)) by (bit_vector);
    assert(!is_nan_bits(0x8000_0000_0000_0000u64)) by (bit_vector);
}

/// Two metric values are equal when they have the same variant and equal
/// payloads: integers as numbers, strings by their text, floats as doubles;
/// values of different variants are never equal.
pub proof fn lemma_metric_value_eq(a: MetricValue, b: MetricValue)
    ensures
        metric_value_eq(a, b) ==> (a is Integer <==> b is Integer) && (a is Float <==> b is Float)
            && (a is String <==> b is String),
        match (a, b) {
            (MetricValue::Integer(x), MetricValue::Integer(y)) => metric_value_eq(a, b) <==> x == y,
            (MetricValue::String(x), MetricValue::String(y)) => metric_value_eq(a, b) <==> x@ == y@,
            (MetricValue::Float(x), MetricValue::Float(y)) => metric_value_eq(a, b) <==> float_bits_eq(x, y),
            _ => !metric_value_eq(a, b),
        },
{
}

impl PartialEq for MetricValue {
    fn eq(&self, other: &MetricValue) -> (r: bool) {
        match (self, other) {
            (MetricValue::Integer(x), MetricValue::Integer(y)) => *x == *y,
            (MetricValue::Float(x), MetricValue::Float(y)) => float_bits_equal(*x, *y),
            (MetricValue::String(x), MetricValue::String(y)) => *x == *y,
            _ => false,
        }
    }
}

impl vstd::std_specs::cmp::PartialEqSpecImpl for MetricValue {
    open spec fn obeys_eq_spec() -> bool {
        true
    }

    open spec fn eq_spec(&self, other: &MetricValue) -> bool {
        metric_value_eq(*self, *other)
    }
}

impl Clone for MetricValue {
    fn clone(&self) -> (r: Self)
        ensures
            r == *self,
    {
        match self {
            MetricValue::Integer(i) => MetricValue::Integer(*i),
            MetricValue::Float(f) => MetricValue::Float(*f),
            MetricValue::String(s) => MetricValue::String(s.clone()),
        }
    }
}

impl Clone for Metric {
    fn clone(&self) -> (r: Self)
        ensures
            r == *self,
    {
        Metric { id: self.id.clone(), timestamp: self.timestamp, value: self.value.clone() }
    }
}

} // verus!
