//! Scores and thresholds as IEEE 754 binary64 bit patterns.
//!
//! The store never computes with real numbers. A score travels as the 64-bit
//! pattern of a double, and every comparison goes through `score_key`, an
//! integer that orders as the number does.

use vstd::prelude::*;

verus! {

/// The sign bit of a binary64 pattern.
pub const SIGN_BIT: u64 = 0x8000_0000_0000_0000;

/// The pattern of positive infinity: every larger magnitude is not a number.
pub const INFINITY_BITS: u64 = 0x7ff0_0000_0000_0000;

/// The pattern of one, the largest similarity that two vectors can have.
pub const ONE_BITS: u64 = 0x3ff0_0000_0000_0000;

/// The pattern of one and a tenth, a threshold that no similarity reaches.
pub const ABOVE_ONE_BITS: u64 = 0x3ff1_9999_9999_999a;

/// The pattern of seven tenths, the default similarity threshold.
pub const DEFAULT_THRESHOLD_BITS: u64 = 0x3fe6_6666_6666_6666;

/// The pattern without its sign bit.
pub open spec fn magnitude(bits: u64) -> int {
    if bits >= SIGN_BIT {
        bits - SIGN_BIT
    } else {
        bits as int
    }
}

/// Whether the pattern stands for a number (finite or infinite).
pub open spec fn is_number(bits: u64) -> bool {
    magnitude(bits) <= INFINITY_BITS
}

/// The integer by which a pattern is ordered: the magnitude, negative when the
/// sign bit is set. Both zeros have key 0.
pub open spec fn score_key(bits: u64) -> int {
    if bits >= SIGN_BIT {
        -magnitude(bits)
    } else {
        magnitude(bits)
    }
}

/// `a >= b` as numbers: false when either is not a number.
pub open spec fn score_at_least(a: u64, b: u64) -> bool {
    is_number(a) && is_number(b) && score_key(a) >= score_key(b)
}

/// The pattern of the negated number: the sign bit flipped.
pub open spec fn negated(bits: u64) -> u64 {
    if bits >= SIGN_BIT {
        (bits - SIGN_BIT) as u64
    } else {
        (bits + SIGN_BIT) as u64
    }
}

/// The integer by which a pattern is ordered.
pub fn key_of(bits: u64) -> (key: i64)
    ensures
        key == score_key(bits),
{
    if bits >= SIGN_BIT {
        let m: u64 = bits - SIGN_BIT;
        0 - (m as i64)
    } else {
        bits as i64
    }
}

/// Whether the pattern stands for a number.
pub fn is_number_bits(bits: u64) -> (r: bool)
    ensures
        r == is_number(bits),
{
    if bits >= SIGN_BIT {
        bits - SIGN_BIT <= INFINITY_BITS
    } else {
        bits <= INFINITY_BITS
    }
}

/// `a >= b` as numbers.
pub fn at_least(a: u64, b: u64) -> (r: bool)
    ensures
        r == score_at_least(a, b),
{
    is_number_bits(a) && is_number_bits(b) && key_of(a) >= key_of(b)
}

/// The pattern of the negated number.
pub fn negate(bits: u64) -> (r: u64)
    ensures
        r == negated(bits),
        score_key(r) == -score_key(bits),
        is_number(r) == is_number(bits),
{
    if bits >= SIGN_BIT {
        bits - SIGN_BIT
    } else {
        bits + SIGN_BIT
    }
}

/// Negating twice gives the pattern back, and negation reverses the order.
pub proof fn lemma_negation(a: u64, b: u64)
    ensures
        negated(negated(a)) == a,
        score_key(negated(a)) == -score_key(a),
        score_at_least(a, b) == score_at_least(negated(b), negated(a)),
{
}

/// A score that is at most one, or is no number, does not reach a threshold
/// of one and a tenth.
pub proof fn lemma_at_most_one_is_below(score: u64)
    requires
        !is_number(score) || score_key(score) <= score_key(ONE_BITS),
    ensures
        !score_at_least(score, ABOVE_ONE_BITS),
{
}

/// The order on numbers is total: of two numbers one is at least the other.
pub proof fn lemma_order_total(a: u64, b: u64)
    requires
        is_number(a),
        is_number(b),
    ensures
        score_at_least(a, b) || score_at_least(b, a),
        score_at_least(a, a),
{
}

} // verus!
