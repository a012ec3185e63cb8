//! Predicates and transforms over a raw 64-bit word.
//!
//! A word is read as four fields, from the least significant bit upwards:
//! 48 bits of payload, a four-bit tag nibble, an eleven-bit exponent field and
//! a sign bit. Every word whose exponent field is all ones is reserved by
//! IEEE-754; of those, only the two infinities and the canonical quiet NaN
//! (with either sign) are ever produced by floating-point arithmetic. All the
//! others are free to carry a tagged payload.

use vstd::prelude::*;

verus! {

/// The eleven bits of the exponent field.
pub const NAN_MASK: u64 = 0x7ff0_0000_0000_0000;

/// The position of the lowest bit of the tag nibble.
pub const TAG_SHIFT: usize = 48;

/// The four bits of the tag nibble.
pub const TAG_MASK: u64 = 0x000f_0000_0000_0000;

/// Exponent field and tag nibble together: every bit above the payload but the sign.
pub const RESERVED_BITS_MASK: u64 = 0x7fff_0000_0000_0000;

/// The sign bit.
pub const SIGN_MASK: u64 = 0x8000_0000_0000_0000;

/// Every bit above the payload.
pub const RESERVED_BITS_AND_SIGN: u64 = 0xffff_0000_0000_0000;

/// The bit pattern of positive infinity.
pub const INFINITY_BITS: u64 = 0x7ff0_0000_0000_0000;

/// The bit pattern of the canonical quiet NaN.
pub const QUIET_NAN_BITS: u64 = 0x7ff8_0000_0000_0000;

/// The number of distinct payloads, `2^48`.
pub open spec fn payload_span() -> int {
    0x1_0000_0000_0000
}

/// The payload field of `w`: bits 0 to 47, as a number below `2^48`.
pub open spec fn payload_of(w: u64) -> int {
    w as int % 0x1_0000_0000_0000
}

/// The tag nibble of `w`: bits 48 to 51, as a number below 16.
pub open spec fn nibble_of(w: u64) -> int {
    (w as int / 0x1_0000_0000_0000) % 16
}

/// The exponent field of `w`: bits 52 to 62, as a number below 2048.
pub open spec fn exponent_of(w: u64) -> int {
    (w as int / 0x10_0000_0000_0000) % 2048
}

/// Whether the sign bit of `w`, bit 63, is set.
pub open spec fn sign_of(w: u64) -> bool {
    w >= 0x8000_0000_0000_0000
}

/// The word made of the four given fields.
pub open spec fn word_of(sign: bool, exponent: int, nibble: int, payload: int) -> int {
    (if sign { 0x8000_0000_0000_0000int } else { 0int })
        + exponent * 0x10_0000_0000_0000
        + nibble * 0x1_0000_0000_0000
        + payload
}

/// Every word is the composition of its own four fields.
pub proof fn lemma_word_of_fields(w: u64)
    ensures
        w == word_of(sign_of(w), exponent_of(w), nibble_of(w), payload_of(w)),
        0 <= payload_of(w) < payload_span(),
        0 <= nibble_of(w) < 16,
        0 <= exponent_of(w) < 2048,
{
}

/// The fields of a composed word are the ones it was composed from.
pub proof fn lemma_fields_of_word(sign: bool, exponent: int, nibble: int, payload: int)
    requires
        0 <= exponent < 2048,
        0 <= nibble < 16,
        0 <= payload < payload_span(),
    ensures
        0 <= word_of(sign, exponent, nibble, payload) <= u64::MAX,
        sign_of(word_of(sign, exponent, nibble, payload) as u64) == sign,
        exponent_of(word_of(sign, exponent, nibble, payload) as u64) == exponent,
        nibble_of(word_of(sign, exponent, nibble, payload) as u64) == nibble,
        payload_of(word_of(sign, exponent, nibble, payload) as u64) == payload,
{
    let s: u64 = if sign { 1 } else { 0 };
    let e: u64 = exponent as u64;
    let t: u64 = nibble as u64;
    let p: u64 = payload as u64;
    assert(s * 0x8000_0000_0000_0000 + e * 0x10_0000_0000_0000 + t * 0x1_0000_0000_0000 + p
        <= 0xffff_ffff_ffff_ffff && ((s * 0x8000_0000_0000_0000 + e * 0x10_0000_0000_0000 + t
        * 0x1_0000_0000_0000 + p) as u64 >= 0x8000_0000_0000_0000) == (s == 1) && ((s
        * 0x8000_0000_0000_0000 + e * 0x10_0000_0000_0000 + t * 0x1_0000_0000_0000 + p) as u64
        / 0x10_0000_0000_0000) % 2048 == e && ((s * 0x8000_0000_0000_0000 + e
        * 0x10_0000_0000_0000 + t * 0x1_0000_0000_0000 + p) as u64 / 0x1_0000_0000_0000) % 16
        == t && (s * 0x8000_0000_0000_0000 + e * 0x10_0000_0000_0000 + t * 0x1_0000_0000_0000
        + p) as u64 % 0x1_0000_0000_0000 == p) by (bit_vector)
        requires
            s <= 1,
            e < 2048,
            t < 16,
            p < 0x1_0000_0000_0000,
    ;
}

/// A value is clean when bits 48 to 63 are all zero or all one: read as a
/// signed number, it lies between `-2^48` and `2^48 - 1`.
pub open spec fn is_clean(n: u64) -> bool {
    n < 0x1_0000_0000_0000 || n >= 0xffff_0000_0000_0000
}

/// The four reserved words that floating-point arithmetic produces: the two
/// infinities and the canonical quiet NaN with either sign.
pub open spec fn is_special_float(n: u64) -> bool {
    n == 0x7ff0_0000_0000_0000 || n == 0xfff0_0000_0000_0000
        || n == 0x7ff8_0000_0000_0000 || n == 0xfff8_0000_0000_0000
}

/// Whether `n` holds a tagged immediate: a reserved exponent, and none of the
/// four special floats.
pub open spec fn holds_nanbox(n: u64) -> bool {
    exponent_of(n) == 0x7ff && !is_special_float(n)
}

/// Accepts clean values only. It computes nothing: calling it states that `n`
/// can be tagged.
pub fn assert_is_clean(n: u64)
    requires
        is_clean(n),
{
}

/// `true` for any value which does not store information in the reserved
/// bits: a non-negative value has them all zero, a negative one all one.
pub fn reserved_bits_clean(n: u64) -> (r: bool)
    ensures
        r == is_clean(n),
{
    let masked: u64 = n & RESERVED_BITS_AND_SIGN;
    proof {
        assert(((n & 0xffff_0000_0000_0000) == 0) == (n < 0x1_0000_0000_0000)) by (bit_vector);
        assert(((n & 0xffff_0000_0000_0000) == 0xffff_0000_0000_0000) == (n
            >= 0xffff_0000_0000_0000)) by (bit_vector);
    }
    masked == 0 || masked == RESERVED_BITS_AND_SIGN
}

/// `true` iff the exponent field of `n` is all ones, that is, iff `n` read as
/// a double is a NaN or an infinity.
pub fn is_a_nan(n: u64) -> (r: bool)
    ensures
        r == (exponent_of(n) == 0x7ff),
{
    proof {
        assert(((n & 0x7ff0_0000_0000_0000) == 0x7ff0_0000_0000_0000) == ((n
            / 0x10_0000_0000_0000) % 2048 == 0x7ff)) by (bit_vector);
    }
    (n & NAN_MASK) == NAN_MASK
}

/// `true` iff `n` is the bit pattern of positive infinity, negative infinity,
/// the canonical quiet NaN or its negation.
pub fn is_the_nan_or_ifty(n: u64) -> (r: bool)
    ensures
        r == is_special_float(n),
{
    let unsigned: u64 = n & !SIGN_MASK;
    proof {
        assert(((n & !0x8000_0000_0000_0000) == 0x7ff0_0000_0000_0000) == (n
            == 0x7ff0_0000_0000_0000 || n == 0xfff0_0000_0000_0000)) by (bit_vector);
        assert(((n & !0x8000_0000_0000_0000) == 0x7ff8_0000_0000_0000) == (n
            == 0x7ff8_0000_0000_0000 || n == 0xfff8_0000_0000_0000)) by (bit_vector);
    }
    unsigned == INFINITY_BITS || unsigned == QUIET_NAN_BITS
}

/// `true` iff `n` holds a tagged immediate rather than a float.
pub fn is_nanbox(n: u64) -> (r: bool)
    ensures
        r == holds_nanbox(n),
        is_special_float(n) ==> !r,
{
    is_a_nan(n) && !is_the_nan_or_ifty(n)
}

/// The tag nibble of `n`, whether or not `n` is a nanbox.
pub fn tag_of(n: u64) -> (r: u8)
    ensures
        r == nibble_of(n),
{
    let shifted: u64 = (n & TAG_MASK) >> TAG_SHIFT;
    proof {
        assert(((n & 0x000f_0000_0000_0000) >> 48) == (n / 0x1_0000_0000_0000) % 16)
            by (bit_vector);
        assert((((n & 0x000f_0000_0000_0000) >> 48) as u8) & 0x0f == (n & 0x000f_0000_0000_0000)
            >> 48) by (bit_vector);
    }
    (shifted as u8) & 0x0f
}

/// The payload of `n` with the sign bit of `n` as its sign: bits 48 to 62 are
/// set where the sign bit is set and cleared where it is not.
pub fn signed_untag(n: u64) -> (r: i64)
    ensures
        r == if sign_of(n) { payload_of(n) - payload_span() } else { payload_of(n) },
{
    if (n as i64) < 0 {
        proof {
            assert((n as i64) < 0 ==> n >= 0x8000_0000_0000_0000) by (bit_vector);
            assert(n >= 0x8000_0000_0000_0000 ==> ((n | 0x7fff_0000_0000_0000) as i64) == (n
                % 0x1_0000_0000_0000) - 0x1_0000_0000_0000) by (bit_vector);
        }
        (n | RESERVED_BITS_MASK) as i64
    } else {
        proof {
            assert(!((n as i64) < 0) ==> n < 0x8000_0000_0000_0000) by (bit_vector);
            assert(((n & !0x7fff_0000_0000_0000) as i64) == n % 0x1_0000_0000_0000) by (bit_vector)
                requires n < 0x8000_0000_0000_0000;
        }
        (n & !RESERVED_BITS_MASK) as i64
    }
}

/// The payload of `n` as a non-negative number: every bit above the payload
/// is cleared, the sign bit too.
pub fn unsigned_untag(n: u64) -> (r: u64)
    ensures
        r == payload_of(n),
{
    proof {
        assert((n & !(0x7fff_0000_0000_0000u64 | 0x8000_0000_0000_0000u64)) == n % 0x1_0000_0000_0000)
            by (bit_vector);
    }
    n & !(RESERVED_BITS_MASK | SIGN_MASK)
}

/// Marks `n` as a nanbox: sets the exponent field to all ones and clears the
/// tag nibble. Payload and sign are kept.
pub fn nan_tag(n: u64) -> (r: u64)
    ensures
        r == word_of(sign_of(n), 0x7ff, 0, payload_of(n)),
{
    proof {
        assert(((n | 0x7ff0_0000_0000_0000) & !0x000f_0000_0000_0000) == (if n
            >= 0x8000_0000_0000_0000 { 0x8000_0000_0000_0000u64 } else { 0u64 })
            + 0x7ff0_0000_0000_0000 + n % 0x1_0000_0000_0000) by (bit_vector);
    }
    (n | NAN_MASK) & !TAG_MASK
}

} // verus!
