//! What tagging and untagging guarantee of each other.
//!
//! The statements are over the same spec functions as the contracts of
//! `ThinTypeId`'s methods, so each one speaks of what those methods return.

use crate::bit_utils::{
    exponent_of, holds_nanbox, is_clean, is_special_float, nibble_of, payload_of, payload_span,
    sign_of, word_of,
};
use crate::bit_utils::{lemma_fields_of_word, lemma_word_of_fields};
use crate::type_tags::{ThinTypeId, TypeError, TypeId, TypeIdTooLargeError};
use vstd::prelude::*;

verus! {

/// Whether tagging `to_tag` under `id` gives one of the four special floats
/// instead of a nanbox: the payload bits are all zero and the identifier is 0
/// (an infinity) or 8 (the canonical quiet NaN).
pub open spec fn collides(id: ThinTypeId, to_tag: u64) -> bool {
    payload_of(to_tag) == 0 && (id@ == 0 || id@ == 8)
}

/// The word that holds the two's-complement bits of `payload`.
pub open spec fn bits_of(payload: i64) -> u64 {
    #[verifier::truncate]
    (payload as u64)
}

/// The fields of a tagged word: a reserved exponent, the identifier as the tag
/// nibble, and the payload and sign of the value that was tagged.
pub proof fn lemma_tag_fields(id: ThinTypeId, to_tag: u64)
    requires
        id.well_formed(),
    ensures
        exponent_of(id.tag(to_tag)) == 0x7ff,
        nibble_of(id.tag(to_tag)) == id@,
        payload_of(id.tag(to_tag)) == payload_of(to_tag),
        sign_of(id.tag(to_tag)) == sign_of(to_tag),
        id.tag(to_tag) == word_of(sign_of(to_tag), 0x7ff, id@, payload_of(to_tag)),
{
    lemma_word_of_fields(to_tag);
    lemma_fields_of_word(sign_of(to_tag), 0x7ff, id@, payload_of(to_tag));
}

/// The tag nibble of a tagged word is the identifier it was tagged with.
pub proof fn lemma_tag_of_tagged(id: ThinTypeId, to_tag: u64)
    requires
        id.well_formed(),
        is_clean(to_tag),
    ensures
        nibble_of(id.tag(to_tag)) == id@,
{
    lemma_tag_fields(id, to_tag);
}

/// A tagged word is a nanbox of its identifier exactly where it does not
/// collide with a special float, and is a special float where it does.
pub proof fn lemma_tagged_is_nanbox(id: ThinTypeId, to_tag: u64)
    requires
        id.well_formed(),
        is_clean(to_tag),
    ensures
        holds_nanbox(id.tag(to_tag)) <==> !collides(id, to_tag),
        id.matches(id.tag(to_tag)) <==> !collides(id, to_tag),
        is_special_float(id.tag(to_tag)) <==> collides(id, to_tag),
{
    lemma_tag_fields(id, to_tag);
    let tagged: u64 = id.tag(to_tag);
    lemma_word_of_fields(tagged);
    lemma_word_of_fields(0x7ff0_0000_0000_0000);
    lemma_word_of_fields(0xfff0_0000_0000_0000);
    lemma_word_of_fields(0x7ff8_0000_0000_0000);
    lemma_word_of_fields(0xfff8_0000_0000_0000);
}

/// Tagging a non-negative payload of at most 48 bits and untagging it under
/// the same identifier gives the payload back, unless the tagged word
/// collides with a special float.
pub proof fn lemma_unsigned_round_trip(id: ThinTypeId, payload: u64)
    requires
        id.well_formed(),
        payload < payload_span(),
        !collides(id, payload),
    ensures
        id.try_unsigned_untag(id.tag(payload)) == Ok::<u64, TypeError>(payload),
{
    lemma_tag_fields(id, payload);
    lemma_tagged_is_nanbox(id, payload);
}

/// Tagging a signed payload of at most 48 bits and a sign, and untagging it
/// under the same identifier, gives the payload back, unless the tagged word
/// collides with a special float.
pub proof fn lemma_signed_round_trip(id: ThinTypeId, payload: i64)
    requires
        id.well_formed(),
        -payload_span() <= payload < payload_span(),
        !collides(id, bits_of(payload)),
    ensures
        is_clean(bits_of(payload)),
        id.try_signed_untag(id.tag(bits_of(payload))) == Ok::<i64, TypeError>(payload),
{
    let raw: u64 = bits_of(payload);
    lemma_bits_of(payload);
    lemma_tag_fields(id, raw);
    lemma_tagged_is_nanbox(id, raw);
}

/// The bits of a negative number are that number plus `2^64`; those of
/// another are the number itself.
pub proof fn lemma_bits_of(payload: i64)
    ensures
        bits_of(payload) == if payload < 0 {
            payload + 0x1_0000_0000_0000_0000
        } else {
            payload as int
        },
{
    let raw: u64 = bits_of(payload);
    assert(raw == if payload < 0 { payload + 0x1_0000_0000_0000_0000 } else { payload as int })
        by (bit_vector)
        requires
            raw == payload as u64,
    ;
}

/// A word tagged under one identifier is refused under any other, with an
/// error that names the identifier asked for and the one found.
pub proof fn lemma_mismatch_detected(tagged_with: ThinTypeId, asked: ThinTypeId, to_tag: u64)
    requires
        tagged_with.well_formed(),
        asked.well_formed(),
        tagged_with@ != asked@,
        is_clean(to_tag),
    ensures
        !asked.matches(tagged_with.tag(to_tag)),
        asked.try_unsigned_untag(tagged_with.tag(to_tag)) == Err::<u64, TypeError>(
            TypeError { expected: asked.widen(), found: tagged_with.widen() },
        ),
        asked.try_signed_untag(tagged_with.tag(to_tag)) == Err::<i64, TypeError>(
            TypeError { expected: asked.widen(), found: tagged_with.widen() },
        ),
{
    lemma_tag_fields(tagged_with, to_tag);
}

/// Narrowing succeeds exactly on the identifiers up to 15 and keeps their
/// number; every other identifier comes back in the error.
pub proof fn lemma_narrow_total(id: TypeId)
    ensures
        id.narrow() is Ok <==> id.0 <= 15,
        id.narrow() matches Ok(thin) ==> thin@ == id.0 && thin.well_formed() && thin.widen() == id,
        id.0 > 15 ==> id.narrow() == Err::<ThinTypeId, TypeIdTooLargeError>(
            TypeIdTooLargeError { id },
        ),
{
    if id.0 <= 15 {
        ThinTypeId::lemma_of_nibble(id.0 as int);
    }
}

/// Widening and then narrowing gives the identifier back.
pub proof fn lemma_widen_narrow(id: ThinTypeId)
    requires
        id.well_formed(),
    ensures
        id.widen().narrow() == Ok::<ThinTypeId, TypeIdTooLargeError>(id),
{
    ThinTypeId::lemma_of_nibble(id@);
    id.lemma_view_injective(ThinTypeId::of_nibble(id@));
}

/// Untagging a nanbox with its sign and tagging the result again under the
/// identifier it carries gives the same word.
pub proof fn lemma_untag_then_tag(id: ThinTypeId, word: u64)
    requires
        id.well_formed(),
        id.matches(word),
    ensures
        id.try_signed_untag(word) matches Ok(payload) && is_clean(bits_of(payload)) && id.tag(
            bits_of(payload),
        ) == word,
{
    lemma_word_of_fields(word);
    let payload: i64 = id.try_signed_untag(word).unwrap();
    lemma_bits_of(payload);
    lemma_word_of_fields(bits_of(payload));
}

} // verus!
