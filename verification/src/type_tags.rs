//! Type identifiers, and the typed encode and decode operations on words.
//!
//! A [`TypeId`] is a wide identifier. Only a [`ThinTypeId`], which is always
//! below 16, can be embedded in a word; the one way to obtain it is to narrow
//! a `TypeId`.

use crate::bit_utils;
use crate::bit_utils::{
    exponent_of, holds_nanbox, is_clean, is_special_float, nibble_of, payload_of, payload_span,
    sign_of, word_of,
};
use vstd::prelude::*;
use vstd::std_specs::convert::{FromSpecImpl, TryFromSpecImpl};

verus! {

/// A wide type identifier. It may name more types than a word can tag.
#[derive(Copy, Clone, Debug, PartialEq, Eq, Structural)]
pub struct TypeId(pub u64);

/// A type identifier that fits the tag nibble of a word: always below 16.
#[derive(Copy, Clone, Debug, PartialEq, Eq, Structural)]
pub struct ThinTypeId(u8);

/// The attempt to narrow a `TypeId` that does not fit into four bits.
#[derive(Copy, Clone, Debug, PartialEq, Eq, Structural)]
pub struct TypeIdTooLargeError {
    pub id: TypeId,
}

/// A word was decoded under an identifier other than the one it carries.
#[derive(Copy, Clone, Debug, PartialEq, Eq, Structural)]
pub struct TypeError {
    pub expected: TypeId,
    pub found: TypeId,
}

/// The attempt to tag a value that stores information above its low 48 bits.
#[derive(Copy, Clone, Debug, PartialEq, Eq, Structural)]
pub struct UncleanPayloadError {
    pub payload: u64,
}

impl View for ThinTypeId {
    type V = int;

    /// The identifier as a number.
    closed spec fn view(&self) -> int {
        self.0 as int
    }
}

impl From<ThinTypeId> for TypeId {
    /// Widening never fails.
    fn from(id: ThinTypeId) -> (r: TypeId) {
        id.widen()
    }
}

impl FromSpecImpl<ThinTypeId> for TypeId {
    open spec fn obeys_from_spec() -> bool {
        true
    }

    open spec fn from_spec(id: ThinTypeId) -> TypeId {
        id.spec_widen()
    }
}

impl TryFrom<TypeId> for ThinTypeId {
    type Error = TypeIdTooLargeError;

    /// A `TypeId` can become a `ThinTypeId` iff it fits in four bits.
    fn try_from(id: TypeId) -> (r: Result<ThinTypeId, TypeIdTooLargeError>) {
        id.narrow()
    }
}

impl TryFromSpecImpl<TypeId> for ThinTypeId {
    open spec fn obeys_try_from_spec() -> bool {
        true
    }

    open spec fn try_from_spec(id: TypeId) -> Result<ThinTypeId, TypeIdTooLargeError> {
        id.spec_narrow()
    }
}

impl TypeId {
    /// What `narrow` returns: the identifier with the same number where that
    /// number is at most 15, the error that carries `self` otherwise.
    pub open spec fn spec_narrow(self) -> Result<ThinTypeId, TypeIdTooLargeError> {
        if self.0 <= 15 {
            Ok(ThinTypeId::of_nibble(self.0 as int))
        } else {
            Err(TypeIdTooLargeError { id: self })
        }
    }

    /// Narrows `self` to an identifier that can tag a word. This succeeds iff
    /// the number of `self` is at most 15, and then keeps that number.
    #[verifier::when_used_as_spec(spec_narrow)]
    pub fn narrow(self) -> (r: Result<ThinTypeId, TypeIdTooLargeError>)
        ensures
            r == self.spec_narrow(),
            r is Ok <==> self.0 <= 15,
            r matches Ok(thin) ==> thin@ == self.0 && thin.well_formed() && thin.widen() == self,
            r matches Err(e) ==> e.id == self,
    {
        if self.0 <= 0xf {
            Ok(ThinTypeId(self.0 as u8))
        } else {
            Err(TypeIdTooLargeError { id: self })
        }
    }
}

impl ThinTypeId {
    /// Every `ThinTypeId` that executable code holds is below 16.
    #[verifier::type_invariant]
    pub open spec fn well_formed(self) -> bool {
        0 <= self@ < 16
    }

    /// The identifier whose number is `n`, for `n` below 16.
    pub closed spec fn of_nibble(n: int) -> ThinTypeId {
        ThinTypeId(n as u8)
    }

    /// `of_nibble` and the view are inverse to each other on well-formed
    /// identifiers.
    pub proof fn lemma_of_nibble(n: int)
        requires
            0 <= n < 16,
        ensures
            Self::of_nibble(n)@ == n,
            Self::of_nibble(n).well_formed(),
    {
    }

    /// Two identifiers with the same number are the same identifier.
    pub proof fn lemma_view_injective(self, other: ThinTypeId)
        requires
            self@ == other@,
        ensures
            self == other,
    {
    }

    /// The wide identifier with the same number.
    pub open spec fn spec_widen(self) -> TypeId {
        TypeId(self@ as u64)
    }

    /// Whether `n` is a nanbox that carries this identifier.
    pub open spec fn spec_matches(self, n: u64) -> bool {
        holds_nanbox(n) && nibble_of(n) == self@
    }

    /// The word that carries this identifier and the payload and sign of
    /// `to_tag`.
    pub open spec fn spec_tag(self, to_tag: u64) -> u64 {
        word_of(sign_of(to_tag), 0x7ff, self@, payload_of(to_tag)) as u64
    }

    /// The error of decoding `to_untag` under this identifier.
    pub open spec fn mismatch(self, to_untag: u64) -> TypeError {
        TypeError { expected: self.spec_widen(), found: TypeId(nibble_of(to_untag) as u64) }
    }

    /// What `try_unsigned_untag` returns.
    pub open spec fn spec_try_unsigned_untag(self, to_untag: u64) -> Result<u64, TypeError> {
        if self.spec_matches(to_untag) {
            Ok(payload_of(to_untag) as u64)
        } else {
            Err(self.mismatch(to_untag))
        }
    }

    /// What `try_signed_untag` returns.
    pub open spec fn spec_try_signed_untag(self, to_untag: u64) -> Result<i64, TypeError> {
        if self.spec_matches(to_untag) {
            if sign_of(to_untag) {
                Ok((payload_of(to_untag) - payload_span()) as i64)
            } else {
                Ok(payload_of(to_untag) as i64)
            }
        } else {
            Err(self.mismatch(to_untag))
        }
    }

    /// What `checked_tag` returns.
    pub open spec fn spec_checked_tag(self, to_tag: u64) -> Result<u64, UncleanPayloadError> {
        if is_clean(to_tag) {
            Ok(self.spec_tag(to_tag))
        } else {
            Err(UncleanPayloadError { payload: to_tag })
        }
    }

    /// The number of this identifier.
    pub fn value(self) -> (r: u8)
        ensures
            r == self@,
            r < 16,
    {
        self.assert_size();
        self.0
    }

    /// Widens this identifier. This always succeeds and keeps the number.
    #[verifier::when_used_as_spec(spec_widen)]
    pub fn widen(self) -> (r: TypeId)
        ensures
            r == self.spec_widen(),
            r.0 == self@,
    {
        TypeId(self.0 as u64)
    }

    /// States that `self` fits the tag nibble.
    fn assert_size(self)
        ensures
            self.well_formed(),
    {
        proof {
            use_type_invariant(&self);
        }
    }

    /// The tag nibble of this identifier at its place in a word.
    fn shift_for_tagging(self) -> (r: u64)
        ensures
            r == self@ * payload_span(),
            r == word_of(false, 0, self@, 0),
    {
        self.assert_size();
        let wide: u64 = self.0 as u64;
        proof {
            assert((wide << 48) == wide * 0x1_0000_0000_0000) by (bit_vector)
                requires
                    wide < 16,
            ;
        }
        wide << bit_utils::TAG_SHIFT
    }

    /// `true` iff `n` is a nanbox whose tag nibble is this identifier.
    #[verifier::when_used_as_spec(spec_matches)]
    pub fn matches(self, n: u64) -> (r: bool)
        ensures
            r == self.spec_matches(n),
    {
        bit_utils::is_nanbox(n) && (bit_utils::tag_of(n) == self.0)
    }

    /// Given a clean value, designates it as a nanbox of this type: the
    /// exponent field becomes all ones, the tag nibble becomes this
    /// identifier, and payload and sign are those of `to_tag`.
    #[verifier::when_used_as_spec(spec_tag)]
    pub fn tag(self, to_tag: u64) -> (r: u64)
        requires
            is_clean(to_tag),
        ensures
            r == self.spec_tag(to_tag),
            exponent_of(r) == 0x7ff,
            nibble_of(r) == self@,
            payload_of(r) == payload_of(to_tag),
            sign_of(r) == sign_of(to_tag),
    {
        bit_utils::assert_is_clean(to_tag);
        let marked: u64 = bit_utils::nan_tag(to_tag);
        let shifted: u64 = self.shift_for_tagging();
        proof {
            use_type_invariant(&self);
            let payload: int = payload_of(to_tag);
            bit_utils::lemma_word_of_fields(to_tag);
            bit_utils::lemma_fields_of_word(sign_of(to_tag), 0x7ff, 0, payload);
            bit_utils::lemma_fields_of_word(sign_of(to_tag), 0x7ff, self@, payload);
            assert((marked | shifted) == marked + shifted) by (bit_vector)
                requires
                    (marked / 0x1_0000_0000_0000) % 16 == 0,
                    shifted % 0x1_0000_0000_0000 == 0,
                    shifted < 0x10_0000_0000_0000,
            ;
        }
        marked | shifted
    }

    /// Tags `to_tag` where it is clean, and reports it where it is not.
    #[verifier::when_used_as_spec(spec_checked_tag)]
    pub fn checked_tag(self, to_tag: u64) -> (r: Result<u64, UncleanPayloadError>)
        ensures
            r == self.spec_checked_tag(to_tag),
    {
        if bit_utils::reserved_bits_clean(to_tag) {
            Ok(self.tag(to_tag))
        } else {
            Err(UncleanPayloadError { payload: to_tag })
        }
    }

    /// If `to_untag` is a nanbox of this type, returns its payload as a
    /// non-negative number. Otherwise reports this identifier and the tag
    /// nibble that was found.
    #[verifier::when_used_as_spec(spec_try_unsigned_untag)]
    pub fn try_unsigned_untag(self, to_untag: u64) -> (r: Result<u64, TypeError>)
        ensures
            r == self.spec_try_unsigned_untag(to_untag),
    {
        if self.matches(to_untag) {
            Ok(bit_utils::unsigned_untag(to_untag))
        } else {
            Err(
                TypeError {
                    expected: self.widen(),
                    found: TypeId(bit_utils::tag_of(to_untag) as u64),
                },
            )
        }
    }

    /// If `to_untag` is a nanbox of this type, returns its payload with the
    /// sign of the word. Otherwise reports this identifier and the tag nibble
    /// that was found.
    #[verifier::when_used_as_spec(spec_try_signed_untag)]
    pub fn try_signed_untag(self, to_untag: u64) -> (r: Result<i64, TypeError>)
        ensures
            r == self.spec_try_signed_untag(to_untag),
    {
        if self.matches(to_untag) {
            Ok(bit_utils::signed_untag(to_untag))
        } else {
            Err(
                TypeError {
                    expected: self.widen(),
                    found: TypeId(bit_utils::tag_of(to_untag) as u64),
                },
            )
        }
    }
}

} // verus!
