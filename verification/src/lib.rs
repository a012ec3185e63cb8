//! NaN-boxing: a four-bit type tag and a 48-bit payload (plus sign) packed
//! into the bit patterns of a 64-bit IEEE-754 double whose exponent field is
//! all ones and which are neither an infinity nor the canonical quiet NaN.
//!
//! `bit_utils` classifies and transforms raw 64-bit words; `type_tags` builds
//! the typed encode and decode operations on top of it.

pub mod bit_utils;
pub mod type_tags;

pub use crate::type_tags::{ThinTypeId, TypeError, TypeId, TypeIdTooLargeError, UncleanPayloadError};
pub mod round_trip;
