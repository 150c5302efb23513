//! Universally Unique Lexicographically Sortable Identifiers (ULIDs).
//!
//! A ULID is a 128-bit value: a 48-bit millisecond timestamp followed by
//! 80 bits of entropy, rendered as 26 Crockford base32 characters whose
//! byte-wise order agrees with the byte-wise order of the binary form.
//!
//! [`Ulid::new`] assembles an identifier from a timestamp and a
//! caller-supplied entropy source, [`Ulid::marshal`] produces the
//! 26-character text form, and [`Ulid::unmarshal`] parses it back.

use vstd::prelude::*;

pub mod base32;
pub mod laws;
pub mod ulid;

pub use crate::ulid::Ulid;
pub use crate::ulid::UlidError;

verus! {

/// The low 48 bits of a timestamp: everything a ULID keeps of it.
pub open spec fn low48(t: u64) -> u64 {
    t & 0xFFFF_FFFF_FFFF
}

} // verus!
