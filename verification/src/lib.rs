//! A zero-copy codec for a single IPv6 Extension Header Option (RFC 8200,
//! section 4.2): the two reserved padding variants (Pad1 and PadN) and a
//! catch-all form for every other option type.
//!
//! [`Ipv6Option`] is a bounds-checked read/write view over one option's raw
//! bytes; [`Repr`] is the parsed, buffer-independent value form, with `parse`
//! and `emit` to move between the two.
use vstd::prelude::*;

pub mod field;
pub mod ipv6option;

pub use ipv6option::{Ipv6Option, Repr, SpecRepr, Type};

verus! {

/// The one recoverable error: a buffer too short to safely hold the fields
/// that its own header bytes declare.
#[derive(Clone, Copy, Debug, PartialEq, Eq, Structural)]
pub enum Error {
    Truncated,
}

} // verus!
