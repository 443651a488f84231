//! Byte offsets of the fields inside one option's buffer.
//!
//! Layout (RFC 8200, section 4.2):
//!
//! ```text
//! +-+-+-+-+-+-+-+-+-+-+-+-+-+-+-+-+- - - - - - - - -
//! |  Option Type  |  Opt Data Len |  Option Data
//! +-+-+-+-+-+-+-+-+-+-+-+-+-+-+-+-+- - - - - - - - -
//! ```
#![allow(non_snake_case)]
use vstd::prelude::*;

verus! {

/// Offset of the 8-bit identifier of the type of option.
pub const TYPE: usize = 0;

/// Offset of the 8-bit unsigned length of the DATA field, in octets.
/// Present only when the option type is not Pad1.
pub const LENGTH: usize = 1;

/// A half-open byte range `[start, end)` within an option buffer.
#[derive(Clone, Copy, Debug, PartialEq, Eq, Structural)]
pub struct Field {
    pub start: usize,
    pub end: usize,
}

/// Byte range of the variable-length, option-type-specific data field for a
/// given data length.
pub fn DATA(length: u8) -> (f: Field)
    ensures
        f.start == 2,
        f.end == 2 + length,
{
    Field { start: 2, end: length as usize + 2 }
}

} // verus!
