//! The type-tag registry: the store's numeric type codes, and the scratch
//! buffer size to allocate for a tag before a value's exact length is known.
use vstd::prelude::*;

use crate::regedit_error::ErrorKind;
use crate::regedit_error::RegeditError;

verus! {

/// Tag of an untyped placeholder value.
pub const REG_NONE: u32 = 0;

/// Tag of a plain null-terminated text value.
pub const REG_SZ: u32 = 1;

/// Tag of a text value containing unexpanded placeholder references.
pub const REG_EXPAND_SZ: u32 = 2;

/// Tag of an opaque binary blob.
pub const REG_BINARY: u32 = 3;

/// Tag of a native-endian 32-bit unsigned integer.
pub const REG_DWORD: u32 = 4;

/// Tag of a big-endian 32-bit unsigned integer.
pub const REG_DWORD_BIG_ENDIAN: u32 = 5;

/// Tag of a symbolic-link-style text value.
pub const REG_LINK: u32 = 6;

/// Tag of a multiple-null-separated-segments text value.
pub const REG_MULTI_SZ: u32 = 7;

/// Tag of a native-endian 64-bit unsigned integer.
pub const REG_QWORD: u32 = 11;

/// Scratch buffer size for every variable-length tag.
pub const VARIABLE_LENGTH_BUFFER_SIZE: u32 = 4096;

/// True of the tags in the store's closed set; every other tag is rejected.
pub open spec fn spec_tag_known(tag: u32) -> bool {
    ||| tag == REG_NONE
    ||| tag == REG_SZ
    ||| tag == REG_EXPAND_SZ
    ||| tag == REG_BINARY
    ||| tag == REG_DWORD
    ||| tag == REG_DWORD_BIG_ENDIAN
    ||| tag == REG_LINK
    ||| tag == REG_MULTI_SZ
    ||| tag == REG_QWORD
}

/// The scratch buffer size for a known tag: the exact width for the
/// fixed-width integer tags, and a common generous size for the
/// variable-length ones.
pub open spec fn spec_expected_buffer_size(tag: u32) -> u32
    recommends
        spec_tag_known(tag),
{
    if tag == REG_DWORD || tag == REG_DWORD_BIG_ENDIAN {
        4u32
    } else if tag == REG_QWORD {
        8u32
    } else {
        VARIABLE_LENGTH_BUFFER_SIZE
    }
}

/// The byte length of the scratch buffer to allocate before a value's exact
/// length is known: 4 or 8 bytes for the fixed-width integer tags, 4096 for
/// the variable-length ones, and an error for a tag outside the closed set.
pub fn expected_buffer_size(tag: u32) -> (r: Result<u32, RegeditError>)
    ensures
        r is Ok <==> spec_tag_known(tag),
        r matches Ok(n) ==> n == spec_expected_buffer_size(tag),
        r matches Err(e) ==> e.kind == ErrorKind::UnrecognizedTag,
{
    if tag == REG_DWORD || tag == REG_DWORD_BIG_ENDIAN {
        Ok(4)
    } else if tag == REG_QWORD {
        Ok(8)
    } else if tag == REG_NONE || tag == REG_SZ || tag == REG_EXPAND_SZ || tag == REG_BINARY
        || tag == REG_LINK || tag == REG_MULTI_SZ {
        Ok(VARIABLE_LENGTH_BUFFER_SIZE)
    } else {
        Err(RegeditError::unrecognized_tag())
    }
}

} // verus!
