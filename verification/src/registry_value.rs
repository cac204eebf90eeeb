//! The typed value model: the closed set of value kinds the store supports,
//! the decoding of tagged byte buffers into typed values, the encoding of
//! typed values back into bytes, and the canonical tag of each kind.
use vstd::prelude::*;
use vstd::slice::slice_to_vec;
use vstd::utf8::*;

use crate::codec::lemma_u32_be_round_trip;
use crate::codec::lemma_u32_le_round_trip;
use crate::codec::lemma_u64_le_round_trip;
use crate::codec::spec_u32_be;
use crate::codec::spec_u32_le;
use crate::codec::spec_u32_of_be;
use crate::codec::spec_u32_of_le;
use crate::codec::spec_u64_le;
use crate::codec::spec_u64_of_le;
use crate::codec::u32_from_be_bytes;
use crate::codec::u32_from_le_bytes;
use crate::codec::u32_to_be_bytes;
use crate::codec::u32_to_le_bytes;
use crate::codec::u64_from_le_bytes;
use crate::codec::u64_to_le_bytes;
use crate::regedit_error::ErrorKind;
use crate::regedit_error::RegeditError;
use crate::render::bytes_to_listing;
use crate::render::spec_byte_listing;
use crate::render::spec_decimal;
use crate::render::u64_to_decimal;
use crate::tag::spec_tag_known;
use crate::tag::REG_BINARY;
use crate::tag::REG_DWORD;
use crate::tag::REG_DWORD_BIG_ENDIAN;
use crate::tag::REG_EXPAND_SZ;
use crate::tag::REG_LINK;
use crate::tag::REG_MULTI_SZ;
use crate::tag::REG_NONE;
use crate::tag::REG_QWORD;
use crate::tag::REG_SZ;
use crate::text::decode_text;
use crate::text::lemma_encode_utf8_no_zero;
use crate::text::lemma_strip_zeros_identity;
use crate::text::spec_strip_zeros;

verus! {

/// The mathematical model of a typed value: one variant per kind, carrying
/// the abstract payload (a byte sequence, an integer, or a character
/// sequence).
#[verifier::ext_equal]
pub enum ValueModel {
    Binary(Seq<u8>),
    Dword(u32),
    DwordBE(u32),
    ExpandSz(Seq<char>),
    Link(Seq<char>),
    MultiSz(Seq<char>),
    RegNone(Seq<u8>),
    Qword(u64),
    Sz(Seq<char>),
}

/// A typed registry value: exactly one kind is active, and the kind fixes
/// both the tag written with the value and the decode routine that reads it.
#[derive(Debug, Clone)]
pub enum RegistryValue {
    /// An opaque blob, not interpreted.
    Binary(Vec<u8>),
    /// A native-endian (little-endian on the supported targets) 32-bit
    /// unsigned integer.
    Dword(u32),
    /// A big-endian 32-bit unsigned integer.
    DwordBE(u32),
    /// Text containing unexpanded placeholder references.
    ExpandSz(String),
    /// Symbolic-link-style text.
    Link(String),
    /// Multiple null-separated text segments, kept as one joined text.
    MultiSz(String),
    /// An untyped placeholder, treated as opaque bytes.
    RegNone(Vec<u8>),
    /// A native-endian 64-bit unsigned integer.
    Qword(u64),
    /// Plain null-terminated text.
    Sz(String),
}

impl View for RegistryValue {
    type V = ValueModel;

    open spec fn view(&self) -> ValueModel {
        match self {
            RegistryValue::Binary(b) => ValueModel::Binary(b@),
            RegistryValue::Dword(x) => ValueModel::Dword(*x),
            RegistryValue::DwordBE(x) => ValueModel::DwordBE(*x),
            RegistryValue::ExpandSz(s) => ValueModel::ExpandSz(s@),
            RegistryValue::Link(s) => ValueModel::Link(s@),
            RegistryValue::MultiSz(s) => ValueModel::MultiSz(s@),
            RegistryValue::RegNone(b) => ValueModel::RegNone(b@),
            RegistryValue::Qword(x) => ValueModel::Qword(*x),
            RegistryValue::Sz(s) => ValueModel::Sz(s@),
        }
    }
}

/// The canonical tag of each value kind: the tag written back to the store,
/// whatever tag the value was originally read under.
pub open spec fn spec_type_tag(m: ValueModel) -> u32 {
    match m {
        ValueModel::Binary(_) => REG_BINARY,
        ValueModel::Dword(_) => REG_DWORD,
        ValueModel::DwordBE(_) => REG_DWORD_BIG_ENDIAN,
        ValueModel::ExpandSz(_) => REG_EXPAND_SZ,
        ValueModel::Link(_) => REG_LINK,
        ValueModel::MultiSz(_) => REG_MULTI_SZ,
        ValueModel::RegNone(_) => REG_NONE,
        ValueModel::Qword(_) => REG_QWORD,
        ValueModel::Sz(_) => REG_SZ,
    }
}

/// The raw bytes a value is written as: integers as exactly their width in
/// the kind's byte order, text as its UTF-8 bytes with no terminator added,
/// binary and untyped payloads unchanged.  Encoding is total.
pub open spec fn spec_encode(m: ValueModel) -> Seq<u8> {
    match m {
        ValueModel::Binary(b) => b,
        ValueModel::Dword(x) => spec_u32_le(x),
        ValueModel::DwordBE(x) => spec_u32_be(x),
        ValueModel::ExpandSz(s) => encode_utf8(s),
        ValueModel::Link(s) => encode_utf8(s),
        ValueModel::MultiSz(s) => encode_utf8(s),
        ValueModel::RegNone(b) => b,
        ValueModel::Qword(x) => spec_u64_le(x),
        ValueModel::Sz(s) => encode_utf8(s),
    }
}

/// The typed value a tagged byte buffer decodes to, or the kind of error the
/// decode fails with: a fixed-width tag demands exactly its width, a text
/// tag demands that the bytes left after stripping the store's zero padding
/// are valid UTF-8, a tag outside the closed set is rejected whatever the
/// bytes, and binary and untyped buffers pass through unchanged.
pub open spec fn spec_decode(tag: u32, bytes: Seq<u8>) -> Result<ValueModel, ErrorKind> {
    if tag == REG_BINARY {
        Ok(ValueModel::Binary(bytes))
    } else if tag == REG_NONE {
        Ok(ValueModel::RegNone(bytes))
    } else if tag == REG_DWORD {
        if bytes.len() == 4 {
            Ok(ValueModel::Dword(spec_u32_of_le(bytes)))
        } else {
            Err(ErrorKind::LengthMismatch)
        }
    } else if tag == REG_DWORD_BIG_ENDIAN {
        if bytes.len() == 4 {
            Ok(ValueModel::DwordBE(spec_u32_of_be(bytes)))
        } else {
            Err(ErrorKind::LengthMismatch)
        }
    } else if tag == REG_QWORD {
        if bytes.len() == 8 {
            Ok(ValueModel::Qword(spec_u64_of_le(bytes)))
        } else {
            Err(ErrorKind::LengthMismatch)
        }
    } else if tag == REG_SZ || tag == REG_EXPAND_SZ || tag == REG_MULTI_SZ || tag == REG_LINK {
        let stripped = spec_strip_zeros(bytes);
        if valid_utf8(stripped) {
            let chars = decode_utf8(stripped);
            if tag == REG_SZ {
                Ok(ValueModel::Sz(chars))
            } else if tag == REG_EXPAND_SZ {
                Ok(ValueModel::ExpandSz(chars))
            } else if tag == REG_MULTI_SZ {
                Ok(ValueModel::MultiSz(chars))
            } else {
                Ok(ValueModel::Link(chars))
            }
        } else {
            Err(ErrorKind::Decode)
        }
    } else {
        Err(ErrorKind::UnrecognizedTag)
    }
}

/// The operator-facing rendering of a value: integers in decimal, text
/// verbatim, binary and untyped payloads as a listing of byte values.
pub open spec fn spec_render(m: ValueModel) -> Seq<char> {
    match m {
        ValueModel::Binary(b) => spec_byte_listing(b),
        ValueModel::Dword(x) => spec_decimal(x as int),
        ValueModel::DwordBE(x) => spec_decimal(x as int),
        ValueModel::ExpandSz(s) => s,
        ValueModel::Link(s) => s,
        ValueModel::MultiSz(s) => s,
        ValueModel::RegNone(b) => spec_byte_listing(b),
        ValueModel::Qword(x) => spec_decimal(x as int),
        ValueModel::Sz(s) => s,
    }
}

/// The operator-facing name of a value's kind.
pub open spec fn spec_type_name(m: ValueModel) -> Seq<char> {
    match m {
        ValueModel::Binary(_) => "REG_BINARY"@,
        ValueModel::Dword(_) => "REG_DWORD"@,
        ValueModel::DwordBE(_) => "REG_DWORDBE"@,
        ValueModel::ExpandSz(_) => "REG_EXPANDSZ"@,
        ValueModel::Link(_) => "REG_LINK"@,
        ValueModel::MultiSz(_) => "REG_MULTISZ"@,
        ValueModel::RegNone(_) => "REG_NONE"@,
        ValueModel::Qword(_) => "REG_QWORD"@,
        ValueModel::Sz(_) => "REG_SZ"@,
    }
}

impl RegistryValue {
    /// Decodes the bytes read from the store under the given type tag into a
    /// typed value: the result is exactly what `spec_decode` names, on
    /// success and on failure alike.
    pub fn new_from_value(value_type: u32, value: Vec<u8>) -> (r: Result<Self, RegeditError>)
        ensures
            r is Ok <==> spec_decode(value_type, value@) is Ok,
            r matches Ok(v) ==> spec_decode(value_type, value@) == Ok::<ValueModel, ErrorKind>(v@),
            r matches Err(e) ==> spec_decode(value_type, value@) == Err::<ValueModel, ErrorKind>(
                e.kind,
            ),
    {
        if value_type == REG_BINARY {
            Ok(RegistryValue::Binary(value))
        } else if value_type == REG_NONE {
            Ok(RegistryValue::RegNone(value))
        } else if value_type == REG_DWORD {
            if value.len() == 4 {
                Ok(RegistryValue::Dword(u32_from_le_bytes(&value)))
            } else {
                Err(RegeditError::length_mismatch())
            }
        } else if value_type == REG_DWORD_BIG_ENDIAN {
            if value.len() == 4 {
                Ok(RegistryValue::DwordBE(u32_from_be_bytes(&value)))
            } else {
                Err(RegeditError::length_mismatch())
            }
        } else if value_type == REG_QWORD {
            if value.len() == 8 {
                Ok(RegistryValue::Qword(u64_from_le_bytes(&value)))
            } else {
                Err(RegeditError::length_mismatch())
            }
        } else if value_type == REG_SZ || value_type == REG_EXPAND_SZ || value_type == REG_MULTI_SZ
            || value_type == REG_LINK {
            match decode_text(&value) {
                Some(s) => {
                    if value_type == REG_SZ {
                        Ok(RegistryValue::Sz(s))
                    } else if value_type == REG_EXPAND_SZ {
                        Ok(RegistryValue::ExpandSz(s))
                    } else if value_type == REG_MULTI_SZ {
                        Ok(RegistryValue::MultiSz(s))
                    } else {
                        Ok(RegistryValue::Link(s))
                    }
                },
                None => Err(RegeditError::decode_error()),
            }
        } else {
            Err(RegeditError::unrecognized_tag())
        }
    }

    /// Encodes the value as the raw bytes the store is given on a write.
    /// Encoding never fails.
    pub fn val_as_vec_u8(&self) -> (r: Vec<u8>)
        ensures
            r@ == spec_encode(self@),
    {
        match self {
            RegistryValue::Binary(val) => slice_to_vec(val.as_slice()),
            RegistryValue::Dword(val) => u32_to_le_bytes(*val),
            RegistryValue::DwordBE(val) => u32_to_be_bytes(*val),
            RegistryValue::ExpandSz(val) => slice_to_vec(val.as_str().as_bytes()),
            RegistryValue::Link(val) => slice_to_vec(val.as_str().as_bytes()),
            RegistryValue::MultiSz(val) => slice_to_vec(val.as_str().as_bytes()),
            RegistryValue::RegNone(val) => slice_to_vec(val.as_slice()),
            RegistryValue::Qword(val) => u64_to_le_bytes(*val),
            RegistryValue::Sz(val) => slice_to_vec(val.as_str().as_bytes()),
        }
    }

    /// The canonical type tag written together with this value.
    pub fn size(&self) -> (r: u32)
        ensures
            r == spec_type_tag(self@),
    {
        match self {
            RegistryValue::Binary(_) => REG_BINARY,
            RegistryValue::Dword(_) => REG_DWORD,
            RegistryValue::DwordBE(_) => REG_DWORD_BIG_ENDIAN,
            RegistryValue::ExpandSz(_) => REG_EXPAND_SZ,
            RegistryValue::Link(_) => REG_LINK,
            RegistryValue::MultiSz(_) => REG_MULTI_SZ,
            RegistryValue::RegNone(_) => REG_NONE,
            RegistryValue::Qword(_) => REG_QWORD,
            RegistryValue::Sz(_) => REG_SZ,
        }
    }

    /// Renders the payload for operator-facing output: integers in decimal,
    /// text verbatim, bytes as a listing of byte values.
    pub fn val_as_string(&self) -> (r: String)
        ensures
            r@ == spec_render(self@),
    {
        match self {
            RegistryValue::Binary(val) => bytes_to_listing(val),
            RegistryValue::Dword(val) => u64_to_decimal(*val as u64),
            RegistryValue::DwordBE(val) => u64_to_decimal(*val as u64),
            RegistryValue::ExpandSz(val) => val.clone(),
            RegistryValue::Link(val) => val.clone(),
            RegistryValue::MultiSz(val) => val.clone(),
            RegistryValue::RegNone(val) => bytes_to_listing(val),
            RegistryValue::Qword(val) => u64_to_decimal(*val),
            RegistryValue::Sz(val) => val.clone(),
        }
    }

    /// The operator-facing name of this value's kind.
    pub fn type_as_string(&self) -> (r: String)
        ensures
            r@ == spec_type_name(self@),
    {
        match self {
            RegistryValue::Binary(_) => "REG_BINARY".to_owned(),
            RegistryValue::Dword(_) => "REG_DWORD".to_owned(),
            RegistryValue::DwordBE(_) => "REG_DWORDBE".to_owned(),
            RegistryValue::ExpandSz(_) => "REG_EXPANDSZ".to_owned(),
            RegistryValue::Link(_) => "REG_LINK".to_owned(),
            RegistryValue::MultiSz(_) => "REG_MULTISZ".to_owned(),
            RegistryValue::RegNone(_) => "REG_NONE".to_owned(),
            RegistryValue::Qword(_) => "REG_QWORD".to_owned(),
            RegistryValue::Sz(_) => "REG_SZ".to_owned(),
        }
    }
}

/// A scratch buffer trimmed to the byte length the store reported: cut short
/// when the report is within the buffer, zero-padded in the degenerate case
/// of a report past its end.
pub open spec fn spec_resized(s: Seq<u8>, n: int) -> Seq<u8> {
    if n <= s.len() {
        s.take(n)
    } else {
        s + Seq::new((n - s.len()) as nat, |i: int| 0u8)
    }
}

impl RegistryValue {
    /// Completes the read protocol once the store has filled a scratch
    /// buffer: trims the buffer to the byte length the store reported, then
    /// decodes the result under the reported tag.
    pub fn new_from_scratch_buffer(value_type: u32, buffer: Vec<u8>, actual_len: usize) -> (r:
        Result<Self, RegeditError>)
        ensures
            r is Ok <==> spec_decode(value_type, spec_resized(buffer@, actual_len as int)) is Ok,
            r matches Ok(v) ==> spec_decode(value_type, spec_resized(buffer@, actual_len as int))
                == Ok::<ValueModel, ErrorKind>(v@),
            r matches Err(e) ==> spec_decode(value_type, spec_resized(buffer@, actual_len as int))
                == Err::<ValueModel, ErrorKind>(e.kind),
    {
        let ghost scratch = buffer@;
        let mut buffer = buffer;
        if actual_len <= buffer.len() {
            buffer.truncate(actual_len);
        } else {
            while buffer.len() < actual_len
                invariant
                    scratch.len() < actual_len,
                    scratch.len() <= buffer@.len() <= actual_len,
                    buffer@.take(scratch.len() as int) == scratch,
                    forall|k: int| scratch.len() <= k < buffer@.len() ==> buffer@[k] == 0,
                decreases actual_len - buffer@.len(),
            {
                let ghost before = buffer@;
                buffer.push(0);
                proof {
                    assert(buffer@.take(scratch.len() as int) =~= before.take(
                        scratch.len() as int,
                    ));
                }
            }
            proof {
                assert(buffer@ =~= spec_resized(scratch, actual_len as int));
            }
        }
        RegistryValue::new_from_value(value_type, buffer)
    }
}

/// Element-by-element comparison of two byte buffers.
fn byte_vecs_eq(a: &Vec<u8>, b: &Vec<u8>) -> (r: bool)
    ensures
        r == (a@ == b@),
{
    if a.len() != b.len() {
        proof {
            if a@ == b@ {
                assert(a@.len() == b@.len());
            }
        }
        return false;
    }
    let mut i: usize = 0;
    while i < a.len()
        invariant
            i <= a@.len(),
            a@.len() == b@.len(),
            forall|k: int| 0 <= k < i ==> a@[k] == b@[k],
        decreases a@.len() - i,
    {
        if a[i] != b[i] {
            return false;
        }
        i = i + 1;
    }
    proof {
        assert(a@ =~= b@);
    }
    true
}

impl PartialEq for RegistryValue {
    /// Two values are equal when they are of the same kind and carry the
    /// same payload.
    fn eq(&self, other: &Self) -> (r: bool) {
        match (self, other) {
            (RegistryValue::Binary(a), RegistryValue::Binary(b)) => byte_vecs_eq(a, b),
            (RegistryValue::Dword(a), RegistryValue::Dword(b)) => *a == *b,
            (RegistryValue::DwordBE(a), RegistryValue::DwordBE(b)) => *a == *b,
            (RegistryValue::ExpandSz(a), RegistryValue::ExpandSz(b)) => *a == *b,
            (RegistryValue::Link(a), RegistryValue::Link(b)) => *a == *b,
            (RegistryValue::MultiSz(a), RegistryValue::MultiSz(b)) => *a == *b,
            (RegistryValue::RegNone(a), RegistryValue::RegNone(b)) => byte_vecs_eq(a, b),
            (RegistryValue::Qword(a), RegistryValue::Qword(b)) => *a == *b,
            (RegistryValue::Sz(a), RegistryValue::Sz(b)) => *a == *b,
            _ => false,
        }
    }
}

impl vstd::std_specs::cmp::PartialEqSpecImpl for RegistryValue {
    open spec fn obeys_eq_spec() -> bool {
        true
    }

    open spec fn eq_spec(&self, other: &Self) -> bool {
        self@ == other@
    }
}

/// True when no character of a text payload is the NUL character; kinds that
/// carry no text satisfy it outright.  The store terminates and pads text
/// with zero bytes, so NUL characters inside the text itself cannot survive
/// a round trip.
pub open spec fn spec_no_nul(m: ValueModel) -> bool {
    match m {
        ValueModel::ExpandSz(s) => forall|i: int| 0 <= i < s.len() ==> s[i] != '\0',
        ValueModel::Link(s) => forall|i: int| 0 <= i < s.len() ==> s[i] != '\0',
        ValueModel::MultiSz(s) => forall|i: int| 0 <= i < s.len() ==> s[i] != '\0',
        ValueModel::Sz(s) => forall|i: int| 0 <= i < s.len() ==> s[i] != '\0',
        _ => true,
    }
}

/// Round trip: decoding a value's encoding under the value's own canonical
/// tag gives the value back — byte-exact for the integer, binary and
/// untyped kinds, and character-exact for text free of NUL characters.
pub proof fn lemma_round_trip(m: ValueModel)
    requires
        spec_no_nul(m),
    ensures
        spec_decode(spec_type_tag(m), spec_encode(m)) == Ok::<ValueModel, ErrorKind>(m),
{
    match m {
        ValueModel::Binary(_) => {
        },
        ValueModel::RegNone(_) => {
        },
        ValueModel::Dword(x) => {
            lemma_u32_le_round_trip(x);
        },
        ValueModel::DwordBE(x) => {
            lemma_u32_be_round_trip(x);
        },
        ValueModel::Qword(x) => {
            lemma_u64_le_round_trip(x);
        },
        ValueModel::ExpandSz(s) => {
            lemma_text_round_trip(s);
        },
        ValueModel::Link(s) => {
            lemma_text_round_trip(s);
        },
        ValueModel::MultiSz(s) => {
            lemma_text_round_trip(s);
        },
        ValueModel::Sz(s) => {
            lemma_text_round_trip(s);
        },
    }
}

/// Text free of NUL characters survives encoding, zero-stripping, UTF-8
/// validation and decoding unchanged.
proof fn lemma_text_round_trip(s: Seq<char>)
    requires
        forall|i: int| 0 <= i < s.len() ==> s[i] != '\0',
    ensures
        spec_strip_zeros(encode_utf8(s)) == encode_utf8(s),
        valid_utf8(encode_utf8(s)),
        decode_utf8(encode_utf8(s)) == s,
{
    lemma_encode_utf8_no_zero(s);
    lemma_strip_zeros_identity(encode_utf8(s));
    encode_utf8_valid_utf8(s);
    encode_utf8_decode_utf8(s);
}

/// A fixed-width integer decode fails with a length mismatch on every byte
/// buffer whose length is not exactly the tag's width.
pub proof fn lemma_fixed_width_length_mismatch(tag: u32, bytes: Seq<u8>)
    requires
        ((tag == REG_DWORD || tag == REG_DWORD_BIG_ENDIAN) && bytes.len() != 4) || (tag == REG_QWORD
            && bytes.len() != 8),
    ensures
        spec_decode(tag, bytes) == Err::<ValueModel, ErrorKind>(ErrorKind::LengthMismatch),
{
}

/// A tag outside the closed set fails as unrecognized whatever the bytes,
/// the empty buffer included.
pub proof fn lemma_unrecognized_tag(tag: u32, bytes: Seq<u8>)
    requires
        !spec_tag_known(tag),
    ensures
        spec_decode(tag, bytes) == Err::<ValueModel, ErrorKind>(ErrorKind::UnrecognizedTag),
{
}

} // verus!
