//! Text handling for the string-like value kinds: stripping the zero bytes
//! the store uses to null-pad and null-terminate text, and UTF-8 validation
//! of what remains.
use vstd::prelude::*;
use vstd::utf8::*;

verus! {

/// The given bytes with every zero byte removed, order otherwise kept.
pub open spec fn spec_strip_zeros(s: Seq<u8>) -> Seq<u8>
    decreases s.len(),
{
    if s.len() == 0 {
        seq![]
    } else if s[0] == 0 {
        spec_strip_zeros(s.drop_first())
    } else {
        seq![s[0]] + spec_strip_zeros(s.drop_first())
    }
}

/// Stripping distributes over appending one byte at the end.
pub proof fn lemma_strip_zeros_push(s: Seq<u8>, x: u8)
    ensures
        spec_strip_zeros(s.push(x)) == spec_strip_zeros(s) + if x == 0 {
            seq![]
        } else {
            seq![x]
        },
    decreases s.len(),
{
    reveal_with_fuel(spec_strip_zeros, 3);
    assert(s.push(x).len() == s.len() + 1);
    assert(s.push(x)[0] == if s.len() == 0 {
        x
    } else {
        s[0]
    });
    if s.len() == 0 {
        assert(s.push(x).drop_first() =~= Seq::<u8>::empty());
        if x == 0 {
            assert(spec_strip_zeros(s.push(x)) =~= spec_strip_zeros(s) + Seq::<u8>::empty());
        } else {
            assert(spec_strip_zeros(s.push(x)) =~= spec_strip_zeros(s) + seq![x]);
        }
    } else {
        assert(s.push(x).drop_first() =~= s.drop_first().push(x));
        lemma_strip_zeros_push(s.drop_first(), x);
        if x == 0 {
            assert(spec_strip_zeros(s.push(x)) =~= spec_strip_zeros(s) + Seq::<u8>::empty());
        } else if s[0] == 0 {
        } else {
            assert(seq![s[0]] + (spec_strip_zeros(s.drop_first()) + seq![x]) =~= (seq![s[0]]
                + spec_strip_zeros(s.drop_first())) + seq![x]);
        }
    }
}

/// Stripping a sequence without zero bytes changes nothing.
pub proof fn lemma_strip_zeros_identity(s: Seq<u8>)
    requires
        forall|i: int| 0 <= i < s.len() ==> s[i] != 0,
    ensures
        spec_strip_zeros(s) == s,
    decreases s.len(),
{
    if s.len() == 0 {
        assert(spec_strip_zeros(s) =~= s);
    } else {
        lemma_strip_zeros_identity(s.drop_first());
        assert(seq![s[0]] + s.drop_first() =~= s);
    }
}

/// Every byte of the one-scalar encoding of a nonzero scalar is nonzero.
proof fn lemma_encode_scalar_nonzero(s: u32)
    requires
        is_scalar(s),
        s != 0,
    ensures
        forall|j: int| 0 <= j < encode_scalar(s).len() ==> encode_scalar(s)[j] != 0,
{
    if has_width_1_encoding(s) {
        assert((s & 0x7F) as u8 != 0) by (bit_vector)
            requires
                s != 0 && s <= 0x7F,
        ;
    } else if has_width_2_encoding(s) {
        assert(0xC0u8 | (((s >> 6) & 0x1F) as u8) != 0 && 0x80u8 | ((s & 0x3F) as u8) != 0)
            by (bit_vector);
    } else if has_width_3_encoding(s) {
        assert(0xE0u8 | (((s >> 12) & 0x0F) as u8) != 0 && 0x80u8 | (((s >> 6) & 0x3F) as u8) != 0
            && 0x80u8 | ((s & 0x3F) as u8) != 0) by (bit_vector);
    } else {
        assert(0xF0u8 | (((s >> 18) & 0x7) as u8) != 0 && 0x80u8 | (((s >> 12) & 0x3F) as u8) != 0
            && 0x80u8 | (((s >> 6) & 0x3F) as u8) != 0 && 0x80u8 | ((s & 0x3F) as u8) != 0)
            by (bit_vector);
    }
}

/// UTF-8 encodes text free of the NUL character into bytes free of zeros:
/// zero bytes in stored text come only from the store's own padding and
/// termination, never from the text itself.
pub proof fn lemma_encode_utf8_no_zero(chars: Seq<char>)
    requires
        forall|i: int| 0 <= i < chars.len() ==> chars[i] != '\0',
    ensures
        forall|j: int| 0 <= j < encode_utf8(chars).len() ==> encode_utf8(chars)[j] != 0,
    decreases chars.len(),
{
    if chars.len() != 0 {
        let c = chars[0];
        char_is_scalar(c);
        if c as u32 == 0 {
            char_u32_cast(c, c as u32);
            assert(('\0' as u32) == 0);
            char_u32_cast('\0', 0);
            assert(c == '\0');
        }
        lemma_encode_scalar_nonzero(c as u32);
        lemma_encode_utf8_no_zero(chars.drop_first());
        assert forall|j: int| 0 <= j < encode_utf8(chars).len() implies encode_utf8(chars)[j]
            != 0 by {
            let head = encode_scalar(c as u32);
            let rest = encode_utf8(chars.drop_first());
            assert(encode_utf8(chars) == head + rest);
            if j < head.len() {
                assert(encode_utf8(chars)[j] == head[j]);
            } else {
                assert(encode_utf8(chars)[j] == rest[j - head.len()]);
            }
        }
    }
}

/// Removes every zero byte from the buffer, keeping the order of the rest.
pub fn strip_zeros(v: &Vec<u8>) -> (r: Vec<u8>)
    ensures
        r@ == spec_strip_zeros(v@),
{
    let mut r: Vec<u8> = Vec::new();
    let mut i: usize = 0;
    while i < v.len()
        invariant
            i <= v.len(),
            r@ == spec_strip_zeros(v@.take(i as int)),
        decreases v.len() - i,
    {
        let b = v[i];
        proof {
            assert(v@.take(i as int + 1) =~= v@.take(i as int).push(v@[i as int]));
            lemma_strip_zeros_push(v@.take(i as int), v@[i as int]);
        }
        if b != 0 {
            r.push(b);
            proof {
                assert(r@ =~= spec_strip_zeros(v@.take(i as int)) + seq![b]);
            }
        } else {
            proof {
                assert(spec_strip_zeros(v@.take(i as int + 1)) =~= r@);
            }
        }
        i = i + 1;
    }
    proof {
        assert(v@.take(v@.len() as int) =~= v@);
    }
    r
}

/// Relies on std's String::from_utf8: it succeeds exactly when the bytes are
/// a valid UTF-8 encoding, and the string it then returns is the one whose
/// characters those bytes encode.
#[verifier::external_body]
fn string_from_utf8(bytes: Vec<u8>) -> (r: Option<String>)
    ensures
        r is Some <==> valid_utf8(bytes@),
        r matches Some(s) ==> encode_utf8(s@) == bytes@,
{
    String::from_utf8(bytes).ok()
}

/// Interprets a value buffer as text: strips the zero bytes the store pads
/// and terminates with, then validates the rest as UTF-8.  Returns the text
/// on success and nothing when the remaining bytes are not valid UTF-8.
pub fn decode_text(bytes: &Vec<u8>) -> (r: Option<String>)
    ensures
        r is Some <==> valid_utf8(spec_strip_zeros(bytes@)),
        r matches Some(s) ==> s@ == decode_utf8(spec_strip_zeros(bytes@)),
{
    let stripped = strip_zeros(bytes);
    match string_from_utf8(stripped) {
        Some(s) => {
            proof {
                encode_utf8_decode_utf8(s@);
            }
            Some(s)
        },
        None => None,
    }
}

} // verus!
