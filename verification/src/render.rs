//! Operator-facing text rendering: unsigned integers as decimal digits, and
//! byte buffers as a bracketed listing of their byte values.
use vstd::prelude::*;
use vstd::string::StringExecFns;

verus! {

/// The character for a single decimal digit.
pub open spec fn spec_digit(d: int) -> char {
    if d == 0 {
        '0'
    } else if d == 1 {
        '1'
    } else if d == 2 {
        '2'
    } else if d == 3 {
        '3'
    } else if d == 4 {
        '4'
    } else if d == 5 {
        '5'
    } else if d == 6 {
        '6'
    } else if d == 7 {
        '7'
    } else if d == 8 {
        '8'
    } else {
        '9'
    }
}

/// The decimal rendering of a nonnegative integer: most significant digit
/// first, no leading zeros except for the number zero itself.
pub open spec fn spec_decimal(n: int) -> Seq<char>
    recommends
        n >= 0,
    decreases n,
{
    if n < 10 {
        seq![spec_digit(n)]
    } else {
        spec_decimal(n / 10).push(spec_digit(n % 10))
    }
}

/// The digits of `s` read back to front, as decimal digit characters.
pub open spec fn spec_rev_digits(s: Seq<u8>) -> Seq<char> {
    Seq::new(s.len(), |i: int| spec_digit(s[s.len() - 1 - i] as int))
}

/// Reading reversed digits after appending one digit puts it in front.
proof fn lemma_rev_digits_push(s: Seq<u8>, x: u8)
    ensures
        spec_rev_digits(s.push(x)) == seq![spec_digit(x as int)] + spec_rev_digits(s),
{
    assert(spec_rev_digits(s.push(x)) =~= seq![spec_digit(x as int)] + spec_rev_digits(s));
}

/// The one-character string for a single decimal digit.
fn digit_str(d: u8) -> (r: &'static str)
    requires
        d < 10,
    ensures
        r@ == seq![spec_digit(d as int)],
{
    proof {
        reveal_strlit("0");
        reveal_strlit("1");
        reveal_strlit("2");
        reveal_strlit("3");
        reveal_strlit("4");
        reveal_strlit("5");
        reveal_strlit("6");
        reveal_strlit("7");
        reveal_strlit("8");
        reveal_strlit("9");
    }
    if d == 0 {
        proof {
            assert("0"@ =~= seq!['0']);
        }
        "0"
    } else if d == 1 {
        proof {
            assert("1"@ =~= seq!['1']);
        }
        "1"
    } else if d == 2 {
        proof {
            assert("2"@ =~= seq!['2']);
        }
        "2"
    } else if d == 3 {
        proof {
            assert("3"@ =~= seq!['3']);
        }
        "3"
    } else if d == 4 {
        proof {
            assert("4"@ =~= seq!['4']);
        }
        "4"
    } else if d == 5 {
        proof {
            assert("5"@ =~= seq!['5']);
        }
        "5"
    } else if d == 6 {
        proof {
            assert("6"@ =~= seq!['6']);
        }
        "6"
    } else if d == 7 {
        proof {
            assert("7"@ =~= seq!['7']);
        }
        "7"
    } else if d == 8 {
        proof {
            assert("8"@ =~= seq!['8']);
        }
        "8"
    } else {
        proof {
            assert("9"@ =~= seq!['9']);
        }
        "9"
    }
}

/// Renders an unsigned integer as decimal text.
pub fn u64_to_decimal(n: u64) -> (r: String)
    ensures
        r@ == spec_decimal(n as int),
{
    let mut rev: Vec<u8> = Vec::new();
    let mut m: u64 = n / 10;
    rev.push((n % 10) as u8);
    proof {
        assert(spec_rev_digits(rev@) =~= seq![spec_digit(n as int % 10)]);
        if m != 0 {
            assert(spec_decimal(n as int) == spec_decimal(m as int) + spec_rev_digits(rev@)) by {
                assert(spec_decimal(m as int).push(spec_digit(n as int % 10)) =~= spec_decimal(
                    m as int,
                ) + seq![spec_digit(n as int % 10)]);
            }
        }
    }
    while m != 0
        invariant
            forall|k: int| 0 <= k < rev@.len() ==> rev@[k] < 10,
            if m == 0 {
                spec_decimal(n as int) == spec_rev_digits(rev@)
            } else {
                spec_decimal(n as int) == spec_decimal(m as int) + spec_rev_digits(rev@)
            },
        decreases m,
    {
        let d = (m % 10) as u8;
        let ghost old_rev = rev@;
        rev.push(d);
        proof {
            lemma_rev_digits_push(old_rev, d);
        }
        let m2 = m / 10;
        proof {
            if m2 == 0 {
                assert(spec_decimal(m as int) == seq![spec_digit(d as int)]);
                assert(spec_decimal(m as int) + spec_rev_digits(old_rev) =~= spec_rev_digits(
                    rev@,
                ));
            } else {
                assert(spec_decimal(m as int) == spec_decimal(m2 as int).push(
                    spec_digit(d as int),
                ));
                assert(spec_decimal(m2 as int).push(spec_digit(d as int)) + spec_rev_digits(
                    old_rev,
                ) =~= spec_decimal(m2 as int) + spec_rev_digits(rev@));
            }
        }
        m = m2;
    }
    let mut r = String::new();
    let k = rev.len();
    let mut j: usize = 0;
    while j < k
        invariant
            j <= k,
            k == rev@.len(),
            forall|t: int| 0 <= t < rev@.len() ==> rev@[t] < 10,
            spec_decimal(n as int) == spec_rev_digits(rev@),
            r@ == spec_rev_digits(rev@).take(j as int),
        decreases k - j,
    {
        let d = rev[k - 1 - j];
        r.append(digit_str(d));
        proof {
            assert(spec_rev_digits(rev@)[j as int] == spec_digit(d as int));
            assert(spec_rev_digits(rev@).take(j as int + 1) =~= spec_rev_digits(rev@).take(
                j as int,
            ) + seq![spec_digit(d as int)]);
        }
        j = j + 1;
    }
    proof {
        assert(spec_rev_digits(rev@).take(rev@.len() as int) =~= spec_rev_digits(rev@));
    }
    r
}

/// The inner part of a byte listing: the bytes as decimal numbers separated
/// by a comma and a space.
pub open spec fn spec_byte_items(s: Seq<u8>) -> Seq<char>
    decreases s.len(),
{
    if s.len() == 0 {
        seq![]
    } else if s.len() == 1 {
        spec_decimal(s[0] as int)
    } else {
        spec_decimal(s[0] as int) + seq![',', ' '] + spec_byte_items(s.drop_first())
    }
}

/// The listing of a byte buffer: its bytes as decimal numbers, separated by
/// a comma and a space, between square brackets.
pub open spec fn spec_byte_listing(s: Seq<u8>) -> Seq<char> {
    seq!['['] + spec_byte_items(s) + seq![']']
}

/// Listing distributes over appending one byte at the end.
proof fn lemma_byte_items_push(s: Seq<u8>, x: u8)
    ensures
        spec_byte_items(s.push(x)) == if s.len() == 0 {
            spec_decimal(x as int)
        } else {
            spec_byte_items(s) + seq![',', ' '] + spec_decimal(x as int)
        },
    decreases s.len(),
{
    reveal_with_fuel(spec_byte_items, 3);
    assert(s.push(x).len() == s.len() + 1);
    if s.len() == 0 {
        assert(s.push(x)[0] == x);
    } else {
        assert(s.push(x)[0] == s[0]);
        assert(s.push(x).drop_first() =~= s.drop_first().push(x));
        lemma_byte_items_push(s.drop_first(), x);
        if s.len() == 1 {
            assert(spec_byte_items(s.push(x)) =~= spec_byte_items(s) + seq![',', ' ']
                + spec_decimal(x as int));
        } else {
            assert(spec_decimal(s[0] as int) + seq![',', ' '] + (spec_byte_items(s.drop_first())
                + seq![',', ' '] + spec_decimal(x as int)) =~= (spec_decimal(s[0] as int) + seq![
                ',',
                ' ',
            ] + spec_byte_items(s.drop_first())) + seq![',', ' '] + spec_decimal(x as int));
        }
    }
}

/// Renders a byte buffer as a bracketed listing of its byte values.
pub fn bytes_to_listing(b: &Vec<u8>) -> (r: String)
    ensures
        r@ == spec_byte_listing(b@),
{
    let mut r = String::new();
    r.append("[");
    proof {
        reveal_strlit("[");
        assert(r@ =~= seq!['['] + spec_byte_items(b@.take(0)));
    }
    let mut i: usize = 0;
    while i < b.len()
        invariant
            i <= b@.len(),
            r@ == seq!['['] + spec_byte_items(b@.take(i as int)),
        decreases b@.len() - i,
    {
        let ghost prefix = b@.take(i as int);
        if i > 0 {
            r.append(", ");
        }
        let d = u64_to_decimal(b[i] as u64);
        r.append(d.as_str());
        proof {
            assert(b@.take(i as int + 1) =~= prefix.push(b@[i as int]));
            lemma_byte_items_push(prefix, b@[i as int]);
            reveal_strlit(", ");
            assert(", "@ =~= seq![',', ' ']);
            if i == 0 {
                assert(r@ =~= seq!['['] + spec_byte_items(b@.take(i as int + 1)));
            } else {
                assert(r@ =~= seq!['['] + spec_byte_items(b@.take(i as int + 1)));
            }
        }
        i = i + 1;
    }
    r.append("]");
    proof {
        reveal_strlit("]");
        assert(b@.take(b@.len() as int) =~= b@);
        assert(r@ =~= spec_byte_listing(b@));
    }
    r
}

} // verus!
