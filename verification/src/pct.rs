//! Percent-coding of URL components. Encoding works on the UTF-8 bytes of a
//! component and keeps only the unreserved characters literal, as URL query
//! assembly requires. Decoding works on the characters of a query component:
//! a `%` followed by two hex digits becomes the character with that byte
//! value, `+` becomes a space, and anything else (including a malformed
//! escape) passes through unchanged.

use vstd::prelude::*;
use vstd::string::StringSliceAdditionalSpecFns;

use crate::text::digit_char;

verus! {

/// Hex digit character (upper case) for a value below 16.
pub open spec fn hex_char(d: nat) -> char {
    if d < 10 {
        digit_char(d)
    } else {
        ((d + 55) as u8) as char
    }
}

/// Whether a byte is an unreserved URL character: a letter, a digit, or one
/// of `-`, `.`, `_`, `~`.
pub open spec fn is_unreserved_byte(b: u8) -> bool {
    (65 <= b <= 90) || (97 <= b <= 122) || (48 <= b <= 57) || b == 45 || b == 46 || b == 95
        || b == 126
}

/// The three characters of one percent-escaped byte.
pub open spec fn pct_byte(b: u8) -> Seq<char> {
    seq!['%', hex_char((b / 16) as nat), hex_char((b % 16) as nat)]
}

/// Percent-encoding of a byte string: unreserved bytes stay literal, every
/// other byte becomes a `%` escape.
pub open spec fn pct_encoded(bytes: Seq<u8>) -> Seq<char>
    decreases bytes.len(),
{
    if bytes.len() == 0 {
        Seq::empty()
    } else {
        pct_encoded(bytes.drop_last()) + (if is_unreserved_byte(bytes.last()) {
            seq![bytes.last() as char]
        } else {
            pct_byte(bytes.last())
        })
    }
}

/// Percent-encoding of a component given as text: the encoding of its
/// UTF-8 bytes.
pub open spec fn component_encoded(s: Seq<char>) -> Seq<char> {
    pct_encoded(vstd::utf8::encode_utf8(s))
}

fn hex_char_exec(d: u8) -> (c: char)
    requires
        d < 16,
    ensures
        c == hex_char(d as nat),
{
    if d < 10 {
        (48 + d) as char
    } else {
        (55 + d) as char
    }
}

fn is_unreserved_byte_exec(b: u8) -> (r: bool)
    ensures
        r == is_unreserved_byte(b),
{
    (65 <= b && b <= 90) || (97 <= b && b <= 122) || (48 <= b && b <= 57) || b == 45 || b == 46
        || b == 95 || b == 126
}

/// Percent-encodes the UTF-8 bytes of a component, exactly as `pct_encoded`
/// describes.
pub fn pct_encode(s: &str) -> (r: String)
    ensures
        r@ == pct_encoded(s.spec_bytes()),
{
    let bytes = s.as_bytes_vec();
    let mut out = String::new();
    let mut i: usize = 0;
    while i < bytes.len()
        invariant
            i <= bytes@.len(),
            bytes@ == s.spec_bytes(),
            out@ == pct_encoded(bytes@.take(i as int)),
        decreases bytes@.len() - i,
    {
        let b = bytes[i];
        if is_unreserved_byte_exec(b) {
            crate::text::push_char(&mut out, b as char);
        } else {
            crate::text::push_char(&mut out, '%');
            crate::text::push_char(&mut out, hex_char_exec(b / 16));
            crate::text::push_char(&mut out, hex_char_exec(b % 16));
        }
        proof {
            assert(bytes@.take(i + 1).drop_last() =~= bytes@.take(i as int));
            assert(out@ =~= pct_encoded(bytes@.take(i + 1)));
        }
        i += 1;
    }
    proof {
        assert(bytes@.take(bytes@.len() as int) =~= bytes@);
    }
    out
}

/// Whether `c` is a hex digit, upper or lower case.
pub open spec fn is_hex_digit(c: char) -> bool {
    ('0' <= c && c <= '9') || ('A' <= c && c <= 'F') || ('a' <= c && c <= 'f')
}

/// Numeric value of a hex digit character.
pub open spec fn hex_val(c: char) -> nat {
    if '0' <= c && c <= '9' {
        (c as nat - 48) as nat
    } else if 'A' <= c && c <= 'F' {
        (c as nat - 55) as nat
    } else {
        (c as nat - 87) as nat
    }
}

/// Percent-decoding of a query component, character by character from the
/// front: a well-formed `%`-escape yields the character with that byte
/// value, `+` yields a space, and every other character yields itself.
pub open spec fn pct_decoded(s: Seq<char>) -> Seq<char>
    decreases s.len(),
{
    if s.len() == 0 {
        Seq::empty()
    } else if s[0] == '%' && s.len() >= 3 && is_hex_digit(s[1]) && is_hex_digit(s[2]) {
        seq![(((hex_val(s[1]) * 16 + hex_val(s[2]))) as u8) as char] + pct_decoded(s.skip(3))
    } else if s[0] == '+' {
        seq![' '] + pct_decoded(s.skip(1))
    } else {
        seq![s[0]] + pct_decoded(s.skip(1))
    }
}

fn hex_val_exec(c: char) -> (r: Option<u8>)
    ensures
        r matches Some(v) ==> is_hex_digit(c) && v == hex_val(c) && v < 16,
        r is None ==> !is_hex_digit(c),
{
    let u = c as u32;
    if 48 <= u && u <= 57 {
        Some((u - 48) as u8)
    } else if 65 <= u && u <= 70 {
        Some((u - 55) as u8)
    } else if 97 <= u && u <= 102 {
        Some((u - 87) as u8)
    } else {
        None
    }
}

/// Percent-decodes a query component, exactly as `pct_decoded` describes.
pub fn pct_decode(s: &str) -> (r: String)
    ensures
        r@ == pct_decoded(s@),
{
    let n = s.unicode_len();
    let mut out = String::new();
    let mut i: usize = 0;
    proof {
        assert(s@.skip(0) =~= s@);
        assert(Seq::<char>::empty() + pct_decoded(s@) =~= pct_decoded(s@));
    }
    while i < n
        invariant
            i <= n,
            n == s@.len(),
            pct_decoded(s@) == out@ + pct_decoded(s@.skip(i as int)),
        decreases n - i,
    {
        let c = s.get_char(i);
        proof {
            assert(s@.skip(i as int)[0] == s@[i as int]);
        }
        if c == '%' && n - i > 2 {
            let h1 = hex_val_exec(s.get_char(i + 1));
            let h2 = hex_val_exec(s.get_char(i + 2));
            proof {
                assert(s@.skip(i as int)[1] == s@[i + 1]);
                assert(s@.skip(i as int)[2] == s@[i + 2]);
            }
            match (h1, h2) {
                (Some(v1), Some(v2)) => {
                    crate::text::push_char(&mut out, (v1 * 16 + v2) as char);
                    proof {
                        assert(s@.skip(i as int).skip(3) =~= s@.skip(i + 3));
                        assert(out@ + pct_decoded(s@.skip(i + 3)) =~= pct_decoded(s@));
                    }
                    i += 3;
                },
                _ => {
                    crate::text::push_char(&mut out, c);
                    proof {
                        assert(s@.skip(i as int).skip(1) =~= s@.skip(i + 1));
                        assert(out@ + pct_decoded(s@.skip(i + 1)) =~= pct_decoded(s@));
                    }
                    i += 1;
                },
            }
        } else {
            let decoded = if c == '+' {
                ' '
            } else {
                c
            };
            crate::text::push_char(&mut out, decoded);
            proof {
                assert(s@.skip(i as int).skip(1) =~= s@.skip(i + 1));
                assert(out@ + pct_decoded(s@.skip(i + 1)) =~= pct_decoded(s@));
            }
            i += 1;
        }
    }
    proof {
        assert(s@.skip(n as int) =~= Seq::<char>::empty());
        assert(out@ =~= pct_decoded(s@));
    }
    out
}

} // verus!
