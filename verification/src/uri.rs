//! Percent-encoding of URI components, as ECMAScript's `encodeURIComponent`
//! does it: every character outside the unreserved set is written as the
//! `%XY` escapes of its UTF-8 bytes, with upper-case hexadecimal digits.
use vstd::prelude::*;
use vstd::utf8::*;

use crate::text::{digit_char, push_char};

verus! {

/// The characters that `encodeURIComponent` leaves as they are:
/// `A-Z a-z 0-9 - _ . ! ~ * ' ( )`.
pub open spec fn is_uri_unreserved(c: char) -> bool {
    ||| 'A' <= c && c <= 'Z'
    ||| 'a' <= c && c <= 'z'
    ||| '0' <= c && c <= '9'
    ||| c == '-'
    ||| c == '_'
    ||| c == '.'
    ||| c == '!'
    ||| c == '~'
    ||| c == '*'
    ||| c == '\''
    ||| c == '('
    ||| c == ')'
}

/// The upper-case hexadecimal digit of `d < 16`.
pub open spec fn hex_digit(d: nat) -> char {
    if d < 10 {
        digit_char(d)
    } else {
        (d + 55) as char
    }
}

/// `%XY` for one byte.
pub open spec fn percent_byte(b: u8) -> Seq<char> {
    seq!['%', hex_digit((b / 16) as nat), hex_digit((b % 16) as nat)]
}

/// The `%XY` escapes of a byte sequence, in order.
pub open spec fn percent_bytes(bs: Seq<u8>) -> Seq<char>
    decreases bs.len(),
{
    if bs.len() == 0 {
        seq![]
    } else {
        percent_bytes(bs.drop_last()) + percent_byte(bs.last())
    }
}

/// How one character is written in an encoded URI component.
pub open spec fn encode_uri_char(c: char) -> Seq<char> {
    if is_uri_unreserved(c) {
        seq![c]
    } else {
        percent_bytes(encode_scalar(c as u32))
    }
}

/// `encodeURIComponent` of a whole text.
pub open spec fn encode_uri_component_spec(s: Seq<char>) -> Seq<char>
    decreases s.len(),
{
    if s.len() == 0 {
        seq![]
    } else {
        encode_uri_component_spec(s.drop_last()) + encode_uri_char(s.last())
    }
}

/// Whether `c` may appear in an encoded URI component: an unreserved
/// character, `%`, or an upper-case hexadecimal digit.
pub open spec fn is_encoded_char(c: char) -> bool {
    is_uri_unreserved(c) || c == '%'
}

fn hex_char(d: u8) -> (c: char)
    requires
        d < 16,
    ensures
        c == hex_digit(d as nat),
{
    if d < 10 {
        (d + 48) as char
    } else {
        (d + 55) as char
    }
}

fn unreserved(c: char) -> (b: bool)
    ensures
        b == is_uri_unreserved(c),
{
    ('A' <= c && c <= 'Z') || ('a' <= c && c <= 'z') || ('0' <= c && c <= '9') || c == '-' || c
        == '_' || c == '.' || c == '!' || c == '~' || c == '*' || c == '\'' || c == '(' || c
        == ')'
}

/// The UTF-8 bytes of a character.
fn utf8_bytes(c: char) -> (v: Vec<u8>)
    ensures
        v@ == encode_scalar(c as u32),
{
    let n: u32 = c as u32;
    proof {
        char_is_scalar(c);
    }
    let mut v: Vec<u8> = Vec::new();
    if n <= 0x7F {
        v.push((n & 0x7F) as u8);
    } else if n <= 0x7FF {
        v.push(0xC0 | ((n >> 6) & 0x1F) as u8);
        v.push(0x80 | (n & 0x3F) as u8);
    } else if n <= 0xFFFF {
        v.push(0xE0 | ((n >> 12) & 0x0F) as u8);
        v.push(0x80 | ((n >> 6) & 0x3F) as u8);
        v.push(0x80 | (n & 0x3F) as u8);
    } else {
        v.push(0xF0 | ((n >> 18) & 0x7) as u8);
        v.push(0x80 | ((n >> 12) & 0x3F) as u8);
        v.push(0x80 | ((n >> 6) & 0x3F) as u8);
        v.push(0x80 | (n & 0x3F) as u8);
    }
    assert(v@ =~= encode_scalar(n));
    v
}

/// Appends the `%XY` escapes of `bytes` to `out`.
fn push_percent_bytes(out: &mut String, bytes: &Vec<u8>)
    ensures
        final(out)@ == old(out)@ + percent_bytes(bytes@),
{
    let ghost start = out@;
    let mut k: usize = 0;
    while k < bytes.len()
        invariant
            k <= bytes.len(),
            out@ == start + percent_bytes(bytes@.subrange(0, k as int)),
        decreases bytes.len() - k,
    {
        let b = bytes[k];
        push_char(out, '%');
        push_char(out, hex_char(b / 16));
        push_char(out, hex_char(b % 16));
        let ghost next = bytes@.subrange(0, k + 1);
        assert(next.drop_last() =~= bytes@.subrange(0, k as int));
        assert(out@ =~= start + percent_bytes(next));
        k = k + 1;
    }
    assert(bytes@.subrange(0, bytes.len() as int) =~= bytes@);
}

/// Encodes a text for use as one component of a URI, as ECMAScript's
/// `encodeURIComponent` does.
pub fn encode_uri_component(s: &str) -> (r: String)
    ensures
        r@ == encode_uri_component_spec(s@),
{
    let v = crate::text::chars_of(s);
    let mut out = String::new();
    let mut k: usize = 0;
    while k < v.len()
        invariant
            k <= v.len(),
            v@ == s@,
            out@ == encode_uri_component_spec(v@.subrange(0, k as int)),
        decreases v.len() - k,
    {
        let c = v[k];
        let ghost after = v@.subrange(0, k + 1);
        assert(after.drop_last() =~= v@.subrange(0, k as int));
        if unreserved(c) {
            push_char(&mut out, c);
        } else {
            let bytes = utf8_bytes(c);
            push_percent_bytes(&mut out, &bytes);
        }
        assert(out@ =~= encode_uri_component_spec(after));
        k = k + 1;
    }
    assert(v@.subrange(0, v.len() as int) =~= s@);
    out
}

proof fn lemma_hex_digit_encoded(d: nat)
    requires
        d < 16,
    ensures
        is_encoded_char(hex_digit(d)),
{
}

proof fn lemma_percent_bytes_encoded(bs: Seq<u8>)
    ensures
        forall|i: int| 0 <= i < percent_bytes(bs).len() ==> is_encoded_char(
            #[trigger] percent_bytes(bs)[i],
        ),
    decreases bs.len(),
{
    if bs.len() > 0 {
        lemma_percent_bytes_encoded(bs.drop_last());
        let b = bs.last();
        lemma_hex_digit_encoded((b / 16) as nat);
        lemma_hex_digit_encoded((b % 16) as nat);
        let front = percent_bytes(bs.drop_last());
        let whole = percent_bytes(bs);
        assert forall|i: int| 0 <= i < whole.len() implies is_encoded_char(#[trigger] whole[i]) by {
            if i < front.len() {
                assert(whole[i] == front[i]);
            } else {
                assert(whole[i] == percent_byte(b)[i - front.len()]);
            }
        }
    }
}

/// An encoded URI component holds only unreserved characters, `%` and
/// hexadecimal digits: no separator of a URI (`/ ? & = # +`, space) is left
/// bare in it.
pub proof fn lemma_encoded_chars(s: Seq<char>)
    ensures
        forall|i: int|
            0 <= i < encode_uri_component_spec(s).len() ==> is_encoded_char(
                #[trigger] encode_uri_component_spec(s)[i],
            ),
    decreases s.len(),
{
    if s.len() > 0 {
        lemma_encoded_chars(s.drop_last());
        let c = s.last();
        let front = encode_uri_component_spec(s.drop_last());
        let tail = encode_uri_char(c);
        let whole = encode_uri_component_spec(s);
        if !is_uri_unreserved(c) {
            lemma_percent_bytes_encoded(encode_scalar(c as u32));
        }
        assert forall|i: int| 0 <= i < whole.len() implies is_encoded_char(#[trigger] whole[i]) by {
            if i < front.len() {
                assert(whole[i] == front[i]);
            } else {
                assert(whole[i] == tail[i - front.len()]);
            }
        }
    }
}

/// A text made only of unreserved characters is its own encoding.
pub proof fn lemma_unreserved_unchanged(s: Seq<char>)
    requires
        forall|i: int| 0 <= i < s.len() ==> is_uri_unreserved(#[trigger] s[i]),
    ensures
        encode_uri_component_spec(s) == s,
    decreases s.len(),
{
    if s.len() > 0 {
        assert(is_uri_unreserved(s[s.len() - 1]));
        lemma_unreserved_unchanged(s.drop_last());
        assert(s.drop_last().push(s.last()) =~= s);
    }
}

/// Encoding a concatenation is concatenating the encodings.
pub proof fn lemma_encode_concat(a: Seq<char>, b: Seq<char>)
    ensures
        encode_uri_component_spec(a + b) == encode_uri_component_spec(a)
            + encode_uri_component_spec(b),
    decreases b.len(),
{
    if b.len() == 0 {
        assert(a + b =~= a);
    } else {
        lemma_encode_concat(a, b.drop_last());
        assert((a + b).drop_last() =~= a + b.drop_last());
        assert((a + b).last() == b.last());
    }
}

} // verus!
