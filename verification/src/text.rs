//! Text primitives over character sequences: decimal rendering and parsing,
//! whitespace trimming, prefix and substring tests.
use vstd::prelude::*;

verus! {

// ---------------------------------------------------------------------------
// Building strings
// ---------------------------------------------------------------------------

/// Appends one character to a string (`String::push`).
#[verifier::external_body]
pub(crate) fn push_char(s: &mut String, c: char)
    ensures
        final(s)@ == old(s)@.push(c),
{
    s.push(c);
}

/// The characters of a string slice, in order.
pub fn chars_of(s: &str) -> (v: Vec<char>)
    ensures
        v@ == s@,
{
    let mut v: Vec<char> = Vec::new();
    for c in it: s.chars()
        invariant
            v@ == it.seq().take(it.index() as int),
    {
        v.push(c);
    }
    v
}

/// The string made of the characters `v[lo..hi]`.
pub fn string_from_range(v: &Vec<char>, lo: usize, hi: usize) -> (s: String)
    requires
        lo <= hi <= v.len(),
    ensures
        s@ == v@.subrange(lo as int, hi as int),
{
    let mut s = String::new();
    let mut k = lo;
    while k < hi
        invariant
            lo <= k <= hi <= v.len(),
            s@ == v@.subrange(lo as int, k as int),
        decreases hi - k,
    {
        push_char(&mut s, v[k]);
        k = k + 1;
        assert(s@ =~= v@.subrange(lo as int, k as int));
    }
    s
}

/// Appends a string slice to a string.
pub fn append_str(s: &mut String, t: &str)
    ensures
        final(s)@ == old(s)@ + t@,
{
    s.append(t);
}

/// A fresh string with the characters of `t`.
pub fn string_of(t: &str) -> (s: String)
    ensures
        s@ == t@,
{
    t.to_owned()
}

/// Whether two string slices hold the same characters.
pub fn str_equal(a: &str, b: &str) -> (r: bool)
    ensures
        r == (a@ == b@),
{
    let x = a.to_owned();
    let y = b.to_owned();
    x == y
}

// ---------------------------------------------------------------------------
// Decimal numbers
// ---------------------------------------------------------------------------

/// The character of a decimal digit `d < 10`.
pub open spec fn digit_char(d: nat) -> char {
    (d + 48) as char
}

/// Whether `c` is one of `'0'..='9'`.
pub open spec fn is_digit(c: char) -> bool {
    '0' <= c && c <= '9'
}

/// The value of a decimal digit character.
pub open spec fn digit_value(c: char) -> nat {
    (c as int - 48) as nat
}

/// The decimal rendering of a natural number, without sign or leading zeros.
pub open spec fn decimal(n: nat) -> Seq<char>
    decreases n,
{
    if n < 10 {
        seq![digit_char(n)]
    } else {
        decimal(n / 10).push(digit_char(n % 10))
    }
}

/// The decimal rendering of an integer, with a leading `-` when negative
/// (what `{}` prints for a signed integer).
pub open spec fn signed_decimal(i: int) -> Seq<char> {
    if i < 0 {
        seq!['-'] + decimal((-i) as nat)
    } else {
        decimal(i as nat)
    }
}

/// The value of a sequence of decimal digits, most significant first.
pub open spec fn digits_value(s: Seq<char>) -> nat
    decreases s.len(),
{
    if s.len() == 0 {
        0
    } else {
        digits_value(s.drop_last()) * 10 + digit_value(s.last())
    }
}

/// Whether every character of `s` is a decimal digit.
pub open spec fn all_digits(s: Seq<char>) -> bool {
    forall|i: int| 0 <= i < s.len() ==> is_digit(#[trigger] s[i])
}

/// What `str::parse::<u32>` gives: an optional leading `+`, then one or more
/// decimal digits whose value fits in a `u32`; anything else is refused.
pub open spec fn parse_u32_spec(s: Seq<char>) -> Option<u32> {
    let digits = if s.len() > 0 && s[0] == '+' {
        s.drop_first()
    } else {
        s
    };
    if digits.len() == 0 || !all_digits(digits) || digits_value(digits) > u32::MAX {
        None
    } else {
        Some(digits_value(digits) as u32)
    }
}

pub(crate) fn digit(d: u64) -> (c: char)
    requires
        d < 10,
    ensures
        c == digit_char(d as nat),
{
    let b: u8 = (d as u8) + 48;
    b as char
}

/// Renders `n` in decimal.
pub fn u64_to_decimal(n: u64) -> (s: String)
    ensures
        s@ == decimal(n as nat),
    decreases n,
{
    if n < 10 {
        let mut s = String::new();
        push_char(&mut s, digit(n));
        s
    } else {
        let mut s = u64_to_decimal(n / 10);
        push_char(&mut s, digit(n % 10));
        s
    }
}

/// Renders `n` in decimal, with a leading `-` when it is negative.
pub fn i64_to_decimal(n: i64) -> (s: String)
    ensures
        s@ == signed_decimal(n as int),
{
    if n < 0 {
        let magnitude: u64 = if n == i64::MIN {
            9223372036854775808u64
        } else {
            (-n) as u64
        };
        let digits = u64_to_decimal(magnitude);
        let mut s = String::new();
        push_char(&mut s, '-');
        append_str(&mut s, digits.as_str());
        s
    } else {
        u64_to_decimal(n as u64)
    }
}

proof fn lemma_digit_char(d: nat)
    requires
        d < 10,
    ensures
        is_digit(digit_char(d)),
        digit_value(digit_char(d)) == d,
{
}

pub proof fn lemma_decimal_digits(n: nat)
    ensures
        all_digits(decimal(n)),
        decimal(n).len() > 0,
        digits_value(decimal(n)) == n,
    decreases n,
{
    lemma_digit_char(n % 10);
    if n < 10 {
        assert(decimal(n).drop_last() =~= Seq::<char>::empty());
        assert(decimal(n).last() == digit_char(n));
        assert(digits_value(Seq::<char>::empty()) == 0);
        assert(digits_value(decimal(n)) == digits_value(decimal(n).drop_last()) * 10
            + digit_value(decimal(n).last()));
    } else {
        lemma_decimal_digits(n / 10);
        let d = decimal(n);
        assert(d.drop_last() =~= decimal(n / 10));
        assert(d.last() == digit_char(n % 10));
        assert(digits_value(d) == digits_value(d.drop_last()) * 10 + digit_value(d.last()));
        assert(digits_value(d) == (n / 10) * 10 + n % 10);
        assert forall|i: int| 0 <= i < d.len() implies is_digit(#[trigger] d[i]) by {
            if i < d.len() - 1 {
                assert(d[i] == decimal(n / 10)[i]);
            }
        }
    }
}

/// Parsing the decimal rendering of a `u32` gives the number back.
pub proof fn lemma_parse_decimal_roundtrip(n: u32)
    ensures
        parse_u32_spec(decimal(n as nat)) == Some(n),
{
    lemma_decimal_digits(n as nat);
    let d = decimal(n as nat);
    assert(d[0] != '+') by {
        assert(is_digit(d[0]));
    }
}

/// Parses an unsigned decimal number as `str::parse::<u32>` does.
pub fn parse_u32(s: &str) -> (r: Option<u32>)
    ensures
        r == parse_u32_spec(s@),
{
    let v = chars_of(s);
    let start: usize = if v.len() > 0 && v[0] == '+' {
        1
    } else {
        0
    };
    let ghost digits = if s@.len() > 0 && s@[0] == '+' {
        s@.drop_first()
    } else {
        s@
    };
    assert(digits =~= v@.subrange(start as int, v@.len() as int));
    if start == v.len() {
        return None;
    }
    let mut acc: u64 = 0;
    let mut k = start;
    while k < v.len()
        invariant
            start <= k <= v.len(),
            v@ == s@,
            digits =~= v@.subrange(start as int, v@.len() as int),
            digits == (if s@.len() > 0 && s@[0] == '+' {
                s@.drop_first()
            } else {
                s@
            }),
            all_digits(v@.subrange(start as int, k as int)),
            acc == digits_value(v@.subrange(start as int, k as int)),
            acc <= u32::MAX,
        decreases v.len() - k,
    {
        let c = v[k];
        let ghost prefix = v@.subrange(start as int, k as int);
        let ghost next = v@.subrange(start as int, k + 1);
        assert(next.drop_last() =~= prefix);
        if !('0' <= c && c <= '9') {
            assert(!all_digits(digits)) by {
                assert(digits[k - start] == c);
            }
            return None;
        }
        let d: u64 = (c as u32 - 48) as u64;
        acc = acc * 10 + d;
        k = k + 1;
        assert(all_digits(next)) by {
            assert forall|i: int| 0 <= i < next.len() implies is_digit(#[trigger] next[i]) by {
                if i < prefix.len() {
                    assert(next[i] == prefix[i]);
                }
            }
        }
        if acc > 4294967295u64 {
            proof {
                if all_digits(digits) {
                    lemma_digits_value_prefix_monotone(digits, (k - start) as nat);
                    assert(digits.subrange(0, k - start) =~= next);
                }
            }
            return None;
        }
    }
    assert(v@.subrange(start as int, v@.len() as int) =~= digits);
    Some(acc as u32)
}

/// The value of all digits is at least the value of any prefix of them.
proof fn lemma_digits_value_prefix_monotone(s: Seq<char>, k: nat)
    requires
        k <= s.len(),
        all_digits(s),
    ensures
        digits_value(s.subrange(0, k as int)) <= digits_value(s),
    decreases s.len(),
{
    if k < s.len() {
        assert(s.drop_last() =~= s.subrange(0, s.len() - 1));
        assert(all_digits(s.drop_last())) by {
            assert forall|i: int| 0 <= i < s.drop_last().len() implies is_digit(
                #[trigger] s.drop_last()[i],
            ) by {
                assert(s.drop_last()[i] == s[i]);
            }
        }
        lemma_digits_value_prefix_monotone(s.drop_last(), k);
        assert(s.drop_last().subrange(0, k as int) =~= s.subrange(0, k as int));
    } else {
        assert(s.subrange(0, k as int) =~= s);
    }
}

// ---------------------------------------------------------------------------
// Whitespace
// ---------------------------------------------------------------------------

/// Whether `c` has the Unicode `White_Space` property (what
/// `char::is_whitespace` and `str::trim` test).
pub open spec fn is_white_space(c: char) -> bool {
    let n = c as u32;
    ||| 0x09 <= n <= 0x0d
    ||| n == 0x20
    ||| n == 0x85
    ||| n == 0xa0
    ||| n == 0x1680
    ||| 0x2000 <= n <= 0x200a
    ||| n == 0x2028
    ||| n == 0x2029
    ||| n == 0x202f
    ||| n == 0x205f
    ||| n == 0x3000
}

/// Tests the Unicode `White_Space` property.
pub fn white_space(c: char) -> (b: bool)
    ensures
        b == is_white_space(c),
{
    let n = c as u32;
    (0x09 <= n && n <= 0x0d) || n == 0x20 || n == 0x85 || n == 0xa0 || n == 0x1680 || (0x2000
        <= n && n <= 0x200a) || n == 0x2028 || n == 0x2029 || n == 0x202f || n == 0x205f || n
        == 0x3000
}

/// `s` without its leading whitespace.
pub open spec fn trim_start_spec(s: Seq<char>) -> Seq<char>
    decreases s.len(),
{
    if s.len() > 0 && is_white_space(s[0]) {
        trim_start_spec(s.drop_first())
    } else {
        s
    }
}

/// `s` without its trailing whitespace.
pub open spec fn trim_end_spec(s: Seq<char>) -> Seq<char>
    decreases s.len(),
{
    if s.len() > 0 && is_white_space(s.last()) {
        trim_end_spec(s.drop_last())
    } else {
        s
    }
}

/// `s` without leading and trailing whitespace (`str::trim`).
pub open spec fn trim_spec(s: Seq<char>) -> Seq<char> {
    trim_end_spec(trim_start_spec(s))
}

proof fn lemma_trim_start_no_leading(s: Seq<char>)
    ensures
        trim_start_spec(s).len() > 0 ==> !is_white_space(trim_start_spec(s)[0]),
    decreases s.len(),
{
    if s.len() > 0 && is_white_space(s[0]) {
        lemma_trim_start_no_leading(s.drop_first());
    }
}

proof fn lemma_trim_end_is_prefix(s: Seq<char>)
    ensures
        trim_end_spec(s).len() <= s.len(),
        trim_end_spec(s) =~= s.subrange(0, trim_end_spec(s).len() as int),
        trim_end_spec(s).len() > 0 ==> !is_white_space(trim_end_spec(s).last()),
    decreases s.len(),
{
    if s.len() > 0 && is_white_space(s.last()) {
        lemma_trim_end_is_prefix(s.drop_last());
        let t = trim_end_spec(s.drop_last());
        assert(s.drop_last().subrange(0, t.len() as int) =~= s.subrange(0, t.len() as int));
    }
}

proof fn lemma_trim_end_fixed(s: Seq<char>)
    requires
        s.len() > 0 ==> !is_white_space(s.last()),
    ensures
        trim_end_spec(s) == s,
{
}

proof fn lemma_trim_start_fixed(s: Seq<char>)
    requires
        s.len() > 0 ==> !is_white_space(s[0]),
    ensures
        trim_start_spec(s) == s,
{
}

/// Trimming twice is trimming once.
pub proof fn lemma_trim_idempotent(s: Seq<char>)
    ensures
        trim_spec(trim_spec(s)) == trim_spec(s),
{
    let a = trim_start_spec(s);
    let t = trim_end_spec(a);
    lemma_trim_start_no_leading(s);
    lemma_trim_end_is_prefix(a);
    if t.len() > 0 {
        assert(t[0] == a[0]);
    }
    lemma_trim_start_fixed(t);
    lemma_trim_end_fixed(t);
}

/// The trimmed text neither starts nor ends with whitespace.
pub proof fn lemma_trim_ends(s: Seq<char>)
    ensures
        trim_spec(s).len() > 0 ==> !is_white_space(trim_spec(s)[0]) && !is_white_space(
            trim_spec(s).last(),
        ),
{
    let a = trim_start_spec(s);
    lemma_trim_start_no_leading(s);
    lemma_trim_end_is_prefix(a);
    if trim_spec(s).len() > 0 {
        assert(trim_spec(s)[0] == a[0]);
    }
}

/// The characters that trimming removes are exactly the Unicode
/// `White_Space` code points, listed one by one: U+0009 to U+000D, U+0020,
/// U+0085, U+00A0, U+1680, U+2000 to U+200A, U+2028, U+2029, U+202F, U+205F
/// and U+3000. No other character, punctuation included, is whitespace.
pub proof fn lemma_white_space_code_points(c: char)
    ensures
        is_white_space(c) <==> {
            let n = c as u32;
            ||| n == 9 || n == 10 || n == 11 || n == 12 || n == 13
            ||| n == 32 || n == 133 || n == 160 || n == 5760
            ||| n == 8192 || n == 8193 || n == 8194 || n == 8195 || n == 8196 || n == 8197
            ||| n == 8198 || n == 8199 || n == 8200 || n == 8201 || n == 8202
            ||| n == 8232 || n == 8233 || n == 8239 || n == 8287 || n == 12288
        },
        ('!' <= c && c <= '~') ==> !is_white_space(c),
{
}

/// Removes leading and trailing whitespace, as `str::trim` does.
pub fn trim(s: &str) -> (r: String)
    ensures
        r@ == trim_spec(s@),
        exists|i: int, j: int|
            {
                &&& 0 <= i <= j <= s@.len()
                &&& r@ == s@.subrange(i, j)
                &&& forall|k: int| 0 <= k < i ==> is_white_space(#[trigger] s@[k])
                &&& forall|k: int| j <= k < s@.len() ==> is_white_space(#[trigger] s@[k])
                &&& i < j ==> !is_white_space(s@[i]) && !is_white_space(s@[j - 1])
            },
        s@.len() > 0 && !is_white_space(s@[0]) && !is_white_space(s@.last()) ==> r@ == s@,
        s@.len() > 0 && ('!' <= s@[0] && s@[0] <= '~') && ('!' <= s@.last() && s@.last() <= '~')
            ==> r@ == s@,
{
    let v = chars_of(s);
    let n = v.len();
    let mut i: usize = 0;
    assert(v@.subrange(0, n as int) =~= s@);
    while i < n && white_space(v[i])
        invariant
            i <= n == v.len(),
            v@ == s@,
            trim_start_spec(s@) == trim_start_spec(v@.subrange(i as int, n as int)),
            forall|k: int| 0 <= k < i ==> is_white_space(#[trigger] s@[k]),
        decreases n - i,
    {
        assert(v@.subrange(i as int, n as int).drop_first() =~= v@.subrange(i + 1, n as int));
        i = i + 1;
    }
    let ghost start = v@.subrange(i as int, n as int);
    assert(trim_start_spec(start) == start);
    let mut j: usize = n;
    while j > i && white_space(v[j - 1])
        invariant
            i <= j <= n == v.len(),
            v@ == s@,
            trim_end_spec(start) == trim_end_spec(v@.subrange(i as int, j as int)),
            forall|k: int| j <= k < n ==> is_white_space(#[trigger] s@[k]),
        decreases j,
    {
        assert(v@.subrange(i as int, j as int).drop_last() =~= v@.subrange(i as int, j - 1));
        j = j - 1;
    }
    proof {
        lemma_white_space_code_points(s@[0]);
        if n > 0 {
            lemma_white_space_code_points(s@[n - 1]);
        }
        if n > 0 && !is_white_space(s@[0]) && !is_white_space(s@[n - 1]) {
            assert(i == 0);
            assert(j == n);
            assert(s@.subrange(0, n as int) =~= s@);
        }
    }
    string_from_range(&v, i, j)
}

// ---------------------------------------------------------------------------
// Prefixes and substrings
// ---------------------------------------------------------------------------

/// Whether `p` occurs in `s` starting at position `i`.
pub open spec fn occurs_at(s: Seq<char>, p: Seq<char>, i: int) -> bool {
    0 <= i && i + p.len() <= s.len() && s.subrange(i, i + p.len()) == p
}

/// Whether `p` occurs anywhere in `s` (`str::contains`).
pub open spec fn contains_spec(s: Seq<char>, p: Seq<char>) -> bool {
    exists|i: int| occurs_at(s, p, i)
}

fn occurs_at_exec(s: &Vec<char>, p: &Vec<char>, i: usize) -> (r: bool)
    requires
        i + p.len() <= s.len(),
    ensures
        r == occurs_at(s@, p@, i as int),
{
    let mut k: usize = 0;
    while k < p.len()
        invariant
            k <= p.len(),
            i + p.len() <= s.len(),
            s@.subrange(i as int, i + k) =~= p@.subrange(0, k as int),
        decreases p.len() - k,
    {
        if s[i + k] != p[k] {
            assert(s@.subrange(i as int, i + p.len())[k as int] != p@[k as int]);
            return false;
        }
        k = k + 1;
        assert(s@.subrange(i as int, i + k) =~= p@.subrange(0, k as int));
    }
    assert(p@.subrange(0, p.len() as int) =~= p@);
    true
}

/// Whether `s` starts with `p` (`str::starts_with`).
pub fn starts_with(s: &str, p: &str) -> (r: bool)
    ensures
        r == p@.is_prefix_of(s@),
{
    let sv = chars_of(s);
    let pv = chars_of(p);
    if pv.len() > sv.len() {
        return false;
    }
    let r = occurs_at_exec(&sv, &pv, 0);
    assert(r == occurs_at(s@, p@, 0));
    assert(p@.is_prefix_of(s@) <==> s@.subrange(0, p@.len() as int) =~= p@);
    r
}

/// Whether `p` occurs in `s` (`str::contains`).
pub fn contains(s: &str, p: &str) -> (r: bool)
    ensures
        r == contains_spec(s@, p@),
{
    let sv = chars_of(s);
    let pv = chars_of(p);
    if pv.len() == 0 {
        assert(occurs_at(s@, p@, 0)) by {
            assert(s@.subrange(0, 0) =~= p@);
        }
        return true;
    }
    if pv.len() > sv.len() {
        return false;
    }
    let last = sv.len() - pv.len();
    let mut i: usize = 0;
    while i <= last
        invariant
            last + pv.len() == sv.len(),
            pv.len() > 0,
            sv@ == s@,
            pv@ == p@,
            forall|j: int| 0 <= j < i ==> !occurs_at(s@, p@, j),
        decreases last + 1 - i,
    {
        if occurs_at_exec(&sv, &pv, i) {
            return true;
        }
        i = i + 1;
    }
    assert forall|j: int| !occurs_at(s@, p@, j) by {
        if 0 <= j && j + p@.len() <= s@.len() {
            assert(j < i);
        }
    }
    false
}

/// `s` with every leading repetition of `p` removed
/// (`str::trim_start_matches` with a string pattern).
pub open spec fn strip_all_prefixes(s: Seq<char>, p: Seq<char>) -> Seq<char>
    decreases s.len(),
{
    if p.len() > 0 && p.is_prefix_of(s) {
        strip_all_prefixes(s.skip(p.len() as int), p)
    } else {
        s
    }
}

/// Removes every leading repetition of `p` from `s`, as
/// `str::trim_start_matches` does with a string pattern.
pub fn trim_start_matches(s: &str, p: &str) -> (r: String)
    ensures
        r@ == strip_all_prefixes(s@, p@),
{
    let sv = chars_of(s);
    let pv = chars_of(p);
    let n = sv.len();
    let mut i: usize = 0;
    assert(sv@.subrange(0, n as int) =~= s@);
    if pv.len() > 0 {
        while pv.len() <= n - i && occurs_at_exec(&sv, &pv, i)
            invariant
                i <= n == sv.len(),
                sv@ == s@,
                pv@ == p@,
                pv.len() > 0,
                strip_all_prefixes(s@, p@) == strip_all_prefixes(
                    sv@.subrange(i as int, n as int),
                    p@,
                ),
            decreases n - i,
        {
            let ghost rest = sv@.subrange(i as int, n as int);
            assert(p@.is_prefix_of(rest)) by {
                assert(rest.subrange(0, p@.len() as int) =~= sv@.subrange(
                    i as int,
                    i + p@.len(),
                ));
            }
            assert(rest.skip(p@.len() as int) =~= sv@.subrange(i + pv.len(), n as int));
            i = i + pv.len();
        }
        let ghost rest = sv@.subrange(i as int, n as int);
        assert(!p@.is_prefix_of(rest)) by {
            if p@.is_prefix_of(rest) {
                assert(rest.subrange(0, p@.len() as int) =~= sv@.subrange(
                    i as int,
                    i + p@.len(),
                ));
            }
        }
    }
    string_from_range(&sv, i, n)
}

/// Once stripped, the text no longer starts with the pattern.
pub proof fn lemma_strip_all_prefixes_done(s: Seq<char>, p: Seq<char>)
    requires
        p.len() > 0,
    ensures
        !p.is_prefix_of(strip_all_prefixes(s, p)),
        strip_all_prefixes(strip_all_prefixes(s, p), p) == strip_all_prefixes(s, p),
    decreases s.len(),
{
    if p.is_prefix_of(s) {
        lemma_strip_all_prefixes_done(s.skip(p.len() as int), p);
    }
}

} // verus!
