//! Files of a space: their records, how sizes and kinds are shown, and how
//! the outcome of an upload is read back from the browser.
use vstd::prelude::*;

use crate::documents::opt_text;
use crate::text::{
    append_str, decimal, digit, digit_char, i64_to_decimal, parse_u32, parse_u32_spec,
    push_char, signed_decimal, starts_with, str_equal, string_of, u64_to_decimal,
};

verus! {

/// A file stored in a space.
#[derive(Debug, Clone, PartialEq)]
pub struct FileItem {
    pub id: String,
    pub filename: String,
    pub original_name: String,
    pub file_size: i64,
    pub file_type: String,
    pub mime_type: String,
    pub url: String,
    pub thumbnail_url: Option<String>,
    pub space_id: Option<String>,
    pub document_id: Option<String>,
    pub uploaded_by: String,
    pub created_at: String,
}

/// A page of files.
#[derive(Debug, Clone, PartialEq)]
pub struct FileListResponse {
    pub files: Vec<FileItem>,
    pub total_count: i64,
}

// ---------------------------------------------------------------------------
// Sizes
// ---------------------------------------------------------------------------

/// `2^k`.
pub open spec fn two_pow(k: nat) -> nat
    decreases k,
{
    if k == 0 {
        1
    } else {
        2 * two_pow((k - 1) as nat)
    }
}

/// `n / d` rounded to the nearest integer, halves to the even one.
pub open spec fn round_half_even(n: nat, d: nat) -> nat {
    let q = n / d;
    let r = n % d;
    if 2 * r > d || (2 * r == d && q % 2 == 1) {
        q + 1
    } else {
        q
    }
}

/// How many low bits of `n` a 53-bit significand cannot hold.
pub open spec fn excess_bits(n: nat) -> nat
    decreases n,
{
    if n < 9007199254740992 {
        0
    } else {
        1 + excess_bits(n / 2)
    }
}

/// The value of `n as f64`: `n` rounded to the nearest number that a 53-bit
/// significand holds, halves to the even significand.
pub open spec fn as_f64(n: nat) -> nat {
    let p = two_pow(excess_bits(n));
    round_half_even(n, p) * p
}

/// A count of tenths written with one decimal: `12` is `1.2`.
pub open spec fn tenths(q: nat) -> Seq<char> {
    decimal(q / 10) + seq!['.', digit_char(q % 10)]
}

/// How a size in bytes is shown: whole bytes below 1 KiB, else KiB or MiB
/// with one decimal, rounded as `{:.1}` rounds the `f64` quotient.
pub open spec fn format_size_spec(bytes: int) -> Seq<char> {
    if bytes < 1024 {
        signed_decimal(bytes) + " B"@
    } else if bytes < 1048576 {
        tenths(round_half_even((bytes * 10) as nat, 1024)) + " KB"@
    } else {
        tenths(round_half_even(as_f64(bytes as nat) * 10, 1048576)) + " MB"@
    }
}

fn round_half_even_exec(n: u128, d: u128) -> (r: u128)
    requires
        0 < d < 0x1_0000_0000,
        n < 0x1_0000_0000_0000_0000_0000_0000,
    ensures
        r == round_half_even(n as nat, d as nat),
        r <= n / d + 1,
{
    let q = n / d;
    let r = n % d;
    if 2 * r > d || (2 * r == d && q % 2 == 1) {
        q + 1
    } else {
        q
    }
}

/// The value of `n as f64`, computed on integers.
fn as_f64_exec(n: u64) -> (x: u128)
    requires
        n < 0x8000_0000_0000_0000,
    ensures
        x == as_f64(n as nat),
        x <= 0x8000_0000_0000_0800,
{
    let mut m: u64 = n;
    let mut p: u64 = 1;
    let ghost mut k: nat = 0;
    assert(n / 1 == n);
    while m >= 9007199254740992
        invariant
            n < 0x8000_0000_0000_0000,
            p == two_pow(k),
            1 <= p <= 2048,
            m == (n as int) / (p as int),
            excess_bits(n as nat) == k + excess_bits(m as nat),
        decreases m,
    {
        proof {
            vstd::arithmetic::div_mod::lemma_div_denominator(n as int, p as int, 2);
            assert(p * 9007199254740992 <= n) by (nonlinear_arith)
                requires
                    m == (n as int) / (p as int),
                    m >= 9007199254740992,
                    p >= 1,
            {
                vstd::arithmetic::div_mod::lemma_fundamental_div_mod(n as int, p as int);
            }
            assert(p <= 1023);
        }
        m = m / 2;
        p = p * 2;
        proof {
            k = k + 1;
        }
    }
    let q = round_half_even_exec(n as u128, p as u128);
    assert((n as int) / (p as int) * p <= n) by {
        vstd::arithmetic::div_mod::lemma_fundamental_div_mod(n as int, p as int);
    }
    assert(q * p <= 0x8000_0000_0000_0800) by (nonlinear_arith)
        requires
            q <= (n as int) / (p as int) + 1,
            (n as int) / (p as int) * p <= n,
            n < 0x8000_0000_0000_0000,
            1 <= p <= 2048,
    {
    }

    q * (p as u128)
}

/// Shows a size in bytes as the file pages do: `512 B`, `1.5 KB`, `2.0 MB`.
pub fn format_size(bytes: i64) -> (s: String)
    ensures
        s@ == format_size_spec(bytes as int),
{
    if bytes < 1024 {
        let mut s = i64_to_decimal(bytes);
        append_str(&mut s, " B");
        s
    } else if bytes < 1048576 {
        let q = round_half_even_exec((bytes as u128) * 10, 1024);
        let mut s = tenths_exec(q as u64);
        append_str(&mut s, " KB");
        s
    } else {
        let x = as_f64_exec(bytes as u64);
        let q = round_half_even_exec(x * 10, 1048576);
        assert(q <= 0x1000_0000_0000_0000) by (nonlinear_arith)
            requires
                q <= (x * 10) / 1048576 + 1,
                x <= 0x8000_0000_0000_0800,
        ;
        let mut s = tenths_exec(q as u64);
        append_str(&mut s, " MB");
        s
    }
}

fn tenths_exec(q: u64) -> (s: String)
    ensures
        s@ == tenths(q as nat),
{
    let mut s = u64_to_decimal(q / 10);
    push_char(&mut s, '.');
    push_char(&mut s, digit(q % 10));
    assert(s@ =~= tenths(q as nat));
    s
}

// ---------------------------------------------------------------------------
// Kinds
// ---------------------------------------------------------------------------

/// The icon shown for a file of the given kind.
pub open spec fn file_icon_spec(file_type: Seq<char>) -> Seq<char> {
    if file_type == "pdf"@ {
        "📄"@
    } else if file_type == "video"@ {
        "🎬"@
    } else if file_type == "audio"@ {
        "🎵"@
    } else if file_type == "archive"@ {
        "📦"@
    } else if file_type == "spreadsheet"@ {
        "📊"@
    } else if file_type == "doc"@ || file_type == "docx"@ {
        "📝"@
    } else {
        "📎"@
    }
}

/// The icon shown for a file of the given kind.
pub fn file_icon(file_type: &str) -> (r: &'static str)
    ensures
        r@ == file_icon_spec(file_type@),
{
    if str_equal(file_type, "pdf") {
        "📄"
    } else if str_equal(file_type, "video") {
        "🎬"
    } else if str_equal(file_type, "audio") {
        "🎵"
    } else if str_equal(file_type, "archive") {
        "📦"
    } else if str_equal(file_type, "spreadsheet") {
        "📊"
    } else if str_equal(file_type, "doc") || str_equal(file_type, "docx") {
        "📝"
    } else {
        "📎"
    }
}

/// Whether a file is shown among the pictures.
pub open spec fn is_image(f: FileItem) -> bool {
    f.file_type@ == "image"@
}

/// The positions, in order, of the files of `files[..n]` that are pictures
/// (`images == true`) or that are not (`images == false`).
pub open spec fn positions_of_kind(files: Seq<FileItem>, n: nat, images: bool) -> Seq<usize>
    decreases n,
{
    if n == 0 {
        Seq::empty()
    } else {
        let before = positions_of_kind(files, (n - 1) as nat, images);
        if is_image(files[n - 1]) == images {
            before.push((n - 1) as usize)
        } else {
            before
        }
    }
}

/// Splits the files of a page into pictures and other files, giving the
/// positions of each in order.
pub fn split_by_kind(files: &Vec<FileItem>) -> (r: (Vec<usize>, Vec<usize>))
    ensures
        r.0@ == positions_of_kind(files@, files.len() as nat, true),
        r.1@ == positions_of_kind(files@, files.len() as nat, false),
{
    let mut images: Vec<usize> = Vec::new();
    let mut others: Vec<usize> = Vec::new();
    let mut k: usize = 0;
    while k < files.len()
        invariant
            k <= files.len(),
            images@ == positions_of_kind(files@, k as nat, true),
            others@ == positions_of_kind(files@, k as nat, false),
        decreases files.len() - k,
    {
        if str_equal(files[k].file_type.as_str(), "image") {
            images.push(k);
        } else {
            others.push(k);
        }
        k = k + 1;
    }
    (images, others)
}

/// The sum of the sizes of `files[..n]`.
pub open spec fn size_sum(files: Seq<FileItem>, n: nat) -> int
    decreases n,
{
    if n == 0 {
        0
    } else {
        size_sum(files, (n - 1) as nat) + files[n - 1].file_size
    }
}

/// Whether adding up the sizes, one after the other, stays within `i64`.
pub open spec fn sizes_add_up(files: Seq<FileItem>) -> bool {
    forall|n: nat| n <= files.len() ==> i64::MIN <= #[trigger] size_sum(files, n) <= i64::MAX
}

/// The total size of the files of a page.
pub fn total_size(files: &Vec<FileItem>) -> (t: i64)
    requires
        sizes_add_up(files@),
    ensures
        t == size_sum(files@, files.len() as nat),
{
    let mut t: i64 = 0;
    let mut k: usize = 0;
    while k < files.len()
        invariant
            k <= files.len(),
            sizes_add_up(files@),
            t == size_sum(files@, k as nat),
        decreases files.len() - k,
    {
        assert(i64::MIN <= size_sum(files@, (k + 1) as nat) <= i64::MAX);
        t = t + files[k].file_size;
        k = k + 1;
    }
    t
}

// ---------------------------------------------------------------------------
// Uploads
// ---------------------------------------------------------------------------

/// The position of the first `c` in `s`, if any.
pub open spec fn first_index_of(s: Seq<char>, c: char) -> Option<nat>
    decreases s.len(),
{
    if s.len() == 0 {
        None
    } else if s[0] == c {
        Some(0)
    } else {
        match first_index_of(s.drop_first(), c) {
            Some(i) => Some(i + 1),
            None => None,
        }
    }
}

/// The counts of uploaded and failed files in the browser's report
/// `done:<ok>:<fail>`; a count that does not read as a number counts as zero.
/// Any other report (a cancelled upload) gives nothing.
pub open spec fn upload_outcome_spec(msg: Seq<char>) -> Option<(u32, u32)> {
    if !("done:"@.is_prefix_of(msg)) {
        None
    } else {
        let rest = msg.skip(5);
        let (ok_part, fail_part) = match first_index_of(rest, ':') {
            Some(i) => (rest.take(i as int), Some(rest.skip(i + 1int))),
            None => (rest, None::<Seq<char>>),
        };
        let ok = match parse_u32_spec(ok_part) {
            Some(n) => n,
            None => 0,
        };
        let fail = match fail_part {
            Some(f) => match parse_u32_spec(f) {
                Some(n) => n,
                None => 0,
            },
            None => 0,
        };
        Some((ok, fail))
    }
}

fn first_colon(v: &Vec<char>, from: usize) -> (r: Option<usize>)
    requires
        from <= v.len(),
    ensures
        match first_index_of(v@.subrange(from as int, v.len() as int), ':') {
            Some(i) => r is Some && r->0 == from + i,
            None => r is None,
        },
        r matches Some(j) ==> from <= j < v.len(),
{
    let mut k: usize = from;
    assert(v@.subrange(from as int, v.len() as int) =~= v@.subrange(k as int, v.len() as int));
    while k < v.len() && v[k] != ':'
        invariant
            from <= k <= v.len(),
            first_index_of(v@.subrange(from as int, v.len() as int), ':') == match first_index_of(
                v@.subrange(k as int, v.len() as int),
                ':',
            ) {
                Some(i) => Some(i + (k - from) as nat),
                None => None,
            },
        decreases v.len() - k,
    {
        let ghost here = v@.subrange(k as int, v.len() as int);
        assert(here.drop_first() =~= v@.subrange(k + 1, v.len() as int));
        k = k + 1;
    }
    if k < v.len() {
        let ghost here = v@.subrange(k as int, v.len() as int);
        assert(here[0] == ':');
        Some(k)
    } else {
        assert(v@.subrange(k as int, v.len() as int) =~= Seq::<char>::empty());
        None
    }
}

/// Reads the browser's report of an upload.
pub fn upload_outcome(msg: &str) -> (r: Option<(u32, u32)>)
    ensures
        r == upload_outcome_spec(msg@),
{
    if !starts_with(msg, "done:") {
        return None;
    }
    proof {
        reveal_strlit("done:");
    }
    let v = crate::text::chars_of(msg);
    let n = v.len();
    let ghost rest = msg@.skip(5);
    assert(v@.subrange(5, n as int) =~= rest);
    let colon = first_colon(&v, 5);
    let ghost parts = match first_index_of(rest, ':') {
        Some(i) => (rest.take(i as int), Some(rest.skip(i + 1int))),
        None => (rest, None::<Seq<char>>),
    };
    let (ok_text, fail_text) = match colon {
        Some(i) => {
            assert(v@.subrange(5, i as int) =~= rest.take(i - 5));
            assert(v@.subrange(i + 1, n as int) =~= rest.skip(i - 5 + 1));
            (
                crate::text::string_from_range(&v, 5, i),
                Some(crate::text::string_from_range(&v, i + 1, n)),
            )
        },
        None => (crate::text::string_from_range(&v, 5, n), None),
    };
    let ok = match parse_u32(ok_text.as_str()) {
        Some(x) => x,
        None => 0,
    };
    let fail = match &fail_text {
        Some(f) => match parse_u32(f.as_str()) {
            Some(x) => x,
            None => 0,
        },
        None => 0,
    };
    assert(ok_text@ == parts.0);
    assert(opt_text(fail_text) == parts.1);
    Some((ok, fail))
}

/// The note shown after an upload.
pub open spec fn upload_summary_spec(ok: u32, fail: u32) -> Seq<char> {
    if fail == 0 {
        "✅ 成功上传 "@ + decimal(ok as nat) + " 个文件"@
    } else {
        "上传完成："@ + decimal(ok as nat) + " 成功，"@ + decimal(fail as nat) + " 失败"@
    }
}

/// Any failure is reported with both counts; the success note is shown
/// only when no file failed, whatever the number uploaded (none included).
pub proof fn lemma_upload_summary_reports_failures(ok: u32, fail: u32)
    ensures
        fail > 0 ==> upload_summary_spec(ok, fail) == "上传完成："@ + decimal(ok as nat) + " 成功，"@
            + decimal(fail as nat) + " 失败"@,
        fail == 0 ==> upload_summary_spec(ok, fail) == "✅ 成功上传 "@ + decimal(ok as nat)
            + " 个文件"@,
        fail > 0 ==> upload_summary_spec(ok, fail) != upload_summary_spec(ok, 0),
{
    reveal_strlit("上传完成：");
    reveal_strlit("✅ 成功上传 ");
    if fail > 0 {
        let a = upload_summary_spec(ok, fail);
        let b = upload_summary_spec(ok, 0);
        assert(a[0] != b[0]);
    }
}

/// The note shown after an upload.
pub fn upload_summary(ok: u32, fail: u32) -> (s: String)
    ensures
        s@ == upload_summary_spec(ok, fail),
        fail > 0 ==> s@ == "上传完成："@ + decimal(ok as nat) + " 成功，"@ + decimal(fail as nat)
            + " 失败"@,
        fail == 0 ==> s@ == "✅ 成功上传 "@ + decimal(ok as nat) + " 个文件"@,
{
    if fail == 0 {
        let mut s = string_of("✅ 成功上传 ");
        append_str(&mut s, u64_to_decimal(ok as u64).as_str());
        append_str(&mut s, " 个文件");
        s
    } else {
        let mut s = string_of("上传完成：");
        append_str(&mut s, u64_to_decimal(ok as u64).as_str());
        append_str(&mut s, " 成功，");
        append_str(&mut s, u64_to_decimal(fail as u64).as_str());
        append_str(&mut s, " 失败");
        s
    }
}

} // verus!

verus! {

proof fn lemma_first_index_after(a: Seq<char>, b: Seq<char>, c: char)
    requires
        forall|i: int| 0 <= i < a.len() ==> a[i] != c,
    ensures
        first_index_of(a + seq![c] + b, c) == Some(a.len()),
    decreases a.len(),
{
    let s = a + seq![c] + b;
    if a.len() == 0 {
        assert(s[0] == c);
    } else {
        assert(s[0] == a[0]);
        assert(s.drop_first() =~= a.drop_first() + seq![c] + b);
        lemma_first_index_after(a.drop_first(), b, c);
    }
}

/// The report that the upload script sends, `done:<ok>:<fail>`, reads back
/// as the two counts it was written from.
pub proof fn lemma_upload_report_roundtrip(ok: u32, fail: u32)
    ensures
        upload_outcome_spec("done:"@ + decimal(ok as nat) + ":"@ + decimal(fail as nat)) == Some(
            (ok, fail),
        ),
{
    reveal_strlit("done:");
    reveal_strlit(":");
    let a = decimal(ok as nat);
    let b = decimal(fail as nat);
    let msg = "done:"@ + a + ":"@ + b;
    crate::text::lemma_decimal_digits(ok as nat);
    crate::text::lemma_decimal_digits(fail as nat);
    crate::text::lemma_parse_decimal_roundtrip(ok);
    crate::text::lemma_parse_decimal_roundtrip(fail);
    assert("done:"@.is_prefix_of(msg)) by {
        assert(msg.subrange(0, 5) =~= "done:"@);
    }
    let rest = msg.skip(5);
    assert(rest =~= a + seq![':'] + b);
    assert forall|i: int| 0 <= i < a.len() implies a[i] != ':' by {
        assert(crate::text::is_digit(a[i]));
    }
    lemma_first_index_after(a, b, ':');
    assert(rest.take(a.len() as int) =~= a);
    assert(rest.skip(a.len() + 1int) =~= b);
}

} // verus!
