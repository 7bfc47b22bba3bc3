//! Verified text utilities used by the engine: whitespace trimming, first-line
//! extraction, substring search, decimal parsing and formatting, and the
//! bounded truncation applied to every failure reason before it is surfaced.

use vstd::prelude::*;
use vstd::string::*;

verus! {

/// The whitespace characters recognised when trimming command output.
pub open spec fn is_space_char(c: char) -> bool {
    c == ' ' || c == '\t' || c == '\r' || c == '\n'
}

/// `s` with leading whitespace removed.
pub open spec fn trim_front(s: Seq<char>) -> Seq<char>
    decreases s.len(),
{
    if s.len() > 0 && is_space_char(s[0]) {
        trim_front(s.drop_first())
    } else {
        s
    }
}

/// `s` with trailing whitespace removed.
pub open spec fn trim_back(s: Seq<char>) -> Seq<char>
    decreases s.len(),
{
    if s.len() > 0 && is_space_char(s[s.len() - 1]) {
        trim_back(s.drop_last())
    } else {
        s
    }
}

/// `s` with whitespace removed from both ends.
pub open spec fn trim_chars(s: Seq<char>) -> Seq<char> {
    trim_back(trim_front(s))
}

/// The prefix of `s` up to (excluding) the first line feed.
pub open spec fn line_prefix(s: Seq<char>) -> Seq<char>
    decreases s.len(),
{
    if s.len() == 0 {
        s
    } else if s[0] == '\n' {
        Seq::empty()
    } else {
        seq![s[0]] + line_prefix(s.drop_first())
    }
}

/// Drops one trailing carriage return, as line iteration does.
pub open spec fn strip_cr(s: Seq<char>) -> Seq<char> {
    if s.len() > 0 && s[s.len() - 1] == '\r' {
        s.drop_last()
    } else {
        s
    }
}

/// The first line of `s`: up to the first line feed, without a trailing
/// carriage return.
pub open spec fn first_line(s: Seq<char>) -> Seq<char> {
    strip_cr(line_prefix(s))
}

/// A failure reason reduced for display: trimmed, first line only, and cut to
/// at most 30 characters (27 plus an ellipsis) — always a single bounded line.
pub open spec fn truncate_reason(s: Seq<char>) -> Seq<char> {
    let c = first_line(trim_chars(s));
    if c.len() > 30 {
        c.subrange(0, 27) + "..."@
    } else {
        c
    }
}

/// Whether `n` occurs contiguously inside `h`.
pub open spec fn has_substring(h: Seq<char>, n: Seq<char>) -> bool {
    exists|i: int| 0 <= i <= h.len() - n.len() && #[trigger] h.subrange(i, i + n.len()) == n
}

/// Whether `c` is a decimal digit.
pub open spec fn is_digit(c: char) -> bool {
    '0' <= c && c <= '9'
}

/// The numeric value of a digit character.
pub open spec fn digit_val(c: char) -> int {
    c as int - '0' as int
}

/// Whether every character of `s` is a decimal digit.
pub open spec fn all_digits(s: Seq<char>) -> bool {
    forall|i: int| 0 <= i < s.len() ==> is_digit(#[trigger] s[i])
}

/// The value of a digit string read as a decimal number.
pub open spec fn dec_val(s: Seq<char>) -> int
    decreases s.len(),
{
    if s.len() == 0 {
        0
    } else {
        dec_val(s.drop_last()) * 10 + digit_val(s.last())
    }
}

/// The digit character for a value below ten.
pub open spec fn digit_char(d: int) -> char {
    if d == 0 { '0' }
    else if d == 1 { '1' }
    else if d == 2 { '2' }
    else if d == 3 { '3' }
    else if d == 4 { '4' }
    else if d == 5 { '5' }
    else if d == 6 { '6' }
    else if d == 7 { '7' }
    else if d == 8 { '8' }
    else { '9' }
}

/// The decimal rendering of `n`, most significant digit first.
pub open spec fn dec_str(n: nat) -> Seq<char>
    decreases n,
{
    if n < 10 {
        seq![digit_char(n as int)]
    } else {
        dec_str(n / 10) + seq![digit_char((n % 10) as int)]
    }
}

/// Relies on the documented behavior of `String::push`: appends exactly the
/// one character.
pub assume_specification[ String::push ](s: &mut String, c: char)
    ensures
        final(s)@ == old(s)@.push(c),
;

/// Relies on the documented behavior of `String::pop`: removes and returns
/// the last character, or does nothing on an empty string.
pub assume_specification[ String::pop ](s: &mut String) -> (r: Option<char>)
    ensures
        old(s)@.len() == 0 ==> r is None && final(s)@ == old(s)@,
        old(s)@.len() > 0 ==> r == Some(old(s)@.last()) && final(s)@ == old(s)@.drop_last(),
;

fn is_space(c: char) -> (r: bool)
    ensures
        r == is_space_char(c),
{
    c == ' ' || c == '\t' || c == '\r' || c == '\n'
}

proof fn lemma_trim_front_at(s: Seq<char>, a: int)
    requires
        0 <= a <= s.len(),
        forall|i: int| 0 <= i < a ==> is_space_char(#[trigger] s[i]),
        a == s.len() || !is_space_char(s[a]),
    ensures
        trim_front(s) == s.subrange(a, s.len() as int),
    decreases a,
{
    if a == 0 {
        assert(trim_front(s) =~= s.subrange(0, s.len() as int));
    } else {
        assert(is_space_char(s[0]));
        lemma_trim_front_at(s.drop_first(), a - 1);
        assert(s.drop_first().subrange(a - 1, s.drop_first().len() as int)
            =~= s.subrange(a, s.len() as int));
    }
}

proof fn lemma_trim_back_at(s: Seq<char>, b: int)
    requires
        0 <= b <= s.len(),
        forall|i: int| b <= i < s.len() ==> is_space_char(#[trigger] s[i]),
        b == 0 || !is_space_char(s[b - 1]),
    ensures
        trim_back(s) == s.subrange(0, b),
    decreases s.len(),
{
    if b == s.len() {
        assert(trim_back(s) =~= s.subrange(0, b));
    } else {
        assert(is_space_char(s[s.len() - 1]));
        lemma_trim_back_at(s.drop_last(), b);
        assert(s.drop_last().subrange(0, b) =~= s.subrange(0, b));
    }
}

proof fn lemma_line_prefix_at(s: Seq<char>, k: int)
    requires
        0 <= k <= s.len(),
        forall|i: int| 0 <= i < k ==> #[trigger] s[i] != '\n',
        k == s.len() || s[k] == '\n',
    ensures
        line_prefix(s) == s.subrange(0, k),
    decreases k,
{
    if k == 0 {
        assert(line_prefix(s) =~= s.subrange(0, 0));
    } else {
        assert(s[0] != '\n');
        lemma_line_prefix_at(s.drop_first(), k - 1);
        assert(line_prefix(s) =~= s.subrange(0, k));
    }
}

/// Returns `s` with leading and trailing whitespace removed.
pub fn trim_str(s: &str) -> (r: String)
    ensures
        r@ == trim_chars(s@),
{
    let n = s.unicode_len();
    let mut a: usize = 0;
    while a < n && is_space(s.get_char(a))
        invariant
            0 <= a <= n == s@.len(),
            forall|i: int| 0 <= i < a ==> is_space_char(#[trigger] s@[i]),
        decreases n - a,
    {
        a = a + 1;
    }
    let mut b: usize = n;
    while b > a && is_space(s.get_char(b - 1))
        invariant
            a <= b <= n == s@.len(),
            forall|i: int| b <= i < n ==> is_space_char(#[trigger] s@[i]),
        decreases b,
    {
        b = b - 1;
    }
    proof {
        lemma_trim_front_at(s@, a as int);
        let t = s@.subrange(a as int, s@.len() as int);
        lemma_trim_back_at(t, b - a);
        assert(t.subrange(0, b - a) =~= s@.subrange(a as int, b as int));
    }
    s.substring_char(a, b).to_owned()
}

/// Returns the first line of `s`.
pub fn first_line_str(s: &str) -> (r: String)
    ensures
        r@ == first_line(s@),
{
    let n = s.unicode_len();
    let mut k: usize = 0;
    while k < n && s.get_char(k) != '\n'
        invariant
            0 <= k <= n == s@.len(),
            forall|i: int| 0 <= i < k ==> #[trigger] s@[i] != '\n',
        decreases n - k,
    {
        k = k + 1;
    }
    proof {
        lemma_line_prefix_at(s@, k as int);
    }
    let end = if k > 0 && s.get_char(k - 1) == '\r' {
        k - 1
    } else {
        k
    };
    proof {
        let p = s@.subrange(0, k as int);
        assert(strip_cr(p) =~= s@.subrange(0, end as int));
    }
    s.substring_char(0, end).to_owned()
}

/// Truncates a raw error message for display: the first line of the trimmed
/// text, cut to a bounded length.
pub fn truncate_error(err: &str) -> (r: String)
    ensures
        r@ == truncate_reason(err@),
{
    let trimmed = trim_str(err);
    let cleaned = first_line_str(trimmed.as_str());
    if cleaned.as_str().unicode_len() > 30 {
        let head = cleaned.as_str().substring_char(0, 27).to_owned();
        head.concat("...")
    } else {
        cleaned
    }
}

/// Whether `needle` occurs contiguously inside `hay`.
pub fn str_contains(hay: &str, needle: &str) -> (r: bool)
    ensures
        r == has_substring(hay@, needle@),
{
    let h = hay.unicode_len();
    let n = needle.unicode_len();
    if n > h {
        assert(!has_substring(hay@, needle@));
        return false;
    }
    if n == 0 {
        proof {
            assert(hay@.subrange(0, 0 + needle@.len() as int) =~= needle@);
        }
        return true;
    }
    let mut i: usize = 0;
    while i <= h - n
        invariant
            0 <= i <= h - n + 1,
            1 <= n <= h,
            h == hay@.len(),
            n == needle@.len(),
            forall|x: int| 0 <= x < i ==>
                #[trigger] hay@.subrange(x, x + needle@.len() as int) != needle@,
        decreases h - i,
    {
        let mut j: usize = 0;
        let mut matched = true;
        while j < n
            invariant
                0 <= j <= n,
                i + n <= h,
                h == hay@.len(),
                n == needle@.len(),
                matched ==> forall|y: int| 0 <= y < j ==>
                    hay@[i + y] == #[trigger] needle@[y],
                !matched ==> hay@.subrange(i as int, i + needle@.len() as int) != needle@,
            decreases n - j,
        {
            if hay.get_char(i + j) != needle.get_char(j) {
                proof {
                    let sub = hay@.subrange(i as int, i + needle@.len() as int);
                    assert(sub[j as int] == hay@[i + j]);
                }
                matched = false;
                j = n;
            } else {
                j = j + 1;
            }
        }
        if matched {
            proof {
                let sub = hay@.subrange(i as int, i + needle@.len() as int);
                assert(sub =~= needle@);
            }
            return true;
        }
        i = i + 1;
    }
    false
}

proof fn lemma_dec_val_nonneg(s: Seq<char>)
    requires
        all_digits(s),
    ensures
        dec_val(s) >= 0,
    decreases s.len(),
{
    if s.len() > 0 {
        assert(all_digits(s.drop_last()));
        lemma_dec_val_nonneg(s.drop_last());
    }
}

proof fn lemma_dec_val_prefix_grows(s: Seq<char>, i: int)
    requires
        all_digits(s),
        0 <= i <= s.len(),
        dec_val(s.subrange(0, i)) > u32::MAX,
    ensures
        dec_val(s) > u32::MAX,
    decreases s.len() - i,
{
    if i < s.len() {
        let p = s.subrange(0, i);
        let q = s.subrange(0, i + 1);
        assert(q.drop_last() =~= p);
        assert(all_digits(p));
        lemma_dec_val_nonneg(p);
        assert(dec_val(q) == dec_val(p) * 10 + digit_val(q.last()));
        assert(dec_val(p) * 10 >= dec_val(p)) by (nonlinear_arith)
            requires dec_val(p) >= 0;
        lemma_dec_val_prefix_grows(s, i + 1);
    } else {
        assert(s.subrange(0, i) =~= s);
    }
}

/// The value of a non-empty, all-digit string that fits in 32 bits; `None`
/// otherwise.
pub open spec fn parse_u32_spec(s: Seq<char>) -> Option<u32> {
    if s.len() > 0 && all_digits(s) && dec_val(s) <= u32::MAX {
        Some(dec_val(s) as u32)
    } else {
        None
    }
}

/// Parses a non-empty string of decimal digits as a 32-bit number. Returns
/// `None` on an empty string, a non-digit character, or overflow.
pub fn parse_u32(s: &str) -> (r: Option<u32>)
    ensures
        r == parse_u32_spec(s@),
{
    let n = s.unicode_len();
    if n == 0 {
        return None;
    }
    let mut acc: u64 = 0;
    let mut k: usize = 0;
    while k < n
        invariant
            0 <= k <= n == s@.len(),
            n > 0,
            all_digits(s@.subrange(0, k as int)),
            acc == dec_val(s@.subrange(0, k as int)),
            acc <= u32::MAX,
        decreases n - k,
    {
        let c = s.get_char(k);
        if !(c >= '0' && c <= '9') {
            assert(!is_digit(s@[k as int]));
            return None;
        }
        let d: u64 = (c as u32 as u64) - ('0' as u32 as u64);
        proof {
            assert(c as u32 >= '0' as u32 && c as u32 <= '9' as u32);
        }
        let next: u64 = acc * 10 + d;
        proof {
            let q = s@.subrange(0, k + 1);
            assert(q.drop_last() =~= s@.subrange(0, k as int));
            assert(dec_val(q) == acc * 10 + digit_val(s@[k as int]));
        }
        if next > 0xffff_ffff {
            proof {
                if all_digits(s@) {
                    lemma_dec_val_prefix_grows(s@, k + 1);
                }
            }
            return None;
        }
        acc = next;
        k = k + 1;
    }
    proof {
        assert(s@.subrange(0, n as int) =~= s@);
    }
    Some(acc as u32)
}

fn digit_str(d: u64) -> (r: &'static str)
    requires
        d < 10,
    ensures
        r@ =~= seq![digit_char(d as int)],
{
    proof {
        reveal_strlit("0");
        reveal_strlit("1");
        reveal_strlit("2");
        reveal_strlit("3");
        reveal_strlit("4");
        reveal_strlit("5");
        reveal_strlit("6");
        reveal_strlit("7");
        reveal_strlit("8");
        reveal_strlit("9");
    }
    if d == 0 { "0" }
    else if d == 1 { "1" }
    else if d == 2 { "2" }
    else if d == 3 { "3" }
    else if d == 4 { "4" }
    else if d == 5 { "5" }
    else if d == 6 { "6" }
    else if d == 7 { "7" }
    else if d == 8 { "8" }
    else { "9" }
}

/// Renders `n` in decimal, most significant digit first.
pub fn u64_to_string(n: u64) -> (r: String)
    ensures
        r@ == dec_str(n as nat),
    decreases n,
{
    if n < 10 {
        digit_str(n).to_owned()
    } else {
        let mut s = u64_to_string(n / 10);
        s.append(digit_str(n % 10));
        proof {
            assert(s@ =~= dec_str(n as nat));
        }
        s
    }
}

} // verus!
