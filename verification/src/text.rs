//! Character-sequence helpers shared by every module that builds or
//! inspects text.

use vstd::prelude::*;

verus! {

/// Appends one character to a `String` (`String::push`).
#[verifier::external_body]
pub(crate) fn push_char(s: &mut String, c: char)
    ensures
        final(s)@ == old(s)@.push(c),
{
    s.push(c);
}

/// Appends a string slice to a `String` (`String::push_str`).
#[verifier::external_body]
pub(crate) fn push_str(s: &mut String, t: &str)
    ensures
        final(s)@ == old(s)@ + t@,
{
    s.push_str(t);
}

/// `String::from_utf8`: the text the bytes encode, `None` when they are not
/// valid UTF-8.
#[verifier::external_body]
pub(crate) fn utf8_string(bytes: Vec<u8>) -> (r: Option<String>)
    ensures
        r is Some <==> vstd::utf8::valid_utf8(bytes@),
        r matches Some(s) ==> s@ == vstd::utf8::decode_utf8(bytes@),
{
    String::from_utf8(bytes).ok()
}

/// Every character is ASCII.
pub open spec fn all_ascii(s: Seq<char>) -> bool {
    forall|i: int| 0 <= i < s.len() ==> (#[trigger] s[i] as u32) < 128
}

/// The ASCII lower-case form: `A` to `Z` become `a` to `z`, every other
/// character stays.
pub open spec fn ascii_lower(s: Seq<char>) -> Seq<char> {
    s.map_values(|c: char| if 65 <= (c as u32) <= 90 { ((c as u32) + 32) as char } else { c })
}

/// The ASCII upper-case form: `a` to `z` become `A` to `Z`, every other
/// character stays.
pub open spec fn ascii_upper(s: Seq<char>) -> Seq<char> {
    s.map_values(|c: char| if 97 <= (c as u32) <= 122 { ((c as u32) - 32) as char } else { c })
}

/// The characters of a string slice, in order.
pub fn chars_of(s: &str) -> (v: Vec<char>)
    ensures
        v@ == s@,
{
    let mut v: Vec<char> = Vec::new();
    for c in it: s.chars()
        invariant
            v@ == it.seq().take(it.index() as int),
            it.seq() == s@,
    {
        v.push(c);
    }
    v
}

/// A `String` holding exactly the given characters.
pub fn string_of(v: &Vec<char>) -> (s: String)
    ensures
        s@ == v@,
{
    let mut s = String::new();
    let mut i: usize = 0;
    while i < v.len()
        invariant
            i <= v.len(),
            s@ == v@.take(i as int),
        decreases v.len() - i,
    {
        push_char(&mut s, v[i]);
        assert(v@.take(i as int).push(v@[i as int]) =~= v@.take(i + 1));
        i += 1;
    }
    assert(v@.take(v.len() as int) =~= v@);
    s
}

/// `char::is_whitespace`: the Unicode `White_Space` property.
pub open spec fn is_ws(c: char) -> bool {
    ||| ('\t' <= c && c <= '\r')
    ||| c == ' '
    ||| c == '\u{85}'
    ||| c == '\u{a0}'
    ||| c == '\u{1680}'
    ||| ('\u{2000}' <= c && c <= '\u{200a}')
    ||| c == '\u{2028}'
    ||| c == '\u{2029}'
    ||| c == '\u{202f}'
    ||| c == '\u{205f}'
    ||| c == '\u{3000}'
}

pub fn is_whitespace_char(c: char) -> (b: bool)
    ensures
        b == is_ws(c),
{
    ('\t' <= c && c <= '\r') || c == ' ' || c == '\u{85}' || c == '\u{a0}' || c == '\u{1680}'
        || ('\u{2000}' <= c && c <= '\u{200a}') || c == '\u{2028}' || c == '\u{2029}'
        || c == '\u{202f}' || c == '\u{205f}' || c == '\u{3000}'
}

/// `s` without its leading whitespace.
pub open spec fn trim_start(s: Seq<char>) -> Seq<char>
    decreases s.len(),
{
    if s.len() > 0 && is_ws(s[0]) {
        trim_start(s.drop_first())
    } else {
        s
    }
}

/// `s` without its trailing whitespace.
pub open spec fn trim_end(s: Seq<char>) -> Seq<char>
    decreases s.len(),
{
    if s.len() > 0 && is_ws(s.last()) {
        trim_end(s.drop_last())
    } else {
        s
    }
}

/// `str::trim`.
pub open spec fn trim(s: Seq<char>) -> Seq<char> {
    trim_end(trim_start(s))
}

/// `s` without any leading copies of `c` (`str::trim_start_matches(c)`).
pub open spec fn strip_leading(s: Seq<char>, c: char) -> Seq<char>
    decreases s.len(),
{
    if s.len() > 0 && s[0] == c {
        strip_leading(s.drop_first(), c)
    } else {
        s
    }
}

/// `s` without any trailing copies of `c` (`str::trim_end_matches(c)`).
pub open spec fn strip_trailing(s: Seq<char>, c: char) -> Seq<char>
    decreases s.len(),
{
    if s.len() > 0 && s.last() == c {
        strip_trailing(s.drop_last(), c)
    } else {
        s
    }
}

/// The text before the first `c` in `s`, and the text after it when there
/// is one.
pub open spec fn split_once(s: Seq<char>, c: char) -> (Seq<char>, Option<Seq<char>>)
    decreases s.len(),
{
    if s.len() == 0 {
        (s, None)
    } else if s[0] == c {
        (seq![], Some(s.drop_first()))
    } else {
        let (a, b) = split_once(s.drop_first(), c);
        (seq![s[0]] + a, b)
    }
}

/// The pieces of `s` between occurrences of `c` (`str::split(c)`).
pub open spec fn split_all(s: Seq<char>, c: char) -> Seq<Seq<char>>
    decreases s.len(),
{
    match split_once(s, c) {
        (a, None) => seq![a],
        (a, Some(rest)) => {
            if rest.len() < s.len() {
                seq![a] + split_all(rest, c)
            } else {
                seq![a]
            }
        },
    }
}

pub proof fn lemma_split_once_len(s: Seq<char>, c: char)
    ensures
        split_once(s, c).1 matches Some(r) ==> r.len() < s.len(),
        split_once(s, c).1 matches Some(r) ==> split_once(s, c).0.len() + 1 + r.len() == s.len(),
        split_once(s, c).1 is None ==> split_once(s, c).0 == s,
        split_once(s, c).1 matches Some(r) ==> s == split_once(s, c).0 + seq![c] + r,
        !split_once(s, c).0.contains(c),
    decreases s.len(),
{
    if s.len() > 0 && s[0] != c {
        lemma_split_once_len(s.drop_first(), c);
        let (a, b) = split_once(s.drop_first(), c);
        assert(split_once(s, c).0 == seq![s[0]] + a);
        assert(s =~= seq![s[0]] + s.drop_first());
        if let Some(r) = b {
            assert(s.drop_first() == a + seq![c] + r);
            assert(seq![s[0]] + (a + seq![c] + r) =~= seq![s[0]] + a + seq![c] + r);
        } else {
            assert(s =~= seq![s[0]] + a);
        }
        assert forall|k: int| 0 <= k < split_once(s, c).0.len() implies split_once(s, c).0[k] != c by {
            if k > 0 {
                assert(split_once(s, c).0[k] == a[k - 1]);
            }
        }
    } else if s.len() > 0 {
        assert(s =~= seq![] + seq![c] + s.drop_first());
    }
}

pub open spec fn is_digit(c: char) -> bool {
    '0' <= c && c <= '9'
}

pub open spec fn digit_value(c: char) -> nat {
    (c as u32 - '0' as u32) as nat
}

/// The number written by a string of decimal digits.
pub open spec fn digits_value(s: Seq<char>) -> nat
    decreases s.len(),
{
    if s.len() == 0 {
        0
    } else {
        digits_value(s.drop_last()) * 10 + digit_value(s.last())
    }
}

pub open spec fn all_digits(s: Seq<char>) -> bool {
    forall|i: int| 0 <= i < s.len() ==> is_digit(#[trigger] s[i])
}

/// Unsigned integer `from_str` for a type whose largest value is `max`:
/// an optional `+`, then one or more decimal digits whose value is at most
/// `max`.
pub open spec fn parse_uint_spec(s: Seq<char>, max: u64) -> Option<u64> {
    let d = if s.len() > 0 && s[0] == '+' { s.drop_first() } else { s };
    if d.len() > 0 && all_digits(d) && digits_value(d) <= max {
        Some(digits_value(d) as u64)
    } else {
        None
    }
}

/// `u64::from_str`.
pub open spec fn parse_u64_spec(s: Seq<char>) -> Option<u64> {
    parse_uint_spec(s, u64::MAX)
}

/// The longest prefix of `s` made of decimal digits.
pub open spec fn digit_prefix(s: Seq<char>) -> Seq<char>
    decreases s.len(),
{
    if s.len() > 0 && is_digit(s[0]) {
        seq![s[0]] + digit_prefix(s.drop_first())
    } else {
        seq![]
    }
}

/// The characters `v[lo..hi]`.
pub fn sub_chars(v: &Vec<char>, lo: usize, hi: usize) -> (r: Vec<char>)
    requires
        lo <= hi <= v@.len(),
    ensures
        r@ == v@.subrange(lo as int, hi as int),
{
    let mut r: Vec<char> = Vec::new();
    let mut i = lo;
    while i < hi
        invariant
            lo <= i <= hi <= v@.len(),
            r@ == v@.subrange(lo as int, i as int),
        decreases hi - i,
    {
        r.push(v[i]);
        assert(v@.subrange(lo as int, i + 1) =~= v@.subrange(lo as int, i as int).push(v@[i as int]));
        i += 1;
    }
    r
}

/// `str::trim` on characters.
pub fn trim_chars(v: &Vec<char>) -> (r: Vec<char>)
    ensures
        r@ == trim(v@),
{
    let len = v.len();
    let mut lo: usize = 0;
    assert(v@.subrange(0, len as int) =~= v@);
    while lo < len && is_whitespace_char(v[lo])
        invariant
            lo <= len == v@.len(),
            trim_start(v@.subrange(lo as int, len as int)) == trim_start(v@),
        decreases len - lo,
    {
        assert(v@.subrange(lo + 1, len as int) =~= v@.subrange(lo as int, len as int).drop_first());
        lo += 1;
    }
    let ghost ts = v@.subrange(lo as int, len as int);
    assert(trim_start(ts) == ts);
    let mut hi: usize = len;
    while hi > lo && is_whitespace_char(v[hi - 1])
        invariant
            lo <= hi <= len == v@.len(),
            ts == v@.subrange(lo as int, len as int),
            trim_end(v@.subrange(lo as int, hi as int)) == trim_end(ts),
        decreases hi - lo,
    {
        assert(v@.subrange(lo as int, hi - 1) =~= v@.subrange(lo as int, hi as int).drop_last());
        hi -= 1;
    }
    sub_chars(v, lo, hi)
}

/// `str::trim_start_matches(c)` on characters.
pub fn strip_leading_chars(v: &Vec<char>, c: char) -> (r: Vec<char>)
    ensures
        r@ == strip_leading(v@, c),
{
    let len = v.len();
    let mut lo: usize = 0;
    assert(v@.subrange(0, len as int) =~= v@);
    while lo < len && v[lo] == c
        invariant
            lo <= len == v@.len(),
            strip_leading(v@.subrange(lo as int, len as int), c) == strip_leading(v@, c),
        decreases len - lo,
    {
        assert(v@.subrange(lo + 1, len as int) =~= v@.subrange(lo as int, len as int).drop_first());
        lo += 1;
    }
    sub_chars(v, lo, len)
}

/// `str::trim_end_matches(c)` on characters.
pub fn strip_trailing_chars(v: &Vec<char>, c: char) -> (r: Vec<char>)
    ensures
        r@ == strip_trailing(v@, c),
{
    let len = v.len();
    let mut hi: usize = len;
    assert(v@.subrange(0, len as int) =~= v@);
    while hi > 0 && v[hi - 1] == c
        invariant
            hi <= len == v@.len(),
            strip_trailing(v@.subrange(0, hi as int), c) == strip_trailing(v@, c),
        decreases hi,
    {
        assert(v@.subrange(0, hi - 1) =~= v@.subrange(0, hi as int).drop_last());
        hi -= 1;
    }
    sub_chars(v, 0, hi)
}

/// `split_once` at a known first occurrence, or when there is none.
pub proof fn lemma_split_once_at(s: Seq<char>, c: char, k: int)
    requires
        0 <= k <= s.len(),
        forall|j: int| 0 <= j < k ==> s[j] != c,
    ensures
        k < s.len() && s[k] == c ==> split_once(s, c) == (s.take(k), Some(s.skip(k + 1))),
        k == s.len() ==> split_once(s, c) == (s, Option::<Seq<char>>::None),
    decreases k,
{
    if k > 0 {
        lemma_split_once_at(s.drop_first(), c, k - 1);
        assert(s.drop_first().take(k - 1) =~= s.take(k).drop_first());
        assert(seq![s[0]] + s.take(k).drop_first() =~= s.take(k));
        if k < s.len() {
            assert(s.drop_first().skip(k) =~= s.skip(k + 1));
        }
        if k == s.len() {
            assert(seq![s[0]] + s.drop_first() =~= s);
        }
    } else if s.len() > 0 {
        assert(s.take(0) =~= seq![]);
        assert(s.skip(1) =~= s.drop_first());
    }
}

/// The position of the first `c` in `v`, or `v.len()` when there is none.
pub fn find_char(v: &Vec<char>, c: char) -> (k: usize)
    ensures
        k <= v@.len(),
        k < v@.len() ==> v@[k as int] == c,
        forall|j: int| 0 <= j < k ==> v@[j] != c,
{
    let mut k: usize = 0;
    while k < v.len() && v[k] != c
        invariant
            k <= v@.len(),
            forall|j: int| 0 <= j < k ==> v@[j] != c,
        decreases v@.len() - k,
    {
        k += 1;
    }
    k
}

/// `split_once` on characters.
pub fn split_once_chars(v: &Vec<char>, c: char) -> (r: (Vec<char>, Option<Vec<char>>))
    ensures
        r.0@ == split_once(v@, c).0,
        match r.1 {
            Some(t) => split_once(v@, c).1 == Some(t@),
            None => split_once(v@, c).1 is None,
        },
{
    let k = find_char(v, c);
    proof { lemma_split_once_at(v@, c, k as int); }
    if k < v.len() {
        let a = sub_chars(v, 0, k);
        let b = sub_chars(v, k + 1, v.len());
        assert(v@.subrange(0, k as int) =~= v@.take(k as int));
        assert(v@.subrange(k + 1, v@.len() as int) =~= v@.skip(k + 1));
        (a, Some(b))
    } else {
        let a = sub_chars(v, 0, k);
        assert(v@.subrange(0, k as int) =~= v@);
        (a, None)
    }
}

/// `split_all` on characters.
pub fn split_all_chars(v: &Vec<char>, c: char) -> (r: Vec<Vec<char>>)
    ensures
        r@.map_values(|p: Vec<char>| p@) == split_all(v@, c),
{
    let mut out: Vec<Vec<char>> = Vec::new();
    let mut rem = sub_chars(v, 0, v.len());
    assert(v@.subrange(0, v@.len() as int) =~= v@);
    assert(out@.map_values(|p: Vec<char>| p@) + split_all(rem@, c) =~= split_all(v@, c));
    loop
        invariant
            out@.map_values(|p: Vec<char>| p@) + split_all(rem@, c) == split_all(v@, c),
        decreases rem@.len(),
    {
        proof {
            lemma_split_once_len(rem@, c);
        }
        let ghost before = out@.map_values(|p: Vec<char>| p@);
        let (a, rest) = split_once_chars(&rem, c);
        match rest {
            None => {
                out.push(a);
                assert(out@.map_values(|p: Vec<char>| p@) =~= before.push(split_once(rem@, c).0));
                assert(split_all(rem@, c) == seq![split_once(rem@, c).0]);
                assert(before + seq![split_once(rem@, c).0] =~= before.push(split_once(rem@, c).0));
                return out;
            },
            Some(r) => {
                out.push(a);
                assert(split_all(rem@, c) == seq![split_once(rem@, c).0] + split_all(r@, c));
                assert(out@.map_values(|p: Vec<char>| p@) + split_all(r@, c) =~= before + split_all(rem@, c));
                rem = r;
            },
        }
    }
}

pub proof fn lemma_digit_prefix_at(s: Seq<char>, k: int)
    requires
        0 <= k <= s.len(),
        forall|j: int| 0 <= j < k ==> is_digit(s[j]),
        k < s.len() ==> !is_digit(s[k]),
    ensures
        digit_prefix(s) == s.take(k),
    decreases k,
{
    if k > 0 {
        lemma_digit_prefix_at(s.drop_first(), k - 1);
        assert(seq![s[0]] + s.drop_first().take(k - 1) =~= s.take(k));
    } else {
        assert(s.take(0) =~= seq![]);
    }
}

/// The leading decimal digits of `v`.
pub fn digit_prefix_chars(v: &Vec<char>) -> (r: Vec<char>)
    ensures
        r@ == digit_prefix(v@),
{
    let mut k: usize = 0;
    while k < v.len() && '0' <= v[k] && v[k] <= '9'
        invariant
            k <= v@.len(),
            forall|j: int| 0 <= j < k ==> is_digit(v@[j]),
        decreases v@.len() - k,
    {
        k += 1;
    }
    proof { lemma_digit_prefix_at(v@, k as int); }
    assert(v@.subrange(0, k as int) =~= v@.take(k as int));
    sub_chars(v, 0, k)
}

pub proof fn lemma_digits_value_monotone(s: Seq<char>, i: int, j: int)
    requires
        0 <= i <= j <= s.len(),
    ensures
        digits_value(s.take(i)) <= digits_value(s.take(j)),
    decreases j - i,
{
    if i < j {
        lemma_digits_value_monotone(s, i, j - 1);
        assert(s.take(j).drop_last() =~= s.take(j - 1));
    }
}

/// `u64::from_str` on characters.
pub fn parse_u64_chars(v: &Vec<char>) -> (r: Option<u64>)
    ensures
        r == parse_u64_spec(v@),
{
    parse_uint_chars(v, u64::MAX)
}

/// Unsigned integer `from_str` on characters, for a type whose largest
/// value is `max`.
pub fn parse_uint_chars(v: &Vec<char>, max: u64) -> (r: Option<u64>)
    ensures
        r == parse_uint_spec(v@, max),
{
    let len = v.len();
    let start: usize = if len > 0 && v[0] == '+' { 1 } else { 0 };
    let ghost d = if v@.len() > 0 && v@[0] == '+' { v@.drop_first() } else { v@ };
    assert(d =~= v@.subrange(start as int, len as int));
    if start == len {
        return None;
    }
    let mut acc: u64 = 0;
    let mut i: usize = start;
    while i < len
        invariant
            start <= i <= len == v@.len(),
            d == v@.subrange(start as int, len as int),
            d == (if v@.len() > 0 && v@[0] == '+' { v@.drop_first() } else { v@ }),
            d.len() > 0,
            forall|j: int| 0 <= j < i - start ==> is_digit(d[j]),
            acc == digits_value(d.take(i - start)),
            acc <= max,
        decreases len - i,
    {
        let c = v[i];
        if !('0' <= c && c <= '9') {
            assert(d[i - start] == c);
            assert(!is_digit(d[i - start]));
            return None;
        }
        let dv = (c as u32 - '0' as u32) as u64;
        assert(d.take(i - start + 1).drop_last() =~= d.take(i - start));
        assert(d.take(i - start + 1).last() == c);
        assert(digit_value(c) == dv);
        assert(digits_value(d.take(i - start + 1)) == acc * 10 + dv);
        if dv > max || acc > (max - dv) / 10 {
            proof {
                assert(acc * 10 + dv > max) by (nonlinear_arith)
                    requires dv > max || acc > (max - dv) / 10, dv <= 9, acc >= 0;
                lemma_digits_value_monotone(d, i - start + 1, d.len() as int);
                assert(d.take(d.len() as int) =~= d);
            }
            return None;
        }
        assert(acc * 10 + dv <= max) by (nonlinear_arith)
            requires acc <= (max - dv) / 10, dv <= max, dv <= 9;
        acc = acc * 10 + dv;
        i += 1;
    }
    assert(d.take(d.len() as int) =~= d);
    Some(acc)
}

/// The decimal digit for `d < 10`.
pub open spec fn digit_char(d: nat) -> char {
    ((d + 48) as u32) as char
}

/// `n` written in decimal, without leading zeros (`"0"` for zero).
pub open spec fn decimal(n: nat) -> Seq<char>
    decreases n,
{
    if n < 10 {
        seq![digit_char(n)]
    } else {
        decimal(n / 10).push(digit_char(n % 10))
    }
}

fn digit_char_exec(d: u64) -> (c: char)
    requires
        d < 10,
    ensures
        c == digit_char(d as nat),
{
    ((d as u8) + 48) as char
}

/// `n.to_string()` for unsigned integers.
pub fn decimal_string(n: u64) -> (s: String)
    ensures
        s@ == decimal(n as nat),
    decreases n,
{
    if n < 10 {
        let mut s = String::new();
        push_char(&mut s, digit_char_exec(n));
        s
    } else {
        let mut s = decimal_string(n / 10);
        push_char(&mut s, digit_char_exec(n % 10));
        s
    }
}

/// Appends `n` in decimal.
pub fn push_decimal(s: &mut String, n: u64)
    ensures
        final(s)@ == old(s)@ + decimal(n as nat),
{
    let d = decimal_string(n);
    push_str(s, d.as_str());
}

} // verus!
