//! Text encodings used around navigation: HTML escaping, the URL-bar
//! query encoding and percent-decoding of `sentinel://` parameters.

use vstd::prelude::*;
use vstd::utf8::{decode_utf8, encode_utf8, is_ascii_chars, is_ascii_chars_encode_utf8, valid_utf8};
use crate::text::{chars_of, push_char, push_str, string_of, strip_leading, strip_leading_chars, strip_trailing, strip_trailing_chars, trim, trim_chars};

verus! {

/// The escape of one character when `&`, `<` and `>` are escaped.
pub open spec fn escape_min_char(c: char) -> Seq<char> {
    if c == '&' {
        "&amp;"@
    } else if c == '<' {
        "&lt;"@
    } else if c == '>' {
        "&gt;"@
    } else {
        seq![c]
    }
}

/// The escape of one character when `&`, `<`, `>` and `"` are escaped.
pub open spec fn escape_attr_char(c: char) -> Seq<char> {
    if c == '"' {
        "&quot;"@
    } else {
        escape_min_char(c)
    }
}

/// `s` with `&`, `<` and `>` replaced by their entities.
pub open spec fn escape_min(s: Seq<char>) -> Seq<char>
    decreases s.len(),
{
    if s.len() == 0 {
        seq![]
    } else {
        escape_min(s.drop_last()) + escape_min_char(s.last())
    }
}

/// `s` with `&`, `<`, `>` and `"` replaced by their entities.
pub open spec fn escape_attr(s: Seq<char>) -> Seq<char>
    decreases s.len(),
{
    if s.len() == 0 {
        seq![]
    } else {
        escape_attr(s.drop_last()) + escape_attr_char(s.last())
    }
}

/// Escapes `&`, `<` and `>`.
pub fn html_escape_simple(s: &str) -> (r: String)
    ensures
        r@ == escape_min(s@),
{
    let v = chars_of(s);
    let mut out = String::new();
    let mut i: usize = 0;
    while i < v.len()
        invariant
            i <= v@.len(),
            v@ == s@,
            out@ == escape_min(v@.take(i as int)),
        decreases v@.len() - i,
    {
        let c = v[i];
        assert(v@.take(i + 1).drop_last() =~= v@.take(i as int));
        if c == '&' {
            push_str(&mut out, "&amp;");
        } else if c == '<' {
            push_str(&mut out, "&lt;");
        } else if c == '>' {
            push_str(&mut out, "&gt;");
        } else {
            push_char(&mut out, c);
        }
        i += 1;
    }
    assert(v@.take(v@.len() as int) =~= v@);
    out
}

/// Escapes `&`, `<`, `>` and `"`.
pub fn html_escape(s: &str) -> (r: String)
    ensures
        r@ == escape_attr(s@),
{
    let v = chars_of(s);
    let mut out = String::new();
    let mut i: usize = 0;
    while i < v.len()
        invariant
            i <= v@.len(),
            v@ == s@,
            out@ == escape_attr(v@.take(i as int)),
        decreases v@.len() - i,
    {
        let c = v[i];
        assert(v@.take(i + 1).drop_last() =~= v@.take(i as int));
        if c == '&' {
            push_str(&mut out, "&amp;");
        } else if c == '<' {
            push_str(&mut out, "&lt;");
        } else if c == '>' {
            push_str(&mut out, "&gt;");
        } else if c == '"' {
            push_str(&mut out, "&quot;");
        } else {
            push_char(&mut out, c);
        }
        i += 1;
    }
    assert(v@.take(v@.len() as int) =~= v@);
    out
}

/// Bytes kept as they are by the URL-bar query encoding.
pub open spec fn is_unreserved(b: u8) -> bool {
    ||| (0x41 <= b && b <= 0x5a)
    ||| (0x61 <= b && b <= 0x7a)
    ||| (0x30 <= b && b <= 0x39)
    ||| b == 0x2d
    ||| b == 0x5f
    ||| b == 0x2e
    ||| b == 0x7e
}

/// The upper-case hexadecimal digit for `n < 16`.
pub open spec fn hex_upper(n: u8) -> char {
    if n < 10 {
        (n + 48) as char
    } else {
        (n + 55) as char
    }
}

/// The encoding of one byte: itself when unreserved, `+` for a space,
/// otherwise `%` and two upper-case hex digits.
pub open spec fn lite_byte(b: u8) -> Seq<char> {
    if is_unreserved(b) {
        seq![b as char]
    } else if b == 0x20 {
        seq!['+']
    } else {
        seq!['%', hex_upper(b / 16), hex_upper(b % 16)]
    }
}

pub open spec fn lite_encode(bs: Seq<u8>) -> Seq<char>
    decreases bs.len(),
{
    if bs.len() == 0 {
        seq![]
    } else {
        lite_encode(bs.drop_last()) + lite_byte(bs.last())
    }
}

fn hex_upper_exec(n: u8) -> (c: char)
    requires
        n < 16,
    ensures
        c == hex_upper(n),
{
    if n < 10 {
        (n + 48) as char
    } else {
        (n + 55) as char
    }
}

/// Percent-encodes the UTF-8 bytes of `s` for a search query: unreserved
/// bytes stay, a space becomes `+`, anything else becomes `%XX`.
pub fn urlencoding_lite(s: &str) -> (r: String)
    ensures
        r@ == lite_encode(encode_utf8(s@)),
{
    let bytes = s.as_bytes();
    let mut out = String::new();
    let mut i: usize = 0;
    while i < bytes.len()
        invariant
            i <= bytes@.len(),
            bytes@ == encode_utf8(s@),
            out@ == lite_encode(bytes@.take(i as int)),
        decreases bytes@.len() - i,
    {
        let b = bytes[i];
        assert(bytes@.take(i + 1).drop_last() =~= bytes@.take(i as int));
        if (0x41 <= b && b <= 0x5a) || (0x61 <= b && b <= 0x7a) || (0x30 <= b && b <= 0x39) || b == 0x2d
            || b == 0x5f || b == 0x2e || b == 0x7e {
            push_char(&mut out, b as char);
        } else if b == 0x20 {
            push_char(&mut out, '+');
        } else {
            let ghost before = out@;
            push_char(&mut out, '%');
            push_char(&mut out, hex_upper_exec(b / 16));
            push_char(&mut out, hex_upper_exec(b % 16));
            assert(out@ =~= before + lite_byte(b));
        }
        i += 1;
    }
    assert(bytes@.take(bytes@.len() as int) =~= bytes@);
    out
}

pub open spec fn starts_with(s: Seq<char>, p: Seq<char>) -> bool {
    s.len() >= p.len() && s.take(p.len() as int) == p
}

pub fn starts_with_chars(s: &Vec<char>, p: &str) -> (b: bool)
    ensures
        b == starts_with(s@, p@),
{
    let pv = chars_of(p);
    if s.len() < pv.len() {
        return false;
    }
    let mut i: usize = 0;
    while i < pv.len()
        invariant
            i <= pv@.len() <= s@.len(),
            pv@ == p@,
            forall|j: int| 0 <= j < i ==> s@[j] == pv@[j],
        decreases pv@.len() - i,
    {
        if s[i] != pv[i] {
            assert(s@.take(pv@.len() as int)[i as int] != pv@[i as int]);
            return false;
        }
        i += 1;
    }
    assert(s@.take(pv@.len() as int) =~= pv@);
    true
}

pub fn contains_char(s: &Vec<char>, c: char) -> (b: bool)
    ensures
        b == s@.contains(c),
{
    let mut i: usize = 0;
    while i < s.len()
        invariant
            i <= s@.len(),
            forall|j: int| 0 <= j < i ==> s@[j] != c,
        decreases s@.len() - i,
    {
        if s[i] == c {
            return true;
        }
        i += 1;
    }
    false
}

/// The URL-bar text with surrounding whitespace and `|` cursor marks
/// removed.
pub open spec fn url_bar_text(raw: Seq<char>) -> Seq<char> {
    strip_trailing(strip_leading(trim(raw), '|'), '|')
}

/// Where URL-bar input navigates: explicit `http://`, `https://` and
/// `sentinel://` addresses as typed; text with a dot and no space as an
/// `https://` address; anything else as a Horus search.
pub open spec fn resolve_input_spec(raw: Seq<char>) -> Seq<char> {
    let t = url_bar_text(raw);
    if starts_with(t, "http://"@) || starts_with(t, "https://"@) || starts_with(t, "sentinel://"@) {
        t
    } else if t.contains('.') && !t.contains(' ') {
        "https://"@ + t
    } else {
        "sentinel://search?q="@ + lite_encode(encode_utf8(t))
    }
}

/// Turns URL-bar input into the address to navigate to (see
/// `resolve_input_spec`).
pub fn resolve_input(raw: &str) -> (r: String)
    ensures
        r@ == resolve_input_spec(raw@),
{
    let v = chars_of(raw);
    let t0 = trim_chars(&v);
    let t1 = strip_leading_chars(&t0, '|');
    let t = strip_trailing_chars(&t1, '|');
    if starts_with_chars(&t, "http://") || starts_with_chars(&t, "https://") || starts_with_chars(&t, "sentinel://") {
        string_of(&t)
    } else if contains_char(&t, '.') && !contains_char(&t, ' ') {
        let mut out = String::new();
        push_str(&mut out, "https://");
        let ts = string_of(&t);
        push_str(&mut out, ts.as_str());
        out
    } else {
        let ts = string_of(&t);
        let enc = urlencoding_lite(ts.as_str());
        let mut out = String::new();
        push_str(&mut out, "sentinel://search?q=");
        push_str(&mut out, enc.as_str());
        out
    }
}

/// The value of an ASCII hexadecimal digit.
pub open spec fn hex_value(c: u8) -> Option<u8> {
    if 0x30 <= c && c <= 0x39 {
        Some((c - 0x30) as u8)
    } else if 0x61 <= c && c <= 0x66 {
        Some((c - 0x61 + 10) as u8)
    } else if 0x41 <= c && c <= 0x46 {
        Some((c - 0x41 + 10) as u8)
    } else {
        None
    }
}

fn hex_value_exec(c: u8) -> (r: Option<u8>)
    ensures
        r == hex_value(c),
{
    if 0x30 <= c && c <= 0x39 {
        Some(c - 0x30)
    } else if 0x61 <= c && c <= 0x66 {
        Some(c - 0x61 + 10)
    } else if 0x41 <= c && c <= 0x46 {
        Some(c - 0x41 + 10)
    } else {
        None
    }
}

/// The bytes decoded from `bs[i..]`: `+` becomes a space; `%` followed by
/// two hex digits becomes that byte, provided at least one more byte
/// follows the `%` and its first digit (`i + 2 < len`); every other byte
/// stands for itself.
pub open spec fn percent_decode_from(bs: Seq<u8>, i: int) -> Seq<u8>
    decreases bs.len() - i,
{
    if i < 0 || i >= bs.len() {
        seq![]
    } else if bs[i] == 0x2b {
        seq![0x20] + percent_decode_from(bs, i + 1)
    } else if bs[i] == 0x25 && i + 2 < bs.len() && hex_value(bs[i + 1]) is Some && hex_value(bs[i + 2]) is Some {
        seq![(hex_value(bs[i + 1])->0 * 16 + hex_value(bs[i + 2])->0) as u8] + percent_decode_from(bs, i + 3)
    } else {
        seq![bs[i]] + percent_decode_from(bs, i + 1)
    }
}

/// The name for what `String::from_utf8_lossy` makes of a byte string.
pub uninterp spec fn utf8_lossy(b: Seq<u8>) -> Seq<char>;

/// `String::from_utf8_lossy(..).into_owned()`: the result is named
/// `utf8_lossy` of the bytes; on valid UTF-8 it is the decoded text.
/// How invalid sequences become U+FFFD is left unsaid here.
#[verifier::external_body]
pub(crate) fn string_from_utf8_lossy(b: &[u8]) -> (s: String)
    ensures
        s@ == utf8_lossy(b@),
        valid_utf8(b@) ==> s@ == decode_utf8(b@),
{
    String::from_utf8_lossy(b).into_owned()
}

/// Percent-decodes `s` (see `percent_decode_from`) and reads the bytes as
/// UTF-8, replacing invalid sequences.
pub fn urlencoding_decode(s: &str) -> (r: String)
    ensures
        r@ == utf8_lossy(percent_decode_from(encode_utf8(s@), 0)),
        valid_utf8(percent_decode_from(encode_utf8(s@), 0)) ==> r@ == decode_utf8(
            percent_decode_from(encode_utf8(s@), 0),
        ),
{
    let bytes = s.as_bytes();
    let ghost bs = bytes@;
    let mut out: Vec<u8> = Vec::new();
    let mut i: usize = 0;
    while i < bytes.len()
        invariant
            i <= bytes@.len(),
            bs == bytes@,
            out@ + percent_decode_from(bs, i as int) == percent_decode_from(bs, 0),
        decreases bytes@.len() - i,
    {
        let b = bytes[i];
        let ghost before = out@;
        if b == 0x2b {
            out.push(0x20);
            i += 1;
            assert(before + percent_decode_from(bs, i - 1) =~= out@ + percent_decode_from(bs, i as int));
        } else if b == 0x25 && bytes.len() - i > 2 {
            match (hex_value_exec(bytes[i + 1]), hex_value_exec(bytes[i + 2])) {
                (Some(a), Some(c)) => {
                    out.push(a * 16 + c);
                    i += 3;
                    assert(before + percent_decode_from(bs, i - 3) =~= out@ + percent_decode_from(bs, i as int));
                },
                _ => {
                    out.push(b);
                    i += 1;
                    assert(before + percent_decode_from(bs, i - 1) =~= out@ + percent_decode_from(bs, i as int));
                },
            }
        } else {
            out.push(b);
            i += 1;
            assert(before + percent_decode_from(bs, i - 1) =~= out@ + percent_decode_from(bs, i as int));
        }
    }
    assert(out@ =~= percent_decode_from(bs, 0));
    string_from_utf8_lossy(out.as_slice())
}


/// The bytes of an ASCII text.
pub open spec fn ascii_bytes(cs: Seq<char>) -> Seq<u8> {
    Seq::new(cs.len(), |i: int| cs[i] as u8)
}

proof fn lemma_lite_encode_concat(a: Seq<u8>, b: Seq<u8>)
    ensures
        lite_encode(a + b) == lite_encode(a) + lite_encode(b),
    decreases b.len(),
{
    if b.len() == 0 {
        assert(a + b =~= a);
        assert(lite_encode(a) + lite_encode(b) =~= lite_encode(a));
    } else {
        lemma_lite_encode_concat(a, b.drop_last());
        assert((a + b).drop_last() =~= a + b.drop_last());
        assert((a + b).last() == b.last());
        assert(lite_encode(a) + lite_encode(b.drop_last()) + lite_byte(b.last()) =~= lite_encode(a) + (lite_encode(
            b.drop_last(),
        ) + lite_byte(b.last())));
    }
}

proof fn lemma_hex_upper(n: u8)
    requires
        n < 16,
    ensures
        (hex_upper(n) as u32) < 128,
        hex_value(hex_upper(n) as u8) == Some(n),
{
    if n < 10 {
        assert(((n + 48) as char) as u32 == n + 48);
    } else {
        assert(((n + 55) as char) as u32 == n + 55);
    }
}

proof fn lemma_lite_byte_ascii(b: u8)
    ensures
        is_ascii_chars(lite_byte(b)),
{
    if is_unreserved(b) {
        assert((b as char) as u32 == b);
    } else if b != 0x20 {
        lemma_hex_upper(b / 16);
        lemma_hex_upper(b % 16);
    }
}

proof fn lemma_lite_encode_ascii(bs: Seq<u8>)
    ensures
        is_ascii_chars(lite_encode(bs)),
    decreases bs.len(),
{
    if bs.len() > 0 {
        lemma_lite_encode_ascii(bs.drop_last());
        lemma_lite_byte_ascii(bs.last());
        let a = lite_encode(bs.drop_last());
        let c = lite_byte(bs.last());
        assert forall|i: int| 0 <= i < (a + c).len() implies '\0' <= #[trigger] (a + c)[i] <= '\u{7f}' by {
            if i < a.len() {
                assert((a + c)[i] == a[i]);
            } else {
                assert((a + c)[i] == c[i - a.len()]);
            }
        }
    }
}

proof fn lemma_decode_shift(p: Seq<u8>, t: Seq<u8>, j: int)
    requires
        0 <= j,
    ensures
        percent_decode_from(p + t, p.len() + j) == percent_decode_from(t, j),
    decreases t.len() - j,
{
    let pt = p + t;
    let k = p.len() + j;
    if j < t.len() {
        assert(pt[k] == t[j]);
        if j + 1 < t.len() {
            assert(pt[k + 1] == t[j + 1]);
        }
        if j + 2 < t.len() {
            assert(pt[k + 2] == t[j + 2]);
            lemma_decode_shift(p, t, j + 3);
        }
        lemma_decode_shift(p, t, j + 1);
    }
}

proof fn lemma_decode_lite_byte(x: u8, t: Seq<u8>)
    ensures
        percent_decode_from(ascii_bytes(lite_byte(x)) + t, 0) == seq![x] + percent_decode_from(t, 0),
{
    let p = ascii_bytes(lite_byte(x));
    let pt = p + t;
    if is_unreserved(x) {
        assert((x as char) as u32 == x);
        assert(pt[0] == x);
        lemma_decode_shift(p, t, 0);
    } else if x == 0x20 {
        assert(pt[0] == 0x2b);
        lemma_decode_shift(p, t, 0);
    } else {
        lemma_hex_upper(x / 16);
        lemma_hex_upper(x % 16);
        assert(pt[0] == 0x25);
        assert(pt[1] == hex_upper(x / 16) as u8);
        assert(pt[2] == hex_upper(x % 16) as u8);
        assert((x / 16) * 16 + x % 16 == x);
        lemma_decode_shift(p, t, 0);
    }
}

proof fn lemma_lite_decodes(bs: Seq<u8>)
    ensures
        percent_decode_from(ascii_bytes(lite_encode(bs)), 0) == bs,
    decreases bs.len(),
{
    if bs.len() > 0 {
        let x = bs[0];
        let rest = bs.drop_first();
        assert(bs =~= seq![x] + rest);
        lemma_lite_encode_concat(seq![x], rest);
        assert(seq![x].drop_last() =~= Seq::<u8>::empty());
        assert(lite_encode(Seq::<u8>::empty()) =~= Seq::<char>::empty());
        assert(seq![x].last() == x);
        assert(lite_encode(seq![x]) =~= lite_byte(x));
        assert(ascii_bytes(lite_byte(x) + lite_encode(rest)) =~= ascii_bytes(lite_byte(x)) + ascii_bytes(
            lite_encode(rest),
        ));
        lemma_decode_lite_byte(x, ascii_bytes(lite_encode(rest)));
        lemma_lite_decodes(rest);
    }
}

/// A search query survives the address: percent-decoding the URL-bar
/// encoding of a text gives back exactly the text's UTF-8 bytes, which
/// decode to the text (so `urlencoding_decode` of `urlencoding_lite` of a
/// text is that text).
pub proof fn lemma_query_encoding_round_trip(s: Seq<char>)
    ensures
        percent_decode_from(encode_utf8(lite_encode(encode_utf8(s))), 0) == encode_utf8(s),
        valid_utf8(encode_utf8(s)),
        decode_utf8(encode_utf8(s)) == s,
{
    let e = lite_encode(encode_utf8(s));
    lemma_lite_encode_ascii(encode_utf8(s));
    is_ascii_chars_encode_utf8(e);
    assert(encode_utf8(e) =~= ascii_bytes(e));
    lemma_lite_decodes(encode_utf8(s));
    vstd::utf8::encode_utf8_valid_utf8(s);
    vstd::utf8::encode_utf8_decode_utf8(s);
}


/// Escaped text cannot open or close markup: `escape_min` leaves no `<` or
/// `>`, and `escape_attr` no `<`, `>` or `"` either, so text put in a page
/// or an attribute value stays text.
pub proof fn lemma_escaped_text_is_inert(s: Seq<char>)
    ensures
        forall|i: int| 0 <= i < escape_min(s).len() ==> #[trigger] escape_min(s)[i] != '<' && escape_min(s)[i] != '>',
        forall|i: int|
            0 <= i < escape_attr(s).len() ==> #[trigger] escape_attr(s)[i] != '<' && escape_attr(s)[i] != '>'
                && escape_attr(s)[i] != '"',
    decreases s.len(),
{
    if s.len() > 0 {
        lemma_escaped_text_is_inert(s.drop_last());
        reveal_strlit("&amp;");
        reveal_strlit("&lt;");
        reveal_strlit("&gt;");
        reveal_strlit("&quot;");
        let a = escape_min(s.drop_last());
        let c = escape_min_char(s.last());
        assert forall|i: int| 0 <= i < (a + c).len() implies #[trigger] (a + c)[i] != '<' && (a + c)[i] != '>' by {
            if i < a.len() {
                assert((a + c)[i] == a[i]);
            } else {
                assert((a + c)[i] == c[i - a.len()]);
            }
        }
        let b = escape_attr(s.drop_last());
        let d = escape_attr_char(s.last());
        assert forall|i: int| 0 <= i < (b + d).len() implies #[trigger] (b + d)[i] != '<' && (b + d)[i] != '>' && (b
            + d)[i] != '"' by {
            if i < b.len() {
                assert((b + d)[i] == b[i]);
            } else {
                assert((b + d)[i] == d[i - b.len()]);
            }
        }
    }
}

} // verus!
