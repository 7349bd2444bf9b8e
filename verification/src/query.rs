//! Reading parameters out of `sentinel://` addresses, the way the browser
//! core does it with `str::split`.

use vstd::prelude::*;
use crate::text::{lemma_split_once_len, split_once, split_once_chars, sub_chars};

verus! {

/// Whether `m` occurs in `s` at position `k`.
pub open spec fn occurs_at(s: Seq<char>, m: Seq<char>, k: int) -> bool {
    0 <= k && k + m.len() <= s.len() && s.subrange(k, k + m.len()) == m
}

/// The first position at or after `i` where `m` occurs in `s`.
pub open spec fn find_from(s: Seq<char>, m: Seq<char>, i: int) -> Option<int>
    decreases s.len() + 1 - i,
{
    if i < 0 || i + m.len() > s.len() {
        None
    } else if occurs_at(s, m, i) {
        Some(i)
    } else {
        find_from(s, m, i + 1)
    }
}

/// The text before the first occurrence of `m` in `s`, and the text after
/// it when there is one (`str::split(m)`'s first two pieces).
pub open spec fn split_str_once(s: Seq<char>, m: Seq<char>) -> (Seq<char>, Option<Seq<char>>) {
    match find_from(s, m, 0) {
        Some(k) => (s.take(k), Some(s.skip(k + m.len()))),
        None => (s, None),
    }
}

/// `s.split(m).nth(1)`: the text between the first and the second
/// occurrence of `m` (or to the end).
pub open spec fn second_piece(s: Seq<char>, m: Seq<char>) -> Option<Seq<char>> {
    match split_str_once(s, m).1 {
        Some(rest) => Some(split_str_once(rest, m).0),
        None => None,
    }
}

/// `s.split(c).nth(1)` for a single character.
pub open spec fn second_piece_char(s: Seq<char>, c: char) -> Option<Seq<char>> {
    match split_once(s, c).1 {
        Some(rest) => Some(split_once(rest, c).0),
        None => None,
    }
}

/// The query of an address: `url.split('?').nth(1).unwrap_or("")`.
pub open spec fn query_of(url: Seq<char>) -> Seq<char> {
    match second_piece_char(url, '?') {
        Some(q) => q,
        None => seq![],
    }
}

/// The key and, when present, the value of one `key=value` part: the
/// first two `=`-separated pieces.
pub open spec fn key_value(part: Seq<char>) -> (Seq<char>, Option<Seq<char>>) {
    (split_once(part, '=').0, second_piece_char(part, '='))
}

/// Scans the `&`-separated parts of `s` in order; each part whose key is
/// `key` and that has a value replaces `acc` with that value.
pub open spec fn param_scan(s: Seq<char>, key: Seq<char>, acc: Option<Seq<char>>) -> Option<Seq<char>>
    decreases s.len(),
{
    let (part, rest) = split_once(s, '&');
    let (k, v) = key_value(part);
    let acc2 = if k == key && v is Some { v } else { acc };
    match rest {
        None => acc2,
        Some(r) => if r.len() < s.len() { param_scan(r, key, acc2) } else { acc2 },
    }
}

/// The value of the last part of `query` with key `key` and a value.
pub open spec fn query_param(query: Seq<char>, key: Seq<char>) -> Option<Seq<char>> {
    param_scan(query, key, None)
}

pub open spec fn opt_chars(o: Option<Vec<char>>) -> Option<Seq<char>> {
    match o {
        Some(v) => Some(v@),
        None => None,
    }
}

pub fn chars_eq(a: &Vec<char>, b: &Vec<char>) -> (r: bool)
    ensures
        r == (a@ == b@),
{
    if a.len() != b.len() {
        return false;
    }
    let mut i: usize = 0;
    while i < a.len()
        invariant
            i <= a@.len() == b@.len(),
            forall|j: int| 0 <= j < i ==> a@[j] == b@[j],
        decreases a@.len() - i,
    {
        if a[i] != b[i] {
            return false;
        }
        i += 1;
    }
    assert(a@ =~= b@);
    true
}

/// Whether `m` occurs in `s` at `k`.
fn occurs_at_exec(s: &Vec<char>, m: &Vec<char>, k: usize) -> (r: bool)
    ensures
        r == occurs_at(s@, m@, k as int),
{
    if k > s.len() || m.len() > s.len() - k {
        return false;
    }
    let n = s.len();
    let mut j: usize = 0;
    while j < m.len()
        invariant
            n == s@.len(),
            k + m@.len() <= s@.len(),
            j <= m@.len(),
            forall|t: int| 0 <= t < j ==> s@[k + t] == m@[t],
        decreases m@.len() - j,
    {
        assert(k + j < s@.len());
        if s[k + j] != m[j] {
            assert(s@.subrange(k as int, k + m@.len())[j as int] != m@[j as int]);
            return false;
        }
        j += 1;
    }
    assert(s@.subrange(k as int, k + m@.len()) =~= m@);
    true
}

/// `m` occurs somewhere in `s` (`str::contains`).
pub open spec fn contains_text(s: Seq<char>, m: Seq<char>) -> bool {
    exists|k: int| #[trigger] occurs_at(s, m, k)
}

/// `contains_text` on characters.
pub fn contains_text_chars(s: &Vec<char>, m: &Vec<char>) -> (r: bool)
    ensures
        r == contains_text(s@, m@),
{
    if m.len() > s.len() {
        assert forall|k: int| !occurs_at(s@, m@, k) by {}
        return false;
    }
    let last = s.len() - m.len();
    let mut k: usize = 0;
    loop
        invariant
            m@.len() <= s@.len(),
            last == s@.len() - m@.len(),
            k <= last,
            forall|j: int| 0 <= j < k ==> !occurs_at(s@, m@, j),
        decreases last - k,
    {
        if occurs_at_exec(s, m, k) {
            return true;
        }
        if k == last {
            assert forall|j: int| !occurs_at(s@, m@, j) by {
                if 0 <= j < k {
                }
            }
            return false;
        }
        k += 1;
    }
}

/// `split_str_once` on characters.
pub fn split_str_once_chars(s: &Vec<char>, m: &Vec<char>) -> (r: (Vec<char>, Option<Vec<char>>))
    ensures
        r.0@ == split_str_once(s@, m@).0,
        match r.1 {
            Some(t) => split_str_once(s@, m@).1 == Some(t@),
            None => split_str_once(s@, m@).1 is None,
        },
{
    if m.len() <= s.len() {
        let last = s.len() - m.len();
        let mut k: usize = 0;
        loop
            invariant
                k <= last,
                last + m@.len() == s@.len(),
                s@.len() == s.len(),
                find_from(s@, m@, 0) == find_from(s@, m@, k as int),
            ensures
                find_from(s@, m@, 0) is None,
            decreases last - k,
        {
            if occurs_at_exec(s, m, k) {
                let a = sub_chars(s, 0, k);
                let b = sub_chars(s, k + m.len(), s.len());
                assert(s@.subrange(0, k as int) =~= s@.take(k as int));
                assert(s@.subrange(k + m@.len(), s@.len() as int) =~= s@.skip(k + m@.len()));
                return (a, Some(b));
            }
            if k == last {
                assert(find_from(s@, m@, k + 1) is None);
                assert(find_from(s@, m@, 0) is None);
                break;
            }
            k += 1;
        }
    }
    assert(find_from(s@, m@, 0) is None);
    let a = sub_chars(s, 0, s.len());
    assert(s@.subrange(0, s@.len() as int) =~= s@);
    (a, None)
}

/// `second_piece` on characters.
pub fn second_piece_chars(s: &Vec<char>, m: &Vec<char>) -> (r: Option<Vec<char>>)
    ensures
        match r {
            Some(t) => second_piece(s@, m@) == Some(t@),
            None => second_piece(s@, m@) is None,
        },
{
    match split_str_once_chars(s, m).1 {
        Some(rest) => Some(split_str_once_chars(&rest, m).0),
        None => None,
    }
}

/// `second_piece_char` on characters.
pub fn second_piece_char_chars(s: &Vec<char>, c: char) -> (r: Option<Vec<char>>)
    ensures
        match r {
            Some(t) => second_piece_char(s@, c) == Some(t@),
            None => second_piece_char(s@, c) is None,
        },
{
    match split_once_chars(s, c).1 {
        Some(rest) => Some(split_once_chars(&rest, c).0),
        None => None,
    }
}

/// `query_of` on characters.
pub fn query_of_chars(url: &Vec<char>) -> (q: Vec<char>)
    ensures
        q@ == query_of(url@),
{
    match second_piece_char_chars(url, '?') {
        Some(q) => q,
        None => Vec::new(),
    }
}

/// `query_param` on characters.
pub fn query_param_chars(query: &Vec<char>, key: &Vec<char>) -> (r: Option<Vec<char>>)
    ensures
        match r {
            Some(v) => query_param(query@, key@) == Some(v@),
            None => query_param(query@, key@) is None,
        },
{
    let mut acc: Option<Vec<char>> = None;
    let mut rem: Vec<char> = sub_chars(query, 0, query.len());
    assert(query@.subrange(0, query@.len() as int) =~= query@);
    loop
        invariant
            param_scan(query@, key@, None) == param_scan(rem@, key@, opt_chars(acc)),
        decreases rem@.len(),
    {
        proof { lemma_split_once_len(rem@, '&'); }
        let (part, rest) = split_once_chars(&rem, '&');
        let (k, _) = split_once_chars(&part, '=');
        let v = second_piece_char_chars(&part, '=');
        if chars_eq(&k, key) && v.is_some() {
            acc = v;
        }
        match rest {
            None => {
                let r = acc;
                return r;
            },
            Some(r) => {
                rem = r;
            },
        }
    }
}

} // verus!
