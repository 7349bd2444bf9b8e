//! How Horus merges hits from all sources: a stable sort by score (highest
//! first) and then by title, removal of repeated addresses that end up
//! next to each other, and a cap of 40 hits.

use vstd::prelude::*;
use crate::search::{copy_result, results_view, ResultBadge, ResultView, SearchResult};

verus! {

broadcast use vstd::seq_lib::group_seq_properties;

/// Verified hits gain 2, onion hits 1, local-index hits 3.
pub open spec fn score(r: ResultView) -> int {
    (if r.verified { 2int } else { 0int }) + (if r.badge == ResultBadge::Onion { 1int } else { 0int }) + (if r.badge
        == ResultBadge::Local { 3int } else { 0int })
}

/// `a` sorts strictly before `b` in code-point order (the order of
/// `String`'s `cmp`).
pub open spec fn text_lt(a: Seq<char>, b: Seq<char>) -> bool
    decreases a.len(),
{
    if a.len() == 0 {
        b.len() > 0
    } else if b.len() == 0 {
        false
    } else if (a[0] as u32) < (b[0] as u32) {
        true
    } else if (a[0] as u32) > (b[0] as u32) {
        false
    } else {
        text_lt(a.drop_first(), b.drop_first())
    }
}

/// `a` ranks strictly before `b`: a higher score, or an equal score and a
/// smaller title.
pub open spec fn precedes(a: ResultView, b: ResultView) -> bool {
    score(a) > score(b) || (score(a) == score(b) && text_lt(a.title, b.title))
}

/// No hit ranks strictly before one that comes earlier.
pub open spec fn ranked(s: Seq<ResultView>) -> bool {
    forall|i: int, j: int| 0 <= i < j < s.len() ==> !precedes(#[trigger] s[j], #[trigger] s[i])
}

/// The first position at or after `i` whose hit `x` ranks strictly before.
pub open spec fn insert_pos(s: Seq<ResultView>, x: ResultView, i: int) -> int
    decreases s.len() - i,
{
    if i < 0 || i >= s.len() {
        s.len() as int
    } else if precedes(x, s[i]) {
        i
    } else {
        insert_pos(s, x, i + 1)
    }
}

/// The stable sort by rank: each hit in turn goes after every hit already
/// placed that it does not rank strictly before.
pub open spec fn rank_sort(s: Seq<ResultView>) -> Seq<ResultView>
    decreases s.len(),
{
    if s.len() == 0 {
        s
    } else {
        let sorted = rank_sort(s.drop_last());
        sorted.insert(insert_pos(sorted, s.last(), 0), s.last())
    }
}

/// Drops every hit whose address equals that of the hit kept just before
/// it.
pub open spec fn dedup_urls(s: Seq<ResultView>) -> Seq<ResultView>
    decreases s.len(),
{
    if s.len() == 0 {
        s
    } else {
        let d = dedup_urls(s.drop_last());
        if d.len() > 0 && d.last().url == s.last().url {
            d
        } else {
            d.push(s.last())
        }
    }
}

/// At most the first 40 hits.
pub open spec fn cap40(s: Seq<ResultView>) -> Seq<ResultView> {
    if s.len() <= 40 {
        s
    } else {
        s.take(40)
    }
}

/// The merged result list Horus shows for a set of hits.
pub open spec fn merged(s: Seq<ResultView>) -> Seq<ResultView> {
    cap40(dedup_urls(rank_sort(s)))
}

proof fn lemma_text_lt_irrefl(a: Seq<char>)
    ensures
        !text_lt(a, a),
    decreases a.len(),
{
    if a.len() > 0 {
        lemma_text_lt_irrefl(a.drop_first());
    }
}

proof fn lemma_text_lt_trans(a: Seq<char>, b: Seq<char>, c: Seq<char>)
    requires
        text_lt(a, b),
        text_lt(b, c),
    ensures
        text_lt(a, c),
    decreases a.len(),
{
    if a.len() > 0 && b.len() > 0 && c.len() > 0 {
        if (a[0] as u32) == (b[0] as u32) && (b[0] as u32) == (c[0] as u32) {
            lemma_text_lt_trans(a.drop_first(), b.drop_first(), c.drop_first());
        }
    }
}

/// Ranking is a strict order: irreflexive and transitive.
pub proof fn lemma_precedes_strict(a: ResultView, b: ResultView, c: ResultView)
    ensures
        !precedes(a, a),
        precedes(a, b) && precedes(b, c) ==> precedes(a, c),
{
    lemma_text_lt_irrefl(a.title);
    if precedes(a, b) && precedes(b, c) && score(a) == score(b) && score(b) == score(c) {
        lemma_text_lt_trans(a.title, b.title, c.title);
    }
}

proof fn lemma_insert_pos_props(s: Seq<ResultView>, x: ResultView, i: int)
    requires
        0 <= i <= s.len(),
    ensures
        i <= insert_pos(s, x, i) <= s.len(),
        forall|k: int| i <= k < insert_pos(s, x, i) ==> !precedes(x, #[trigger] s[k]),
        insert_pos(s, x, i) < s.len() ==> precedes(x, s[insert_pos(s, x, i)]),
    decreases s.len() - i,
{
    if i < s.len() && !precedes(x, s[i]) {
        lemma_insert_pos_props(s, x, i + 1);
    }
}

proof fn lemma_insert_keeps_ranked(s: Seq<ResultView>, x: ResultView)
    requires
        ranked(s),
    ensures
        ranked(s.insert(insert_pos(s, x, 0), x)),
{
    lemma_insert_pos_props(s, x, 0);
    let p = insert_pos(s, x, 0);
    let t = s.insert(p, x);
    assert forall|i: int, j: int| 0 <= i < j < t.len() implies !precedes(#[trigger] t[j], #[trigger] t[i]) by {
        lemma_precedes_strict(t[j], t[i], t[i]);
        if i < p && j < p {
            assert(t[i] == s[i] && t[j] == s[j]);
        } else if i < p && j == p {
            assert(t[i] == s[i]);
        } else if i < p && j > p {
            assert(t[i] == s[i] && t[j] == s[j - 1]);
        } else if i == p {
            assert(t[j] == s[j - 1]);
            assert(!precedes(s[j - 1], s[p]));
            lemma_precedes_strict(s[j - 1], x, s[p]);
        } else {
            assert(t[i] == s[i - 1] && t[j] == s[j - 1]);
        }
    }
}

/// The rank sort orders its hits by rank.
pub proof fn lemma_rank_sort_ranked(s: Seq<ResultView>)
    ensures
        ranked(rank_sort(s)),
    decreases s.len(),
{
    if s.len() > 0 {
        lemma_rank_sort_ranked(s.drop_last());
        lemma_insert_keeps_ranked(rank_sort(s.drop_last()), s.last());
    }
}

/// The rank sort neither loses nor invents hits: it holds the same hits,
/// each as often.
pub proof fn lemma_rank_sort_permutes(s: Seq<ResultView>)
    ensures
        rank_sort(s).to_multiset() == s.to_multiset(),
        rank_sort(s).len() == s.len(),
    decreases s.len(),
{
    if s.len() > 0 {
        let r = rank_sort(s.drop_last());
        lemma_rank_sort_permutes(s.drop_last());
        lemma_insert_pos_props(r, s.last(), 0);
        let p = insert_pos(r, s.last(), 0);
        vstd::seq_lib::to_multiset_insert(r, p, s.last());
        vstd::seq_lib::to_multiset_build(s.drop_last(), s.last());
        assert(s =~= s.drop_last().push(s.last()));
    }
}

proof fn lemma_dedup_from(s: Seq<ResultView>)
    ensures
        dedup_urls(s).len() <= s.len(),
        forall|k: int| 0 <= k < dedup_urls(s).len() ==> s.contains(#[trigger] dedup_urls(s)[k]),
        forall|k: int| 0 <= k < dedup_urls(s).len() - 1 ==> #[trigger] dedup_urls(s)[k].url != dedup_urls(s)[k + 1].url,
        ranked(s) ==> ranked(dedup_urls(s)),
        s.len() > 0 ==> dedup_urls(s).len() > 0 && dedup_urls(s).last() == s.last()
            || dedup_urls(s).len() > 0 && dedup_urls(s).last().url == s.last().url,
    decreases s.len(),
{
    if s.len() > 0 {
        let d = dedup_urls(s.drop_last());
        lemma_dedup_from(s.drop_last());
        assert forall|k: int| 0 <= k < d.len() implies s.contains(#[trigger] d[k]) by {
            assert(s.drop_last().contains(d[k]));
            let j = choose|j: int| 0 <= j < s.drop_last().len() && s.drop_last()[j] == d[k];
            assert(s[j] == d[k]);
        }
        assert(s[s.len() - 1] == s.last());
        if ranked(s) {
            assert(ranked(s.drop_last()));
            if !(d.len() > 0 && d.last().url == s.last().url) {
                let e = d.push(s.last());
                assert forall|i: int, j: int| 0 <= i < j < e.len() implies !precedes(#[trigger] e[j], #[trigger] e[i]) by {
                    if j == e.len() - 1 {
                        assert(s.drop_last().contains(e[i]));
                        let k = choose|k: int| 0 <= k < s.drop_last().len() && s.drop_last()[k] == e[i];
                        assert(s[k] == e[i]);
                    }
                }
            }
        }
    }
}

/// What Horus shows is ranked, holds no two neighbouring hits with the
/// same address, holds at most 40 hits, and only hits it was given.
pub proof fn lemma_merged_props(s: Seq<ResultView>)
    ensures
        ranked(merged(s)),
        merged(s).len() <= 40,
        merged(s).len() <= s.len(),
        forall|k: int| 0 <= k < merged(s).len() - 1 ==> #[trigger] merged(s)[k].url != merged(s)[k + 1].url,
        forall|k: int| 0 <= k < merged(s).len() ==> s.contains(#[trigger] merged(s)[k]),
{
    let r = rank_sort(s);
    lemma_rank_sort_ranked(s);
    lemma_rank_sort_permutes(s);
    lemma_dedup_from(r);
    let d = dedup_urls(r);
    let m = merged(s);
    assert forall|k: int| 0 <= k < m.len() implies s.contains(#[trigger] m[k]) by {
        assert(m[k] == d[k]);
        assert(r.contains(d[k]));
        let j = choose|j: int| 0 <= j < r.len() && r[j] == d[k];
        assert(r.to_multiset().count(r[j]) > 0);
        assert(s.to_multiset().count(r[j]) > 0);
    }
    assert forall|k: int| 0 <= k < m.len() - 1 implies #[trigger] m[k].url != m[k + 1].url by {
        assert(m[k] == d[k] && m[k + 1] == d[k + 1]);
    }
    assert forall|i: int, j: int| 0 <= i < j < m.len() implies !precedes(#[trigger] m[j], #[trigger] m[i]) by {
        assert(m[i] == d[i] && m[j] == d[j]);
    }
}

fn text_less(a: &String, b: &String) -> (r: bool)
    ensures
        r == text_lt(a@, b@),
{
    let av = crate::text::chars_of(a.as_str());
    let bv = crate::text::chars_of(b.as_str());
    let mut i: usize = 0;
    while i < av.len() && i < bv.len()
        invariant
            av@ == a@,
            bv@ == b@,
            i <= av@.len(),
            i <= bv@.len(),
            text_lt(a@, b@) == text_lt(a@.skip(i as int), b@.skip(i as int)),
        decreases av@.len() - i,
    {
        let x = av[i];
        let y = bv[i];
        assert(a@.skip(i as int)[0] == x && b@.skip(i as int)[0] == y);
        if (x as u32) < (y as u32) {
            return true;
        }
        if (x as u32) > (y as u32) {
            return false;
        }
        assert(a@.skip(i as int).drop_first() =~= a@.skip(i + 1));
        assert(b@.skip(i as int).drop_first() =~= b@.skip(i + 1));
        i += 1;
    }
    i == av.len() && i < bv.len()
}

fn score_of(r: &SearchResult) -> (s: u8)
    ensures
        s as int == score(r@),
{
    let mut s: u8 = 0;
    if r.verified {
        s += 2;
    }
    if r.badge == ResultBadge::Onion {
        s += 1;
    }
    if r.badge == ResultBadge::Local {
        s += 3;
    }
    s
}

fn ranks_before(a: &SearchResult, b: &SearchResult) -> (r: bool)
    ensures
        r == precedes(a@, b@),
{
    let sa = score_of(a);
    let sb = score_of(b);
    sa > sb || (sa == sb && text_less(&a.title, &b.title))
}

/// Ranks, deduplicates and caps hits (see `merged`).
pub fn rank_results(all: &Vec<SearchResult>) -> (r: Vec<SearchResult>)
    ensures
        results_view(r@) == merged(results_view(all@)),
{
    let ghost src = results_view(all@);
    let mut sorted: Vec<SearchResult> = Vec::new();
    let mut i: usize = 0;
    while i < all.len()
        invariant
            i <= all@.len(),
            src == results_view(all@),
            results_view(sorted@) == rank_sort(src.take(i as int)),
        decreases all@.len() - i,
    {
        let x = &all[i];
        let ghost pre = rank_sort(src.take(i as int));
        assert(src.take(i + 1).drop_last() =~= src.take(i as int));
        assert(src.take(i + 1).last() == x@);
        let mut p: usize = 0;
        while p < sorted.len()
            invariant
                results_view(sorted@) == pre,
                p <= sorted@.len(),
                insert_pos(pre, x@, 0) == insert_pos(pre, x@, p as int),
            ensures
                p <= sorted@.len(),
                insert_pos(pre, x@, 0) == p,
            decreases sorted@.len() - p,
        {
            assert(pre[p as int] == sorted@[p as int]@);
            if ranks_before(x, &sorted[p]) {
                break;
            }
            p += 1;
        }
        sorted.insert(p, copy_result(x));
        assert(results_view(sorted@) =~= pre.insert(p as int, x@));
        i += 1;
    }
    assert(src.take(all@.len() as int) =~= src);
    let mut out: Vec<SearchResult> = Vec::new();
    let ghost rs = rank_sort(src);
    let mut j: usize = 0;
    while j < sorted.len()
        invariant
            results_view(sorted@) == rs,
            j <= sorted@.len(),
            results_view(out@) == dedup_urls(rs.take(j as int)),
        decreases sorted@.len() - j,
    {
        let y = &sorted[j];
        assert(rs.take(j + 1).drop_last() =~= rs.take(j as int));
        assert(rs.take(j + 1).last() == y@);
        let n = out.len();
        let dup = n > 0 && out[n - 1].url == y.url;
        if !dup {
            out.push(copy_result(y));
            assert(results_view(out@) =~= dedup_urls(rs.take(j as int)).push(y@));
        } else {
            assert(results_view(out@).last() == out@[n - 1]@);
        }
        j += 1;
    }
    assert(rs.take(sorted@.len() as int) =~= rs);
    out.truncate(40);
    assert(results_view(out@) =~= cap40(dedup_urls(rs)));
    out
}

} // verus!
