//! The secure resolver's decisions: ENS names go through the eth.limo
//! gateway, and answers are cached for an hour.

use vstd::prelude::*;
use crate::query::chars_eq;
use crate::text::{chars_of, push_str, sub_chars};
use crate::network::DnsProvider;

verus! {

/// How long an answer is kept, in seconds.
pub const DNS_CACHE_TTL_SECS: u64 = 3600;

/// `s` ends with `p`.
pub open spec fn ends_with(s: Seq<char>, p: Seq<char>) -> bool {
    s.len() >= p.len() && s.skip(s.len() - p.len()) == p
}

/// The name actually looked up: an ENS name (ending in `.eth`) is looked
/// up as its `.limo` gateway name; any other name as it is.
pub open spec fn lookup_name_spec(domain: Seq<char>) -> Seq<char> {
    if ends_with(domain, ".eth"@) {
        domain + ".limo"@
    } else {
        domain
    }
}

/// The name to look up for `domain` (see `lookup_name_spec`).
pub fn lookup_name(domain: &str) -> (r: String)
    ensures
        r@ == lookup_name_spec(domain@),
{
    let d = chars_of(domain);
    let suffix = chars_of(".eth");
    let ens = if d.len() >= suffix.len() {
        let tail = sub_chars(&d, d.len() - suffix.len(), d.len());
        assert(tail@ =~= d@.skip(d@.len() - suffix@.len()));
        chars_eq(&tail, &suffix)
    } else {
        false
    };
    let mut s = String::from_str(domain);
    if ens {
        push_str(&mut s, ".limo");
    }
    s
}

/// What answers a lookup.
#[derive(Debug, Clone, Copy, PartialEq, Eq, Structural)]
pub enum ResolveVia {
    /// The provider's own resolver (DNS over HTTPS, or plain DNS for
    /// Google).
    Resolver(DnsProvider),
    /// The Tor client.
    Tor,
}

/// Which resolver answers under `provider`: every provider but Tor has its
/// own resolver; DNS over Tor needs a Tor client, and without one the
/// lookup fails.
pub fn resolve_via(provider: DnsProvider, tor_client: bool) -> (r: Result<ResolveVia, String>)
    ensures
        provider != DnsProvider::Tor ==> r == Ok::<ResolveVia, String>(ResolveVia::Resolver(provider)),
        provider == DnsProvider::Tor && tor_client ==> r == Ok::<ResolveVia, String>(ResolveVia::Tor),
        provider == DnsProvider::Tor && !tor_client ==> (r matches Err(e) && e@ == "Resolver not available for Tor"@),
{
    match provider {
        DnsProvider::Tor => {
            if tor_client {
                Ok(ResolveVia::Tor)
            } else {
                Err(String::from_str("Resolver not available for Tor"))
            }
        },
        _ => Ok(ResolveVia::Resolver(provider)),
    }
}

/// One cached answer.
pub struct CacheEntry {
    pub domain: String,
    pub ips: Vec<String>,
    /// Seconds since the Unix epoch after which the answer is stale.
    pub expires: u64,
}

/// Resolved addresses by domain, each with its expiry.
pub struct DnsCache {
    entries: Vec<CacheEntry>,
}

/// The cache as a map from domain to (addresses, expiry).
pub open spec fn entries_map(es: Seq<(Seq<char>, Seq<Seq<char>>, u64)>) -> Map<Seq<char>, (Seq<Seq<char>>, u64)>
    decreases es.len(),
{
    if es.len() == 0 {
        Map::empty()
    } else {
        entries_map(es.drop_last()).insert(es.last().0, (es.last().1, es.last().2))
    }
}

pub open spec fn strings_view(v: Seq<String>) -> Seq<Seq<char>> {
    v.map_values(|s: String| s@)
}

impl DnsCache {
    pub closed spec fn rows(&self) -> Seq<(Seq<char>, Seq<Seq<char>>, u64)> {
        self.entries@.map_values(|e: CacheEntry| (e.domain@, strings_view(e.ips@), e.expires))
    }

    /// No domain appears twice.
    pub closed spec fn wf(&self) -> bool {
        forall|i: int, j: int| 0 <= i < j < self.rows().len() ==> #[trigger] self.rows()[i].0 != #[trigger] self.rows()[j].0
    }

    /// The cached answers.
    pub closed spec fn view_map(&self) -> Map<Seq<char>, (Seq<Seq<char>>, u64)> {
        entries_map(self.rows())
    }

    /// An empty cache.
    pub fn new() -> (c: Self)
        ensures
            c.wf(),
            c.view_map() == Map::<Seq<char>, (Seq<Seq<char>>, u64)>::empty(),
    {
        let c = DnsCache { entries: Vec::new() };
        assert(c.rows() =~= Seq::<(Seq<char>, Seq<Seq<char>>, u64)>::empty());
        c
    }

    proof fn lemma_map_of_unique(rows: Seq<(Seq<char>, Seq<Seq<char>>, u64)>, k: int)
        requires
            forall|i: int, j: int| 0 <= i < j < rows.len() ==> #[trigger] rows[i].0 != #[trigger] rows[j].0,
            0 <= k < rows.len(),
        ensures
            entries_map(rows).contains_key(rows[k].0),
            entries_map(rows)[rows[k].0] == (rows[k].1, rows[k].2),
        decreases rows.len(),
    {
        if k < rows.len() - 1 {
            Self::lemma_map_of_unique(rows.drop_last(), k);
        }
    }

    proof fn lemma_map_absent(rows: Seq<(Seq<char>, Seq<Seq<char>>, u64)>, d: Seq<char>)
        requires
            forall|i: int| 0 <= i < rows.len() ==> #[trigger] rows[i].0 != d,
        ensures
            !entries_map(rows).contains_key(d),
        decreases rows.len(),
    {
        if rows.len() > 0 {
            Self::lemma_map_absent(rows.drop_last(), d);
        }
    }

    proof fn lemma_map_keys(rows: Seq<(Seq<char>, Seq<Seq<char>>, u64)>, d: Seq<char>)
        requires
            entries_map(rows).contains_key(d),
        ensures
            exists|i: int| 0 <= i < rows.len() && #[trigger] rows[i].0 == d,
        decreases rows.len(),
    {
        if rows.len() > 0 && rows.last().0 != d {
            Self::lemma_map_keys(rows.drop_last(), d);
            let i = choose|i: int| 0 <= i < rows.drop_last().len() && #[trigger] rows.drop_last()[i].0 == d;
            assert(rows[i].0 == d);
        }
    }

    proof fn lemma_map_remove(rows: Seq<(Seq<char>, Seq<Seq<char>>, u64)>, k: int)
        requires
            forall|i: int, j: int| 0 <= i < j < rows.len() ==> #[trigger] rows[i].0 != #[trigger] rows[j].0,
            0 <= k < rows.len(),
        ensures
            entries_map(rows.remove(k)) == entries_map(rows).remove(rows[k].0),
        decreases rows.len(),
    {
        let r = rows.remove(k);
        if k == rows.len() - 1 {
            assert(r =~= rows.drop_last());
            assert forall|i: int| 0 <= i < r.len() implies #[trigger] r[i].0 != rows[k].0 by {}
            Self::lemma_map_absent(r, rows[k].0);
            assert(entries_map(r) =~= entries_map(rows).remove(rows[k].0));
        } else {
            Self::lemma_map_remove(rows.drop_last(), k);
            assert(r.drop_last() =~= rows.drop_last().remove(k));
            assert(r.last() == rows.last());
            assert(entries_map(r) =~= entries_map(rows).remove(rows[k].0));
        }
    }

    fn position(&self, domain: &Vec<char>) -> (r: Option<usize>)
        ensures
            match r {
                Some(i) => i < self.rows().len() && self.rows()[i as int].0 == domain@,
                None => forall|i: int| 0 <= i < self.rows().len() ==> #[trigger] self.rows()[i].0 != domain@,
            },
    {
        let mut i: usize = 0;
        while i < self.entries.len()
            invariant
                i <= self.entries@.len(),
                self.rows().len() == self.entries@.len(),
                forall|k: int| 0 <= k < i ==> #[trigger] self.rows()[k].0 != domain@,
            decreases self.entries@.len() - i,
        {
            assert(self.rows()[i as int].0 == self.entries@[i as int].domain@);
            if chars_eq(&chars_of(self.entries[i].domain.as_str()), domain) {
                return Some(i);
            }
            i += 1;
        }
        None
    }

    /// The fresh answer for `domain` at time `now`. A stale answer is
    /// dropped from the cache and not returned; other answers stay.
    pub fn get(&mut self, domain: &str, now: u64) -> (r: Option<Vec<String>>)
        requires
            old(self).wf(),
        ensures
            final(self).wf(),
            match old(self).view_map().get(domain@) {
                Some(e) => if e.1 > now {
                    &&& r matches Some(ips) && strings_view(ips@) == e.0
                    &&& final(self).view_map() == old(self).view_map()
                } else {
                    &&& r is None
                    &&& final(self).view_map() == old(self).view_map().remove(domain@)
                },
                None => r is None && final(self).view_map() == old(self).view_map(),
            },
    {
        let d = chars_of(domain);
        match self.position(&d) {
            None => {
                proof {
                    Self::lemma_map_absent(self.rows(), domain@);
                }
                None
            },
            Some(i) => {
                proof {
                    Self::lemma_map_of_unique(self.rows(), i as int);
                }
                if self.entries[i].expires > now {
                    let mut out: Vec<String> = Vec::new();
                    let mut k: usize = 0;
                    while k < self.entries[i].ips.len()
                        invariant
                            i < self.entries@.len(),
                            k <= self.entries@[i as int].ips@.len(),
                            strings_view(out@) == strings_view(self.entries@[i as int].ips@).take(k as int),
                        decreases self.entries@[i as int].ips@.len() - k,
                    {
                        let ghost prev = out@;
                        out.push(self.entries[i].ips[k].clone());
                        assert(strings_view(out@) =~= strings_view(prev).push(self.entries@[i as int].ips@[k as int]@));
                        assert(strings_view(out@) =~= strings_view(self.entries@[i as int].ips@).take(k + 1));
                        k += 1;
                    }
                    assert(strings_view(self.entries@[i as int].ips@).take(k as int) =~= strings_view(
                        self.entries@[i as int].ips@,
                    ));
                    Some(out)
                } else {
                    let ghost rows = self.rows();
                    proof {
                        Self::lemma_map_remove(rows, i as int);
                    }
                    self.entries.remove(i);
                    assert(self.rows() =~= rows.remove(i as int));
                    assert forall|a: int, b: int| 0 <= a < b < self.rows().len() implies #[trigger] self.rows()[a].0
                        != #[trigger] self.rows()[b].0 by {
                        let a2 = if a < i { a } else { a + 1 };
                        let b2 = if b < i { b } else { b + 1 };
                        assert(self.rows()[a] == rows[a2]);
                        assert(self.rows()[b] == rows[b2]);
                    }
                    None
                }
            },
        }
    }

    /// Keeps the answer `ips` for `domain` until `now + DNS_CACHE_TTL_SECS`
    /// (replacing any earlier one); empty answers are not kept.
    pub fn put(&mut self, domain: &str, ips: Vec<String>, now: u64)
        requires
            old(self).wf(),
            now <= u64::MAX - DNS_CACHE_TTL_SECS,
        ensures
            final(self).wf(),
            ips@.len() == 0 ==> final(self).view_map() == old(self).view_map(),
            ips@.len() > 0 ==> final(self).view_map() == old(self).view_map().insert(
                domain@,
                (strings_view(ips@), (now + DNS_CACHE_TTL_SECS) as u64),
            ),
    {
        if ips.len() == 0 {
            return;
        }
        let d = chars_of(domain);
        let ghost m_old = self.view_map();
        match self.position(&d) {
            Some(i) => {
                let ghost rows = self.rows();
                proof {
                    Self::lemma_map_remove(rows, i as int);
                }
                self.entries.remove(i);
                assert(self.rows() =~= rows.remove(i as int));
                assert forall|a: int, b: int| 0 <= a < b < self.rows().len() implies #[trigger] self.rows()[a].0
                    != #[trigger] self.rows()[b].0 by {
                    let a2 = if a < i { a } else { a + 1 };
                    let b2 = if b < i { b } else { b + 1 };
                    assert(self.rows()[a] == rows[a2]);
                    assert(self.rows()[b] == rows[b2]);
                }
                assert(forall|k: int| 0 <= k < self.rows().len() ==> #[trigger] self.rows()[k].0 != domain@) by {
                    assert forall|k: int| 0 <= k < self.rows().len() implies #[trigger] self.rows()[k].0 != domain@ by {
                        let k2 = if k < i { k } else { k + 1 };
                        assert(self.rows()[k] == rows[k2]);
                    }
                }
            },
            None => {
                proof {
                    Self::lemma_map_absent(self.rows(), domain@);
                    assert(m_old.remove(domain@) =~= m_old);
                }
            },
        }
        let ghost before = self.rows();
        assert(self.view_map() == m_old.remove(domain@));
        proof {
            Self::lemma_map_absent(before, domain@);
        }
        let ghost ipv = strings_view(ips@);
        self.entries.push(CacheEntry { domain: String::from_str(domain), ips, expires: now + DNS_CACHE_TTL_SECS });
        assert(self.rows() =~= before.push((domain@, ipv, (now + DNS_CACHE_TTL_SECS) as u64)));
        assert(self.rows().drop_last() =~= before);
        assert(entries_map(before) == m_old.remove(domain@));
        assert(self.view_map() == m_old.remove(domain@).insert(domain@, (ipv, (now + DNS_CACHE_TTL_SECS) as u64)));
        assert(self.view_map() =~= m_old.insert(domain@, (ipv, (now + DNS_CACHE_TTL_SECS) as u64)));
        assert forall|a: int, b: int| 0 <= a < b < self.rows().len() implies #[trigger] self.rows()[a].0
            != #[trigger] self.rows()[b].0 by {
            if b == self.rows().len() - 1 {
                assert(self.rows()[a] == before[a]);
            } else {
                assert(self.rows()[a] == before[a]);
                assert(self.rows()[b] == before[b]);
            }
        }
    }
}

/// An answer read within its hour gives back exactly what was stored.
pub proof fn lemma_cache_read_back(m: Map<Seq<char>, (Seq<Seq<char>>, u64)>, d: Seq<char>, ips: Seq<Seq<char>>, now: u64, later: u64)
    requires
        now <= u64::MAX - DNS_CACHE_TTL_SECS,
        later < now + DNS_CACHE_TTL_SECS,
    ensures
        ({
            let e = m.insert(d, (ips, (now + DNS_CACHE_TTL_SECS) as u64))[d];
            e.0 == ips && e.1 > later
        }),
{
}

} // verus!
