//! The ad and tracker blocker: an allowlist of hosts, a built-in list of
//! tracker addresses that are always blocked, and a count of blocked
//! requests.

use vstd::prelude::*;
use crate::query::{chars_eq, contains_text, contains_text_chars};
use crate::text::{all_ascii, ascii_lower, chars_of};

verus! {

/// The name for what `str::to_lowercase` makes of a text.
pub uninterp spec fn lowercase(s: Seq<char>) -> Seq<char>;

/// `str::to_lowercase`: the result is named `lowercase` of the text. On
/// ASCII text the Unicode mapping is the ASCII one (`A`..`Z` to `a`..`z`,
/// all else kept); beyond ASCII the mapping is left unsaid here.
#[verifier::external_body]
pub(crate) fn to_lower(s: &str) -> (r: String)
    ensures
        r@ == lowercase(s@),
        all_ascii(s@) ==> r@ == ascii_lower(s@),
{
    s.to_lowercase()
}

/// Tracker and ad addresses blocked wherever they appear in a (lower-cased)
/// address.
pub open spec fn hard_block_list() -> Seq<Seq<char>> {
    seq![
        "doubleclick.net"@,
        "google-analytics.com"@,
        "googletagmanager.com"@,
        "googlesyndication.com"@,
        "googleadservices.com"@,
        "facebook.com/tr"@,
        "connect.facebook.net"@,
        "scorecardresearch.com"@,
        "adservice.google"@,
        "pagead2.googlesyndication"@,
        "hotjar.com"@,
        "clarity.ms"@,
    ]
}

fn hard_block_vec() -> (v: Vec<&'static str>)
    ensures
        v@.map_values(|s: &str| s@) == hard_block_list(),
{
    let v = vec![
        "doubleclick.net",
        "google-analytics.com",
        "googletagmanager.com",
        "googlesyndication.com",
        "googleadservices.com",
        "facebook.com/tr",
        "connect.facebook.net",
        "scorecardresearch.com",
        "adservice.google",
        "pagead2.googlesyndication",
        "hotjar.com",
        "clarity.ms",
    ];
    assert(v@.map_values(|s: &str| s@) =~= hard_block_list());
    v
}

/// Some text of `list` occurs in `s`.
pub open spec fn mentions_any(s: Seq<char>, list: Seq<Seq<char>>) -> bool {
    exists|i: int| 0 <= i < list.len() && #[trigger] contains_text(s, list[i])
}

/// A ad blocker: its allowlist and the number of requests it has blocked.
pub struct AdBlocker {
    blocked: u64,
    whitelist: Vec<String>,
}

/// The mathematical form of the blocker.
pub struct AdBlockerView {
    pub blocked: u64,
    pub whitelist: Seq<Seq<char>>,
}

impl View for AdBlocker {
    type V = AdBlockerView;

    closed spec fn view(&self) -> AdBlockerView {
        AdBlockerView { blocked: self.blocked, whitelist: self.whitelist@.map_values(|s: String| s@) }
    }
}

/// The verdict on an address: allowlisted hosts pass; otherwise it is
/// blocked when its lower-cased form mentions a tracker of the built-in
/// list or the filter engine blocks it.
pub open spec fn blocks(b: AdBlockerView, url: Seq<char>, engine_blocks: bool) -> bool {
    !mentions_any(url, b.whitelist) && (mentions_any(lowercase(url), hard_block_list()) || engine_blocks)
}

/// `blocks` on an ASCII address, whose lower-cased form is its ASCII one.
pub open spec fn ascii_blocks(b: AdBlockerView, url: Seq<char>, engine_blocks: bool) -> bool {
    !mentions_any(url, b.whitelist) && (mentions_any(ascii_lower(url), hard_block_list()) || engine_blocks)
}

impl AdBlocker {
    /// A blocker allowlisting `sentinel.dao`, `localhost` and `127.0.0.1`,
    /// with nothing blocked yet.
    pub fn with_builtin_lists() -> (b: Self)
        ensures
            b@.blocked == 0,
            b@.whitelist == seq!["sentinel.dao"@, "localhost"@, "127.0.0.1"@],
    {
        let mut w: Vec<String> = Vec::new();
        w.push(String::from_str("sentinel.dao"));
        w.push(String::from_str("localhost"));
        w.push(String::from_str("127.0.0.1"));
        let b = AdBlocker { blocked: 0, whitelist: w };
        assert(b@.whitelist =~= seq!["sentinel.dao"@, "localhost"@, "127.0.0.1"@]);
        b
    }

    /// A blocker with the built-in allowlist and the stored allowlist
    /// `hosts` (each added once, see `add_whitelist_host`), nothing blocked
    /// yet: Shields then stop blocking every address that names one of
    /// those hosts.
    pub fn with_allowlist(hosts: &Vec<String>) -> (b: Self)
        ensures
            b@.blocked == 0,
            forall|i: int| 0 <= i < hosts@.len() ==> b@.whitelist.contains(#[trigger] hosts@[i]@),
            forall|w: Seq<char>| #[trigger] b@.whitelist.contains(w) ==> seq!["sentinel.dao"@, "localhost"@, "127.0.0.1"@].contains(w)
                || exists|i: int| 0 <= i < hosts@.len() && hosts@[i]@ == w,
    {
        let mut b = AdBlocker::with_builtin_lists();
        let ghost builtin = b@.whitelist;
        let mut i: usize = 0;
        while i < hosts.len()
            invariant
                i <= hosts@.len(),
                b@.blocked == 0,
                builtin == seq!["sentinel.dao"@, "localhost"@, "127.0.0.1"@],
                forall|k: int| 0 <= k < i ==> b@.whitelist.contains(#[trigger] hosts@[k]@),
                forall|w: Seq<char>| #[trigger] b@.whitelist.contains(w) ==> builtin.contains(w)
                    || exists|k: int| 0 <= k < i && hosts@[k]@ == w,
            decreases hosts@.len() - i,
        {
            let ghost before = b@.whitelist;
            b.add_whitelist_host(hosts[i].clone());
            proof {
                assert(b@.whitelist.contains(hosts@[i as int]@)) by {
                    if !before.contains(hosts@[i as int]@) {
                        assert(b@.whitelist[before.len() as int] == hosts@[i as int]@);
                    }
                }
                assert forall|k: int| 0 <= k < i + 1 implies b@.whitelist.contains(#[trigger] hosts@[k]@) by {
                    if k < i {
                        assert(before.contains(hosts@[k]@));
                        let j = choose|j: int| 0 <= j < before.len() && before[j] == hosts@[k]@;
                        assert(b@.whitelist[j] == before[j]);
                    }
                }
                assert forall|w: Seq<char>| #[trigger] b@.whitelist.contains(w) implies builtin.contains(w)
                    || exists|k: int| 0 <= k < i + 1 && hosts@[k]@ == w by {
                    if !before.contains(w) {
                        let j = choose|j: int| 0 <= j < b@.whitelist.len() && b@.whitelist[j] == w;
                        if j < before.len() {
                            assert(before[j] == w);
                        } else {
                            assert(hosts@[i as int]@ == w);
                        }
                    }
                }
            }
            i += 1;
        }
        b
    }

    /// The number of requests blocked since creation or the last reset.
    pub fn blocked_count(&self) -> (n: u64)
        ensures
            n == self@.blocked,
    {
        self.blocked
    }

    /// Sets the count of blocked requests back to 0.
    pub fn reset_count(&mut self)
        ensures
            final(self)@.blocked == 0,
            final(self)@.whitelist == old(self)@.whitelist,
    {
        self.blocked = 0;
    }

    fn whitelisted(&self, url: &Vec<char>) -> (r: bool)
        ensures
            r == mentions_any(url@, self@.whitelist),
    {
        let mut i: usize = 0;
        while i < self.whitelist.len()
            invariant
                i <= self.whitelist@.len(),
                self@.whitelist.len() == self.whitelist@.len(),
                forall|k: int| 0 <= k < i ==> !contains_text(url@, #[trigger] self@.whitelist[k]),
            decreases self.whitelist@.len() - i,
        {
            let d = chars_of(self.whitelist[i].as_str());
            assert(self@.whitelist[i as int] == self.whitelist@[i as int]@);
            if contains_text_chars(url, &d) {
                return true;
            }
            i += 1;
        }
        false
    }

    /// Decides on a request to `url`, given the filter engine's verdict
    /// (see `blocks`); each blocked request is counted (the count wraps).
    pub fn is_blocked_with(&mut self, url: &str, engine_blocks: bool) -> (r: bool)
        ensures
            r == blocks(old(self)@, url@, engine_blocks),
            all_ascii(url@) ==> r == ascii_blocks(old(self)@, url@, engine_blocks),
            final(self)@.whitelist == old(self)@.whitelist,
            final(self)@.blocked == (if r { old(self)@.blocked.wrapping_add(1) } else { old(self)@.blocked }),
    {
        let u = chars_of(url);
        if self.whitelisted(&u) {
            return false;
        }
        let lower = to_lower(url);
        let lv = chars_of(lower.as_str());
        let list = hard_block_vec();
        let mut i: usize = 0;
        let mut hard = false;
        while i < list.len()
            invariant
                i <= list@.len(),
                list@.map_values(|s: &str| s@) == hard_block_list(),
                lv@ == lowercase(url@),
                hard == (exists|k: int| 0 <= k < i && #[trigger] contains_text(lv@, hard_block_list()[k])),
            decreases list@.len() - i,
        {
            assert(hard_block_list()[i as int] == list@[i as int]@);
            let d = chars_of(list[i]);
            if contains_text_chars(&lv, &d) {
                hard = true;
            }
            i += 1;
        }
        if hard || engine_blocks {
            self.blocked = self.blocked.wrapping_add(1);
            true
        } else {
            false
        }
    }

    /// Decides on a request to `url` with the built-in list alone (no
    /// filter-engine verdict).
    pub fn is_blocked(&mut self, url: &str) -> (r: bool)
        ensures
            r == blocks(old(self)@, url@, false),
            all_ascii(url@) ==> r == ascii_blocks(old(self)@, url@, false),
            final(self)@.whitelist == old(self)@.whitelist,
            final(self)@.blocked == (if r { old(self)@.blocked.wrapping_add(1) } else { old(self)@.blocked }),
    {
        self.is_blocked_with(url, false)
    }

    /// Adds `host` to the allowlist unless it is already there.
    pub fn add_whitelist_host(&mut self, host: String)
        ensures
            final(self)@.blocked == old(self)@.blocked,
            final(self)@.whitelist == (if old(self)@.whitelist.contains(host@) {
                old(self)@.whitelist
            } else {
                old(self)@.whitelist.push(host@)
            }),
    {
        let h = chars_of(host.as_str());
        let mut i: usize = 0;
        while i < self.whitelist.len()
            invariant
                i <= self.whitelist@.len(),
                self@.whitelist.len() == self.whitelist@.len(),
                h@ == host@,
                forall|k: int| 0 <= k < i ==> self@.whitelist[k] != host@,
            decreases self.whitelist@.len() - i,
        {
            assert(self@.whitelist[i as int] == self.whitelist@[i as int]@);
            let w = chars_of(self.whitelist[i].as_str());
            if chars_eq(&w, &h) {
                return;
            }
            i += 1;
        }
        let ghost before = self@.whitelist;
        self.whitelist.push(host);
        assert(self@.whitelist =~= before.push(host@));
    }
}

/// An allowlisted address is never blocked, whatever the filter engine
/// says, and is not counted.
pub proof fn lemma_allowlisted_never_blocked(b: AdBlockerView, url: Seq<char>, engine_blocks: bool)
    requires
        mentions_any(url, b.whitelist),
    ensures
        !blocks(b, url, engine_blocks),
{
}

/// Once a host is on the allowlist, Shields stop blocking it: no address
/// naming that host is blocked, whatever the filter engine says.
pub proof fn lemma_allowed_host_passes(b: AdBlockerView, host: Seq<char>, url: Seq<char>, engine_blocks: bool)
    requires
        b.whitelist.contains(host),
        contains_text(url, host),
    ensures
        !blocks(b, url, engine_blocks),
{
    let j = choose|j: int| 0 <= j < b.whitelist.len() && b.whitelist[j] == host;
    assert(contains_text(url, b.whitelist[j]));
}

/// Every tracker of the built-in list is blocked: an address that is not
/// allowlisted and whose lower-cased form names any of the twelve tracker
/// addresses is blocked, whatever the filter engine says; for an ASCII
/// address the same holds of its ASCII lower-cased form.
pub proof fn lemma_trackers_blocked(b: AdBlockerView, url: Seq<char>, engine_blocks: bool, tracker: Seq<char>)
    requires
        !mentions_any(url, b.whitelist),
        tracker == "doubleclick.net"@ || tracker == "google-analytics.com"@ || tracker == "googletagmanager.com"@
            || tracker == "googlesyndication.com"@ || tracker == "googleadservices.com"@ || tracker == "facebook.com/tr"@
            || tracker == "connect.facebook.net"@ || tracker == "scorecardresearch.com"@ || tracker == "adservice.google"@
            || tracker == "pagead2.googlesyndication"@ || tracker == "hotjar.com"@ || tracker == "clarity.ms"@,
    ensures
        contains_text(lowercase(url), tracker) ==> blocks(b, url, engine_blocks),
        contains_text(ascii_lower(url), tracker) ==> ascii_blocks(b, url, engine_blocks),
{
    let l = hard_block_list();
    let k: int = if tracker == "doubleclick.net"@ { 0 } else if tracker == "google-analytics.com"@ { 1 } else if tracker
        == "googletagmanager.com"@ { 2 } else if tracker == "googlesyndication.com"@ { 3 } else if tracker
        == "googleadservices.com"@ { 4 } else if tracker == "facebook.com/tr"@ { 5 } else if tracker
        == "connect.facebook.net"@ { 6 } else if tracker == "scorecardresearch.com"@ { 7 } else if tracker
        == "adservice.google"@ { 8 } else if tracker == "pagead2.googlesyndication"@ { 9 } else if tracker
        == "hotjar.com"@ { 10 } else { 11 };
    assert(l[k] == tracker);
    if contains_text(lowercase(url), tracker) {
        assert(contains_text(lowercase(url), l[k]));
    }
    if contains_text(ascii_lower(url), tracker) {
        assert(contains_text(ascii_lower(url), l[k]));
    }
}

/// Nothing else is blocked: without the filter engine's verdict, a blocked
/// address is not allowlisted and its lower-cased form names one of the
/// twelve tracker addresses.
pub proof fn lemma_only_trackers_blocked(b: AdBlockerView, url: Seq<char>)
    ensures
        blocks(b, url, false) ==> !mentions_any(url, b.whitelist) && {
            let u = lowercase(url);
            ||| contains_text(u, "doubleclick.net"@)
            ||| contains_text(u, "google-analytics.com"@)
            ||| contains_text(u, "googletagmanager.com"@)
            ||| contains_text(u, "googlesyndication.com"@)
            ||| contains_text(u, "googleadservices.com"@)
            ||| contains_text(u, "facebook.com/tr"@)
            ||| contains_text(u, "connect.facebook.net"@)
            ||| contains_text(u, "scorecardresearch.com"@)
            ||| contains_text(u, "adservice.google"@)
            ||| contains_text(u, "pagead2.googlesyndication"@)
            ||| contains_text(u, "hotjar.com"@)
            ||| contains_text(u, "clarity.ms"@)
        },
{
    if blocks(b, url, false) {
        let l = hard_block_list();
        let k = choose|k: int| 0 <= k < l.len() && #[trigger] contains_text(lowercase(url), l[k]);
        assert(contains_text(lowercase(url), l[k]));
    }
}

/// What a filter rule does with a matching request.
#[derive(Debug, Clone, PartialEq, Eq)]
pub enum FilterAction {
    Block,
    Allow,
    Redirect(String),
}

} // verus!
