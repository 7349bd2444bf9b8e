//! The browser window's decisions: the tab strip rows, the privacy flags
//! handed to the content view, when the content view needs the SOCKS
//! proxy, how pages are wrapped before display, URL-bar editing, and the
//! small cache of live content views (most recently used kept, three at
//! most).

use vstd::prelude::*;
use crate::codec::{escape_min, html_escape_simple, starts_with, starts_with_chars};
use crate::network::Protocol;
use crate::query::{contains_text, contains_text_chars, split_str_once, split_str_once_chars};
use crate::text::{chars_of, decimal, push_decimal, push_str, string_of, sub_chars};

verus! {

/// One tab as shown in the tab strip.
#[derive(Debug, Clone)]
pub struct TabInfo {
    pub id: u32,
    pub title: String,
    pub url: String,
    pub active: bool,
}

/// The tab strip rows for the `(id, title, url, active)` rows of the tab
/// manager, in the same order.
pub fn tab_infos(rows: Vec<(u32, String, String, bool)>) -> (r: Vec<TabInfo>)
    ensures
        r@.len() == rows@.len(),
        forall|i: int|
            0 <= i < r@.len() ==> {
                &&& (#[trigger] r@[i]).id == rows@[i].0
                &&& r@[i].title@ == rows@[i].1@
                &&& r@[i].url@ == rows@[i].2@
                &&& r@[i].active == rows@[i].3
            },
{
    let mut out: Vec<TabInfo> = Vec::new();
    let mut i: usize = 0;
    while i < rows.len()
        invariant
            i <= rows@.len(),
            out@.len() == i,
            forall|k: int|
                0 <= k < i ==> {
                    &&& (#[trigger] out@[k]).id == rows@[k].0
                    &&& out@[k].title@ == rows@[k].1@
                    &&& out@[k].url@ == rows@[k].2@
                    &&& out@[k].active == rows@[k].3
                },
        decreases rows@.len() - i,
    {
        let r = &rows[i];
        out.push(TabInfo { id: r.0, title: r.1.clone(), url: r.2.clone(), active: r.3 });
        i += 1;
    }
    out
}

/// How a chrome box is laid out.
#[derive(Debug, Clone, Copy, PartialEq, Eq, Structural)]
pub enum DisplayMode {
    Block,
    Inline,
    Flex,
    /// Not shown.
    Hidden,
}

/// The privacy flags of the content view, shown on the security page.
#[derive(Debug, Clone)]
pub struct PrivacyState {
    pub webrtc_blocked: bool,
    pub webgl_disabled: bool,
    pub third_party_cookies_blocked: bool,
    pub dnt: bool,
    pub security_level: String,
    pub sandbox_label: String,
}

impl Default for PrivacyState {
    /// WebRTC and third-party cookies blocked, Do-Not-Track on, WebGL
    /// allowed, Standard level.
    fn default() -> (p: Self)
        ensures
            p.webrtc_blocked,
            !p.webgl_disabled,
            p.third_party_cookies_blocked,
            p.dnt,
            p.security_level@ == "Standard"@,
            p.sandbox_label@ == "Job Object (when applied)"@,
    {
        PrivacyState {
            webrtc_blocked: true,
            webgl_disabled: false,
            third_party_cookies_blocked: true,
            dnt: true,
            security_level: String::from_str("Standard"),
            sandbox_label: String::from_str("Job Object (when applied)"),
        }
    }
}

/// The short network name shown in the chrome.
pub open spec fn network_label_spec(p: Protocol) -> Seq<char> {
    match p {
        Protocol::Clearweb => "Direct"@,
        Protocol::Tor { .. } => "Tor"@,
        Protocol::I2P => "I2P"@,
        Protocol::V2Ray(_) => "V2Ray"@,
        Protocol::WireGuard { .. } => "WG"@,
    }
}

/// The short network name of a protocol (see `network_label_spec`).
pub fn network_label(p: &Protocol) -> (r: String)
    ensures
        r@ == network_label_spec(*p),
{
    match p {
        Protocol::Clearweb => String::from_str("Direct"),
        Protocol::Tor { .. } => String::from_str("Tor"),
        Protocol::I2P => String::from_str("I2P"),
        Protocol::V2Ray(_) => String::from_str("V2Ray"),
        Protocol::WireGuard { .. } => String::from_str("WG"),
    }
}

/// The proxy a page load or a network change asks of the content view:
/// the SOCKS port on Tor or V2Ray and for onion addresses, none otherwise.
pub fn socks_for_page(url: &str, label: &str, socks_port: Option<u16>) -> (r: Option<u16>)
    ensures
        r == (if contains_text(url@, ".onion"@) || label@ == "Tor"@ || label@ == "V2Ray"@ {
            socks_port
        } else {
            None
        }),
{
    let need = contains_text_chars(&chars_of(url), &chars_of(".onion")) || crate::query::chars_eq(
        &chars_of(label),
        &chars_of("Tor"),
    ) || crate::query::chars_eq(&chars_of(label), &chars_of("V2Ray"));
    if need {
        socks_port
    } else {
        None
    }
}

/// The proxy once SOCKS comes up on `port`: used on Tor and when the
/// current page is an onion address.
pub fn socks_when_ready(label: &str, current_url: &str, port: u16) -> (r: Option<u16>)
    ensures
        r == (if label@ == "Tor"@ || contains_text(current_url@, ".onion"@) { Some(port) } else { None }),
{
    if crate::query::chars_eq(&chars_of(label), &chars_of("Tor")) || contains_text_chars(
        &chars_of(current_url),
        &chars_of(".onion"),
    ) {
        Some(port)
    } else {
        None
    }
}

/// The script injected into every page: Do-Not-Track always, the WebRTC
/// block and the WebGL block when their flags are set.
pub open spec fn privacy_script_spec(webrtc_blocked: bool, webgl_disabled: bool) -> Seq<char> {
    SCRIPT_DNT@ + (if webrtc_blocked { SCRIPT_WEBRTC@ } else { seq![] }) + (if webgl_disabled {
        SCRIPT_WEBGL@
    } else {
        seq![]
    }) + "})();"@
}

pub const SCRIPT_DNT: &'static str = r##"(() => { try { Object.defineProperty(navigator, 'doNotTrack', { get: () => '1' }); } catch(e) {} "##;

pub const SCRIPT_WEBRTC: &'static str = r##"
try {
  const block = function() { throw new Error('WebRTC blocked by Sentinel'); };
  window.RTCPeerConnection = block;
  window.webkitRTCPeerConnection = block;
  window.mozRTCPeerConnection = block;
} catch(e) {}
"##;

pub const SCRIPT_WEBGL: &'static str = r##"
try {
  const no = function() { return null; };
  HTMLCanvasElement.prototype.getContext = function(t) {
    if (t && String(t).toLowerCase().indexOf('webgl') >= 0) return null;
    return HTMLCanvasElement.prototype.getContext.call(this, t);
  };
} catch(e) {}
"##;

/// The injected privacy script for the given flags.
pub fn privacy_init_script(p: &PrivacyState) -> (r: String)
    ensures
        r@ == privacy_script_spec(p.webrtc_blocked, p.webgl_disabled),
{
    let mut s = String::from_str(SCRIPT_DNT);
    if p.webrtc_blocked {
        push_str(&mut s, SCRIPT_WEBRTC);
    }
    if p.webgl_disabled {
        push_str(&mut s, SCRIPT_WEBGL);
    }
    push_str(&mut s, "})();");
    assert(s@ =~= privacy_script_spec(p.webrtc_blocked, p.webgl_disabled));
    s
}

/// The shared page style inserted into internal pages.
pub const SHARED_STYLE: &'static str = r##"<style>
body{margin:0;padding:24px;background:#1a1a1a;color:#fff;font-family:Segoe UI,system-ui,sans-serif;line-height:1.5}
a{color:#00d9f2} h1,h2,h3{color:#00d9f2}
section{margin-bottom:1.5rem;padding:1rem;background:#1b1d1f;border-radius:8px}
.badge-onion{display:inline-block;background:#8c59d9;color:#fff;padding:2px 8px;border-radius:4px;font-size:12px;font-weight:700}
.badge-clear{display:inline-block;background:#2a6;color:#fff;padding:2px 8px;border-radius:4px;font-size:12px;font-weight:700}
.onion-url{font-family:Consolas,monospace;font-size:13px;opacity:.9}
.result{border-left:3px solid #333;padding-left:12px;margin:12px 0}
.result.onion{border-left-color:#8c59d9;background:#1e1830}
code{background:#111;padding:2px 6px;border-radius:4px}
</style>"##;

/// A fragment put into a full document with the shared style.
pub open spec fn wrapped_fragment(html: Seq<char>) -> Seq<char> {
    "<!DOCTYPE html><html><head><meta charset=\"utf-8\">"@ + SHARED_STYLE@ + "</head><body>"@ + html + "</body></html>"@
}

/// What the content view is given for `html`: a document that already
/// carries the search badges as it is; another document with the shared
/// style put right after its first `<head>`; anything else (including a
/// document without `<head>`) wrapped as a fragment.
pub open spec fn page_for_view_spec(html: Seq<char>) -> Seq<char> {
    if contains_text(html, "<html"@) {
        if contains_text(html, "badge-onion"@) {
            html
        } else {
            match split_str_once(html, "<head>"@) {
                (before, Some(after)) => before + "<head>"@ + SHARED_STYLE@ + after,
                (_, None) => wrapped_fragment(html),
            }
        }
    } else {
        wrapped_fragment(html)
    }
}

/// The document handed to the content view (see `page_for_view_spec`).
pub fn page_for_view(html: &str) -> (r: String)
    ensures
        r@ == page_for_view_spec(html@),
{
    let h = chars_of(html);
    if contains_text_chars(&h, &chars_of("<html")) {
        if contains_text_chars(&h, &chars_of("badge-onion")) {
            return String::from_str(html);
        }
        let (before, after) = split_str_once_chars(&h, &chars_of("<head>"));
        match after {
            Some(a) => {
                let mut s = string_of(&before);
                push_str(&mut s, "<head>");
                push_str(&mut s, SHARED_STYLE);
                let rest = string_of(&a);
                push_str(&mut s, rest.as_str());
                return s;
            },
            None => {},
        }
    }
    let mut s = String::from_str("<!DOCTYPE html><html><head><meta charset=\"utf-8\">");
    push_str(&mut s, SHARED_STYLE);
    push_str(&mut s, "</head><body>");
    push_str(&mut s, html);
    push_str(&mut s, "</body></html>");
    s
}

/// A rebuilt content view reloads its last address itself only when that
/// is an `http(s)` address.
pub fn restore_loads_url(restore_url: &str) -> (b: bool)
    ensures
        b == (starts_with(restore_url@, "http://"@) || starts_with(restore_url@, "https://"@)),
{
    let u = chars_of(restore_url);
    starts_with_chars(&u, "http://") || starts_with_chars(&u, "https://")
}

/// The page shown for a configuration error; the message is escaped.
pub fn configuration_error_page(msg: &str) -> (r: String)
    ensures
        r@ == "<html><body style='background:#1a1a1a;color:#fff;font-family:sans-serif;padding:2rem'><h1>Configuration</h1><p>"@
            + escape_min(msg@) + "</p></body></html>"@,
{
    let mut s = String::from_str(
        "<html><body style='background:#1a1a1a;color:#fff;font-family:sans-serif;padding:2rem'><h1>Configuration</h1><p>",
    );
    let e = html_escape_simple(msg);
    push_str(&mut s, e.as_str());
    push_str(&mut s, "</p></body></html>");
    s
}

/// The splash shown before the first page arrives.
pub const WELCOME_SPLASH: &'static str = r##"<!DOCTYPE html><html><head><meta charset="utf-8"><style>
body{margin:0;background:#1a1a1a;color:#fff;font-family:Segoe UI,sans-serif;display:flex;align-items:center;justify-content:center;height:100vh}
.card{text-align:center}h1{color:#00d9f2;font-size:2.5rem;margin:0}p{opacity:.8}
</style></head><body><div class="card"><h1>SENTINEL</h1><p>Loading Horus search &amp; Vortex…</p></div></body></html>"##;

/// The splash page.
pub fn welcome_splash() -> (r: String)
    ensures
        r@ == WELCOME_SPLASH@,
{
    String::from_str(WELCOME_SPLASH)
}

/// A control character (`char::is_control`: Unicode category Cc).
pub open spec fn is_control(c: char) -> bool {
    (c as u32) < 0x20 || (0x7f <= (c as u32) && (c as u32) <= 0x9f)
}

/// Typed text enters the URL bar unless it holds a control character.
pub fn url_bar_type(buffer: &mut String, typed: &str)
    ensures
        (exists|i: int| 0 <= i < typed@.len() && #[trigger] is_control(typed@[i])) ==> final(buffer)@ == old(buffer)@,
        !(exists|i: int| 0 <= i < typed@.len() && #[trigger] is_control(typed@[i])) ==> final(buffer)@ == old(buffer)@
            + typed@,
{
    let t = chars_of(typed);
    let mut i: usize = 0;
    while i < t.len()
        invariant
            i <= t@.len(),
            t@ == typed@,
            forall|k: int| 0 <= k < i ==> !is_control(#[trigger] t@[k]),
        decreases t@.len() - i,
    {
        let c = t[i];
        if (c as u32) < 0x20 || (0x7f <= (c as u32) && (c as u32) <= 0x9f) {
            assert(is_control(typed@[i as int]));
            return;
        }
        i += 1;
    }
    push_str(buffer, typed);
}

/// Backspace removes the URL bar's last character, if any.
pub fn url_bar_backspace(buffer: &mut String)
    ensures
        old(buffer)@.len() == 0 ==> final(buffer)@ == old(buffer)@,
        old(buffer)@.len() > 0 ==> final(buffer)@ == old(buffer)@.drop_last(),
{
    let v = chars_of(buffer.as_str());
    if v.len() > 0 {
        let w = sub_chars(&v, 0, v.len() - 1);
        assert(w@ =~= v@.drop_last());
        *buffer = string_of(&w);
    }
}

/// The URL-bar text drawn: a blinking `|` cursor is appended while the bar
/// has focus and the cursor is in its visible phase.
pub fn url_bar_display(buffer: &str, focused: bool, cursor_visible: bool) -> (r: String)
    ensures
        r@ == (if focused && cursor_visible { buffer@ + "|"@ } else { buffer@ }),
{
    let mut s = String::from_str(buffer);
    if focused && cursor_visible {
        push_str(&mut s, "|");
    }
    s
}

/// A tab's label in the strip: its first 12 characters, or `Tab` for an
/// untitled tab.
pub fn tab_label(title: &str) -> (r: String)
    ensures
        title@.len() == 0 ==> r@ == "Tab"@,
        0 < title@.len() <= 12 ==> r@ == title@,
        title@.len() > 12 ==> r@ == title@.take(12),
{
    let t = chars_of(title);
    if t.len() == 0 {
        String::from_str("Tab")
    } else if t.len() <= 12 {
        String::from_str(title)
    } else {
        let h = sub_chars(&t, 0, 12);
        assert(h@ =~= t@.take(12));
        string_of(&h)
    }
}

/// The shield counter's label.
pub fn shield_label(blocked: u64) -> (r: String)
    ensures
        r@ == "Shield "@ + decimal(blocked as nat),
{
    let mut s = String::from_str("Shield ");
    push_decimal(&mut s, blocked);
    s
}

/// How many content views are kept alive.
pub const MAX_CACHED_VIEWS: usize = 3;

/// The tabs whose content views are alive, least recently used first, and
/// the tab shown.
pub struct ViewCache {
    lru: Vec<u32>,
    active: Option<u32>,
}

/// `s` holds no id twice.
pub open spec fn distinct(s: Seq<u32>) -> bool {
    forall|i: int, j: int| 0 <= i < j < s.len() ==> s[i] != s[j]
}

/// `s` without `id`, keeping the order.
pub open spec fn without_id(s: Seq<u32>, id: u32) -> Seq<u32>
    decreases s.len(),
{
    if s.len() == 0 {
        s
    } else if s.last() == id {
        without_id(s.drop_last(), id)
    } else {
        without_id(s.drop_last(), id).push(s.last())
    }
}

/// What `without_id` keeps: only ids of `s` other than `id`, and each once
/// when `s` held each once.
pub proof fn lemma_without_id(s: Seq<u32>, id: u32)
    ensures
        forall|k: int| 0 <= k < without_id(s, id).len() ==> s.contains(#[trigger] without_id(s, id)[k]) && without_id(s, id)[k] != id,
        distinct(s) ==> distinct(without_id(s, id)),
        without_id(s, id).len() <= s.len(),
    decreases s.len(),
{
    if s.len() > 0 {
        let p = s.drop_last();
        lemma_without_id(p, id);
        let w = without_id(p, id);
        assert forall|k: int| 0 <= k < w.len() implies s.contains(#[trigger] w[k]) by {
            let j = choose|j: int| 0 <= j < p.len() && p[j] == w[k];
            assert(s[j] == w[k]);
        }
        if s.last() != id {
            let w2 = w.push(s.last());
            assert(s[s.len() - 1] == s.last());
            if distinct(s) {
                assert forall|i: int, j: int| 0 <= i < j < w2.len() implies w2[i] != w2[j] by {
                    if j == w2.len() - 1 {
                        let a = choose|a: int| 0 <= a < p.len() && p[a] == w2[i];
                        assert(s[a] == w2[i]);
                    }
                }
            }
        }
    }
}

/// `s` with `id` made the most recently used.
pub open spec fn touched(s: Seq<u32>, id: u32) -> Seq<u32> {
    without_id(s, id).push(id)
}

/// The oldest entries dropped until at most three remain.
pub open spec fn trimmed(s: Seq<u32>) -> Seq<u32> {
    if s.len() > MAX_CACHED_VIEWS { s.skip(s.len() - MAX_CACHED_VIEWS) } else { s }
}

/// The entries dropped by `trimmed`.
pub open spec fn evicted(s: Seq<u32>) -> Seq<u32> {
    if s.len() > MAX_CACHED_VIEWS { s.take(s.len() - MAX_CACHED_VIEWS) } else { seq![] }
}

impl ViewCache {
    pub closed spec fn order(&self) -> Seq<u32> {
        self.lru@
    }

    pub closed spec fn shown(&self) -> Option<u32> {
        self.active
    }

    /// A cache holding the first view, for `tab_id`, shown.
    pub fn new(tab_id: u32) -> (c: Self)
        ensures
            c.order() == seq![tab_id],
            c.shown() == Some(tab_id),
    {
        let mut lru: Vec<u32> = Vec::new();
        lru.push(tab_id);
        assert(lru@ =~= seq![tab_id]);
        ViewCache { lru, active: Some(tab_id) }
    }

    /// The tabs with a live view, least recently used first.
    pub fn cached_tab_ids(&self) -> (r: Vec<u32>)
        ensures
            r@ == self.order(),
    {
        self.lru.clone()
    }

    /// The tab shown.
    pub fn active(&self) -> (r: Option<u32>)
        ensures
            r == self.shown(),
    {
        self.active
    }

    fn holds(&self, id: u32) -> (b: bool)
        ensures
            b == self.order().contains(id),
    {
        let mut i: usize = 0;
        while i < self.lru.len()
            invariant
                i <= self.lru@.len(),
                forall|k: int| 0 <= k < i ==> self.lru@[k] != id,
            decreases self.lru@.len() - i,
        {
            if self.lru[i] == id {
                return true;
            }
            i += 1;
        }
        false
    }

    /// Whether switching to `tab_id` needs nothing (it is already shown
    /// with a live view) and whether a new view must be made for it.
    pub fn switch_needs(&self, tab_id: u32) -> (r: (bool, bool))
        ensures
            r.0 == (self.shown() == Some(tab_id) && self.order().contains(tab_id)),
            r.1 == !self.order().contains(tab_id),
    {
        let cached = self.holds(tab_id);
        (self.active == Some(tab_id) && cached, !cached)
    }

    fn remove_id(v: &Vec<u32>, id: u32) -> (r: Vec<u32>)
        ensures
            r@ == without_id(v@, id),
    {
        let mut out: Vec<u32> = Vec::new();
        let mut i: usize = 0;
        while i < v.len()
            invariant
                i <= v@.len(),
                out@ == without_id(v@.take(i as int), id),
            decreases v@.len() - i,
        {
            assert(v@.take(i + 1).drop_last() =~= v@.take(i as int));
            assert(v@.take(i + 1).last() == v@[i as int]);
            if v[i] != id {
                out.push(v[i]);
            }
            i += 1;
        }
        assert(v@.take(v@.len() as int) =~= v@);
        out
    }

    /// Records that `tab_id` is now shown: it becomes the most recently
    /// used, and the least recently used views beyond three are dropped and
    /// returned, oldest first.
    pub fn commit_switch(&mut self, tab_id: u32) -> (dropped: Vec<u32>)
        ensures
            final(self).order() == trimmed(touched(old(self).order(), tab_id)),
            dropped@ == evicted(touched(old(self).order(), tab_id)),
            final(self).shown() == Some(tab_id),
    {
        let mut t = Self::remove_id(&self.lru, tab_id);
        t.push(tab_id);
        let ghost tv = t@;
        let n = t.len();
        if n > MAX_CACHED_VIEWS {
            let cut = n - MAX_CACHED_VIEWS;
            let mut dropped: Vec<u32> = Vec::new();
            let mut kept: Vec<u32> = Vec::new();
            let mut i: usize = 0;
            while i < n
                invariant
                    n == tv.len(),
                    t@ == tv,
                    cut == n - MAX_CACHED_VIEWS,
                    i <= n,
                    dropped@ == tv.take(if i < cut { i as int } else { cut as int }),
                    kept@ == (if i <= cut { Seq::<u32>::empty() } else { tv.subrange(cut as int, i as int) }),
                decreases n - i,
            {
                if i < cut {
                    dropped.push(t[i]);
                    assert(dropped@ =~= tv.take(i + 1));
                } else {
                    kept.push(t[i]);
                    assert(kept@ =~= tv.subrange(cut as int, i + 1));
                }
                i += 1;
            }
            assert(kept@ =~= tv.skip(cut as int));
            self.lru = kept;
            self.active = Some(tab_id);
            dropped
        } else {
            self.lru = t;
            self.active = Some(tab_id);
            Vec::new()
        }
    }

    /// Forgets the view of `tab_id`; when it was shown, the most recently
    /// used remaining tab is shown instead (none when none is left).
    pub fn close_tab(&mut self, tab_id: u32)
        ensures
            final(self).order() == without_id(old(self).order(), tab_id),
            old(self).shown() != Some(tab_id) ==> final(self).shown() == old(self).shown(),
            old(self).shown() == Some(tab_id) ==> final(self).shown() == (if final(self).order().len() > 0 {
                Some(final(self).order().last())
            } else {
                None
            }),
    {
        self.lru = Self::remove_id(&self.lru, tab_id);
        if self.active == Some(tab_id) {
            let n = self.lru.len();
            self.active = if n > 0 { Some(self.lru[n - 1]) } else { None };
        }
    }

    /// After a proxy or privacy change only the rebuilt view of `active_tab`
    /// is alive, and shown.
    pub fn rebuild(&mut self, active_tab: u32)
        ensures
            final(self).order() == seq![active_tab],
            final(self).shown() == Some(active_tab),
    {
        let mut lru: Vec<u32> = Vec::new();
        lru.push(active_tab);
        assert(lru@ =~= seq![active_tab]);
        self.lru = lru;
        self.active = Some(active_tab);
    }
}

/// At most three views stay alive after a switch, the tab switched to is
/// the most recently used of them, and each appears once when each did
/// before. The views dropped are the least recently used ones other than
/// the tab switched to, all of them cached before, oldest first; from a
/// cache of at most three views, at most one is dropped.
pub proof fn lemma_switch_bounds(order: Seq<u32>, tab_id: u32)
    requires
        distinct(order),
    ensures
        trimmed(touched(order, tab_id)).len() <= MAX_CACHED_VIEWS,
        trimmed(touched(order, tab_id)).len() > 0,
        trimmed(touched(order, tab_id)).last() == tab_id,
        distinct(trimmed(touched(order, tab_id))),
        evicted(touched(order, tab_id)) + trimmed(touched(order, tab_id)) == touched(order, tab_id),
        forall|k: int| 0 <= k < evicted(touched(order, tab_id)).len() ==> {
            &&& #[trigger] evicted(touched(order, tab_id))[k] != tab_id
            &&& order.contains(evicted(touched(order, tab_id))[k])
        },
        order.len() <= MAX_CACHED_VIEWS ==> evicted(touched(order, tab_id)).len() <= 1,
{
    lemma_without_id(order, tab_id);
    let w = without_id(order, tab_id);
    let t = touched(order, tab_id);
    assert forall|i: int, j: int| 0 <= i < j < t.len() implies t[i] != t[j] by {
        if j == t.len() - 1 {
            assert(t[i] == w[i]);
        }
    }
    let r = trimmed(t);
    let e = evicted(t);
    assert(e + r =~= t);
    assert forall|k: int| 0 <= k < e.len() implies #[trigger] e[k] != tab_id && order.contains(e[k]) by {
        assert(e[k] == t[k]);
        assert(t[k] == w[k]);
    }
    assert forall|i: int, j: int| 0 <= i < j < r.len() implies r[i] != r[j] by {
        if t.len() > MAX_CACHED_VIEWS {
            assert(r[i] == t[i + t.len() - MAX_CACHED_VIEWS]);
            assert(r[j] == t[j + t.len() - MAX_CACHED_VIEWS]);
        }
    }
}

} // verus!
