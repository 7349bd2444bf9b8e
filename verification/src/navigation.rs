//! What a navigation does before a page is shown: where a typed address
//! leads, the title a tab gets, whether the visit enters the persistent
//! history, the settings toggled by internal pages, the page each action
//! returns to, and the rules for downloads.

use vstd::prelude::*;
use crate::codec::{contains_char, starts_with, starts_with_chars};
use crate::network::{Protocol, TorBridge, V2RayConfig};
use crate::query::{chars_eq, contains_text, contains_text_chars};
use crate::routes::{route_spec, InternalPage, PageSpec};
use crate::text::{all_ascii, ascii_upper, chars_of, push_str, split_once, split_once_chars, string_of, sub_chars, trim, trim_chars};

verus! {

/// Where a navigation to a non-internal address goes.
#[derive(Debug, Clone, PartialEq, Eq)]
pub enum NavTarget {
    /// A `sentinel://` page.
    Internal,
    /// A web address to load.
    Load { url: String },
    /// A search with nothing to search for.
    EmptySearch,
    /// A search for the trimmed text.
    Search { query: String },
}

/// `s` ends with `p`.
pub open spec fn ends_with(s: Seq<char>, p: Seq<char>) -> bool {
    s.len() >= p.len() && s.skip(s.len() - p.len()) == p
}

/// Where an address leads: `sentinel://` addresses to an internal page;
/// otherwise the trimmed text is loaded when it starts with `http://` or
/// `https://`, loaded over `http://` (for `.onion` names) or `https://` when
/// it holds a dot and no space, and searched for otherwise.
pub open spec fn nav_target_spec(url: Seq<char>) -> (int, Seq<char>) {
    let t = trim(url);
    if starts_with(url, "sentinel://"@) {
        (0, seq![])
    } else if starts_with(t, "http://"@) || starts_with(t, "https://"@) {
        (1, t)
    } else if t.contains('.') && !t.contains(' ') {
        (1, if ends_with(t, ".onion"@) { "http://"@ + t } else { "https://"@ + t })
    } else if t.len() == 0 {
        (2, seq![])
    } else {
        (3, t)
    }
}

/// The kind (0 internal, 1 load, 2 empty search, 3 search) and text of a
/// target.
pub open spec fn nav_target_view(t: NavTarget) -> (int, Seq<char>) {
    match t {
        NavTarget::Internal => (0, seq![]),
        NavTarget::Load { url } => (1, url@),
        NavTarget::EmptySearch => (2, seq![]),
        NavTarget::Search { query } => (3, query@),
    }
}

fn ends_with_chars(s: &Vec<char>, p: &str) -> (b: bool)
    ensures
        b == ends_with(s@, p@),
{
    let pv = chars_of(p);
    if s.len() < pv.len() {
        return false;
    }
    let tail = sub_chars(s, s.len() - pv.len(), s.len());
    assert(tail@ =~= s@.skip(s@.len() - pv@.len()));
    chars_eq(&tail, &pv)
}

/// A typed web address is loaded as it is: text that, once trimmed, starts
/// with `http://` or `https://` is loaded unchanged, never with a scheme put
/// in front; and whatever is loaded carries a web scheme.
pub proof fn lemma_web_addresses_load_unchanged(url: Seq<char>)
    ensures
        !starts_with(url, "sentinel://"@) && (starts_with(trim(url), "http://"@) || starts_with(trim(url), "https://"@))
            ==> nav_target_spec(url) == (1int, trim(url)),
        nav_target_spec(url).0 == 1 ==> starts_with(nav_target_spec(url).1, "http://"@) || starts_with(
            nav_target_spec(url).1,
            "https://"@,
        ),
        !starts_with(url, "sentinel://"@) && !(starts_with(trim(url), "http://"@) || starts_with(trim(url), "https://"@))
            && trim(url).contains('.') && !trim(url).contains(' ') ==> nav_target_spec(url) == (1int, if ends_with(
            trim(url),
            ".onion"@,
        ) {
            "http://"@ + trim(url)
        } else {
            "https://"@ + trim(url)
        }),
        !starts_with(url, "sentinel://"@) && !starts_with(trim(url), "http://"@) && !starts_with(trim(url), "https://"@)
            && (!trim(url).contains('.') || trim(url).contains(' ')) ==> nav_target_spec(url) == (if trim(url).len()
            == 0 {
            (2int, Seq::<char>::empty())
        } else {
            (3int, trim(url))
        }),
        starts_with(url, "sentinel://"@) ==> nav_target_spec(url).0 == 0,
{
    reveal_strlit("http://");
    reveal_strlit("https://");
    let t = trim(url);
    if !starts_with(url, "sentinel://"@) && !(starts_with(t, "http://"@) || starts_with(t, "https://"@))
        && t.contains('.') && !t.contains(' ') {
        if ends_with(t, ".onion"@) {
            assert(("http://"@ + t).take(7) =~= "http://"@);
        } else {
            assert(("https://"@ + t).take(8) =~= "https://"@);
        }
    }
}

/// Classifies a navigation (see `nav_target_spec`).
pub fn classify_navigation(url: &str) -> (t: NavTarget)
    ensures
        nav_target_view(t) == nav_target_spec(url@),
{
    proof {
        reveal_strlit("");
    }
    let u = chars_of(url);
    if starts_with_chars(&u, "sentinel://") {
        return NavTarget::Internal;
    }
    let t = trim_chars(&u);
    if starts_with_chars(&t, "http://") || starts_with_chars(&t, "https://") {
        NavTarget::Load { url: string_of(&t) }
    } else if contains_char(&t, '.') && !contains_char(&t, ' ') {
        let mut full = String::new();
        if ends_with_chars(&t, ".onion") {
            push_str(&mut full, "http://");
        } else {
            push_str(&mut full, "https://");
        }
        let ts = string_of(&t);
        push_str(&mut full, ts.as_str());
        NavTarget::Load { url: full }
    } else if t.len() == 0 {
        NavTarget::EmptySearch
    } else {
        NavTarget::Search { query: string_of(&t) }
    }
}

/// The title a tab takes when it shows `url`: for an internal page its name
/// (the text after `sentinel://` up to the first `?`), otherwise the first
/// 32 characters of the address.
pub open spec fn tab_title_spec(url: Seq<char>) -> Seq<char> {
    if starts_with(url, "sentinel://"@) {
        split_once(url.skip(11), '?').0
    } else if url.len() <= 32 {
        url
    } else {
        url.take(32)
    }
}

/// The title of a tab showing `url` (see `tab_title_spec`).
pub fn tab_title_for(url: &str) -> (r: String)
    ensures
        r@ == tab_title_spec(url@),
{
    proof {
        reveal_strlit("sentinel://");
    }
    let u = chars_of(url);
    if starts_with_chars(&u, "sentinel://") {
        let rest = sub_chars(&u, 11, u.len());
        assert(rest@ =~= u@.skip(11));
        let (name, _) = split_once_chars(&rest, '?');
        string_of(&name)
    } else if u.len() <= 32 {
        string_of(&u)
    } else {
        let head = sub_chars(&u, 0, 32);
        assert(head@ =~= u@.take(32));
        string_of(&head)
    }
}

/// The name given to what `str::to_uppercase` makes of a text.
pub uninterp spec fn uppercase(s: Seq<char>) -> Seq<char>;

/// `str::to_uppercase`: the result is named `uppercase` of the text. On
/// ASCII text the Unicode mapping is the ASCII one (`a`..`z` to `A`..`Z`,
/// all else kept); beyond ASCII the mapping is left unsaid here.
#[verifier::external_body]
fn to_upper(s: &str) -> (r: String)
    ensures
        r@ == uppercase(s@),
        all_ascii(s@) ==> r@ == ascii_upper(s@),
{
    s.to_uppercase()
}

/// Whether the persistent-history setting (absent means on) is on.
pub open spec fn history_on(setting: Option<Seq<char>>) -> bool {
    match setting {
        Some(v) => v == "true"@,
        None => true,
    }
}

/// The entry a visit to `url` adds to the persistent history, if any:
/// nothing while history is off or for vote and network-switch addresses;
/// otherwise the address with, as title, the upper-cased page name for an
/// internal page and the address itself for any other.
pub open spec fn history_entry_spec(url: Seq<char>, setting: Option<Seq<char>>) -> Option<Seq<char>> {
    if history_on(setting) && !starts_with(url, "sentinel://vote"@) && !starts_with(url, "sentinel://network"@) {
        Some(if starts_with(url, "sentinel://"@) { uppercase(url.skip(11)) } else { url })
    } else {
        None
    }
}

/// `history_entry_spec` for an ASCII address, whose upper-cased form is
/// its ASCII one.
pub open spec fn history_entry_ascii(url: Seq<char>, setting: Option<Seq<char>>) -> Option<Seq<char>> {
    if history_on(setting) && !starts_with(url, "sentinel://vote"@) && !starts_with(url, "sentinel://network"@) {
        Some(if starts_with(url, "sentinel://"@) { ascii_upper(url.skip(11)) } else { url })
    } else {
        None
    }
}

pub open spec fn opt_view(o: Option<String>) -> Option<Seq<char>> {
    match o {
        Some(s) => Some(s@),
        None => None,
    }
}

/// The title under which a visit to `url` is recorded, if it is (see
/// `history_entry_spec`); `setting` is the stored `history_enabled` value.
pub fn history_entry(url: &str, setting: Option<String>) -> (r: Option<String>)
    ensures
        opt_view(r) == history_entry_spec(url@, opt_view(setting)),
        all_ascii(url@) ==> opt_view(r) == history_entry_ascii(url@, opt_view(setting)),
{
    proof {
        reveal_strlit("sentinel://");
    }
    let on = match &setting {
        Some(v) => {
            let vv = chars_of(v.as_str());
            let t = chars_of("true");
            chars_eq(&vv, &t)
        },
        None => true,
    };
    let u = chars_of(url);
    if on && !starts_with_chars(&u, "sentinel://vote") && !starts_with_chars(&u, "sentinel://network") {
        if starts_with_chars(&u, "sentinel://") {
            let rest = sub_chars(&u, 11, u.len());
            assert(rest@ =~= u@.skip(11));
            let rs = string_of(&rest);
            Some(to_upper(rs.as_str()))
        } else {
            Some(string_of(&u))
        }
    } else {
        None
    }
}

/// The history setting after `sentinel://toggle_history`: `"false"` when
/// it was on (`"true"` or absent), `"true"` otherwise.
pub open spec fn toggled_history_spec(setting: Option<Seq<char>>) -> Seq<char> {
    if history_on(setting) { "false"@ } else { "true"@ }
}

/// The new `history_enabled` value (see `toggled_history_spec`).
pub fn toggled_history(setting: Option<String>) -> (r: String)
    ensures
        r@ == toggled_history_spec(opt_view(setting)),
{
    let on = match &setting {
        Some(v) => {
            let vv = chars_of(v.as_str());
            let t = chars_of("true");
            chars_eq(&vv, &t)
        },
        None => true,
    };
    if on { String::from_str("false") } else { String::from_str("true") }
}

/// The security level after `sentinel://toggle_security`: Standard becomes
/// Strict, Strict becomes Paranoid, anything else (Paranoid, an unknown
/// value, or absent meaning Standard) cycles back to Standard.
pub open spec fn next_security_spec(setting: Option<Seq<char>>) -> Seq<char> {
    let current = match setting {
        Some(v) => v,
        None => "Standard"@,
    };
    if current == "Standard"@ {
        "Strict"@
    } else if current == "Strict"@ {
        "Paranoid"@
    } else {
        "Standard"@
    }
}

/// The next security level name (see `next_security_spec`).
pub fn next_security_level(setting: Option<String>) -> (r: String)
    ensures
        r@ == next_security_spec(opt_view(setting)),
{
    let current = match setting {
        Some(v) => chars_of(v.as_str()),
        None => chars_of("Standard"),
    };
    if chars_eq(&current, &chars_of("Standard")) {
        String::from_str("Strict")
    } else if chars_eq(&current, &chars_of("Strict")) {
        String::from_str("Paranoid")
    } else {
        String::from_str("Standard")
    }
}

/// WebGL is disabled at every level but Standard.
pub fn webgl_disabled(level: &str) -> (b: bool)
    ensures
        b == (level@ != "Standard"@),
{
    let l = chars_of(level);
    !chars_eq(&l, &chars_of("Standard"))
}

/// The internal page shown after an action page has done its work, for
/// the pages that act and then show another; `None` for pages that render
/// themselves.
pub open spec fn follow_up_spec(p: PageSpec) -> Option<Seq<char>> {
    match p {
        PageSpec::ClearHistory => Some("sentinel://history"@),
        PageSpec::ToggleHistory => Some("sentinel://settings"@),
        PageSpec::ToggleSecurity => Some("sentinel://settings"@),
        PageSpec::AllowSite { .. } => Some("sentinel://settings"@),
        PageSpec::AddBookmark { .. } => Some("sentinel://bookmarks"@),
        PageSpec::Network { .. } => Some("sentinel://status"@),
        PageSpec::AddBridgeObfs4 { .. } => Some("sentinel://network_menu"@),
        PageSpec::AddBridgeSnowflake { .. } => Some("sentinel://network_menu"@),
        PageSpec::ConnectAddVmess { .. } => Some("sentinel://connect"@),
        PageSpec::ConnectAddVless { .. } => Some("sentinel://connect"@),
        PageSpec::ConnectAddTrojan { .. } => Some("sentinel://connect"@),
        PageSpec::ConnectSaveProfile { .. } => Some("sentinel://connect"@),
        PageSpec::ConnectSwitch { .. } => Some("sentinel://connect"@),
        PageSpec::ConnectTest => Some("sentinel://connect"@),
        _ => None,
    }
}

/// The page shown after `page` has acted (see `follow_up_spec`).
pub fn follow_up(page: &InternalPage) -> (r: Option<String>)
    ensures
        opt_view(r) == follow_up_spec(page@),
{
    match page {
        InternalPage::ClearHistory => Some(String::from_str("sentinel://history")),
        InternalPage::ToggleHistory => Some(String::from_str("sentinel://settings")),
        InternalPage::ToggleSecurity => Some(String::from_str("sentinel://settings")),
        InternalPage::AllowSite { .. } => Some(String::from_str("sentinel://settings")),
        InternalPage::AddBookmark { .. } => Some(String::from_str("sentinel://bookmarks")),
        InternalPage::Network { .. } => Some(String::from_str("sentinel://status")),
        InternalPage::AddBridgeObfs4 { .. } => Some(String::from_str("sentinel://network_menu")),
        InternalPage::AddBridgeSnowflake { .. } => Some(String::from_str("sentinel://network_menu")),
        InternalPage::ConnectAddVmess { .. } => Some(String::from_str("sentinel://connect")),
        InternalPage::ConnectAddVless { .. } => Some(String::from_str("sentinel://connect")),
        InternalPage::ConnectAddTrojan { .. } => Some(String::from_str("sentinel://connect")),
        InternalPage::ConnectSaveProfile { .. } => Some(String::from_str("sentinel://connect")),
        InternalPage::ConnectSwitch { .. } => Some(String::from_str("sentinel://connect")),
        InternalPage::ConnectTest => Some(String::from_str("sentinel://connect")),
        _ => None,
    }
}

/// What a `sentinel://network?type=..` request does.
#[derive(Debug, Clone, PartialEq, Eq)]
pub enum NetworkChoice {
    /// Switch to this protocol, then show the status page.
    Switch(Protocol),
    /// V2Ray was asked for but is not set up: show the connect page.
    V2RayUnavailable,
    /// I2P or WireGuard: shown as not available.
    NotOffered,
}

/// Decides a `sentinel://network` request: Tor without bridge for `tor`
/// and unknown kinds; a VLESS tunnel (`encryption` "none", no flow, the
/// configured `uuid`) for `v2ray` when V2Ray is ready; clear web for
/// `clear`; for `snowflake` Tor over the public Snowflake broker when the
/// transport is installed and plain Tor otherwise.
pub fn network_choice(kind: crate::routes::NetworkKind, v2ray_ready: bool, snowflake_available: bool, uuid: String) -> (r: NetworkChoice)
    ensures
        (match kind {
            crate::routes::NetworkKind::Tor => (r == NetworkChoice::Switch(Protocol::Tor { bridge: TorBridge::NoBridge })),
            crate::routes::NetworkKind::V2Ray => if v2ray_ready {
                (r matches NetworkChoice::Switch(Protocol::V2Ray(V2RayConfig::VLESS { uuid: u, encryption: e, flow: f }))
                    && u@ == uuid@ && e@ == "none"@ && f@ == Seq::<char>::empty())
            } else {
                r == NetworkChoice::V2RayUnavailable
            },
            crate::routes::NetworkKind::Clear => r == NetworkChoice::Switch(Protocol::Clearweb),
            crate::routes::NetworkKind::Snowflake => if snowflake_available {
                (r matches NetworkChoice::Switch(Protocol::Tor { bridge: TorBridge::Snowflake { broker: b, relay: l } })
                    && b@ == "https://snowflake-broker.torproject.net/"@ && l@ == "snowflake.torproject.net"@)
            } else {
                (r == NetworkChoice::Switch(Protocol::Tor { bridge: TorBridge::NoBridge }))
            },
            crate::routes::NetworkKind::Unavailable => r == NetworkChoice::NotOffered,
        }),
{
    match kind {
        crate::routes::NetworkKind::Tor => NetworkChoice::Switch(Protocol::Tor { bridge: TorBridge::NoBridge }),
        crate::routes::NetworkKind::V2Ray => {
            if v2ray_ready {
                let cfg = V2RayConfig::VLESS { uuid, encryption: String::from_str("none"), flow: String::new() };
                NetworkChoice::Switch(Protocol::V2Ray(cfg))
            } else {
                NetworkChoice::V2RayUnavailable
            }
        },
        crate::routes::NetworkKind::Clear => NetworkChoice::Switch(Protocol::Clearweb),
        crate::routes::NetworkKind::Snowflake => {
            if snowflake_available {
                NetworkChoice::Switch(Protocol::Tor {
                    bridge: TorBridge::Snowflake {
                        broker: String::from_str("https://snowflake-broker.torproject.net/"),
                        relay: String::from_str("snowflake.torproject.net"),
                    },
                })
            } else {
                NetworkChoice::Switch(Protocol::Tor { bridge: TorBridge::NoBridge })
            }
        },
        crate::routes::NetworkKind::Unavailable => NetworkChoice::NotOffered,
    }
}

/// The host `sentinel://allow_site` adds to the Shields allowlist: the host
/// given, or nothing when it is empty.
pub fn allowlist_addition(host: String) -> (r: Option<String>)
    ensures
        r is Some <==> host@.len() > 0,
        r matches Some(h) ==> h@ == host@,
{
    if chars_of(host.as_str()).len() == 0 {
        None
    } else {
        Some(host)
    }
}

/// A download address is taken only when it is an `http://` or `https://`
/// address.
pub fn download_url_valid(url: &str) -> (b: bool)
    ensures
        b == (url@.len() > 0 && (starts_with(url@, "http://"@) || starts_with(url@, "https://"@))),
{
    let u = chars_of(url);
    u.len() > 0 && (starts_with_chars(&u, "http://") || starts_with_chars(&u, "https://"))
}

/// The text after the last `/` of `s` (all of `s` when it has none).
pub open spec fn last_segment(s: Seq<char>) -> Seq<char>
    decreases s.len(),
{
    if s.len() == 0 {
        s
    } else if s.last() == '/' {
        seq![]
    } else {
        last_segment(s.drop_last()).push(s.last())
    }
}

/// A file-name character kept as it is.
pub open spec fn safe_name_char(c: char) -> bool {
    ('a' <= c && c <= 'z') || ('A' <= c && c <= 'Z') || ('0' <= c && c <= '9') || c == '.' || c == '-' || c == '_'
}

/// Positions `i` and `i + 1` of `s` both hold `.`.
pub open spec fn dot_pair_at(s: Seq<char>, i: int) -> bool {
    s[i] == '.' && s[i + 1] == '.'
}

/// `s` holds `..`.
pub open spec fn has_dot_dot(s: Seq<char>) -> bool {
    exists|i: int| 0 <= i < s.len() - 1 && #[trigger] dot_pair_at(s, i)
}

/// The name a downloaded file is saved under: the last path segment of the
/// address without its query, `download.bin` when that is empty or holds
/// `..`, with every character but ASCII letters, digits, `.`, `-` and `_`
/// replaced by `_`.
pub open spec fn download_name_spec(url: Seq<char>) -> Seq<char> {
    let seg = last_segment(split_once(url, '?').0);
    let base = if seg.len() == 0 || has_dot_dot(seg) { "download.bin"@ } else { seg };
    base.map_values(|c: char| if safe_name_char(c) { c } else { '_' })
}

fn last_segment_chars(s: &Vec<char>) -> (r: Vec<char>)
    ensures
        r@ == last_segment(s@),
{
    let mut k: usize = s.len();
    assert(s@.take(s@.len() as int) =~= s@);
    assert(s@.skip(s@.len() as int) =~= Seq::<char>::empty());
    while k > 0
        invariant
            k <= s@.len(),
            last_segment(s@) == last_segment(s@.take(k as int)) + s@.skip(k as int),
        decreases k,
    {
        if s[k - 1] == '/' {
            assert(s@.take(k as int).last() == '/');
            assert(s@.skip(k as int) =~= last_segment(s@.take(k as int)) + s@.skip(k as int));
            let r = sub_chars(s, k, s.len());
            assert(r@ =~= s@.skip(k as int));
            return r;
        }
        assert(s@.take(k as int).drop_last() =~= s@.take(k - 1));
        assert(s@.skip(k - 1) =~= seq![s@[k - 1]] + s@.skip(k as int));
        k -= 1;
    }
    assert(s@.take(0) =~= Seq::<char>::empty());
    let r = sub_chars(s, 0, s.len());
    assert(r@ =~= s@);
    assert(s@.skip(0) =~= s@);
    r
}

fn has_dot_dot_chars(s: &Vec<char>) -> (b: bool)
    ensures
        b == has_dot_dot(s@),
{
    if s.len() < 2 {
        return false;
    }
    let mut i: usize = 0;
    while i < s.len() - 1
        invariant
            s@.len() >= 2,
            i + 1 <= s@.len(),
            forall|j: int| 0 <= j < i ==> !dot_pair_at(s@, j),
        decreases s@.len() - i,
    {
        if s[i] == '.' && s[i + 1] == '.' {
            assert(dot_pair_at(s@, i as int));
            return true;
        }
        i += 1;
    }
    false
}

/// The saved file name for a download of `url` (see `download_name_spec`).
pub fn download_file_name(url: &str) -> (r: String)
    ensures
        r@ == download_name_spec(url@),
{
    let u = chars_of(url);
    let (path, _) = split_once_chars(&u, '?');
    let seg = last_segment_chars(&path);
    let base = if seg.len() == 0 || has_dot_dot_chars(&seg) { chars_of("download.bin") } else { seg };
    let mut out: Vec<char> = Vec::new();
    let mut i: usize = 0;
    while i < base.len()
        invariant
            i <= base@.len(),
            out@ == base@.take(i as int).map_values(|c: char| if safe_name_char(c) { c } else { '_' }),
        decreases base@.len() - i,
    {
        let c = base[i];
        let keep = ('a' <= c && c <= 'z') || ('A' <= c && c <= 'Z') || ('0' <= c && c <= '9') || c == '.' || c == '-' || c == '_';
        out.push(if keep { c } else { '_' });
        assert(base@.take(i + 1).map_values(|c: char| if safe_name_char(c) { c } else { '_' }) =~= base@.take(i as int).map_values(
            |c: char| if safe_name_char(c) { c } else { '_' },
        ).push(if safe_name_char(c) { c } else { '_' }));
        i += 1;
    }
    assert(base@.take(base@.len() as int) =~= base@);
    string_of(&out)
}

/// The name recorded for a failed download: the last `/`-segment of the
/// address, query included.
pub fn failed_download_name(url: &str) -> (r: String)
    ensures
        r@ == last_segment(url@),
{
    let u = chars_of(url);
    let seg = last_segment_chars(&u);
    string_of(&seg)
}

/// A download goes through the local SOCKS proxy when one is up and the
/// address is an onion address or the browser is on Tor.
pub fn download_via_socks(socks_up: bool, url: &str, on_tor: bool) -> (b: bool)
    ensures
        b == (socks_up && (contains_text(url@, ".onion"@) || on_tor)),
{
    if !socks_up {
        return false;
    }
    let u = chars_of(url);
    let m = chars_of(".onion");
    contains_text_chars(&u, &m) || on_tor
}

/// The address shown after a finished download of `filename`.
pub fn download_complete_address(filename: &str) -> (r: String)
    ensures
        r@ == "sentinel://download_complete?file="@ + filename@,
{
    let mut s = String::from_str("sentinel://download_complete?file=");
    push_str(&mut s, filename);
    s
}


/// The pages that actions return to are plain pages.
proof fn lemma_return_pages_route()
    ensures
        route_spec("sentinel://status"@) == PageSpec::Status,
        route_spec("sentinel://connect"@) == PageSpec::Connect,
        route_spec("sentinel://settings"@) == PageSpec::Settings,
        route_spec("sentinel://network_menu"@) == PageSpec::NetworkMenu,
        route_spec("sentinel://bookmarks"@) == PageSpec::Bookmarks,
        route_spec("sentinel://history"@) == PageSpec::History,
{
    reveal_strlit("sentinel://welcome");
    reveal_strlit("sentinel://newtab");
    reveal_strlit("sentinel://home");
    reveal_strlit("sentinel://status");
    reveal_strlit("sentinel://connect");
    reveal_strlit("sentinel://settings");
    reveal_strlit("sentinel://governance");
    reveal_strlit("sentinel://dapps");
    reveal_strlit("sentinel://design");
    reveal_strlit("sentinel://prototype");
    reveal_strlit("sentinel://network_menu");
    reveal_strlit("sentinel://bookmarks");
    reveal_strlit("sentinel://history");
    assert("sentinel://status"@.len() != "sentinel://welcome"@.len());
    assert("sentinel://status"@[11] != "sentinel://newtab"@[11]);
    assert("sentinel://status"@.len() != "sentinel://home"@.len());
    assert("sentinel://connect"@[11] != "sentinel://welcome"@[11]);
    assert("sentinel://connect"@.len() != "sentinel://newtab"@.len());
    assert("sentinel://connect"@.len() != "sentinel://home"@.len());
    assert("sentinel://connect"@.len() != "sentinel://status"@.len());
    assert("sentinel://settings"@.len() != "sentinel://welcome"@.len());
    assert("sentinel://settings"@.len() != "sentinel://newtab"@.len());
    assert("sentinel://settings"@.len() != "sentinel://home"@.len());
    assert("sentinel://settings"@.len() != "sentinel://status"@.len());
    assert("sentinel://settings"@.len() != "sentinel://connect"@.len());
    assert("sentinel://network_menu"@.len() != "sentinel://welcome"@.len());
    assert("sentinel://network_menu"@.len() != "sentinel://newtab"@.len());
    assert("sentinel://network_menu"@.len() != "sentinel://home"@.len());
    assert("sentinel://network_menu"@.len() != "sentinel://status"@.len());
    assert("sentinel://network_menu"@.len() != "sentinel://connect"@.len());
    assert("sentinel://network_menu"@.len() != "sentinel://settings"@.len());
    assert("sentinel://network_menu"@.len() != "sentinel://governance"@.len());
    assert("sentinel://network_menu"@.len() != "sentinel://dapps"@.len());
    assert("sentinel://network_menu"@.len() != "sentinel://design"@.len());
    assert("sentinel://network_menu"@.len() != "sentinel://prototype"@.len());
    assert("sentinel://bookmarks"@.len() != "sentinel://welcome"@.len());
    assert("sentinel://bookmarks"@.len() != "sentinel://newtab"@.len());
    assert("sentinel://bookmarks"@.len() != "sentinel://home"@.len());
    assert("sentinel://bookmarks"@.len() != "sentinel://status"@.len());
    assert("sentinel://bookmarks"@.len() != "sentinel://connect"@.len());
    assert("sentinel://bookmarks"@.len() != "sentinel://settings"@.len());
    assert("sentinel://bookmarks"@.len() != "sentinel://governance"@.len());
    assert("sentinel://bookmarks"@.len() != "sentinel://dapps"@.len());
    assert("sentinel://bookmarks"@.len() != "sentinel://design"@.len());
    assert("sentinel://bookmarks"@[11] != "sentinel://prototype"@[11]);
    assert("sentinel://bookmarks"@.len() != "sentinel://network_menu"@.len());
    assert("sentinel://history"@[11] != "sentinel://welcome"@[11]);
    assert("sentinel://history"@.len() != "sentinel://newtab"@.len());
    assert("sentinel://history"@.len() != "sentinel://home"@.len());
    assert("sentinel://history"@.len() != "sentinel://status"@.len());
    assert("sentinel://history"@[11] != "sentinel://connect"@[11]);
    assert("sentinel://history"@.len() != "sentinel://settings"@.len());
    assert("sentinel://history"@.len() != "sentinel://governance"@.len());
    assert("sentinel://history"@.len() != "sentinel://dapps"@.len());
    assert("sentinel://history"@.len() != "sentinel://design"@.len());
    assert("sentinel://history"@.len() != "sentinel://prototype"@.len());
    assert("sentinel://history"@.len() != "sentinel://network_menu"@.len());
    assert("sentinel://history"@.len() != "sentinel://bookmarks"@.len());
}

/// Redirects end: the page an action returns to never redirects again, so
/// answering a `sentinel://` address follows at most one redirect.
pub proof fn lemma_redirects_end(u: Seq<char>)
    ensures
        follow_up_spec(route_spec(u)) matches Some(v) ==> follow_up_spec(route_spec(v)) is None,
{
    lemma_return_pages_route();
}


/// A download cannot be written outside the downloads folder: its file
/// name is never empty, holds only ASCII letters, digits, `.`, `-` and `_`
/// (so no path separator), and never holds `..`.
pub proof fn lemma_download_name_stays_inside(url: Seq<char>)
    ensures
        download_name_spec(url).len() > 0,
        forall|i: int| 0 <= i < download_name_spec(url).len() ==> safe_name_char(#[trigger] download_name_spec(url)[i]),
        !has_dot_dot(download_name_spec(url)),
{
    let seg = last_segment(split_once(url, '?').0);
    let fallback = "download.bin"@;
    reveal_strlit("download.bin");
    assert(!has_dot_dot(fallback)) by {
        assert forall|i: int| 0 <= i < fallback.len() - 1 implies !#[trigger] dot_pair_at(fallback, i) by {
            assert(fallback[8] == '.');
            if i != 8 {
                assert(fallback[i] != '.');
            } else {
                assert(fallback[9] != '.');
            }
        }
    }
    let base = if seg.len() == 0 || has_dot_dot(seg) { fallback } else { seg };
    let name = download_name_spec(url);
    assert(name == base.map_values(|c: char| if safe_name_char(c) { c } else { '_' }));
    assert forall|i: int| 0 <= i < name.len() - 1 implies !#[trigger] dot_pair_at(name, i) by {
        if dot_pair_at(name, i) {
            assert(name[i] == (if safe_name_char(base[i]) { base[i] } else { '_' }));
            assert(name[i + 1] == (if safe_name_char(base[i + 1]) { base[i + 1] } else { '_' }));
            assert(dot_pair_at(base, i));
        }
    }
}

} // verus!
