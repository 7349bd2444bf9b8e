//! Horus search: result records, the curated seed corpus, how hits from
//! each source are labelled, and the ranking that merges them.

use vstd::prelude::*;
use vstd::utf8::encode_utf8;
use crate::codec::{hex_upper, is_unreserved};
use crate::query::{contains_text, contains_text_chars};
use crate::text::{chars_of, push_str, string_of, strip_trailing, strip_trailing_chars, trim, trim_chars};

verus! {

/// How a result is labelled in the results page.
#[derive(Debug, Clone, Copy, PartialEq, Eq, Structural)]
pub enum ResultBadge {
    Clearnet,
    Onion,
    Ipfs,
    Local,
}

/// The network a result lives on.
#[derive(Debug, Clone, PartialEq, Eq)]
pub enum NetworkType {
    SurfaceWeb,
    Tor,
    I2P,
    Blockchain(String),
}

/// The mathematical form of a network type.
pub enum NetworkView {
    SurfaceWeb,
    Tor,
    I2P,
    Blockchain(Seq<char>),
}

impl View for NetworkType {
    type V = NetworkView;

    open spec fn view(&self) -> NetworkView {
        match self {
            NetworkType::SurfaceWeb => NetworkView::SurfaceWeb,
            NetworkType::Tor => NetworkView::Tor,
            NetworkType::I2P => NetworkView::I2P,
            NetworkType::Blockchain(s) => NetworkView::Blockchain(s@),
        }
    }
}

/// One search hit.
#[derive(Debug, Clone)]
pub struct SearchResult {
    pub title: String,
    pub url: String,
    pub description: String,
    pub source: NetworkType,
    pub verified: bool,
    pub badge: ResultBadge,
}

/// The mathematical form of a search hit.
pub struct ResultView {
    pub title: Seq<char>,
    pub url: Seq<char>,
    pub description: Seq<char>,
    pub source: NetworkView,
    pub verified: bool,
    pub badge: ResultBadge,
}

impl View for SearchResult {
    type V = ResultView;

    open spec fn view(&self) -> ResultView {
        ResultView {
            title: self.title@,
            url: self.url@,
            description: self.description@,
            source: self.source@,
            verified: self.verified,
            badge: self.badge,
        }
    }
}

pub open spec fn results_view(v: Seq<SearchResult>) -> Seq<ResultView> {
    v.map_values(|r: SearchResult| r@)
}

/// A copy of a network type.
pub fn copy_network_type(n: &NetworkType) -> (r: NetworkType)
    ensures
        r@ == n@,
{
    match n {
        NetworkType::SurfaceWeb => NetworkType::SurfaceWeb,
        NetworkType::Tor => NetworkType::Tor,
        NetworkType::I2P => NetworkType::I2P,
        NetworkType::Blockchain(s) => NetworkType::Blockchain(s.clone()),
    }
}

/// A copy of a search hit.
pub fn copy_result(r: &SearchResult) -> (c: SearchResult)
    ensures
        c@ == r@,
{
    SearchResult {
        title: r.title.clone(),
        url: r.url.clone(),
        description: r.description.clone(),
        source: copy_network_type(&r.source),
        verified: r.verified,
        badge: r.badge,
    }
}

/// The badge given when nothing says otherwise.
pub fn default_badge() -> (b: ResultBadge)
    ensures
        b == ResultBadge::Clearnet,
{
    ResultBadge::Clearnet
}

/// A hit with the given texts.
pub open spec fn hit(title: Seq<char>, url: Seq<char>, description: Seq<char>, source: NetworkView, badge: ResultBadge) -> ResultView {
    ResultView { title, url, description, source, verified: true, badge }
}

/// The curated corpus the local index starts from.
pub open spec fn seed_spec() -> Seq<ResultView> {
    seq![
        hit("Tor Project"@, "https://www.torproject.org/"@,
            "Official Tor Project \u{2014} anonymity network and Tor Browser."@, NetworkView::SurfaceWeb, ResultBadge::Local),
        hit("Ahmia \u{2014} Search Tor Hidden Services"@, "https://ahmia.fi/"@,
            "Search engine for Tor .onion sites (also reachable as onion)."@, NetworkView::SurfaceWeb, ResultBadge::Local),
        hit("DuckDuckGo Onion"@, "https://duckduckgogg42xjoc72x3sjasowoarfbgcmvfimaftt6twagswzczad.onion/"@,
            "Privacy search over Tor (.onion). Not Google."@, NetworkView::Tor, ResultBadge::Onion),
        hit("EFF \u{2014} Electronic Frontier Foundation"@, "https://www.eff.org/"@,
            "Digital rights, privacy, free speech."@, NetworkView::SurfaceWeb, ResultBadge::Local),
        hit("Privacy Guides"@, "https://www.privacyguides.org/"@,
            "Threat-model based privacy recommendations."@, NetworkView::SurfaceWeb, ResultBadge::Local),
        hit("SecureDrop Directory"@, "https://securedrop.org/"@,
            "Whistleblower submission systems for newsrooms."@, NetworkView::SurfaceWeb, ResultBadge::Local),
        hit("Debian Onion Mirror"@, "http://2s4yqjx5ul6okpp3f2gaunr2syex5jgbfpfvhxxbbjwnrsvbk5v3qbid.onion/"@,
            "Debian package mirror as Tor onion service."@, NetworkView::Tor, ResultBadge::Onion),
        hit("ProPublica Onion"@, "http://p53lf57qovyuvwsc6xnrppyply3vtqm7l6pcobkmyqsiofyeznfoenad.onion/"@,
            "Investigative journalism over Tor."@, NetworkView::Tor, ResultBadge::Onion),
        hit("Quad9 DNS"@, "https://quad9.net/"@,
            "Recursive DNS focused on security \u{2014} Sentinel default DoH (not Google)."@, NetworkView::SurfaceWeb, ResultBadge::Local),
        hit("SearXNG"@, "https://docs.searxng.org/"@,
            "Self-hostable metasearch \u{2014} configure SENTINEL_SEARX_URL for your instance."@, NetworkView::SurfaceWeb, ResultBadge::Local),
    ]
}

fn make_hit(title: &str, url: &str, description: &str, source: NetworkType, badge: ResultBadge) -> (r: SearchResult)
    ensures
        r@ == hit(title@, url@, description@, source@, badge),
{
    SearchResult {
        title: String::from_str(title),
        url: String::from_str(url),
        description: String::from_str(description),
        source,
        verified: true,
        badge,
    }
}

/// The curated seed corpus (see `seed_spec`), in this order.
pub fn seed_documents() -> (r: Vec<SearchResult>)
    ensures
        results_view(r@) == seed_spec(),
{
    let mut v: Vec<SearchResult> = Vec::new();
    v.push(make_hit("Tor Project", "https://www.torproject.org/",
        "Official Tor Project \u{2014} anonymity network and Tor Browser.", NetworkType::SurfaceWeb, ResultBadge::Local));
    v.push(make_hit("Ahmia \u{2014} Search Tor Hidden Services", "https://ahmia.fi/",
        "Search engine for Tor .onion sites (also reachable as onion).", NetworkType::SurfaceWeb, ResultBadge::Local));
    v.push(make_hit("DuckDuckGo Onion", "https://duckduckgogg42xjoc72x3sjasowoarfbgcmvfimaftt6twagswzczad.onion/",
        "Privacy search over Tor (.onion). Not Google.", NetworkType::Tor, ResultBadge::Onion));
    v.push(make_hit("EFF \u{2014} Electronic Frontier Foundation", "https://www.eff.org/",
        "Digital rights, privacy, free speech.", NetworkType::SurfaceWeb, ResultBadge::Local));
    v.push(make_hit("Privacy Guides", "https://www.privacyguides.org/",
        "Threat-model based privacy recommendations.", NetworkType::SurfaceWeb, ResultBadge::Local));
    v.push(make_hit("SecureDrop Directory", "https://securedrop.org/",
        "Whistleblower submission systems for newsrooms.", NetworkType::SurfaceWeb, ResultBadge::Local));
    v.push(make_hit("Debian Onion Mirror", "http://2s4yqjx5ul6okpp3f2gaunr2syex5jgbfpfvhxxbbjwnrsvbk5v3qbid.onion/",
        "Debian package mirror as Tor onion service.", NetworkType::Tor, ResultBadge::Onion));
    v.push(make_hit("ProPublica Onion", "http://p53lf57qovyuvwsc6xnrppyply3vtqm7l6pcobkmyqsiofyeznfoenad.onion/",
        "Investigative journalism over Tor.", NetworkType::Tor, ResultBadge::Onion));
    v.push(make_hit("Quad9 DNS", "https://quad9.net/",
        "Recursive DNS focused on security \u{2014} Sentinel default DoH (not Google).", NetworkType::SurfaceWeb, ResultBadge::Local));
    v.push(make_hit("SearXNG", "https://docs.searxng.org/",
        "Self-hostable metasearch \u{2014} configure SENTINEL_SEARX_URL for your instance.", NetworkType::SurfaceWeb, ResultBadge::Local));
    assert(results_view(v@) =~= seed_spec());
    v
}

/// An address is an onion address when it contains `.onion`.
pub open spec fn is_onion_url(url: Seq<char>) -> bool {
    contains_text(url, ".onion"@)
}

fn onion_url(url: &String) -> (b: bool)
    ensures
        b == is_onion_url(url@),
{
    let u = chars_of(url.as_str());
    contains_text_chars(&u, &chars_of(".onion"))
}

/// A hit from the local index: onion addresses are labelled Onion on Tor,
/// others Local on the surface web; index hits count as verified.
pub open spec fn local_hit_spec(title: Seq<char>, url: Seq<char>, body: Seq<char>) -> ResultView {
    if is_onion_url(url) {
        hit(title, url, body, NetworkView::Tor, ResultBadge::Onion)
    } else {
        hit(title, url, body, NetworkView::SurfaceWeb, ResultBadge::Local)
    }
}

/// Builds a hit read back from the local index (see `local_hit_spec`).
pub fn local_hit(title: String, url: String, body: String) -> (r: SearchResult)
    ensures
        r@ == local_hit_spec(title@, url@, body@),
{
    let onion = onion_url(&url);
    SearchResult {
        title,
        url,
        description: body,
        source: if onion { NetworkType::Tor } else { NetworkType::SurfaceWeb },
        verified: true,
        badge: if onion { ResultBadge::Onion } else { ResultBadge::Local },
    }
}

/// The name for the text of the first `<title>` element of an HTML
/// document as `scraper` parses it; `None` when there is none.
pub uninterp spec fn html_title(html: Seq<char>) -> Option<Seq<char>>;

/// The name for the `content` attribute of the first
/// `<meta name=description>` element as `scraper` parses the document;
/// `None` when there is no such element or it has no `content`.
pub uninterp spec fn html_meta_description(html: Seq<char>) -> Option<Seq<char>>;

/// `scraper::Html::parse_document`, then the text of the first match of the
/// selector `title`: named `html_title`.
#[verifier::external_body]
fn page_title(html: &str) -> (r: Option<String>)
    ensures
        opt_view(r) == html_title(html@),
{
    let doc = scraper::Html::parse_document(html);
    let sel = scraper::Selector::parse("title").ok()?;
    doc.select(&sel).next().map(|el| el.text().collect::<String>())
}

/// `scraper::Html::parse_document`, then the `content` attribute of the
/// first match of the selector `meta[name=description]`: named
/// `html_meta_description`.
#[verifier::external_body]
fn page_description(html: &str) -> (r: Option<String>)
    ensures
        opt_view(r) == html_meta_description(html@),
{
    let doc = scraper::Html::parse_document(html);
    let sel = scraper::Selector::parse("meta[name=description]").ok()?;
    doc.select(&sel).next().and_then(|el| el.value().attr("content").map(|c| c.to_string()))
}

/// The hit indexed for a seed whose page came back with `body`: the page's
/// title and description as the HTML gives them (see `crawled_spec`).
pub fn crawled_page(seed: &SearchResult, body: &str) -> (r: SearchResult)
    ensures
        r@ == crawled_spec(seed@, html_title(body@), html_meta_description(body@)),
{
    crawled_result(seed, page_title(body), page_description(body))
}

/// The name for the BLAKE3 hash of a byte string.
pub uninterp spec fn blake3_digest(b: Seq<u8>) -> Seq<u8>;

/// `blake3::hash`: named `blake3_digest`.
#[verifier::external_body]
fn blake3_hash(b: &[u8]) -> (r: [u8; 32])
    ensures
        r@ == blake3_digest(b@),
{
    *blake3::hash(b).as_bytes()
}

/// The key under which the distributed index keeps the hits for a query:
/// the BLAKE3 hash of the query lower-cased, then trimmed.
pub fn keyword_key(query: &str) -> (k: Vec<u8>)
    ensures
        k@ == blake3_digest(encode_utf8(trim(crate::adblock::lowercase(query@)))),
{
    let lower = crate::adblock::to_lower(query);
    let t = string_of(&trim_chars(&chars_of(lower.as_str())));
    let h = blake3_hash(t.as_str().as_bytes());
    let mut out: Vec<u8> = Vec::new();
    let mut i: usize = 0;
    while i < 32
        invariant
            i <= 32,
            h@.len() == 32,
            out@ == h@.take(i as int),
        decreases 32 - i,
    {
        out.push(h[i]);
        assert(h@.take(i + 1) =~= h@.take(i as int).push(h@[i as int]));
        i += 1;
    }
    assert(h@.take(32) =~= h@);
    out
}

/// A seed page is fetched now unless it is an onion address and no SOCKS
/// proxy is up yet.
pub fn crawl_now(seed_url: &String, socks_up: bool) -> (b: bool)
    ensures
        b == !(is_onion_url(seed_url@) && !socks_up),
{
    !(onion_url(seed_url) && !socks_up)
}

/// The hit indexed for a crawled seed page: the page's own title and
/// description (else the seed's), trimmed; onion pages labelled Onion on
/// Tor, others Local on the surface web; verified.
pub open spec fn crawled_spec(seed: ResultView, page_title: Option<Seq<char>>, page_description: Option<Seq<char>>) -> ResultView {
    let title = match page_title {
        Some(t) => t,
        None => seed.title,
    };
    let desc = match page_description {
        Some(d) => d,
        None => seed.description,
    };
    let onion = is_onion_url(seed.url);
    hit(
        trim(title),
        seed.url,
        trim(desc),
        if onion { NetworkView::Tor } else { NetworkView::SurfaceWeb },
        if onion { ResultBadge::Onion } else { ResultBadge::Local },
    )
}

pub open spec fn opt_view(o: Option<String>) -> Option<Seq<char>> {
    match o {
        Some(s) => Some(s@),
        None => None,
    }
}

/// Builds the hit for a crawled seed page (see `crawled_spec`); the page's
/// `<title>` text and `description` meta content are passed when found.
pub fn crawled_result(seed: &SearchResult, page_title: Option<String>, page_description: Option<String>) -> (r: SearchResult)
    ensures
        r@ == crawled_spec(seed@, opt_view(page_title), opt_view(page_description)),
{
    let title = match page_title {
        Some(t) => t,
        None => seed.title.clone(),
    };
    let desc = match page_description {
        Some(d) => d,
        None => seed.description.clone(),
    };
    let onion = onion_url(&seed.url);
    SearchResult {
        title: string_of(&trim_chars(&chars_of(title.as_str()))),
        url: seed.url.clone(),
        description: string_of(&trim_chars(&chars_of(desc.as_str()))),
        source: if onion { NetworkType::Tor } else { NetworkType::SurfaceWeb },
        verified: true,
        badge: if onion { ResultBadge::Onion } else { ResultBadge::Local },
    }
}

/// One SearXNG item, from its `title`, `url` and `content` fields: no hit
/// without an address; title "Untitled" and an empty description when
/// absent; onion addresses labelled Onion on Tor, others Clearnet on the
/// surface web; not verified.
pub open spec fn searx_item_spec(title: Option<Seq<char>>, url: Option<Seq<char>>, content: Option<Seq<char>>) -> Option<ResultView> {
    let link = match url {
        Some(u) => u,
        None => seq![],
    };
    if link.len() == 0 {
        None
    } else {
        let onion = is_onion_url(link);
        Some(ResultView {
            title: match title {
                Some(t) => t,
                None => "Untitled"@,
            },
            url: link,
            description: match content {
                Some(c) => c,
                None => seq![],
            },
            source: if onion { NetworkView::Tor } else { NetworkView::SurfaceWeb },
            verified: false,
            badge: if onion { ResultBadge::Onion } else { ResultBadge::Clearnet },
        })
    }
}

/// The hits of a SearXNG answer: the first 15 items, those without an
/// address dropped.
pub open spec fn searx_results_spec(items: Seq<(Option<Seq<char>>, Option<Seq<char>>, Option<Seq<char>>)>) -> Seq<ResultView>
    decreases items.len(),
{
    if items.len() == 0 {
        seq![]
    } else if items.len() > 15 {
        searx_results_spec(items.take(15))
    } else {
        let rest = searx_results_spec(items.drop_last());
        let it = items.last();
        match searx_item_spec(it.0, it.1, it.2) {
            Some(r) => rest.push(r),
            None => rest,
        }
    }
}

pub open spec fn item_views(v: Seq<(Option<String>, Option<String>, Option<String>)>) -> Seq<(Option<Seq<char>>, Option<Seq<char>>, Option<Seq<char>>)> {
    v.map_values(|t: (Option<String>, Option<String>, Option<String>)| (opt_view(t.0), opt_view(t.1), opt_view(t.2)))
}

/// The hits of a SearXNG answer (see `searx_results_spec`), given each
/// item's `(title, url, content)` string fields.
pub fn searx_results(items: Vec<(Option<String>, Option<String>, Option<String>)>) -> (r: Vec<SearchResult>)
    ensures
        results_view(r@) == searx_results_spec(item_views(items@)),
{
    proof {
        reveal_strlit("");
    }
    let ghost all = item_views(items@);
    let n: usize = if items.len() > 15 { 15 } else { items.len() };
    let ghost its = all.take(n as int);
    let mut out: Vec<SearchResult> = Vec::new();
    let mut i: usize = 0;
    while i < n
        invariant
            n <= items@.len(),
            n <= 15,
            all == item_views(items@),
            its == all.take(n as int),
            i <= n,
            results_view(out@) == searx_results_spec(its.take(i as int)),
        decreases n - i,
    {
        let it = &items[i];
        assert(its.take(i + 1).drop_last() =~= its.take(i as int));
        assert(its.take(i + 1).last() == all[i as int]);
        let link = match &it.1 {
            Some(u) => u.clone(),
            None => String::new(),
        };
        let lv = chars_of(link.as_str());
        if lv.len() > 0 {
            let onion = onion_url(&link);
            let title = match &it.0 {
                Some(t) => t.clone(),
                None => String::from_str("Untitled"),
            };
            let description = match &it.2 {
                Some(c) => c.clone(),
                None => String::new(),
            };
            out.push(SearchResult {
                title,
                url: link,
                description,
                source: if onion { NetworkType::Tor } else { NetworkType::SurfaceWeb },
                verified: false,
                badge: if onion { ResultBadge::Onion } else { ResultBadge::Clearnet },
            });
            assert(results_view(out@) =~= results_view(out@.drop_last()).push(out@.last()@));
        }
        i += 1;
    }
    proof {
        assert(its.take(n as int) =~= its);
        if all.len() > 15 {
            assert(all.take(15) =~= its);
        } else {
            assert(its =~= all);
        }
    }
    out
}

/// The percent-encoding of `urlencoding::encode`: unreserved bytes
/// (letters, digits, `-`, `.`, `_`, `~`) stay, every other byte becomes
/// `%` and two upper-case hex digits.
pub open spec fn percent_encode(bs: Seq<u8>) -> Seq<char>
    decreases bs.len(),
{
    if bs.len() == 0 {
        seq![]
    } else {
        let b = bs.last();
        percent_encode(bs.drop_last()) + if is_unreserved(b) {
            seq![b as char]
        } else {
            seq!['%', hex_upper(b / 16), hex_upper(b % 16)]
        }
    }
}

/// `urlencoding::encode`: the result is `percent_encode` of the text's
/// UTF-8 bytes, as its source shows.
#[verifier::external_body]
pub(crate) fn url_encode(s: &str) -> (r: String)
    ensures
        r@ == percent_encode(encode_utf8(s@)),
{
    urlencoding::encode(s).into_owned()
}

pub open spec fn opt_items_view(o: Option<Vec<(Option<String>, Option<String>, Option<String>)>>) -> Option<
    Seq<(Option<Seq<char>>, Option<Seq<char>>, Option<Seq<char>>)>,
> {
    match o {
        Some(v) => Some(item_views(v@)),
        None => None,
    }
}

/// The name for what `serde_json` reads from a SearXNG answer: for each
/// element of its `results` array, the `title`, `url` and `content`
/// members that are strings; empty without such an array; `None` when the
/// text is not JSON.
pub uninterp spec fn searx_json_items(body: Seq<char>) -> Option<
    Seq<(Option<Seq<char>>, Option<Seq<char>>, Option<Seq<char>>)>,
>;

/// `serde_json::from_str` into a `Value`, read through `get("results")`,
/// `as_array`, and `get(..)`/`as_str` on each element: named
/// `searx_json_items`.
#[verifier::external_body]
fn searx_items(body: &str) -> (r: Option<Vec<(Option<String>, Option<String>, Option<String>)>>)
    ensures
        opt_items_view(r) == searx_json_items(body@),
{
    let v: serde_json::Value = serde_json::from_str(body).ok()?;
    let field = |it: &serde_json::Value, k: &str| it.get(k).and_then(|x| x.as_str()).map(|t| t.to_string());
    Some(match v.get("results").and_then(|r| r.as_array()) {
        Some(arr) => arr.iter().map(|it| (field(it, "title"), field(it, "url"), field(it, "content"))).collect(),
        None => Vec::new(),
    })
}

/// The hits of a SearXNG answer body (see `searx_results_spec`); `None`
/// when the body is not JSON.
pub fn searx_results_from_body(body: &str) -> (r: Option<Vec<SearchResult>>)
    ensures
        match searx_json_items(body@) {
            Some(items) => r matches Some(v) && results_view(v@) == searx_results_spec(items),
            None => r is None,
        },
{
    match searx_items(body) {
        Some(items) => Some(searx_results(items)),
        None => None,
    }
}

/// The SearXNG JSON query address for `query` on the instance at `base`
/// (trailing slashes of `base` dropped).
pub fn searx_query_url(base: &str, query: &str) -> (r: String)
    ensures
        r@ == strip_trailing(base@, '/') + "/search?q="@ + percent_encode(encode_utf8(query@)) + "&format=json"@,
{
    let b = strip_trailing_chars(&chars_of(base), '/');
    let mut s = string_of(&b);
    push_str(&mut s, "/search?q=");
    let q = url_encode(query);
    push_str(&mut s, q.as_str());
    push_str(&mut s, "&format=json");
    s
}

/// The Ahmia onion service.
pub const AHMIA_ONION: &'static str = "juhanurmihxlp77nkq76byazcldy2hlmovfu2epvl5ankdibsot4csyd.onion";

/// The Ahmia clear-web search front.
pub const AHMIA_CLEAR: &'static str = "https://ahmia.fi/search/";

/// The Ahmia search path for `query`.
pub fn ahmia_search_path(query: &str) -> (r: String)
    ensures
        r@ == "/search/?q="@ + percent_encode(encode_utf8(query@)),
{
    let mut s = String::from_str("/search/?q=");
    let q = url_encode(query);
    push_str(&mut s, q.as_str());
    s
}

/// The Ahmia address reached over SOCKS for `query`.
pub fn ahmia_onion_url(query: &str) -> (r: String)
    ensures
        r@ == "http://"@ + AHMIA_ONION@ + "/search/?q="@ + percent_encode(encode_utf8(query@)),
{
    let mut s = String::from_str("http://");
    push_str(&mut s, AHMIA_ONION);
    let p = ahmia_search_path(query);
    push_str(&mut s, p.as_str());
    s
}

/// The clear-web Ahmia address for `query`.
pub fn ahmia_clear_url(query: &str) -> (r: String)
    ensures
        r@ == AHMIA_CLEAR@ + "?q="@ + percent_encode(encode_utf8(query@)),
{
    let mut s = String::from_str(AHMIA_CLEAR);
    push_str(&mut s, "?q=");
    let q = url_encode(query);
    push_str(&mut s, q.as_str());
    s
}

/// The HTTP request sent over a raw Tor stream for `path` on `host`.
pub fn ahmia_http_request(path: &str, host: &str) -> (r: String)
    ensures
        r@ == "GET "@ + path@ + " HTTP/1.1\r\nHost: "@ + host@ + "\r\nConnection: close\r\nUser-Agent: SentinelHorus/0.1\r\n\r\n"@,
{
    let mut s = String::from_str("GET ");
    push_str(&mut s, path);
    push_str(&mut s, " HTTP/1.1\r\nHost: ");
    push_str(&mut s, host);
    push_str(&mut s, "\r\nConnection: close\r\nUser-Agent: SentinelHorus/0.1\r\n\r\n");
    s
}

/// An Ahmia search is only made for a query that is not blank.
pub fn ahmia_query_worth_sending(query: &str) -> (b: bool)
    ensures
        b == (trim(query@).len() > 0),
{
    trim_chars(&chars_of(query)).len() > 0
}

/// The name for the capture groups of every match of `pattern` in `text`,
/// in order (group 0 first), or `None` when the pattern does not compile.
pub uninterp spec fn regex_matches(pattern: Seq<char>, text: Seq<char>) -> Option<Seq<Seq<Option<Seq<char>>>>>;

pub open spec fn groups_view(g: Vec<Option<String>>) -> Seq<Option<Seq<char>>> {
    g@.map_values(|o: Option<String>| opt_view(o))
}

pub open spec fn captures_view(c: Option<Vec<Vec<Option<String>>>>) -> Option<Seq<Seq<Option<Seq<char>>>>> {
    match c {
        Some(v) => Some(v@.map_values(|g: Vec<Option<String>>| groups_view(g))),
        None => None,
    }
}

/// `regex::Regex::new(pattern)` and `captures_iter(text)`: the groups of all
/// matches, named `regex_matches`; `None` when `Regex::new` fails.
#[verifier::external_body]
fn regex_captures(pattern: &str, text: &str) -> (r: Option<Vec<Vec<Option<String>>>>)
    ensures
        captures_view(r) == regex_matches(pattern@, text@),
{
    match regex::Regex::new(pattern) {
        Ok(re) => Some(
            re.captures_iter(text).map(|c| c.iter().map(|m| m.map(|m| m.as_str().to_string())).collect()).collect(),
        ),
        Err(_) => None,
    }
}

/// The name for what `html_escape::decode_html_entities` makes of a text.
pub uninterp spec fn entities_decoded(s: Seq<char>) -> Seq<char>;

/// `html_escape::decode_html_entities`, named `entities_decoded`.
#[verifier::external_body]
fn decode_entities(s: &str) -> (r: String)
    ensures
        r@ == entities_decoded(s@),
{
    html_escape::decode_html_entities(s).into_owned()
}

/// Links to onion services with their text, in Ahmia's result markup.
pub const AHMIA_LINK_PATTERN: &'static str = r##"<a[^>]+href=["'](https?://[a-z2-7]{16,56}\.onion[^"']*)["'][^>]*>([^<]{1,200})</a>"##;

/// Bare onion addresses anywhere in a page.
pub const AHMIA_BARE_PATTERN: &'static str = r##"(https?://[a-z2-7]{16,56}\.onion[^\s<"']*)"##;

/// The hit for one link match: address and text decoded, text trimmed; no
/// hit when the text is empty or a group is missing.
pub open spec fn ahmia_link_hit(groups: Seq<Option<Seq<char>>>) -> Option<ResultView> {
    if groups.len() < 3 {
        None
    } else {
        match (groups[1], groups[2]) {
            (Some(u), Some(t)) => {
                let title = trim(entities_decoded(t));
                if title.len() == 0 {
                    None
                } else {
                    Some(hit(title, entities_decoded(u), "Indexed via Ahmia onion directory (Tor)."@, NetworkView::Tor, ResultBadge::Onion))
                }
            },
            _ => None,
        }
    }
}

/// The hits of the link matches, in order, at most 15.
pub open spec fn ahmia_link_hits(caps: Seq<Seq<Option<Seq<char>>>>) -> Seq<ResultView>
    decreases caps.len(),
{
    if caps.len() == 0 {
        seq![]
    } else {
        let acc = ahmia_link_hits(caps.drop_last());
        if acc.len() >= 15 {
            acc
        } else {
            match ahmia_link_hit(caps.last()) {
                Some(r) => acc.push(r),
                None => acc,
            }
        }
    }
}

/// The hit for one bare address match: the address is also the title.
pub open spec fn ahmia_bare_hit(groups: Seq<Option<Seq<char>>>) -> Option<ResultView> {
    if groups.len() < 2 {
        None
    } else {
        match groups[1] {
            Some(u) => Some(hit(u, u, "Onion service discovered via Ahmia."@, NetworkView::Tor, ResultBadge::Onion)),
            None => None,
        }
    }
}

/// The hits of the bare address matches, in order, at most 10.
pub open spec fn ahmia_bare_hits(caps: Seq<Seq<Option<Seq<char>>>>) -> Seq<ResultView>
    decreases caps.len(),
{
    if caps.len() == 0 {
        seq![]
    } else {
        let acc = ahmia_bare_hits(caps.drop_last());
        if acc.len() >= 10 {
            acc
        } else {
            match ahmia_bare_hit(caps.last()) {
                Some(r) => acc.push(r),
                None => acc,
            }
        }
    }
}

/// The hits read from an Ahmia results page: the onion links with their
/// texts, or, when there are none, the bare onion addresses; `None` when a
/// pattern does not compile.
pub open spec fn ahmia_results_spec(body: Seq<char>) -> Option<Seq<ResultView>> {
    match regex_matches(AHMIA_LINK_PATTERN@, body) {
        None => None,
        Some(c1) => {
            let first = ahmia_link_hits(c1);
            if first.len() > 0 {
                Some(first)
            } else {
                match regex_matches(AHMIA_BARE_PATTERN@, body) {
                    None => None,
                    Some(c2) => Some(ahmia_bare_hits(c2)),
                }
            }
        },
    }
}

pub open spec fn opt_results_view(o: Option<Vec<SearchResult>>) -> Option<Seq<ResultView>> {
    match o {
        Some(v) => Some(results_view(v@)),
        None => None,
    }
}

/// The hits for the link matches `caps` (see `ahmia_link_hits`).
pub fn ahmia_link_results(caps: &Vec<Vec<Option<String>>>) -> (r: Vec<SearchResult>)
    ensures
        results_view(r@) == ahmia_link_hits(caps@.map_values(|g: Vec<Option<String>>| groups_view(g))),
{
    let ghost cs = caps@.map_values(|g: Vec<Option<String>>| groups_view(g));
    let mut out: Vec<SearchResult> = Vec::new();
    let mut i: usize = 0;
    while i < caps.len()
        invariant
            i <= caps@.len(),
            cs == caps@.map_values(|g: Vec<Option<String>>| groups_view(g)),
            results_view(out@) == ahmia_link_hits(cs.take(i as int)),
        decreases caps@.len() - i,
    {
        assert(cs.take(i + 1).drop_last() =~= cs.take(i as int));
        assert(cs.take(i + 1).last() == groups_view(caps@[i as int]));
        if out.len() < 15 {
            let g = &caps[i];
            if g.len() >= 3 {
                assert(groups_view(*g)[1] == opt_view(g@[1]));
                assert(groups_view(*g)[2] == opt_view(g@[2]));
                match (&g[1], &g[2]) {
                    (Some(u), Some(t)) => {
                        let dt = decode_entities(t.as_str());
                        let title = trim_chars(&chars_of(dt.as_str()));
                        if title.len() > 0 {
                            let du = decode_entities(u.as_str());
                            out.push(SearchResult {
                                title: string_of(&title),
                                url: du,
                                description: String::from_str("Indexed via Ahmia onion directory (Tor)."),
                                source: NetworkType::Tor,
                                verified: true,
                                badge: ResultBadge::Onion,
                            });
                            assert(results_view(out@) =~= results_view(out@.drop_last()).push(out@.last()@));
                        }
                    },
                    _ => {},
                }
            }
        }
        i += 1;
    }
    assert(cs.take(caps@.len() as int) =~= cs);
    out
}

/// The hits for the bare address matches `caps` (see `ahmia_bare_hits`).
pub fn ahmia_bare_results(caps: &Vec<Vec<Option<String>>>) -> (r: Vec<SearchResult>)
    ensures
        results_view(r@) == ahmia_bare_hits(caps@.map_values(|g: Vec<Option<String>>| groups_view(g))),
{
    let ghost cs = caps@.map_values(|g: Vec<Option<String>>| groups_view(g));
    let mut out: Vec<SearchResult> = Vec::new();
    let mut i: usize = 0;
    while i < caps.len()
        invariant
            i <= caps@.len(),
            cs == caps@.map_values(|g: Vec<Option<String>>| groups_view(g)),
            results_view(out@) == ahmia_bare_hits(cs.take(i as int)),
        decreases caps@.len() - i,
    {
        assert(cs.take(i + 1).drop_last() =~= cs.take(i as int));
        assert(cs.take(i + 1).last() == groups_view(caps@[i as int]));
        if out.len() < 10 {
            let g = &caps[i];
            if g.len() >= 2 {
                assert(groups_view(*g)[1] == opt_view(g@[1]));
                match &g[1] {
                    Some(u) => {
                        out.push(SearchResult {
                            title: u.clone(),
                            url: u.clone(),
                            description: String::from_str("Onion service discovered via Ahmia."),
                            source: NetworkType::Tor,
                            verified: true,
                            badge: ResultBadge::Onion,
                        });
                        assert(results_view(out@) =~= results_view(out@.drop_last()).push(out@.last()@));
                    },
                    None => {},
                }
            }
        }
        i += 1;
    }
    assert(cs.take(caps@.len() as int) =~= cs);
    out
}

/// Reads the hits of an Ahmia results page (see `ahmia_results_spec`).
pub fn parse_ahmia_html(body: &str) -> (r: Option<Vec<SearchResult>>)
    ensures
        opt_results_view(r) == ahmia_results_spec(body@),
{
    match regex_captures(AHMIA_LINK_PATTERN, body) {
        None => None,
        Some(c1) => {
            let first = ahmia_link_results(&c1);
            if first.len() > 0 {
                Some(first)
            } else {
                match regex_captures(AHMIA_BARE_PATTERN, body) {
                    None => None,
                    Some(c2) => Some(ahmia_bare_results(&c2)),
                }
            }
        },
    }
}

} // verus!
