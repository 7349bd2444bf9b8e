use sentinel::ranking::rank_results;
use sentinel::search::{
    ahmia_clear_url, ahmia_http_request, crawled_page, keyword_key, searx_results_from_body, ahmia_onion_url, ahmia_query_worth_sending, crawl_now, default_badge, crawled_result, local_hit, parse_ahmia_html, searx_query_url,
    searx_results, seed_documents, NetworkType, ResultBadge, SearchResult,
};

fn hit(title: &str, url: &str, verified: bool, badge: ResultBadge) -> SearchResult {
    SearchResult {
        title: title.to_string(),
        url: url.to_string(),
        description: String::new(),
        source: NetworkType::SurfaceWeb,
        verified,
        badge,
    }
}

#[test]
fn seed_corpus() {
    let seeds = seed_documents();
    assert_eq!(seeds.len(), 10);
    assert_eq!(seeds[0].title, "Tor Project");
    assert_eq!(seeds[0].url, "https://www.torproject.org/");
    assert_eq!(seeds[2].badge, ResultBadge::Onion);
    assert_eq!(seeds[2].source, NetworkType::Tor);
    assert_eq!(seeds[9].title, "SearXNG");
    assert!(seeds.iter().all(|s| s.verified));
    assert_eq!(seeds.iter().filter(|s| s.badge == ResultBadge::Onion).count(), 3);
}

#[test]
fn ranking_orders_by_score_then_title() {
    let all = vec![
        hit("b clear", "https://b", false, ResultBadge::Clearnet),
        hit("z local", "https://z", true, ResultBadge::Local),
        hit("a onion", "http://x.onion", true, ResultBadge::Onion),
        hit("a clear", "https://a", false, ResultBadge::Clearnet),
        hit("m local", "https://m", true, ResultBadge::Local),
    ];
    let ranked = rank_results(&all);
    let titles: Vec<&str> = ranked.iter().map(|r| r.title.as_str()).collect();
    assert_eq!(titles, vec!["m local", "z local", "a onion", "a clear", "b clear"]);
}

#[test]
fn ranking_removes_adjacent_duplicates_and_caps() {
    let mut all = Vec::new();
    for i in 0..50 {
        all.push(hit(&format!("t{:02}", i), &format!("https://u{}", i), false, ResultBadge::Clearnet));
    }
    all.push(hit("t00", "https://u0", false, ResultBadge::Clearnet));
    let ranked = rank_results(&all);
    assert_eq!(ranked.len(), 40);
    assert_eq!(ranked[0].url, "https://u0");
    assert_eq!(ranked[1].url, "https://u1");
    for w in ranked.windows(2) {
        assert_ne!(w[0].url, w[1].url);
    }
}

#[test]
fn ranking_is_stable_for_equal_keys() {
    let a = SearchResult { description: "first".into(), ..hit("same", "https://1", false, ResultBadge::Clearnet) };
    let b = SearchResult { description: "second".into(), ..hit("same", "https://2", false, ResultBadge::Clearnet) };
    let ranked = rank_results(&vec![a, b]);
    assert_eq!(ranked[0].description, "first");
    assert_eq!(ranked[1].description, "second");
}

#[test]
fn hits_are_labelled_by_address() {
    let onion = local_hit("T".into(), "http://abc.onion/x".into(), "B".into());
    assert_eq!((onion.badge, onion.source), (ResultBadge::Onion, NetworkType::Tor));
    let clear = local_hit("T".into(), "https://abc.org".into(), "B".into());
    assert_eq!((clear.badge, clear.source), (ResultBadge::Local, NetworkType::SurfaceWeb));
    assert!(clear.verified);
    assert!(!crawl_now(&"http://abc.onion".to_string(), false));
    assert!(crawl_now(&"http://abc.onion".to_string(), true));
    assert!(crawl_now(&"https://abc.org".to_string(), false));
}

#[test]
fn crawled_pages_keep_seed_fallbacks() {
    let seed = &seed_documents()[0];
    let r = crawled_result(seed, Some("  Tor Project | Anonymity  ".into()), None);
    assert_eq!(r.title, "Tor Project | Anonymity");
    assert_eq!(r.description, seed.description);
    assert_eq!(r.badge, ResultBadge::Local);
    let o = crawled_result(&seed_documents()[2], None, Some(" d ".into()));
    assert_eq!(o.title, "DuckDuckGo Onion");
    assert_eq!(o.description, "d");
    assert_eq!(o.badge, ResultBadge::Onion);
}

#[test]
fn searx_items_become_hits() {
    let mut items = vec![
        (Some("A".to_string()), Some("https://a.example".to_string()), Some("about a".to_string())),
        (None, Some("http://b.onion".to_string()), None),
        (Some("no url".to_string()), None, None),
        (Some("empty url".to_string()), Some(String::new()), None),
    ];
    for i in 0..20 {
        items.push((None, Some(format!("https://n{}.example", i)), None));
    }
    let hits = searx_results(items);
    assert_eq!(hits.len(), 13);
    assert_eq!(hits[0].title, "A");
    assert_eq!(hits[0].badge, ResultBadge::Clearnet);
    assert!(!hits[0].verified);
    assert_eq!(hits[1].title, "Untitled");
    assert_eq!(hits[1].badge, ResultBadge::Onion);
    assert_eq!(hits[1].description, "");
    assert_eq!(hits[12].url, "https://n10.example");
}

#[test]
fn query_addresses() {
    assert_eq!(searx_query_url("https://s", "a b&c~"), "https://s/search?q=a%20b%26c~&format=json");
    assert_eq!(searx_query_url("https://searx.local//", "tor mail"), "https://searx.local/search?q=tor%20mail&format=json");
    assert_eq!(
        ahmia_onion_url("x y"),
        "http://juhanurmihxlp77nkq76byazcldy2hlmovfu2epvl5ankdibsot4csyd.onion/search/?q=x%20y"
    );
    assert_eq!(ahmia_clear_url("é"), "https://ahmia.fi/search/?q=%C3%A9");
}

#[test]
fn ahmia_pages_are_read() {
    let onion = "abcdefghijklmnopqrstuvwxyz234567abcdefghijklmnopqrstuvwx";
    let page = format!(
        r#"<li><a class="r" href="http://{o}.onion/page">  Cool &amp; Onion </a></li><a href="https://{o}.onion">x</a>"#,
        o = onion
    );
    let hits = parse_ahmia_html(&page).unwrap();
    assert_eq!(hits.len(), 2);
    assert_eq!(hits[0].title, "Cool & Onion");
    assert_eq!(hits[0].url, format!("http://{}.onion/page", onion));
    assert_eq!(hits[0].description, "Indexed via Ahmia onion directory (Tor).");
    let bare = format!("see http://{}.onion/x and more", onion);
    let hits = parse_ahmia_html(&bare).unwrap();
    assert_eq!(hits.len(), 1);
    assert_eq!(hits[0].title, hits[0].url);
    assert_eq!(hits[0].description, "Onion service discovered via Ahmia.");
    assert!(parse_ahmia_html("nothing here").unwrap().is_empty());
}

#[test]
fn ahmia_requests() {
    assert_eq!(default_badge(), ResultBadge::Clearnet);
    assert_eq!(
        ahmia_http_request("/search/?q=x", "ahmia.onion"),
        "GET /search/?q=x HTTP/1.1\r\nHost: ahmia.onion\r\nConnection: close\r\nUser-Agent: SentinelHorus/0.1\r\n\r\n"
    );
    assert!(ahmia_query_worth_sending(" tor "));
    assert!(!ahmia_query_worth_sending(" \t\n"));
    assert!(!ahmia_query_worth_sending(""));
}

#[test]
fn crawled_pages_take_title_and_description_from_the_html() {
    let seed = hit("Seed Title", "https://seed.example", false, ResultBadge::Local);
    let page = "<html><head><title> Fresh <b>Title</b> </title><meta name=\"description\" content=\"  About it  \"></head><body>x</body></html>";
    let r = crawled_page(&seed, page);
    assert_eq!(r.title, "Fresh <b>Title</b>");
    assert_eq!(r.description, "About it");
    assert_eq!(r.url, "https://seed.example");
    assert_eq!(r.badge, ResultBadge::Local);
    assert!(r.verified);
    let bare = crawled_page(&seed, "<p>no head</p>");
    assert_eq!(bare.title, "Seed Title");
    assert_eq!(bare.description, seed.description);
}

#[test]
fn dht_keys_hash_the_normalized_query() {
    assert_eq!(keyword_key("  Tor Mail "), blake3::hash(b"tor mail").as_bytes().to_vec());
    assert_eq!(keyword_key("x"), keyword_key(" X "));
    assert_ne!(keyword_key("x"), keyword_key("y"));
}

#[test]
fn searx_answers_become_hits() {
    let body = r#"{"results":[{"title":"A","url":"https://a.example","content":"about a"},{"url":""},{"url":"http://b.onion","title":7},{"title":"no url"}]}"#;
    let hits = searx_results_from_body(body).unwrap();
    assert_eq!(hits.len(), 2);
    assert_eq!(hits[0].title, "A");
    assert_eq!(hits[0].description, "about a");
    assert_eq!(hits[0].badge, ResultBadge::Clearnet);
    assert_eq!(hits[1].title, "Untitled");
    assert_eq!(hits[1].badge, ResultBadge::Onion);
    assert_eq!(hits[1].source, NetworkType::Tor);
    assert!(searx_results_from_body("not json").is_none());
    assert_eq!(searx_results_from_body("{}").unwrap().len(), 0);
}
