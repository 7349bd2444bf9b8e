use sentinel::governance::Proposal;
use sentinel::network::{ConnectionProfile, Protocol};
use sentinel::search::{NetworkType, ResultBadge, SearchResult};
use sentinel::startup::initial_proposals;
use sentinel::views::{
    bookmarks_page, connect_page, dapps_page, download_complete_page, download_error_page, downloads_page, error_page,
    governance_page, history_page, network_menu_page, pt_install_page, search_results_page, security_page,
    protocol_debug_text, settings_page, status_page, welcome_page,
};
use sentinel::network::{TorBridge, V2RayConfig};

#[test]
fn error_page_exact() {
    assert_eq!(
        error_page("Vote Error", "Invalid proposal ID."),
        "\n    <html>\n        <body>\n            <section>\n                <h1>Vote Error</h1>\n                <p>Invalid proposal ID.</p>\n            </section>\n            <button onclick=\"sentinel://welcome\">HOME</button>\n        </body>\n    </html>\n    "
    );
}

#[test]
fn welcome_and_settings() {
    let w = welcome_page("Cyberpunk", "Horus");
    assert!(w.contains("<p>Theme: Cyberpunk | Search: Horus</p>"));
    let s = settings_page("T", "E", "Strict", "true");
    assert!(s.contains("<p>History: Enabled</p>"));
    assert!(s.contains(">DISABLE HISTORY</button>"));
    assert!(s.contains("<p>Sandbox: Strict</p>"));
    let s = settings_page("T", "E", "Standard", "false");
    assert!(s.contains("<p>History: Disabled</p>"));
    assert!(s.contains(">ENABLE HISTORY</button>"));
    assert!(dapps_page().contains("<h1>LINKS</h1>"));
    assert!(network_menu_page("ok").contains("PT status: ok</p>"));
    assert!(security_page("Paranoid", "d", "w", "f").contains("<p>Fingerprint Masking: f</p>"));
}

#[test]
fn escaped_pages() {
    assert!(pt_install_page(true, "<x> & \"y\"").contains("<h1>PT HELPERS INSTALLED</h1>\n                <p>&lt;x&gt; &amp; &quot;y&quot;</p>"));
    assert!(pt_install_page(false, "e").contains("<h1>PT INSTALL FAILED</h1>"));
    assert!(download_complete_page("a<b").contains("<p>File: a&lt;b</p>"));
    assert!(download_error_page("bad \"url\"").contains("<p>bad &quot;url&quot;</p>"));
    let st = status_page("s<", "Tor", "127.0.0.1:9050", true, 3, 128, "pt&");
    assert!(st.contains("<p>s&lt;</p>"));
    assert!(st.contains("<p>Tor client: ready</p>"));
    assert!(st.contains("<p>Active Vortex streams: 3</p>"));
    assert!(st.contains("<p>Process RAM: 128 MB</p>"));
    assert!(st.contains("<p>PT: pt&amp;</p>"));
}

#[test]
fn list_pages() {
    let d = downloads_page(vec![]);
    assert!(d.contains("<p>No active or past downloads found.</p>"));
    let d = downloads_page(vec![("https://u".into(), "f.zip".into(), "Saved: /tmp/f.zip".into(), "now".into())]);
    assert!(d.contains("<b>f.zip</b>\n                <p>Source: https://u</p>\n                <p><i>Status: Saved: /tmp/f.zip | Date: now</i></p>"));
    let b = bookmarks_page(vec![("https://sentinel.dao".into(), "Sentinel".into())]);
    assert!(b.contains("<b>Sentinel</b>\n                <p>https://sentinel.dao</p>\n                <button onclick=\"https://sentinel.dao\">OPEN</button>"));
    let h = history_page(vec![("https://a".into(), "A".into(), "t".into())]);
    assert!(h.contains("<p><i>t</i></p>"));
    let c = connect_page("up", vec![], "pt");
    assert!(c.contains("<ul><p>No saved profiles.</p></ul>"));
    let c = connect_page("up", vec![ConnectionProfile { name: "Home".into(), protocol: Protocol::Clearweb }], "pt");
    assert!(c.contains("<li>Clearweb - Home <a href=\"sentinel://connect_switch?name=Home\">SWITCH</a></li>"));
}

#[test]
fn governance_listing() {
    let ps: Vec<Proposal> = initial_proposals();
    let g = governance_page(&ps);
    assert!(g.contains("GOVERNANCE (EXPERIMENTAL)"));
    assert!(g.contains("<p>Active proposals: 2</p>"));
    assert!(g.contains("<b>#1 Upgrade to ZK-Rollup V2</b>"));
    assert!(g.contains("<a href=\"sentinel://vote?id=2&approve=false\">Vote no (demo)</a>"));
    assert!(g.contains("Deadline: 1738368000"));
}

#[test]
fn search_results_sections() {
    let empty = search_results_page("q", vec![]);
    assert!(empty.contains("No results yet."));
    assert!(empty.contains("No dark-web hits"));
    assert!(empty.contains("<p>None</p>"));
    let onion = SearchResult {
        title: "Hidden".into(),
        url: "http://x.onion".into(),
        description: "d".into(),
        source: NetworkType::SurfaceWeb,
        verified: true,
        badge: ResultBadge::Clearnet,
    };
    let ipfs = SearchResult {
        title: "Dht".into(),
        url: "ipfs://1".into(),
        description: "".into(),
        source: NetworkType::Blockchain("IPFS".into()),
        verified: true,
        badge: ResultBadge::Ipfs,
    };
    let page = search_results_page("\"tor\"", vec![onion, ipfs]);
    assert!(page.contains("Query: \"&quot;tor&quot;\""));
    assert!(page.contains("<div class=\"result onion\">"));
    assert!(page.contains("<span class=\"badge-onion\">ONION</span> <b>Hidden</b>"));
    assert!(page.contains("<p>No clearnet/local hits.</p>"));
    assert!(page.contains("<span class=\"badge-clear\">CLEARNET</span> <b>Dht</b>"));
    assert!(!page.contains("<p>None</p>"));
}

#[test]
fn protocols_print_as_derived_debug() {
    assert_eq!(protocol_debug_text(&Protocol::Clearweb), "Clearweb");
    assert_eq!(protocol_debug_text(&Protocol::Tor { bridge: TorBridge::NoBridge }), "Tor { bridge: None }");
    assert_eq!(
        protocol_debug_text(&Protocol::Tor { bridge: TorBridge::Obfs4 { addr: "1.2.3.4:5".into(), cert: "c\"x".into(), iat_mode: 2 } }),
        "Tor { bridge: Obfs4 { addr: \"1.2.3.4:5\", cert: \"c\\\"x\", iat_mode: 2 } }"
    );
    assert_eq!(
        protocol_debug_text(&Protocol::V2Ray(V2RayConfig::VMess { uuid: "u".into(), alter_id: 64, security: "auto".into() })),
        "V2Ray(VMess { uuid: \"u\", alter_id: 64, security: \"auto\" })"
    );
    assert_eq!(
        protocol_debug_text(&Protocol::WireGuard { private_key: "k".into(), endpoint: "e:1".into() }),
        "WireGuard { private_key: \"k\", endpoint: \"e:1\" }"
    );
    let c = connect_page("up", vec![ConnectionProfile { name: "T".into(), protocol: Protocol::Tor { bridge: TorBridge::NoBridge } }], "pt");
    assert!(c.contains("<li>Tor { bridge: None } - T "));
}
