use sentinel::navigation::{
    allowlist_addition,
    classify_navigation, download_complete_address, download_file_name, download_url_valid, download_via_socks,
    failed_download_name, follow_up, history_entry, network_choice, next_security_level, tab_title_for,
    toggled_history, webgl_disabled, NavTarget, NetworkChoice,
};
use sentinel::network::{Protocol, TorBridge, V2RayConfig};
use sentinel::routes::{parse_vote_request, route_internal, InternalPage, NetworkKind};

#[test]
fn internal_addresses_route_to_pages() {
    assert_eq!(route_internal("sentinel://home"), InternalPage::Welcome);
    assert_eq!(route_internal("sentinel://newtab"), InternalPage::Welcome);
    assert_eq!(route_internal("sentinel://network_menu"), InternalPage::NetworkMenu);
    assert_eq!(route_internal("sentinel://nope"), InternalPage::NotFound);
    assert_eq!(route_internal("sentinel://home?x=1"), InternalPage::NotFound);
    assert_eq!(
        route_internal("sentinel://add_bookmark?url=https://sentinel.dao&title=Sentinel"),
        InternalPage::AddBookmark { url: "https://sentinel.dao".into(), title: "Sentinel".into() }
    );
    assert_eq!(route_internal("sentinel://search?q=tor+mail"), InternalPage::Search { query: "tor+mail".into() });
    assert_eq!(route_internal("sentinel://allow_site?host=ads.example"), InternalPage::AllowSite { host: "ads.example".into() });
    assert_eq!(route_internal("sentinel://allow_site"), InternalPage::AllowSite { host: String::new() });
}

#[test]
fn vote_requests() {
    assert_eq!(parse_vote_request("sentinel://vote?id=2&approve=false"), (2, false));
    assert_eq!(parse_vote_request("sentinel://vote?id=1&approve=true"), (1, true));
    assert_eq!(parse_vote_request("sentinel://vote"), (0, true));
    assert_eq!(parse_vote_request("sentinel://vote?id=x&approve=yes"), (0, false));
    assert_eq!(route_internal("sentinel://vote?id=9"), InternalPage::Vote { id: 9, approve: true });
}

#[test]
fn network_requests() {
    assert_eq!(route_internal("sentinel://network?type=v2ray"), InternalPage::Network { kind: NetworkKind::V2Ray });
    assert_eq!(route_internal("sentinel://network?type=clear"), InternalPage::Network { kind: NetworkKind::Clear });
    assert_eq!(route_internal("sentinel://network"), InternalPage::Network { kind: NetworkKind::Tor });
    assert_eq!(route_internal("sentinel://network?type=i2p"), InternalPage::Network { kind: NetworkKind::Unavailable });
    assert_eq!(route_internal("sentinel://network?type=odd"), InternalPage::Network { kind: NetworkKind::Tor });
    assert_eq!(
        network_choice(NetworkKind::V2Ray, true, false, "u-1".into()),
        NetworkChoice::Switch(Protocol::V2Ray(V2RayConfig::VLESS {
            uuid: "u-1".into(),
            encryption: "none".into(),
            flow: String::new()
        }))
    );
    assert_eq!(network_choice(NetworkKind::V2Ray, false, true, "u".into()), NetworkChoice::V2RayUnavailable);
    assert_eq!(
        network_choice(NetworkKind::Snowflake, false, false, "u".into()),
        NetworkChoice::Switch(Protocol::Tor { bridge: TorBridge::NoBridge })
    );
    assert_eq!(network_choice(NetworkKind::Unavailable, true, true, "u".into()), NetworkChoice::NotOffered);
}

#[test]
fn bridge_and_connect_requests() {
    assert_eq!(
        route_internal("sentinel://add_bridge_obfs4?addr=1.2.3.4:443&cert=abc&iat_mode=2"),
        InternalPage::AddBridgeObfs4 { addr: "1.2.3.4:443".into(), cert: "abc".into(), iat_mode: 2 }
    );
    assert_eq!(
        route_internal("sentinel://add_bridge_obfs4?iat_mode=300"),
        InternalPage::AddBridgeObfs4 { addr: String::new(), cert: String::new(), iat_mode: 0 }
    );
    assert_eq!(
        route_internal("sentinel://connect_add_vmess?uuid=u&alterId=64&security=auto"),
        InternalPage::ConnectAddVmess { uuid: "u".into(), alter_id: 64, security: "auto".into() }
    );
    assert_eq!(route_internal("sentinel://connect_save_profile"), InternalPage::ConnectSaveProfile { name: "Profile".into() });
    assert_eq!(route_internal("sentinel://connect_switch?name=Home"), InternalPage::ConnectSwitch { name: "Home".into() });
    assert_eq!(route_internal("sentinel://connect_test"), InternalPage::ConnectTest);
    assert_eq!(follow_up(&InternalPage::ConnectTest), Some("sentinel://connect".to_string()));
    assert_eq!(follow_up(&InternalPage::ClearHistory), Some("sentinel://history".to_string()));
    assert_eq!(follow_up(&InternalPage::Status), None);
}

#[test]
fn download_requests() {
    assert_eq!(
        route_internal("sentinel://download?url=https%3A%2F%2Fx.example%2Fa+b.pdf"),
        InternalPage::Download { url: "https://x.example/a b.pdf".into() }
    );
    assert_eq!(route_internal("sentinel://download_complete?file=f.zip"), InternalPage::DownloadComplete { filename: "f.zip".into() });
    assert_eq!(route_internal("sentinel://download_complete"), InternalPage::DownloadComplete { filename: "document.pdf".into() });
    assert!(download_url_valid("https://x/y"));
    assert!(!download_url_valid("ftp://x/y"));
    assert!(!download_url_valid(""));
    assert_eq!(download_file_name("https://x.example/dir/re port(1).pdf?token=1"), "re_port_1_.pdf");
    assert_eq!(download_file_name("https://x.example/"), "download.bin");
    assert_eq!(download_file_name("https://x.example/..secret"), "download.bin");
    assert_eq!(failed_download_name("https://x.example/a/b.txt?q=1"), "b.txt?q=1");
    assert!(download_via_socks(true, "http://abc.onion/f", false));
    assert!(download_via_socks(true, "https://x", true));
    assert!(!download_via_socks(true, "https://x", false));
    assert!(!download_via_socks(false, "http://abc.onion/f", true));
    assert_eq!(download_complete_address("a.pdf"), "sentinel://download_complete?file=a.pdf");
}

#[test]
fn addresses_typed_or_clicked() {
    assert_eq!(classify_navigation("sentinel://settings"), NavTarget::Internal);
    assert_eq!(classify_navigation("  https://example.com "), NavTarget::Load { url: "https://example.com".into() });
    assert_eq!(classify_navigation("example.com"), NavTarget::Load { url: "https://example.com".into() });
    assert_eq!(classify_navigation("abc.onion"), NavTarget::Load { url: "http://abc.onion".into() });
    assert_eq!(classify_navigation("   "), NavTarget::EmptySearch);
    assert_eq!(classify_navigation(" tor mail "), NavTarget::Search { query: "tor mail".into() });
}

#[test]
fn tab_titles_and_history_entries() {
    assert_eq!(tab_title_for("sentinel://vote?id=2"), "vote");
    assert_eq!(tab_title_for("https://example.com"), "https://example.com");
    assert_eq!(tab_title_for("https://example.com/a/very/long/path/indeed"), "https://example.com/a/very/long/");
    assert_eq!(history_entry("sentinel://settings", None), Some("SETTINGS".to_string()));
    assert_eq!(history_entry("https://a.b", Some("true".into())), Some("https://a.b".to_string()));
    assert_eq!(history_entry("https://a.b", Some("false".into())), None);
    assert_eq!(history_entry("sentinel://vote?id=1", None), None);
    assert_eq!(history_entry("sentinel://network?type=tor", None), None);
}

#[test]
fn settings_toggles() {
    assert_eq!(toggled_history(None), "false");
    assert_eq!(toggled_history(Some("true".into())), "false");
    assert_eq!(toggled_history(Some("false".into())), "true");
    assert_eq!(toggled_history(Some("garbage".into())), "true");
    assert_eq!(next_security_level(None), "Strict");
    assert_eq!(next_security_level(Some("Strict".into())), "Paranoid");
    assert_eq!(next_security_level(Some("Paranoid".into())), "Standard");
    assert_eq!(next_security_level(Some("odd".into())), "Standard");
    assert!(!webgl_disabled("Standard"));
    assert!(webgl_disabled("Strict"));
}

#[test]
fn redirects_end_after_one_step() {
    for u in [
        "sentinel://clear_history",
        "sentinel://toggle_history",
        "sentinel://toggle_security",
        "sentinel://allow_site?host=a.example",
        "sentinel://add_bookmark?url=u&title=t",
        "sentinel://network?type=clear",
        "sentinel://add_bridge_obfs4?addr=a",
        "sentinel://add_bridge_snowflake?broker=b",
        "sentinel://connect_add_vmess?uuid=x",
        "sentinel://connect_add_vless?uuid=x",
        "sentinel://connect_add_trojan?password=p",
        "sentinel://connect_save_profile?name=n",
        "sentinel://connect_switch?name=n",
        "sentinel://connect_test",
    ] {
        let next = follow_up(&route_internal(u)).expect("an action page redirects");
        assert_eq!(follow_up(&route_internal(&next)), None, "{} -> {}", u, next);
    }
}

#[test]
fn download_names_stay_in_the_folder() {
    assert_eq!(download_file_name("https://x.example/../../etc/passwd"), "passwd");
    assert_eq!(download_file_name("https://x.example/a/..%2F..%2Fboot"), "download.bin");
    assert_eq!(download_file_name("https://x.example/dir/"), "download.bin");
    assert_eq!(download_file_name("https://x.example/f i\\le.txt?x=/y"), "f_i_le.txt");
    for u in ["https://h/...", "https://h/a..b", "https://h/%2e%2e", "https://h/ü.pdf", "https://h/."] {
        let n = download_file_name(u);
        assert!(!n.is_empty() && !n.contains("..") && !n.contains('/') && !n.contains('\\'), "{} -> {}", u, n);
    }
}

#[test]
fn allow_site_adds_only_a_named_host() {
    assert_eq!(allowlist_addition("tracker.example".to_string()), Some("tracker.example".to_string()));
    assert_eq!(allowlist_addition(String::new()), None);
}
