use sentinel::adblock::AdBlocker;
use sentinel::network::Protocol;
use sentinel::pt::{
    bin_env_key, bridge_lines_from_text, bridge_needs, bundle_size_error, expert_bundle_url, exported_helpers,
    install_report, installed_candidates, is_wanted_helper, missing_helper, pt_status_summary, transports_to_attach,
    want_names, TargetOs,
};
use sentinel::startup::{boot_report, setting_default, setting_or_default, PluginManager};
use sentinel::ui::{
    configuration_error_page, network_label, page_for_view, privacy_init_script, restore_loads_url, shield_label,
    socks_for_page, socks_when_ready, tab_infos, tab_label, url_bar_backspace, url_bar_display, url_bar_type,
    welcome_splash, PrivacyState, ViewCache, SHARED_STYLE, WELCOME_SPLASH,
};

#[test]
fn read_and_normalize_bridge_lines() {
    let text = "# comment\nobfs4 192.0.2.1:443 aabbccddeeff00112233445566778899aabbccdd cert=abc iat-mode=0\nBridge snowflake 192.0.2.3:1 2B280B23E1107BB62ABFC40DDCC8824814F80A72 url=https://example/\n";
    let lines = bridge_lines_from_text(text);
    assert_eq!(lines.len(), 2);
    assert!(lines[0].starts_with("Bridge "));
    assert!(lines[1].to_ascii_lowercase().contains("snowflake"));
}

#[test]
fn bridge_requirements() {
    let lines = bridge_lines_from_text("  BRIDGE obfs4 1.1.1.1:1 x\r\n\nmeek_lite 0.0.2.0:1 url=u\n");
    assert_eq!(lines, vec!["BRIDGE obfs4 1.1.1.1:1 x".to_string(), "Bridge meek_lite 0.0.2.0:1 url=u".to_string()]);
    let needs = bridge_needs(&lines);
    assert!(needs.obfs4 && needs.meek && !needs.snowflake);
    assert_eq!(missing_helper(needs, false, true), Some("obfs4 bridges configured but obfs4proxy/lyrebird not on PATH".to_string()));
    assert_eq!(missing_helper(needs, true, false), None);
    let t = transports_to_attach(needs, true, true);
    assert_eq!(t, vec![("obfs4".to_string(), true), ("meek_lite".to_string(), true)]);
    let sf = bridge_needs(&vec!["Bridge snowflake 1.2.3.4:1 x".to_string()]);
    assert_eq!(missing_helper(sf, true, false), Some("snowflake bridges configured but snowflake-client not on PATH".to_string()));
}

#[test]
fn helper_locations() {
    assert_eq!(bin_env_key("snowflake-client"), "SNOWFLAKE_CLIENT_PATH");
    assert_eq!(bin_env_key("obfs4proxy"), "OBFS4PROXY_PATH");
    assert_eq!(pt_status_summary(true, None), "snowflake-client: found \u{b7} obfs4/lyrebird: missing");
    assert_eq!(pt_status_summary(false, Some("/p/lyrebird".into())), "snowflake-client: missing \u{b7} obfs4/lyrebird: /p/lyrebird");
    assert_eq!(
        expert_bundle_url(TargetOs::Linux, None, None),
        "https://archive.torproject.org/tor-package-archive/torbrowser/14.5.5/tor-expert-bundle-linux-x86_64-14.5.5.tar.gz"
    );
    assert_eq!(expert_bundle_url(TargetOs::Windows, Some("https://mirror/x".into()), None), "https://mirror/x");
    assert_eq!(
        expert_bundle_url(TargetOs::MacArm, Some(String::new()), Some("15.0".into())),
        "https://archive.torproject.org/tor-package-archive/torbrowser/15.0/tor-expert-bundle-macos-aarch64-15.0.tar.gz"
    );
    assert_eq!(want_names(TargetOs::Windows)[0], "lyrebird.exe");
    assert!(is_wanted_helper(TargetOs::Linux, "snowflake-client"));
    assert!(!is_wanted_helper(TargetOs::Linux, "tor"));
    assert_eq!(installed_candidates(TargetOs::Windows, "lyrebird"), vec!["lyrebird", "lyrebird.exe"]);
    assert_eq!(bundle_size_error(9999), Some("Expert bundle too small (9999 bytes) \u{2014} URL may be wrong".to_string()));
    assert_eq!(bundle_size_error(10000), None);
    let names = vec!["snowflake-client".to_string(), "lyrebird".to_string()];
    assert_eq!(exported_helpers(&names), (Some("lyrebird".to_string()), Some("snowflake-client".to_string())));
    assert_eq!(install_report("/pt", &names), Ok("Installed into /pt: snowflake-client, lyrebird".to_string()));
    assert_eq!(install_report("/pt", &vec![]), Err("No lyrebird/snowflake-client found inside expert bundle".to_string()));
}

#[test]
fn adblocking() {
    let mut b = AdBlocker::with_builtin_lists();
    assert_eq!(b.blocked_count(), 0);
    assert!(b.is_blocked("https://www.DoubleClick.net/ad.js"));
    assert!(b.is_blocked("https://facebook.com/tr?id=1"));
    assert!(!b.is_blocked("https://localhost/doubleclick.net"));
    assert!(!b.is_blocked("https://example.org/"));
    assert_eq!(b.blocked_count(), 2);
    assert!(b.is_blocked_with("https://tracker.example/", true));
    assert_eq!(b.blocked_count(), 3);
    b.reset_count();
    assert_eq!(b.blocked_count(), 0);
    b.add_whitelist_host("hotjar.com".to_string());
    b.add_whitelist_host("hotjar.com".to_string());
    assert!(!b.is_blocked("https://static.hotjar.com/x"));
    assert_eq!(b.blocked_count(), 0);
}

#[test]
fn window_rules() {
    assert_eq!(network_label(&Protocol::Clearweb), "Direct");
    assert_eq!(socks_for_page("http://a.onion", "Direct", Some(9150)), Some(9150));
    assert_eq!(socks_for_page("https://a", "Direct", Some(9150)), None);
    assert_eq!(socks_for_page("https://a", "V2Ray", Some(1)), Some(1));
    assert_eq!(socks_when_ready("Direct", "https://a", 5), None);
    assert_eq!(socks_when_ready("Tor", "https://a", 5), Some(5));
    let p = PrivacyState::default();
    let script = privacy_init_script(&p);
    assert!(script.contains("WebRTC blocked by Sentinel"));
    assert!(!script.contains("webgl"));
    assert!(script.ends_with("})();"));
    let page = page_for_view("<html><head><title>x</title></head></html>");
    assert_eq!(page, format!("<html><head>{}<title>x</title></head></html>", SHARED_STYLE));
    assert_eq!(page_for_view("<html class=\"badge-onion\"></html>"), "<html class=\"badge-onion\"></html>");
    assert!(page_for_view("hi").ends_with("<body>hi</body></html>"));
    assert!(restore_loads_url("https://x"));
    assert!(!restore_loads_url("sentinel://home"));
    assert!(configuration_error_page("a<b").contains("<p>a&lt;b</p>"));
    assert_eq!(tab_label(""), "Tab");
    assert_eq!(tab_label("abcdefghijklmnop"), "abcdefghijkl");
    assert_eq!(shield_label(42), "Shield 42");
    let infos = tab_infos(vec![(3, "T".into(), "u".into(), true)]);
    assert_eq!((infos[0].id, infos[0].title.as_str(), infos[0].active), (3, "T", true));
}

#[test]
fn url_bar_editing() {
    let mut b = String::from("sentinel://hom");
    url_bar_type(&mut b, "e");
    assert_eq!(b, "sentinel://home");
    url_bar_type(&mut b, "\u{7f}");
    assert_eq!(b, "sentinel://home");
    url_bar_backspace(&mut b);
    assert_eq!(b, "sentinel://hom");
    let mut e = String::new();
    url_bar_backspace(&mut e);
    assert_eq!(e, "");
    assert_eq!(url_bar_display("x", true, true), "x|");
    assert_eq!(url_bar_display("x", true, false), "x");
}

#[test]
fn view_cache_keeps_three() {
    let mut c = ViewCache::new(0);
    assert_eq!(c.switch_needs(0), (true, false));
    assert_eq!(c.switch_needs(1), (false, true));
    assert!(c.commit_switch(1).is_empty());
    assert!(c.commit_switch(2).is_empty());
    assert_eq!(c.commit_switch(3), vec![0]);
    assert_eq!(c.cached_tab_ids(), vec![1, 2, 3]);
    assert!(c.commit_switch(1).is_empty());
    assert_eq!(c.cached_tab_ids(), vec![2, 3, 1]);
    c.close_tab(1);
    assert_eq!(c.active(), Some(3));
    c.close_tab(2);
    assert_eq!(c.active(), Some(3));
    c.rebuild(9);
    assert_eq!(c.cached_tab_ids(), vec![9]);
}

#[test]
fn startup_values() {
    assert_eq!(setting_default("theme"), Some("Cyberpunk".to_string()));
    assert_eq!(setting_default("search_engine"), Some("Horus".to_string()));
    assert_eq!(setting_default("nope"), None);
    assert_eq!(setting_or_default("theme", Some("Light".into())), Some("Light".to_string()));
    assert_eq!(boot_report(0), (1, false));
    assert_eq!(boot_report(501), (501, true));
    assert_eq!(PluginManager::new("plugins".into()).plugin_dir, "plugins");
}

#[test]
fn persisted_bridge_lines_read_back() {
    let before = "# my bridges\nBridge obfs4 192.0.2.1:443 AA cert=x iat-mode=0\n";
    let line = "snowflake 192.0.2.3:1 2B28 url=https://example/";
    let after = format!("{}{}\n", before, line);
    let mut expected = bridge_lines_from_text(before);
    expected.push(format!("Bridge {}", line));
    assert_eq!(bridge_lines_from_text(&after), expected);
    let comment = format!("{}# later\n", before);
    assert_eq!(bridge_lines_from_text(&comment), bridge_lines_from_text(before));
}

#[test]
fn splash_page() {
    let s = welcome_splash();
    assert_eq!(s, WELCOME_SPLASH);
    assert!(s.contains("SENTINEL"));
}

#[test]
fn mixed_case_trackers_are_blocked() {
    let mut b = AdBlocker::with_builtin_lists();
    assert!(b.is_blocked("https://www.Google-Analytics.com/collect"));
    assert!(b.is_blocked("HTTPS://DOUBLECLICK.NET/ad"));
    assert!(!b.is_blocked("https://example.com/"));
    assert_eq!(b.blocked_count(), 2);
}

#[test]
fn allowlisted_hosts_pass_the_shield() {
    let hosts = vec!["doubleclick.net".to_string(), "example.org".to_string(), "doubleclick.net".to_string()];
    let mut b = AdBlocker::with_allowlist(&hosts);
    assert!(!b.is_blocked("https://ads.doubleclick.net/x"));
    assert!(!b.is_blocked_with("https://example.org/page", true));
    assert!(b.is_blocked("https://hotjar.com/t"));
    assert!(!b.is_blocked("http://localhost:8080/"));
    assert_eq!(b.blocked_count(), 1);
}
