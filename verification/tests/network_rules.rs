use sentinel::urls::{connect_target, download_request_for, tor_fetch_request_for};
use sentinel::dns::{lookup_name, resolve_via, DnsCache, ResolveVia};
use sentinel::network::{
    auto_switch_decision, bridge_line, dns_provider_for, download_request, fetch_route, http_body_start, init_plan,
    request_target, split_host_port, status_summary, stream_port, tor_fetch_request, v2ray_ready,
    CensorshipMonitor, ConnectivityStatus, DnsProvider, FetchRoute, InitPlan, NetworkSettings, Protocol, TorBridge,
    V2RayConfig,
};
use sentinel::socks::{domain_text, ipv4_text, read_greeting, read_request_header, reply, target_port, AddressForm, RequestStep};
use sentinel::v2ray::{v2ray_config_json, v2ray_start_check, V2RayHandler, V2RAY_NO_BINARY, V2RAY_NO_OUTBOUND, V2RAY_SOCKS_PORT};

#[test]
fn default_network_settings() {
    let s = NetworkSettings::new_default();
    assert_eq!(s.active_protocol, Protocol::Tor { bridge: TorBridge::NoBridge });
    assert_eq!(s.secure_dns_provider, DnsProvider::Quad9);
    assert_eq!(s.socks_port, 9050);
}

#[test]
fn test_v2ray_handler_config() {
    let config = V2RayConfig::VMess {
        uuid: "test-uuid".to_string(),
        alter_id: 64,
        security: "auto".to_string(),
    };
    let handler = V2RayHandler::new(config);
    // no environment → not ready
    assert!(!v2ray_ready("", false, "", None));
    assert_eq!(handler.start_config("", false, "", None), Err(V2RAY_NO_BINARY.to_string()));
    assert!(!v2ray_ready("/usr/bin/v2ray", true, "127.0.0.1", Some("443")));
    assert!(!v2ray_ready("/usr/bin/v2ray", true, "vpn.example", Some("10086")));
    assert!(v2ray_ready("/usr/bin/v2ray", true, "vpn.example", Some("443")));
}

#[test]
fn v2ray_start_rules() {
    assert_eq!(v2ray_start_check("", false, "h", Some("1")), Err(V2RAY_NO_BINARY.to_string()));
    assert_eq!(v2ray_start_check("/v", true, "", Some("1")), Err(V2RAY_NO_OUTBOUND.to_string()));
    assert_eq!(v2ray_start_check("/v", true, "h", Some("x")), Err(V2RAY_NO_OUTBOUND.to_string()));
    assert_eq!(v2ray_start_check("/v", true, "h", Some("8443")), Ok(8443));
}

#[test]
fn v2ray_config_text() {
    let cfg = V2RayConfig::VMess { uuid: "test-uuid".into(), alter_id: 64, security: "auto".into() };
    let mut users = serde_json::Map::new();
    users.insert("id".into(), serde_json::Value::from("test-uuid"));
    users.insert("alterId".into(), serde_json::Value::from(64));
    users.insert("security".into(), serde_json::Value::from("auto"));
    let mut vnext = serde_json::Map::new();
    vnext.insert("address".into(), serde_json::Value::from("h\"x"));
    vnext.insert("port".into(), serde_json::Value::from(443));
    vnext.insert("users".into(), serde_json::Value::Array(vec![serde_json::Value::Object(users)]));
    let mut settings = serde_json::Map::new();
    settings.insert("vnext".into(), serde_json::Value::Array(vec![serde_json::Value::Object(vnext)]));
    let mut out = serde_json::Map::new();
    out.insert("protocol".into(), serde_json::Value::from("vmess"));
    out.insert("settings".into(), serde_json::Value::Object(settings));
    let mut udp = serde_json::Map::new();
    udp.insert("udp".into(), serde_json::Value::Bool(true));
    let mut inbound = serde_json::Map::new();
    inbound.insert("tag".into(), serde_json::Value::from("socks-in"));
    inbound.insert("port".into(), serde_json::Value::from(10808));
    inbound.insert("listen".into(), serde_json::Value::from("127.0.0.1"));
    inbound.insert("protocol".into(), serde_json::Value::from("socks"));
    inbound.insert("settings".into(), serde_json::Value::Object(udp));
    let mut root = serde_json::Map::new();
    root.insert("inbounds".into(), serde_json::Value::Array(vec![serde_json::Value::Object(inbound)]));
    root.insert("outbounds".into(), serde_json::Value::Array(vec![serde_json::Value::Object(out)]));
    let expected = serde_json::to_string(&serde_json::Value::Object(root)).unwrap();
    assert_eq!(v2ray_config_json(&cfg, "h\"x", 443, 10808), expected);
    let trojan = v2ray_config_json(&V2RayConfig::Trojan { password: "pw".into() }, "h", 1, 2);
    assert_eq!(
        trojan,
        r#"{"inbounds":[{"listen":"127.0.0.1","port":2,"protocol":"socks","settings":{"udp":true},"tag":"socks-in"}],"outbounds":[{"protocol":"trojan","settings":{"servers":[{"address":"h","password":"pw","port":1}]}}]}"#
    );
}

#[test]
fn bridge_lines_for_requested_bridges() {
    assert_eq!(bridge_line(&TorBridge::NoBridge), None);
    assert_eq!(
        bridge_line(&TorBridge::Obfs4 { addr: "1.2.3.4:443".into(), cert: "c".into(), iat_mode: 1 }),
        Some("Bridge obfs4 1.2.3.4:443 cert=c iat-mode=1".to_string())
    );
    assert_eq!(
        bridge_line(&TorBridge::Meek { url: "https://m".into() }),
        Some("Bridge meek_lite 0.0.2.0:1 url=https://m".to_string())
    );
}

#[test]
fn startup_plans_and_dns() {
    assert_eq!(init_plan(&Protocol::Clearweb, false), Ok(InitPlan::BackgroundTor));
    assert_eq!(init_plan(&Protocol::I2P, true), Err("Protocol not available in this build".to_string()));
    assert_eq!(dns_provider_for(&Protocol::Tor { bridge: TorBridge::NoBridge }, DnsProvider::Quad9), DnsProvider::Tor);
    assert_eq!(dns_provider_for(&Protocol::Clearweb, DnsProvider::Google), DnsProvider::Quad9);
    assert_eq!(dns_provider_for(&Protocol::Clearweb, DnsProvider::Cloudflare), DnsProvider::Cloudflare);
}

#[test]
fn censorship_switching() {
    let mut m = CensorshipMonitor::new_at(0);
    assert_eq!(m.status, ConnectivityStatus::Unknown);
    assert_eq!(m.record_probe(true, 1500, 10), ConnectivityStatus::Degraded);
    assert_eq!(m.record_probe(false, 0, 20), ConnectivityStatus::Blocked);
    assert_eq!(m.last_check, 20);
    assert_eq!(
        auto_switch_decision(&Protocol::Clearweb, ConnectivityStatus::Blocked, false),
        Some(Protocol::Tor { bridge: TorBridge::NoBridge })
    );
    assert_eq!(auto_switch_decision(&Protocol::Tor { bridge: TorBridge::NoBridge }, ConnectivityStatus::Blocked, false), None);
    assert_eq!(auto_switch_decision(&Protocol::Clearweb, ConnectivityStatus::Optimal, true), None);
    assert!(matches!(
        auto_switch_decision(&Protocol::Tor { bridge: TorBridge::NoBridge }, ConnectivityStatus::Blocked, true),
        Some(Protocol::Tor { bridge: TorBridge::Snowflake { .. } })
    ));
}

#[test]
fn http_exchanges() {
    assert_eq!(http_body_start(b"HTTP/1.1 200 OK\r\nA: b\r\n\r\nbody"), 25);
    assert_eq!(http_body_start(b"no header end"), 0);
    assert_eq!(split_host_port("1.1.1.1:443"), Some(("1.1.1.1".to_string(), "443".to_string())));
    assert_eq!(split_host_port("a:b:c"), None);
    assert_eq!(stream_port(None, "http"), 80);
    assert_eq!(stream_port(None, "gopher"), 443);
    assert_eq!(stream_port(Some(8080), "http"), 8080);
    assert_eq!(request_target("", Some("q=1")), "/?q=1");
    assert_eq!(request_target("/a", None), "/a");
    assert!(tor_fetch_request("/", "x.onion").starts_with("GET / HTTP/1.1\r\nHost: x.onion\r\nConnection: close\r\n"));
    assert_eq!(download_request("", "h"), "GET / HTTP/1.0\r\nHost: h\r\nConnection: close\r\nUser-Agent: Sentinel/0.1\r\n\r\n");
    assert_eq!(fetch_route(true, "https://ads", false, true), FetchRoute::Blocked("Blocked by Sentinel Shields: https://ads".into()));
    assert_eq!(fetch_route(false, "http://a.onion", false, true), FetchRoute::TorStream);
    assert_eq!(fetch_route(false, "http://a.onion", false, false), FetchRoute::Http);
    assert_eq!(fetch_route(false, "https://a", false, true), FetchRoute::Http);
    assert_eq!(status_summary(true, Some(9150), "Tor"), "Tor ready \u{b7} SOCKS 127.0.0.1:9150 \u{b7} Tor");
    assert_eq!(status_summary(false, None, "X"), "Tor not bootstrapped \u{b7} X");
}

#[test]
fn socks_handshake() {
    assert_eq!(read_greeting([5, 2]), Ok(2));
    assert_eq!(read_greeting([4, 1]), Err("not SOCKS5".to_string()));
    assert_eq!(read_request_header([5, 1, 0, 1]), RequestStep::ReadAddress(AddressForm::Ipv4));
    assert_eq!(read_request_header([5, 1, 0, 3]), RequestStep::ReadAddress(AddressForm::Domain));
    assert_eq!(read_request_header([5, 1, 0, 9]), RequestStep::BadAddressType);
    assert_eq!(read_request_header([5, 2, 0, 1]), RequestStep::Refuse([5, 7, 0, 1, 0, 0, 0, 0, 0, 0]));
    assert_eq!(reply(0), [5, 0, 0, 1, 0, 0, 0, 0, 0, 0]);
    assert_eq!(ipv4_text([127, 0, 0, 1]), "127.0.0.1");
    assert_eq!(target_port([0x01, 0xbb]), 443);
    assert_eq!(domain_text(b"example.onion".to_vec()), Ok("example.onion".to_string()));
    assert_eq!(domain_text(vec![0xff, 0xfe]), Err("hostname utf8".to_string()));
}

#[test]
fn dns_cache_and_ens() {
    assert_eq!(lookup_name("vitalik.eth"), "vitalik.eth.limo");
    assert_eq!(lookup_name("example.org"), "example.org");
    let mut c = DnsCache::new();
    assert_eq!(c.get("a.org", 0), None);
    c.put("a.org", vec!["1.2.3.4".to_string()], 100);
    c.put("b.org", vec![], 100);
    assert_eq!(c.get("a.org", 3699), Some(vec!["1.2.3.4".to_string()]));
    assert_eq!(c.get("b.org", 101), None);
    assert_eq!(c.get("a.org", 3700), None);
    assert_eq!(c.get("a.org", 0), None);
    c.put("a.org", vec!["5.6.7.8".to_string()], 10);
    c.put("a.org", vec!["9.9.9.9".to_string()], 20);
    assert_eq!(c.get("a.org", 30), Some(vec!["9.9.9.9".to_string()]));
}

#[test]
fn resolvers_per_provider() {
    assert_eq!(resolve_via(DnsProvider::Quad9, false), Ok(ResolveVia::Resolver(DnsProvider::Quad9)));
    assert_eq!(resolve_via(DnsProvider::Google, true), Ok(ResolveVia::Resolver(DnsProvider::Google)));
    assert_eq!(resolve_via(DnsProvider::Tor, true), Ok(ResolveVia::Tor));
    assert_eq!(resolve_via(DnsProvider::Tor, false), Err("Resolver not available for Tor".to_string()));
}

#[test]
fn v2ray_handler_start_configs() {
    let h = V2RayHandler::new(V2RayConfig::Trojan { password: "pw".to_string() });
    assert_eq!(h.socks_port, V2RAY_SOCKS_PORT);
    assert_eq!(h.start_config("", false, "vpn.example", Some("443")), Err(V2RAY_NO_BINARY.to_string()));
    assert_eq!(h.start_config("/bin/v2ray", true, "127.0.0.1", Some("443")), Err(V2RAY_NO_OUTBOUND.to_string()));
    let (port, text) = h.start_config("/bin/v2ray", true, "vpn.example", Some("443")).unwrap();
    assert_eq!(port, 10808);
    assert_eq!(text, v2ray_config_json(&h.config, "vpn.example", 443, 10808));
}

#[test]
fn saved_bridges_configs_and_profiles() {
    let mut s = NetworkSettings::new_default();
    s.add_custom_bridge(TorBridge::Meek { url: "https://meek.example/".to_string() });
    s.add_v2ray_config(V2RayConfig::Trojan { password: "pw".to_string() });
    s.add_profile("home".to_string(), Protocol::Clearweb);
    s.add_profile("work".to_string(), Protocol::I2P);
    s.add_profile("home".to_string(), Protocol::Tor { bridge: TorBridge::NoBridge });
    assert_eq!(s.custom_bridges, vec![TorBridge::Meek { url: "https://meek.example/".to_string() }]);
    assert_eq!(s.v2ray_configs, vec![V2RayConfig::Trojan { password: "pw".to_string() }]);
    assert_eq!(s.find_profile("home"), Some(Protocol::Clearweb));
    assert_eq!(s.find_profile("work"), Some(Protocol::I2P));
    assert_eq!(s.find_profile("none"), None);
    let names: Vec<String> = s.list_profiles().into_iter().map(|p| p.name).collect();
    assert_eq!(names, vec!["home", "work", "home"]);
    assert_eq!(s.active_protocol, Protocol::Tor { bridge: TorBridge::NoBridge });
}

#[test]
fn status_snapshots_describe_the_protocol() {
    let s = sentinel::network::status_snapshot(&Protocol::Clearweb, true, Some(9150), 3, "pt".to_string());
    assert_eq!(s.protocol, "Clearweb");
    assert_eq!(s.summary, "Tor ready \u{b7} SOCKS 127.0.0.1:9150 \u{b7} Clearweb");
    assert_eq!(s.socks_port, Some(9150));
    assert!(s.tor_ready);
    assert_eq!(s.active_connections, 3);
    assert_eq!(s.pt, "pt");
    let t = sentinel::network::status_snapshot(&Protocol::Tor { bridge: TorBridge::NoBridge }, false, None, 0, String::new());
    assert_eq!(t.summary, "Tor not bootstrapped \u{b7} Tor { bridge: None }");
}

#[test]
fn socks_addresses_for_the_status_page() {
    assert_eq!(sentinel::network::socks_text(Some(9050)), "127.0.0.1:9050");
    assert_eq!(sentinel::network::socks_text(None), "none");
}

#[test]
fn switching_profiles() {
    let mut s = NetworkSettings::new_default();
    s.add_profile("direct".to_string(), Protocol::Clearweb);
    s.add_profile("direct".to_string(), Protocol::I2P);
    assert_eq!(s.switch_profile("nowhere"), Err("Profile not found".to_string()));
    assert_eq!(s.active_protocol, Protocol::Tor { bridge: TorBridge::NoBridge });
    assert_eq!(s.switch_profile("direct"), Ok(()));
    assert_eq!(s.active_protocol, Protocol::Clearweb);
    s.update_config(Protocol::I2P);
    assert_eq!(s.active_protocol, Protocol::I2P);
    assert_eq!(s.profiles.len(), 2);
}

#[test]
fn addresses_to_streams_and_requests() {
    assert_eq!(connect_target("https://example.com/a?b=1"), Ok(("example.com".to_string(), 443, true)));
    assert_eq!(connect_target("http://abc.onion:8080/x"), Ok(("abc.onion".to_string(), 8080, false)));
    assert_eq!(connect_target("socks5://proxy.example"), Ok(("proxy.example".to_string(), 443, false)));
    assert_eq!(connect_target("mailto:someone@example.com"), Err("No host in URL".to_string()));
    assert_eq!(connect_target("not a url"), Err("relative URL without a base".to_string()));
    assert_eq!(
        tor_fetch_request_for("http://abc.onion/p?q=1"),
        Ok(tor_fetch_request("/p?q=1", "abc.onion"))
    );
    assert_eq!(tor_fetch_request_for("https://Example.COM"), Ok(tor_fetch_request("/", "example.com")));
    assert_eq!(download_request_for("https://h.example/f.pdf?x=1"), Ok(download_request("/f.pdf", "h.example")));
    assert_eq!(download_request_for("data:text/plain,hi"), Err("No host in URL".to_string()));
}

#[test]
fn json_strings_escape_quotes_and_controls() {
    let trojan = v2ray_config_json(&V2RayConfig::Trojan { password: "a\u{1}\n\\\"é".into() }, "h", 1, 2);
    assert!(trojan.contains(r#""password":"a\u0001\n\\\"é""#));
}
