use sentinel::codec::resolve_input;
use sentinel::update::{current_version, decide_update, is_newer, parse_semver};

#[test]
fn semver_newer() {
    assert!(is_newer("v0.0.2", "0.0.1"));
    assert!(!is_newer("v0.0.1", "0.0.1"));
    assert!(!is_newer("0.0.1", "0.0.2"));
    assert!(is_newer("1.0.0", "0.9.9"));
}

#[test]
fn resolve_url_and_search() {
    assert_eq!(resolve_input("https://example.com"), "https://example.com");
    assert_eq!(resolve_input("example.com"), "https://example.com");
    assert!(resolve_input("privacy tools").starts_with("sentinel://search?q="));
}

#[test]
fn search_input_is_encoded() {
    assert_eq!(resolve_input("privacy tools"), "sentinel://search?q=privacy+tools");
    assert_eq!(resolve_input("  |sentinel://home|  "), "sentinel://home");
}

#[test]
fn semver_parsing() {
    assert_eq!(parse_semver("v1.2.3"), Some((1, 2, 3)));
    assert_eq!(parse_semver("1.2"), Some((1, 2, 0)));
    assert_eq!(parse_semver("1"), None);
    assert_eq!(parse_semver(" v2.0.7-beta "), Some((2, 0, 7)));
    assert_eq!(current_version(), "0.1.0");
}

#[test]
fn update_offers() {
    let page = "https://example/releases/v0.2.0".to_string();
    let info = decide_update("v0.2.0", page.clone(), false, false, "0.1.0").unwrap();
    assert_eq!(info.version, "0.2.0");
    assert_eq!(info.html_url, page);
    assert_eq!(decide_update("vv1.0.0", page.clone(), false, false, "0.1.0").unwrap().version, "1.0.0");
    assert!(decide_update("v0.2.0", page.clone(), true, false, "0.1.0").is_none());
    assert!(decide_update("v0.2.0", page.clone(), false, true, "0.1.0").is_none());
    assert!(decide_update("v0.1.0", page.clone(), false, false, "0.1.0").is_none());
    assert!(decide_update("garbage", page, false, false, "0.1.0").is_none());
}
