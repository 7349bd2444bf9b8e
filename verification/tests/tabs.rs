use sentinel::tabs::TabManager;

#[test]
fn test_tab_manager_logic() {
    let mut manager = TabManager::new();

    manager.add_tab("https://sentinel.dao".to_string(), "Sentinel".to_string());
    manager.add_tab("https://google.com".to_string(), "Google".to_string());

    assert_eq!(manager.tab_count(), 2);
    assert_eq!(manager.active_tab_id(), 1); // Second tab added becomes active

    manager.switch_to_tab(0);
    assert_eq!(manager.active_tab_id(), 0);

    manager.close_tab(0);
    assert_eq!(manager.tab_count(), 1);
    assert_eq!(manager.active_tab_id(), 1);
}

#[test]
fn test_tab_suspension() {
    let mut manager = TabManager::new();
    let t0: u64 = 1_000_000;

    let id1 = manager.add_tab_at("https://active.com".to_string(), "Active".to_string(), t0);
    let id2 = manager.add_tab_at("https://old.com".to_string(), "Old".to_string(), t0);

    // Switch back to id1 ten minutes later, so id2 has been idle for 600 s.
    manager.switch_to_tab_at(id1, t0 + 600);

    let saves = manager.suspend_inactive_tabs(300, t0 + 600); // Suspend if inactive for > 5 mins
    assert!(saves.is_empty());

    let tab = manager.get_tab(id2).unwrap();
    assert!(tab.is_suspended);
    assert!(!manager.get_tab(id1).unwrap().is_suspended);
}

#[test]
fn suspension_spares_recent_tabs() {
    let mut manager = TabManager::new();
    let a = manager.add_tab_at("https://a.example".to_string(), "A".to_string(), 500);
    let b = manager.add_tab_at("https://b.example".to_string(), "B".to_string(), 500);
    manager.switch_to_tab_at(a, 700);
    manager.suspend_inactive_tabs(300, 700);
    assert!(!manager.get_tab(b).unwrap().is_suspended);
    manager.switch_to_tab_at(b, 900);
    assert!(!manager.get_tab(b).unwrap().is_suspended);
}

#[test]
fn closing_active_tab_picks_smallest_id() {
    let mut m = TabManager::new();
    let a = m.add_tab("https://a".to_string(), "A".to_string());
    let b = m.add_tab("https://b".to_string(), "B".to_string());
    let c = m.add_tab("https://c".to_string(), "C".to_string());
    assert_eq!((a, b, c), (0, 1, 2));
    m.close_tab(c);
    assert_eq!(m.active_tab_id(), a);
    m.close_tab(a);
    assert_eq!(m.active_tab_id(), b);
    m.close_tab(b);
    assert_eq!(m.tab_count(), 0);
    assert_eq!(m.active_tab_id(), 0);
    assert!(m.get_active_tab().is_none());
}

#[test]
fn history_back_and_forward() {
    let mut m = TabManager::new();
    m.create_tab("sentinel://home".to_string());
    m.push_history("https://one.example".to_string());
    m.push_history("https://two.example".to_string());
    assert_eq!(m.go_back(), Some("https://one.example".to_string()));
    assert_eq!(m.go_back(), Some("sentinel://home".to_string()));
    assert_eq!(m.go_back(), None);
    assert_eq!(m.go_forward(), Some("https://one.example".to_string()));
    // A new navigation drops the forward entries.
    m.push_history("https://three.example".to_string());
    assert_eq!(m.go_forward(), None);
    assert_eq!(m.go_back(), Some("https://one.example".to_string()));
    let tab = m.get_active_tab().unwrap();
    assert_eq!(tab.history, vec!["sentinel://home", "https://one.example", "https://three.example"]);
}

#[test]
fn repeated_navigation_is_recorded_once() {
    let mut m = TabManager::new();
    m.create_tab("sentinel://home".to_string());
    m.push_history("https://x.example".to_string());
    m.push_history("https://x.example".to_string());
    let tab = m.get_active_tab().unwrap();
    assert_eq!(tab.history.len(), 2);
    assert_eq!(tab.history_index, 1);
    assert_eq!(tab.url, "https://x.example");
}

#[test]
fn new_tab_defaults() {
    let mut m = TabManager::new();
    let id = m.create_tab("sentinel://welcome".to_string());
    let rows = m.list_tabs();
    assert_eq!(rows, vec![(id, "New Tab".to_string(), "sentinel://welcome".to_string(), true)]);
}

#[test]
fn closing_last_tab_reopens_home() {
    let mut m = TabManager::new();
    let id = m.create_tab("https://only.example".to_string());
    m.close_tab_keep_one(id);
    assert_eq!(m.tab_count(), 1);
    let t = m.get_active_tab().unwrap();
    assert_eq!(t.url, "sentinel://home");
    assert_eq!(t.id, id + 1);
    let other = m.create_tab("https://x".to_string());
    m.close_tab_keep_one(other);
    assert_eq!(m.tab_count(), 1);
    assert_eq!(m.active_tab_id(), id + 1);
}

#[test]
fn active_location_update() {
    let mut m = TabManager::new();
    m.create_tab("sentinel://home".to_string());
    m.set_active_location("https://example.com/".to_string(), "https://example.com/".to_string());
    let t = m.get_active_tab().unwrap();
    assert_eq!(t.url, "https://example.com/");
    assert_eq!(t.title, "https://example.com/");
    assert_eq!(t.history, vec!["sentinel://home"]);
}

#[test]
fn active_tab_can_be_edited_in_place() {
    let mut manager = TabManager::new();
    assert!(manager.get_active_tab_mut().is_none());
    manager.create_tab("https://a.example".to_string());
    manager.get_active_tab_mut().unwrap().title = "Renamed".to_string();
    assert_eq!(manager.get_active_tab().unwrap().title, "Renamed");
}
