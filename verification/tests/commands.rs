use sentinel::commands::{command_step, BrowserCommand, CommandEffect};
use sentinel::network::TorBridge;
use sentinel::tabs::TabManager;

fn nav(step: &sentinel::commands::CommandStep) -> Option<(String, bool)> {
    step.navigate.clone()
}

#[test]
fn new_tab_opens_home_and_records_it() {
    let mut tabs = TabManager::new();
    tabs.create_tab("sentinel://welcome".to_string());
    let step = command_step(&mut tabs, BrowserCommand::NewTab);
    assert_eq!(tabs.tab_count(), 2);
    assert_eq!(tabs.active_tab_id(), 1);
    assert_eq!(tabs.get_active_tab().unwrap().url, "sentinel://home");
    assert_eq!(nav(&step), Some(("sentinel://home".to_string(), true)));
    assert!(step.sync_tabs);
    assert!(step.url_bar.is_none());
}

#[test]
fn closing_the_last_tab_keeps_a_home_tab() {
    let mut tabs = TabManager::new();
    let id = tabs.create_tab("https://example.com/".to_string());
    let step = command_step(&mut tabs, BrowserCommand::CloseTab(id));
    assert_eq!(tabs.tab_count(), 1);
    assert_eq!(tabs.get_active_tab().unwrap().url, "sentinel://home");
    assert_eq!(nav(&step), Some(("sentinel://home".to_string(), false)));
    assert_eq!(step.url_bar, Some("sentinel://home".to_string()));
    assert!(step.sync_tabs);
}

#[test]
fn closing_one_of_two_tabs_shows_the_other() {
    let mut tabs = TabManager::new();
    let a = tabs.create_tab("https://a.example/".to_string());
    let b = tabs.create_tab("https://b.example/".to_string());
    let step = command_step(&mut tabs, BrowserCommand::CloseTab(b));
    assert_eq!(tabs.tab_count(), 1);
    assert_eq!(tabs.active_tab_id(), a);
    assert_eq!(nav(&step), Some(("https://a.example/".to_string(), false)));
}

#[test]
fn back_and_forward_load_without_recording() {
    let mut tabs = TabManager::new();
    tabs.create_tab("https://a.example/".to_string());
    tabs.push_history("https://b.example/".to_string());
    let step = command_step(&mut tabs, BrowserCommand::Back);
    assert_eq!(nav(&step), Some(("https://a.example/".to_string(), false)));
    let step = command_step(&mut tabs, BrowserCommand::Back);
    assert_eq!(nav(&step), None);
    let step = command_step(&mut tabs, BrowserCommand::Forward);
    assert_eq!(nav(&step), Some(("https://b.example/".to_string(), false)));
    let step = command_step(&mut tabs, BrowserCommand::Refresh);
    assert_eq!(nav(&step), Some(("https://b.example/".to_string(), false)));
    let step = command_step(&mut tabs, BrowserCommand::Navigate("https://c.example/".to_string()));
    assert_eq!(nav(&step), Some(("https://c.example/".to_string(), true)));
    assert!(!step.sync_tabs);
}

#[test]
fn outside_commands_are_handed_on() {
    let mut tabs = TabManager::new();
    let step = command_step(&mut tabs, BrowserCommand::SetProxyMode { use_tor: true, socks_port: 9050 });
    assert!(matches!(step.effect, CommandEffect::SearchProxy(Some(9050))));
    let step = command_step(&mut tabs, BrowserCommand::SetProxyMode { use_tor: false, socks_port: 9050 });
    assert!(matches!(step.effect, CommandEffect::SearchProxy(None)));
    let step = command_step(&mut tabs, BrowserCommand::AddBridge(TorBridge::NoBridge));
    assert!(matches!(step.effect, CommandEffect::AddBridge(TorBridge::NoBridge)));
    let step = command_step(
        &mut tabs,
        BrowserCommand::SetPrivacy { level: "Strict".to_string(), webrtc_blocked: true, webgl_disabled: true },
    );
    match step.effect {
        CommandEffect::PrivacyUpdated { level, webrtc_blocked, webgl_disabled, sandbox_label } => {
            assert_eq!(level, "Strict");
            assert!(webrtc_blocked && webgl_disabled);
            assert_eq!(sandbox_label, "Job Object");
        }
        _ => panic!("privacy update expected"),
    }
    assert_eq!(tabs.tab_count(), 0);
}

#[test]
fn history_never_repeats_an_address_in_a_row() {
    let mut tabs = TabManager::new();
    tabs.create_tab("https://a.example/".to_string());
    tabs.push_history("https://a.example/".to_string());
    tabs.push_history("https://b.example/".to_string());
    tabs.push_history("https://b.example/".to_string());
    let t = tabs.get_active_tab().unwrap();
    assert_eq!(t.history, vec!["https://a.example/".to_string(), "https://b.example/".to_string()]);
    assert_eq!(t.url, t.history[t.history_index]);
}
