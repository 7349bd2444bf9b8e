//! The browser core's command loop, one command at a time: the tab
//! bookkeeping a command asks for, and what the loop must do next
//! (navigate, refresh the tab strip, hand a change to the network layer or
//! the window).

use vstd::prelude::*;
use crate::network::{Protocol, TorBridge, V2RayConfig};
use crate::tabs::{TabManager, TabManagerView};

verus! {

/// A command sent from the window to the core.
#[derive(Debug, Clone)]
pub enum BrowserCommand {
    Navigate(String),
    Back,
    Forward,
    Refresh,
    ChangeNetwork(Protocol),
    AddBridge(TorBridge),
    AddV2Ray(V2RayConfig),
    NewTab,
    SwitchTab(u32),
    CloseTab(u32),
    SetProxyMode { use_tor: bool, socks_port: u16 },
    /// Push privacy / security level into the WebView host.
    SetPrivacy { level: String, webrtc_blocked: bool, webgl_disabled: bool },
}

/// A change that the loop hands on unchanged.
#[derive(Debug)]
pub enum CommandEffect {
    Nothing,
    ChangeNetwork(Protocol),
    AddBridge(TorBridge),
    AddV2Ray(V2RayConfig),
    /// The search engine's SOCKS port: `Some` also re-crawls through it and
    /// announces it to the window; `None` goes direct.
    SearchProxy(Option<u16>),
    PrivacyUpdated { level: String, webrtc_blocked: bool, webgl_disabled: bool, sandbox_label: String },
}

/// What the loop does after a command.
#[derive(Debug)]
pub struct CommandStep {
    /// The address to navigate to, and whether to record it in history.
    pub navigate: Option<(String, bool)>,
    /// The address to show in the URL bar first.
    pub url_bar: Option<String>,
    /// Whether the tab strip changed and must be sent to the window.
    pub sync_tabs: bool,
    pub effect: CommandEffect,
}

pub open spec fn nav_view(n: Option<(String, bool)>) -> Option<(Seq<char>, bool)> {
    match n {
        Some((u, r)) => Some((u@, r)),
        None => None,
    }
}

pub open spec fn opt_string(o: Option<String>) -> Option<Seq<char>> {
    match o {
        Some(s) => Some(s@),
        None => None,
    }
}

/// A step that changes no tab and only navigates as given.
pub open spec fn plain_step(s: CommandStep, navigate: Option<(Seq<char>, bool)>) -> bool {
    &&& nav_view(s.navigate) == navigate
    &&& s.url_bar is None
    &&& !s.sync_tabs
}

/// After the strip changed: sync it, and show and load (without recording)
/// the active tab's address, if a tab is open.
pub open spec fn reopen_step(s: CommandStep, v: TabManagerView) -> bool {
    &&& s.sync_tabs
    &&& s.effect is Nothing
    &&& match v.active_tab() {
        Some(t) => nav_view(s.navigate) == Some((t.url, false)) && opt_string(s.url_bar) == Some(t.url),
        None => s.navigate is None && s.url_bar is None,
    }
}

/// The step for a history move that `moved` gives (`go_back` or
/// `go_forward`): load the address moved to, without recording it.
pub open spec fn history_step(s: CommandStep, moved: Option<String>) -> bool {
    &&& plain_step(s, match moved {
        Some(u) => Some((u@, false)),
        None => None,
    })
    &&& s.effect is Nothing
}

fn reopen(tabs: &TabManager) -> (s: CommandStep)
    requires
        tabs@.wf(),
    ensures
        reopen_step(s, tabs@),
{
    match tabs.get_active_tab() {
        Some(t) => {
            let url = t.url.clone();
            CommandStep { navigate: Some((url.clone(), false)), url_bar: Some(url), sync_tabs: true, effect: CommandEffect::Nothing }
        },
        None => CommandStep { navigate: None, url_bar: None, sync_tabs: true, effect: CommandEffect::Nothing },
    }
}

fn passing(effect: CommandEffect) -> (s: CommandStep)
    ensures
        plain_step(s, None),
        s.effect == effect,
{
    CommandStep { navigate: None, url_bar: None, sync_tabs: false, effect }
}

/// Applies `cmd` to the tab strip and says what the loop does next:
/// - `Navigate(u)`: load `u`, recording it;
/// - `Back` / `Forward`: step the active tab's history (see `go_back`,
///   `go_forward`) and load the address reached, without recording;
/// - `Refresh`: reload the active tab's address, without recording;
/// - `NewTab`: open a tab on `sentinel://home`, sync the strip and load it,
///   recording it;
/// - `SwitchTab(id)`: switch (see `switch_to_tab`), sync, then show and
///   load the active tab's address;
/// - `CloseTab(id)`: close it but keep one tab open (see
///   `close_tab_keep_one`), sync, then show and load the active tab's address;
/// - network, bridge, V2Ray, proxy and privacy commands change no tab and
///   are handed on; a proxy on Tor gives the search engine its port, a
///   proxy off takes it away; privacy updates name the Job Object sandbox.
pub fn command_step(tabs: &mut TabManager, cmd: BrowserCommand) -> (s: CommandStep)
    requires
        old(tabs)@.wf(),
        old(tabs)@.next < u32::MAX,
    ensures
        final(tabs)@.wf(),
        old(tabs)@.consistent() ==> final(tabs)@.consistent(),
        match cmd {
            BrowserCommand::Navigate(u) => final(tabs)@ == old(tabs)@ && plain_step(s, Some((u@, true)))
                && s.effect is Nothing,
            BrowserCommand::Back => match old(tabs)@.active_tab() {
                Some(t) => if t.can_go_back() {
                    final(tabs)@ == old(tabs)@.with_active(t.after_back()) && plain_step(s, Some((t.history[t.history_index - 1], false)))
                        && s.effect is Nothing
                } else {
                    final(tabs)@ == old(tabs)@ && plain_step(s, None) && s.effect is Nothing
                },
                None => final(tabs)@ == old(tabs)@ && plain_step(s, None) && s.effect is Nothing,
            },
            BrowserCommand::Forward => match old(tabs)@.active_tab() {
                Some(t) => if t.can_go_forward() {
                    final(tabs)@ == old(tabs)@.with_active(t.after_forward()) && plain_step(s, Some((t.history[t.history_index + 1], false)))
                        && s.effect is Nothing
                } else {
                    final(tabs)@ == old(tabs)@ && plain_step(s, None) && s.effect is Nothing
                },
                None => final(tabs)@ == old(tabs)@ && plain_step(s, None) && s.effect is Nothing,
            },
            BrowserCommand::Refresh => final(tabs)@ == old(tabs)@ && s.effect is Nothing && match old(tabs)@.active_tab() {
                Some(t) => plain_step(s, Some((t.url, false))),
                None => plain_step(s, None),
            },
            BrowserCommand::NewTab => {
                &&& final(tabs)@.tabs.drop_last() == old(tabs)@.tabs
                &&& final(tabs)@.tabs.last().id == old(tabs)@.next
                &&& final(tabs)@.tabs.last().url == "sentinel://home"@
                &&& final(tabs)@.tabs.last().history == seq!["sentinel://home"@]
                &&& final(tabs)@.active == old(tabs)@.next
                &&& final(tabs)@.next == old(tabs)@.next + 1
                &&& nav_view(s.navigate) == Some(("sentinel://home"@, true))
                &&& s.url_bar is None
                &&& s.sync_tabs
                &&& s.effect is Nothing
            },
            BrowserCommand::SwitchTab(id) => {
                &&& (old(tabs)@.has(id) ==> final(tabs)@.active == id && final(tabs)@.tabs.len() == old(tabs)@.tabs.len())
                &&& (!old(tabs)@.has(id) ==> final(tabs)@ == old(tabs)@)
                &&& reopen_step(s, final(tabs)@)
            },
            BrowserCommand::CloseTab(id) => {
                &&& final(tabs)@.tabs.len() >= 1
                &&& old(tabs)@.tabs.len() > 1 ==> final(tabs)@.tabs == old(tabs)@.without(id)
                &&& old(tabs)@.tabs.len() <= 1 ==> {
                    &&& final(tabs)@.tabs.drop_last() == old(tabs)@.without(id)
                    &&& final(tabs)@.tabs.last().url == "sentinel://home"@
                    &&& final(tabs)@.active == old(tabs)@.next
                }
                &&& reopen_step(s, final(tabs)@)
            },
            BrowserCommand::ChangeNetwork(p) => final(tabs)@ == old(tabs)@ && plain_step(s, None)
                && s.effect == CommandEffect::ChangeNetwork(p),
            BrowserCommand::AddBridge(b) => final(tabs)@ == old(tabs)@ && plain_step(s, None)
                && s.effect == CommandEffect::AddBridge(b),
            BrowserCommand::AddV2Ray(c) => final(tabs)@ == old(tabs)@ && plain_step(s, None)
                && s.effect == CommandEffect::AddV2Ray(c),
            BrowserCommand::SetProxyMode { use_tor, socks_port } => final(tabs)@ == old(tabs)@ && plain_step(s, None)
                && s.effect == CommandEffect::SearchProxy(if use_tor { Some(socks_port) } else { None }),
            BrowserCommand::SetPrivacy { level, webrtc_blocked, webgl_disabled } => {
                &&& final(tabs)@ == old(tabs)@
                &&& plain_step(s, None)
                &&& s.effect matches CommandEffect::PrivacyUpdated { level: l, webrtc_blocked: w, webgl_disabled: g, sandbox_label: b }
                &&& l == level && w == webrtc_blocked && g == webgl_disabled && b@ == "Job Object"@
            },
        },
{
    match cmd {
        BrowserCommand::Navigate(url) => CommandStep {
            navigate: Some((url, true)),
            url_bar: None,
            sync_tabs: false,
            effect: CommandEffect::Nothing,
        },
        BrowserCommand::Back => {
            let moved = tabs.go_back();
            match moved {
                Some(url) => CommandStep { navigate: Some((url, false)), url_bar: None, sync_tabs: false, effect: CommandEffect::Nothing },
                None => passing(CommandEffect::Nothing),
            }
        },
        BrowserCommand::Forward => {
            let moved = tabs.go_forward();
            match moved {
                Some(url) => CommandStep { navigate: Some((url, false)), url_bar: None, sync_tabs: false, effect: CommandEffect::Nothing },
                None => passing(CommandEffect::Nothing),
            }
        },
        BrowserCommand::Refresh => match tabs.get_active_tab() {
            Some(t) => CommandStep {
                navigate: Some((t.url.clone(), false)),
                url_bar: None,
                sync_tabs: false,
                effect: CommandEffect::Nothing,
            },
            None => passing(CommandEffect::Nothing),
        },
        BrowserCommand::ChangeNetwork(p) => passing(CommandEffect::ChangeNetwork(p)),
        BrowserCommand::AddBridge(b) => passing(CommandEffect::AddBridge(b)),
        BrowserCommand::AddV2Ray(c) => passing(CommandEffect::AddV2Ray(c)),
        BrowserCommand::SetProxyMode { use_tor, socks_port } => {
            if use_tor {
                passing(CommandEffect::SearchProxy(Some(socks_port)))
            } else {
                passing(CommandEffect::SearchProxy(None))
            }
        },
        BrowserCommand::NewTab => {
            let _ = tabs.create_tab(String::from_str("sentinel://home"));
            CommandStep {
                navigate: Some((String::from_str("sentinel://home"), true)),
                url_bar: None,
                sync_tabs: true,
                effect: CommandEffect::Nothing,
            }
        },
        BrowserCommand::SwitchTab(id) => {
            tabs.switch_to_tab(id);
            reopen(tabs)
        },
        BrowserCommand::CloseTab(id) => {
            tabs.close_tab_keep_one(id);
            reopen(tabs)
        },
        BrowserCommand::SetPrivacy { level, webrtc_blocked, webgl_disabled } => passing(
            CommandEffect::PrivacyUpdated {
                level,
                webrtc_blocked,
                webgl_disabled,
                sandbox_label: String::from_str("Job Object"),
            },
        ),
    }
}

} // verus!
