//! What the browser core starts from: the demo proposals, the default
//! settings, the boot-time report and the plugin directory.

use vstd::prelude::*;
use crate::governance::{Proposal, ProposalView};
use crate::query::chars_eq;
use crate::text::chars_of;

verus! {

/// The two demo proposals the governance page starts with.
pub open spec fn initial_proposals_spec() -> Seq<ProposalView> {
    seq![
        ProposalView {
            id: 1,
            title: "Upgrade to ZK-Rollup V2"@,
            description: "Implement Halo2 proofs for scalability."@,
            author: "0xSatoshi"@,
            execution_hash: "0x123...abc"@,
            deadline: 1735689600,
        },
        ProposalView {
            id: 2,
            title: "Treasury Allocation: Q1 Dev Fund"@,
            description: "Allocate 500k SENT for core dev."@,
            author: "0xBuilder"@,
            execution_hash: "0x456...def"@,
            deadline: 1738368000,
        },
    ]
}

/// The demo proposals (see `initial_proposals_spec`), in order.
pub fn initial_proposals() -> (r: Vec<Proposal>)
    ensures
        r@.map_values(|p: Proposal| p@) == initial_proposals_spec(),
{
    let mut v: Vec<Proposal> = Vec::new();
    v.push(Proposal {
        id: 1,
        title: String::from_str("Upgrade to ZK-Rollup V2"),
        description: String::from_str("Implement Halo2 proofs for scalability."),
        author: String::from_str("0xSatoshi"),
        execution_hash: String::from_str("0x123...abc"),
        deadline: 1735689600,
    });
    v.push(Proposal {
        id: 2,
        title: String::from_str("Treasury Allocation: Q1 Dev Fund"),
        description: String::from_str("Allocate 500k SENT for core dev."),
        author: String::from_str("0xBuilder"),
        execution_hash: String::from_str("0x456...def"),
        deadline: 1738368000,
    });
    assert(v@.map_values(|p: Proposal| p@) =~= initial_proposals_spec());
    v
}

/// The value a setting has until it is first stored: `Cyberpunk` for the
/// theme, `Horus` for the search engine, `true` for history, `Standard`
/// for the security level; no default for any other key.
pub open spec fn setting_default_spec(key: Seq<char>) -> Option<Seq<char>> {
    if key == "theme"@ {
        Some("Cyberpunk"@)
    } else if key == "search_engine"@ {
        Some("Horus"@)
    } else if key == "history_enabled"@ {
        Some("true"@)
    } else if key == "security_level"@ {
        Some("Standard"@)
    } else {
        None
    }
}

pub open spec fn opt_view(o: Option<String>) -> Option<Seq<char>> {
    match o {
        Some(s) => Some(s@),
        None => None,
    }
}

/// The default of a setting (see `setting_default_spec`).
pub fn setting_default(key: &str) -> (r: Option<String>)
    ensures
        opt_view(r) == setting_default_spec(key@),
{
    let k = chars_of(key);
    if chars_eq(&k, &chars_of("theme")) {
        Some(String::from_str("Cyberpunk"))
    } else if chars_eq(&k, &chars_of("search_engine")) {
        Some(String::from_str("Horus"))
    } else if chars_eq(&k, &chars_of("history_enabled")) {
        Some(String::from_str("true"))
    } else if chars_eq(&k, &chars_of("security_level")) {
        Some(String::from_str("Standard"))
    } else {
        None
    }
}

/// A setting's effective value: the stored one, else its default.
pub fn setting_or_default(key: &str, stored: Option<String>) -> (r: Option<String>)
    ensures
        opt_view(r) == (match stored {
            Some(s) => Some(s@),
            None => setting_default_spec(key@),
        }),
{
    match stored {
        Some(s) => Some(s),
        None => setting_default(key),
    }
}

/// The cold-start time reported for `elapsed_ms` milliseconds (never 0),
/// and whether it misses the 500 ms target.
pub fn boot_report(elapsed_ms: u64) -> (r: (u64, bool))
    ensures
        r.0 == (if elapsed_ms == 0 { 1 } else { elapsed_ms }),
        r.1 == (r.0 > 500),
{
    let d = if elapsed_ms == 0 { 1 } else { elapsed_ms };
    (d, d > 500)
}

/// Plugin discovery; the WASM host is not part of this build, so plugins
/// are only given a directory.
pub struct PluginManager {
    pub plugin_dir: String,
}

impl PluginManager {
    /// A manager for plugins under `plugin_dir`.
    pub fn new(plugin_dir: String) -> (m: Self)
        ensures
            m.plugin_dir@ == plugin_dir@,
    {
        PluginManager { plugin_dir }
    }
}

} // verus!
