//! Navigation decisions of the browser core: what a typed address leads
//! to, which `sentinel://` page an address names and with which
//! parameters, and the small settings rules behind those pages.

use vstd::prelude::*;
use vstd::utf8::encode_utf8;
use crate::codec::{percent_decode_from, starts_with, starts_with_chars, urlencoding_decode, utf8_lossy};
use crate::query::{
    chars_eq, query_of, query_of_chars, query_param, query_param_chars, second_piece, second_piece_chars,
};
use crate::text::{chars_of, parse_uint_chars, parse_uint_spec, string_of};

verus! {

/// A `sentinel://` page, with the parameters read from its address.
#[derive(Debug, Clone, PartialEq, Eq)]
pub enum InternalPage {
    Welcome,
    Status,
    Connect,
    Settings,
    Governance,
    Dapps,
    Design,
    Prototype,
    NetworkMenu,
    Bookmarks,
    History,
    ClearHistory,
    ToggleHistory,
    ToggleSecurity,
    AllowSite { host: String },
    Vote { id: u64, approve: bool },
    Search { query: String },
    AddBookmark { url: String, title: String },
    Network { kind: NetworkKind },
    AddBridgeObfs4 { addr: String, cert: String, iat_mode: u8 },
    AddBridgeSnowflake { broker: String, relay: String },
    ConnectAddVmess { uuid: String, alter_id: u32, security: String },
    ConnectAddVless { uuid: String, encryption: String, flow: String },
    ConnectAddTrojan { password: String },
    ConnectSaveProfile { name: String },
    ConnectSwitch { name: String },
    InstallPt,
    ConnectTest,
    Download { url: String },
    DownloadComplete { filename: String },
    Downloads,
    Security,
    NotFound,
}

/// The network choice named by `sentinel://network?type=..`.
#[derive(Debug, Clone, Copy, PartialEq, Eq, Structural)]
pub enum NetworkKind {
    Tor,
    V2Ray,
    Clear,
    Snowflake,
    /// I2P or WireGuard, which are not offered.
    Unavailable,
}

/// The mathematical form of a routed page.
pub enum PageSpec {
    Welcome,
    Status,
    Connect,
    Settings,
    Governance,
    Dapps,
    Design,
    Prototype,
    NetworkMenu,
    Bookmarks,
    History,
    ClearHistory,
    ToggleHistory,
    ToggleSecurity,
    AllowSite { host: Seq<char> },
    Vote { id: u64, approve: bool },
    Search { query: Seq<char> },
    AddBookmark { url: Seq<char>, title: Seq<char> },
    Network { kind: NetworkKind },
    AddBridgeObfs4 { addr: Seq<char>, cert: Seq<char>, iat_mode: u8 },
    AddBridgeSnowflake { broker: Seq<char>, relay: Seq<char> },
    ConnectAddVmess { uuid: Seq<char>, alter_id: u32, security: Seq<char> },
    ConnectAddVless { uuid: Seq<char>, encryption: Seq<char>, flow: Seq<char> },
    ConnectAddTrojan { password: Seq<char> },
    ConnectSaveProfile { name: Seq<char> },
    ConnectSwitch { name: Seq<char> },
    InstallPt,
    ConnectTest,
    Download { url: Seq<char> },
    DownloadComplete { filename: Seq<char> },
    Downloads,
    Security,
    NotFound,
}

impl View for InternalPage {
    type V = PageSpec;

    open spec fn view(&self) -> PageSpec {
        match *self {
            InternalPage::Welcome => PageSpec::Welcome,
            InternalPage::Status => PageSpec::Status,
            InternalPage::Connect => PageSpec::Connect,
            InternalPage::Settings => PageSpec::Settings,
            InternalPage::Governance => PageSpec::Governance,
            InternalPage::Dapps => PageSpec::Dapps,
            InternalPage::Design => PageSpec::Design,
            InternalPage::Prototype => PageSpec::Prototype,
            InternalPage::NetworkMenu => PageSpec::NetworkMenu,
            InternalPage::Bookmarks => PageSpec::Bookmarks,
            InternalPage::History => PageSpec::History,
            InternalPage::ClearHistory => PageSpec::ClearHistory,
            InternalPage::ToggleHistory => PageSpec::ToggleHistory,
            InternalPage::ToggleSecurity => PageSpec::ToggleSecurity,
            InternalPage::AllowSite { host } => PageSpec::AllowSite { host: host@ },
            InternalPage::Vote { id, approve } => PageSpec::Vote { id, approve },
            InternalPage::Search { query } => PageSpec::Search { query: query@ },
            InternalPage::AddBookmark { url, title } => PageSpec::AddBookmark { url: url@, title: title@ },
            InternalPage::Network { kind } => PageSpec::Network { kind },
            InternalPage::AddBridgeObfs4 { addr, cert, iat_mode } => PageSpec::AddBridgeObfs4 {
                addr: addr@,
                cert: cert@,
                iat_mode,
            },
            InternalPage::AddBridgeSnowflake { broker, relay } => PageSpec::AddBridgeSnowflake {
                broker: broker@,
                relay: relay@,
            },
            InternalPage::ConnectAddVmess { uuid, alter_id, security } => PageSpec::ConnectAddVmess {
                uuid: uuid@,
                alter_id,
                security: security@,
            },
            InternalPage::ConnectAddVless { uuid, encryption, flow } => PageSpec::ConnectAddVless {
                uuid: uuid@,
                encryption: encryption@,
                flow: flow@,
            },
            InternalPage::ConnectAddTrojan { password } => PageSpec::ConnectAddTrojan { password: password@ },
            InternalPage::ConnectSaveProfile { name } => PageSpec::ConnectSaveProfile { name: name@ },
            InternalPage::ConnectSwitch { name } => PageSpec::ConnectSwitch { name: name@ },
            InternalPage::InstallPt => PageSpec::InstallPt,
            InternalPage::ConnectTest => PageSpec::ConnectTest,
            InternalPage::Download { url } => PageSpec::Download { url: url@ },
            InternalPage::DownloadComplete { filename } => PageSpec::DownloadComplete { filename: filename@ },
            InternalPage::Downloads => PageSpec::Downloads,
            InternalPage::Security => PageSpec::Security,
            InternalPage::NotFound => PageSpec::NotFound,
        }
    }
}

/// A query parameter's value, or `default` when absent.
pub open spec fn param_or(q: Seq<char>, key: Seq<char>, default: Seq<char>) -> Seq<char> {
    match query_param(q, key) {
        Some(v) => v,
        None => default,
    }
}

/// A numeric query parameter (`parse().unwrap_or(0)` for a type whose
/// largest value is `max`); 0 when absent or unparsable.
pub open spec fn uint_param(q: Seq<char>, key: Seq<char>, max: u64) -> u64 {
    match query_param(q, key) {
        Some(v) => match parse_uint_spec(v, max) {
            Some(n) => n,
            None => 0,
        },
        None => 0,
    }
}

/// The piece after `marker` (see `second_piece`), or `default`.
pub open spec fn piece_or(u: Seq<char>, marker: Seq<char>, default: Seq<char>) -> Seq<char> {
    match second_piece(u, marker) {
        Some(p) => p,
        None => default,
    }
}

/// `s` with every `+` replaced by a space.
pub open spec fn plus_to_space(s: Seq<char>) -> Seq<char> {
    s.map_values(|c: char| if c == '+' { ' ' } else { c })
}

/// The `(id, approve)` of a vote address: id 0 unless given, approve true
/// unless given (then true exactly for `true`).
pub open spec fn vote_params(u: Seq<char>) -> (u64, bool) {
    let q = query_of(u);
    let approve = match query_param(q, "approve"@) {
        Some(v) => v == "true"@,
        None => true,
    };
    (uint_param(q, "id"@, u64::MAX), approve)
}

/// The network kind named by a `type` value.
pub open spec fn network_kind_spec(t: Seq<char>) -> NetworkKind {
    if t == "tor"@ {
        NetworkKind::Tor
    } else if t == "v2ray"@ {
        NetworkKind::V2Ray
    } else if t == "clear"@ {
        NetworkKind::Clear
    } else if t == "snowflake"@ {
        NetworkKind::Snowflake
    } else if t == "i2p"@ || t == "wireguard"@ {
        NetworkKind::Unavailable
    } else {
        NetworkKind::Tor
    }
}

/// The `type` parameter of the network page names its kind, each choice by
/// its own word: `snowflake` Snowflake, `v2ray` V2Ray, `clear` the clear
/// web, `i2p` and `wireguard` none offered, `tor` and every other word Tor.
pub proof fn lemma_network_kinds(t: Seq<char>)
    ensures
        network_kind_spec(t) == NetworkKind::Snowflake <==> t == "snowflake"@,
        network_kind_spec(t) == NetworkKind::V2Ray <==> t == "v2ray"@,
        network_kind_spec(t) == NetworkKind::Clear <==> t == "clear"@,
        network_kind_spec(t) == NetworkKind::Unavailable <==> (t == "i2p"@ || t == "wireguard"@),
        network_kind_spec(t) == NetworkKind::Tor <==> !(t == "snowflake"@ || t == "v2ray"@ || t == "clear"@ || t
            == "i2p"@ || t == "wireguard"@),
{
    reveal_strlit("tor");
    reveal_strlit("v2ray");
    reveal_strlit("clear");
    reveal_strlit("snowflake");
    reveal_strlit("i2p");
    reveal_strlit("wireguard");
    assert("tor"@[0] == 't' && "v2ray"@[0] == 'v' && "clear"@[0] == 'c' && "snowflake"@[0] == 's');
    assert("i2p"@[0] == 'i' && "wireguard"@[0] == 'w');
}

/// The page an internal address names. Exact addresses are tested first,
/// then prefixes, in the order below; the first that applies wins.
pub open spec fn route_spec(u: Seq<char>) -> PageSpec {
    let q = query_of(u);
    if u == "sentinel://welcome"@ || u == "sentinel://newtab"@ || u == "sentinel://home"@ {
        PageSpec::Welcome
    } else if u == "sentinel://status"@ {
        PageSpec::Status
    } else if u == "sentinel://connect"@ {
        PageSpec::Connect
    } else if u == "sentinel://settings"@ {
        PageSpec::Settings
    } else if u == "sentinel://governance"@ {
        PageSpec::Governance
    } else if u == "sentinel://dapps"@ {
        PageSpec::Dapps
    } else if u == "sentinel://design"@ {
        PageSpec::Design
    } else if u == "sentinel://prototype"@ {
        PageSpec::Prototype
    } else if u == "sentinel://network_menu"@ {
        PageSpec::NetworkMenu
    } else if u == "sentinel://bookmarks"@ {
        PageSpec::Bookmarks
    } else if u == "sentinel://history"@ {
        PageSpec::History
    } else if u == "sentinel://clear_history"@ {
        PageSpec::ClearHistory
    } else if u == "sentinel://toggle_history"@ {
        PageSpec::ToggleHistory
    } else if u == "sentinel://toggle_security"@ {
        PageSpec::ToggleSecurity
    } else if starts_with(u, "sentinel://allow_site"@) {
        PageSpec::AllowSite { host: piece_or(u, "?host="@, seq![]) }
    } else if starts_with(u, "sentinel://vote"@) {
        PageSpec::Vote { id: vote_params(u).0, approve: vote_params(u).1 }
    } else if starts_with(u, "sentinel://search"@) {
        PageSpec::Search { query: piece_or(u, "?q="@, seq![]) }
    } else if starts_with(u, "sentinel://add_bookmark"@) {
        PageSpec::AddBookmark { url: param_or(q, "url"@, seq![]), title: param_or(q, "title"@, seq![]) }
    } else if starts_with(u, "sentinel://network"@) {
        PageSpec::Network { kind: network_kind_spec(param_or(q, "type"@, "tor"@)) }
    } else if starts_with(u, "sentinel://add_bridge_obfs4"@) {
        PageSpec::AddBridgeObfs4 {
            addr: param_or(q, "addr"@, seq![]),
            cert: param_or(q, "cert"@, seq![]),
            iat_mode: uint_param(q, "iat_mode"@, 0xff) as u8,
        }
    } else if starts_with(u, "sentinel://add_bridge_snowflake"@) {
        PageSpec::AddBridgeSnowflake { broker: param_or(q, "broker"@, seq![]), relay: param_or(q, "relay"@, seq![]) }
    } else if starts_with(u, "sentinel://connect_add_vmess"@) {
        PageSpec::ConnectAddVmess {
            uuid: param_or(q, "uuid"@, seq![]),
            alter_id: uint_param(q, "alterId"@, 0xffff_ffff) as u32,
            security: param_or(q, "security"@, seq![]),
        }
    } else if starts_with(u, "sentinel://connect_add_vless"@) {
        PageSpec::ConnectAddVless {
            uuid: param_or(q, "uuid"@, seq![]),
            encryption: param_or(q, "encryption"@, seq![]),
            flow: param_or(q, "flow"@, seq![]),
        }
    } else if starts_with(u, "sentinel://connect_add_trojan"@) {
        PageSpec::ConnectAddTrojan { password: param_or(q, "password"@, seq![]) }
    } else if starts_with(u, "sentinel://connect_save_profile"@) {
        PageSpec::ConnectSaveProfile { name: param_or(q, "name"@, "Profile"@) }
    } else if starts_with(u, "sentinel://connect_switch"@) {
        PageSpec::ConnectSwitch { name: param_or(q, "name"@, seq![]) }
    } else if u == "sentinel://install_pt"@ {
        PageSpec::InstallPt
    } else if u == "sentinel://connect_test"@ {
        PageSpec::ConnectTest
    } else if starts_with(u, "sentinel://download?"@) {
        PageSpec::Download {
            url: utf8_lossy(percent_decode_from(encode_utf8(plus_to_space(piece_or(u, "?url="@, seq![]))), 0)),
        }
    } else if starts_with(u, "sentinel://download_complete"@) {
        PageSpec::DownloadComplete { filename: piece_or(u, "?file="@, "document.pdf"@) }
    } else if u == "sentinel://downloads"@ {
        PageSpec::Downloads
    } else if u == "sentinel://security"@ {
        PageSpec::Security
    } else {
        PageSpec::NotFound
    }
}

fn is_lit(u: &Vec<char>, lit: &str) -> (b: bool)
    ensures
        b == (u@ == lit@),
{
    let l = chars_of(lit);
    chars_eq(u, &l)
}

fn param_or_exec(q: &Vec<char>, key: &str, default: &str) -> (r: String)
    ensures
        r@ == param_or(q@, key@, default@),
{
    let k = chars_of(key);
    match query_param_chars(q, &k) {
        Some(v) => string_of(&v),
        None => string_of(&chars_of(default)),
    }
}

fn uint_param_exec(q: &Vec<char>, key: &str, max: u64) -> (r: u64)
    ensures
        r == uint_param(q@, key@, max),
        r <= max,
{
    let k = chars_of(key);
    match query_param_chars(q, &k) {
        Some(v) => match parse_uint_chars(&v, max) {
            Some(n) => n,
            None => 0,
        },
        None => 0,
    }
}

fn piece_or_exec(u: &Vec<char>, marker: &str, default: &str) -> (r: String)
    ensures
        r@ == piece_or(u@, marker@, default@),
{
    let m = chars_of(marker);
    match second_piece_chars(u, &m) {
        Some(p) => string_of(&p),
        None => string_of(&chars_of(default)),
    }
}

fn plus_to_space_exec(s: &String) -> (r: String)
    ensures
        r@ == plus_to_space(s@),
{
    let v = chars_of(s.as_str());
    let mut out: Vec<char> = Vec::new();
    let mut i: usize = 0;
    while i < v.len()
        invariant
            i <= v@.len(),
            out@ == plus_to_space(v@.take(i as int)),
        decreases v@.len() - i,
    {
        let c = v[i];
        out.push(if c == '+' { ' ' } else { c });
        assert(plus_to_space(v@.take(i + 1)) =~= plus_to_space(v@.take(i as int)).push(if c == '+' { ' ' } else { c }));
        i += 1;
    }
    assert(v@.take(v@.len() as int) =~= v@);
    string_of(&out)
}

/// Reads the id and the choice of a `sentinel://vote?id=..&approve=..`
/// address (see `vote_params`).
pub fn parse_vote_request(url: &str) -> (r: (u64, bool))
    ensures
        r == vote_params(url@),
{
    let u = chars_of(url);
    let q = query_of_chars(&u);
    let approve = match query_param_chars(&q, &chars_of("approve")) {
        Some(v) => is_lit(&v, "true"),
        None => true,
    };
    (uint_param_exec(&q, "id", u64::MAX), approve)
}

fn network_kind(t: &Vec<char>) -> (k: NetworkKind)
    ensures
        k == network_kind_spec(t@),
{
    if is_lit(t, "tor") {
        NetworkKind::Tor
    } else if is_lit(t, "v2ray") {
        NetworkKind::V2Ray
    } else if is_lit(t, "clear") {
        NetworkKind::Clear
    } else if is_lit(t, "snowflake") {
        NetworkKind::Snowflake
    } else if is_lit(t, "i2p") || is_lit(t, "wireguard") {
        NetworkKind::Unavailable
    } else {
        NetworkKind::Tor
    }
}

/// The page that the internal address `url` names (see `route_spec`).
pub fn route_internal(url: &str) -> (p: InternalPage)
    ensures
        p@ == route_spec(url@),
{
    proof {
        reveal_strlit("");
        assert(""@ =~= Seq::<char>::empty());
    }
    let u = chars_of(url);
    let q = query_of_chars(&u);
    if is_lit(&u, "sentinel://welcome") || is_lit(&u, "sentinel://newtab") || is_lit(&u, "sentinel://home") {
        InternalPage::Welcome
    } else if is_lit(&u, "sentinel://status") {
        InternalPage::Status
    } else if is_lit(&u, "sentinel://connect") {
        InternalPage::Connect
    } else if is_lit(&u, "sentinel://settings") {
        InternalPage::Settings
    } else if is_lit(&u, "sentinel://governance") {
        InternalPage::Governance
    } else if is_lit(&u, "sentinel://dapps") {
        InternalPage::Dapps
    } else if is_lit(&u, "sentinel://design") {
        InternalPage::Design
    } else if is_lit(&u, "sentinel://prototype") {
        InternalPage::Prototype
    } else if is_lit(&u, "sentinel://network_menu") {
        InternalPage::NetworkMenu
    } else if is_lit(&u, "sentinel://bookmarks") {
        InternalPage::Bookmarks
    } else if is_lit(&u, "sentinel://history") {
        InternalPage::History
    } else if is_lit(&u, "sentinel://clear_history") {
        InternalPage::ClearHistory
    } else if is_lit(&u, "sentinel://toggle_history") {
        InternalPage::ToggleHistory
    } else if is_lit(&u, "sentinel://toggle_security") {
        InternalPage::ToggleSecurity
    } else if starts_with_chars(&u, "sentinel://allow_site") {
        InternalPage::AllowSite { host: piece_or_exec(&u, "?host=", "") }
    } else if starts_with_chars(&u, "sentinel://vote") {
        let (id, approve) = parse_vote_request(url);
        InternalPage::Vote { id, approve }
    } else if starts_with_chars(&u, "sentinel://search") {
        InternalPage::Search { query: piece_or_exec(&u, "?q=", "") }
    } else if starts_with_chars(&u, "sentinel://add_bookmark") {
        InternalPage::AddBookmark { url: param_or_exec(&q, "url", ""), title: param_or_exec(&q, "title", "") }
    } else if starts_with_chars(&u, "sentinel://network") {
        let t = param_or_exec(&q, "type", "tor");
        InternalPage::Network { kind: network_kind(&chars_of(t.as_str())) }
    } else if starts_with_chars(&u, "sentinel://add_bridge_obfs4") {
        let m = uint_param_exec(&q, "iat_mode", 0xff);
        InternalPage::AddBridgeObfs4 {
            addr: param_or_exec(&q, "addr", ""),
            cert: param_or_exec(&q, "cert", ""),
            iat_mode: m as u8,
        }
    } else if starts_with_chars(&u, "sentinel://add_bridge_snowflake") {
        InternalPage::AddBridgeSnowflake {
            broker: param_or_exec(&q, "broker", ""),
            relay: param_or_exec(&q, "relay", ""),
        }
    } else if starts_with_chars(&u, "sentinel://connect_add_vmess") {
        let a = uint_param_exec(&q, "alterId", 0xffff_ffff);
        InternalPage::ConnectAddVmess {
            uuid: param_or_exec(&q, "uuid", ""),
            alter_id: a as u32,
            security: param_or_exec(&q, "security", ""),
        }
    } else if starts_with_chars(&u, "sentinel://connect_add_vless") {
        InternalPage::ConnectAddVless {
            uuid: param_or_exec(&q, "uuid", ""),
            encryption: param_or_exec(&q, "encryption", ""),
            flow: param_or_exec(&q, "flow", ""),
        }
    } else if starts_with_chars(&u, "sentinel://connect_add_trojan") {
        InternalPage::ConnectAddTrojan { password: param_or_exec(&q, "password", "") }
    } else if starts_with_chars(&u, "sentinel://connect_save_profile") {
        InternalPage::ConnectSaveProfile { name: param_or_exec(&q, "name", "Profile") }
    } else if starts_with_chars(&u, "sentinel://connect_switch") {
        InternalPage::ConnectSwitch { name: param_or_exec(&q, "name", "") }
    } else if is_lit(&u, "sentinel://install_pt") {
        InternalPage::InstallPt
    } else if is_lit(&u, "sentinel://connect_test") {
        InternalPage::ConnectTest
    } else if starts_with_chars(&u, "sentinel://download?") {
        let raw = piece_or_exec(&u, "?url=", "");
        let spaced = plus_to_space_exec(&raw);
        InternalPage::Download { url: urlencoding_decode(spaced.as_str()) }
    } else if starts_with_chars(&u, "sentinel://download_complete") {
        InternalPage::DownloadComplete { filename: piece_or_exec(&u, "?file=", "document.pdf") }
    } else if is_lit(&u, "sentinel://downloads") {
        InternalPage::Downloads
    } else if is_lit(&u, "sentinel://security") {
        InternalPage::Security
    } else {
        InternalPage::NotFound
    }
}

} // verus!
