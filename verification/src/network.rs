//! Network configuration (protocols, bridges, saved profiles) and the
//! decisions the network layer takes around Tor bootstrap, DNS, automatic
//! circumvention and raw HTTP exchanges.

use vstd::prelude::*;
use crate::text::{
    chars_of, decimal, parse_uint_chars, parse_uint_spec, push_decimal, push_str, split_once,
    split_once_chars, string_of,
};
use crate::query::chars_eq;

verus! {

#[derive(Debug, Clone, PartialEq, Eq)]
pub enum TorBridge {
    NoBridge,
    Obfs4 { addr: String, cert: String, iat_mode: u8 },
    Snowflake { broker: String, relay: String },
    Meek { url: String },
}

#[derive(Debug, Clone, PartialEq, Eq)]
pub enum V2RayConfig {
    VMess { uuid: String, alter_id: u32, security: String },
    VLESS { uuid: String, encryption: String, flow: String },
    Trojan { password: String },
    Shadowsocks { method: String, password: String },
}

#[derive(Debug, Clone, PartialEq, Eq)]
pub enum Protocol {
    Clearweb,
    Tor { bridge: TorBridge },
    I2P,
    V2Ray(V2RayConfig),
    WireGuard { private_key: String, endpoint: String },
}

#[derive(Debug, Clone, Copy, PartialEq, Eq, Structural)]
pub enum DnsProvider {
    Cloudflare,
    Google,
    Quad9,
    Tor,
}

#[derive(Debug, Clone, Copy, PartialEq, Eq, Structural)]
pub enum ConnectivityStatus {
    Optimal,
    Degraded,
    Blocked,
    Unknown,
}

/// What the status page shows of the network layer.
#[derive(Debug, Clone)]
pub struct NetworkStatusSnapshot {
    pub summary: String,
    pub protocol: String,
    pub socks_port: Option<u16>,
    pub tor_ready: bool,
    pub active_connections: usize,
    pub pt: String,
}

/// A saved protocol choice under a user-given name.
#[derive(Debug, Clone)]
pub struct ConnectionProfile {
    pub name: String,
    pub protocol: Protocol,
}

/// The persisted network settings.
#[derive(Debug, Clone)]
pub struct NetworkSettings {
    pub active_protocol: Protocol,
    pub custom_bridges: Vec<TorBridge>,
    pub v2ray_configs: Vec<V2RayConfig>,
    pub secure_dns_provider: DnsProvider,
    pub secure_dns_provider_custom: String,
    pub profiles: Vec<ConnectionProfile>,
    pub socks_port: u16,
}

/// The result of the last connectivity probe, with the time it was taken
/// (seconds since the Unix epoch).
#[derive(Debug, Clone)]
pub struct CensorshipMonitor {
    pub status: ConnectivityStatus,
    pub last_check: u64,
}

/// Tor's customary SOCKS port, used when settings name none.
pub fn default_socks_port() -> (p: u16)
    ensures
        p == 9050,
{
    9050
}

pub fn copy_string(s: &String) -> (r: String)
    ensures
        r == *s,
{
    s.clone()
}

pub fn copy_bridge(b: &TorBridge) -> (r: TorBridge)
    ensures
        r == *b,
{
    match b {
        TorBridge::NoBridge => TorBridge::NoBridge,
        TorBridge::Obfs4 { addr, cert, iat_mode } => TorBridge::Obfs4 {
            addr: copy_string(addr),
            cert: copy_string(cert),
            iat_mode: *iat_mode,
        },
        TorBridge::Snowflake { broker, relay } => TorBridge::Snowflake {
            broker: copy_string(broker),
            relay: copy_string(relay),
        },
        TorBridge::Meek { url } => TorBridge::Meek { url: copy_string(url) },
    }
}

pub fn copy_v2ray(c: &V2RayConfig) -> (r: V2RayConfig)
    ensures
        r == *c,
{
    match c {
        V2RayConfig::VMess { uuid, alter_id, security } => V2RayConfig::VMess {
            uuid: copy_string(uuid),
            alter_id: *alter_id,
            security: copy_string(security),
        },
        V2RayConfig::VLESS { uuid, encryption, flow } => V2RayConfig::VLESS {
            uuid: copy_string(uuid),
            encryption: copy_string(encryption),
            flow: copy_string(flow),
        },
        V2RayConfig::Trojan { password } => V2RayConfig::Trojan { password: copy_string(password) },
        V2RayConfig::Shadowsocks { method, password } => V2RayConfig::Shadowsocks {
            method: copy_string(method),
            password: copy_string(password),
        },
    }
}

pub fn copy_protocol(p: &Protocol) -> (r: Protocol)
    ensures
        r == *p,
{
    match p {
        Protocol::Clearweb => Protocol::Clearweb,
        Protocol::Tor { bridge } => Protocol::Tor { bridge: copy_bridge(bridge) },
        Protocol::I2P => Protocol::I2P,
        Protocol::V2Ray(c) => Protocol::V2Ray(copy_v2ray(c)),
        Protocol::WireGuard { private_key, endpoint } => Protocol::WireGuard {
            private_key: copy_string(private_key),
            endpoint: copy_string(endpoint),
        },
    }
}

pub fn string_eq(a: &String, b: &String) -> (r: bool)
    ensures
        r == (a@ == b@),
{
    *a == *b
}

/// Equality of bridges by content.
pub open spec fn bridge_same(a: TorBridge, b: TorBridge) -> bool {
    match (a, b) {
        (TorBridge::NoBridge, TorBridge::NoBridge) => true,
        (TorBridge::Obfs4 { addr: a1, cert: c1, iat_mode: i1 }, TorBridge::Obfs4 { addr: a2, cert: c2, iat_mode: i2 }) =>
            a1@ == a2@ && c1@ == c2@ && i1 == i2,
        (TorBridge::Snowflake { broker: b1, relay: r1 }, TorBridge::Snowflake { broker: b2, relay: r2 }) =>
            b1@ == b2@ && r1@ == r2@,
        (TorBridge::Meek { url: u1 }, TorBridge::Meek { url: u2 }) => u1@ == u2@,
        _ => false,
    }
}

/// Equality of V2Ray configurations by content.
pub open spec fn v2ray_same(a: V2RayConfig, b: V2RayConfig) -> bool {
    match (a, b) {
        (V2RayConfig::VMess { uuid: u1, alter_id: a1, security: s1 }, V2RayConfig::VMess { uuid: u2, alter_id: a2, security: s2 }) =>
            u1@ == u2@ && a1 == a2 && s1@ == s2@,
        (V2RayConfig::VLESS { uuid: u1, encryption: e1, flow: f1 }, V2RayConfig::VLESS { uuid: u2, encryption: e2, flow: f2 }) =>
            u1@ == u2@ && e1@ == e2@ && f1@ == f2@,
        (V2RayConfig::Trojan { password: p1 }, V2RayConfig::Trojan { password: p2 }) => p1@ == p2@,
        (V2RayConfig::Shadowsocks { method: m1, password: p1 }, V2RayConfig::Shadowsocks { method: m2, password: p2 }) =>
            m1@ == m2@ && p1@ == p2@,
        _ => false,
    }
}

/// Equality of protocols by content.
pub open spec fn protocol_same(a: Protocol, b: Protocol) -> bool {
    match (a, b) {
        (Protocol::Clearweb, Protocol::Clearweb) => true,
        (Protocol::Tor { bridge: b1 }, Protocol::Tor { bridge: b2 }) => bridge_same(b1, b2),
        (Protocol::I2P, Protocol::I2P) => true,
        (Protocol::V2Ray(c1), Protocol::V2Ray(c2)) => v2ray_same(c1, c2),
        (Protocol::WireGuard { private_key: k1, endpoint: e1 }, Protocol::WireGuard { private_key: k2, endpoint: e2 }) =>
            k1@ == k2@ && e1@ == e2@,
        _ => false,
    }
}

pub fn bridge_eq(a: &TorBridge, b: &TorBridge) -> (r: bool)
    ensures
        r == bridge_same(*a, *b),
{
    match (a, b) {
        (TorBridge::NoBridge, TorBridge::NoBridge) => true,
        (TorBridge::Obfs4 { addr: a1, cert: c1, iat_mode: i1 }, TorBridge::Obfs4 { addr: a2, cert: c2, iat_mode: i2 }) =>
            string_eq(a1, a2) && string_eq(c1, c2) && *i1 == *i2,
        (TorBridge::Snowflake { broker: b1, relay: r1 }, TorBridge::Snowflake { broker: b2, relay: r2 }) =>
            string_eq(b1, b2) && string_eq(r1, r2),
        (TorBridge::Meek { url: u1 }, TorBridge::Meek { url: u2 }) => string_eq(u1, u2),
        _ => false,
    }
}

pub fn v2ray_eq(a: &V2RayConfig, b: &V2RayConfig) -> (r: bool)
    ensures
        r == v2ray_same(*a, *b),
{
    match (a, b) {
        (V2RayConfig::VMess { uuid: u1, alter_id: a1, security: s1 }, V2RayConfig::VMess { uuid: u2, alter_id: a2, security: s2 }) =>
            string_eq(u1, u2) && *a1 == *a2 && string_eq(s1, s2),
        (V2RayConfig::VLESS { uuid: u1, encryption: e1, flow: f1 }, V2RayConfig::VLESS { uuid: u2, encryption: e2, flow: f2 }) =>
            string_eq(u1, u2) && string_eq(e1, e2) && string_eq(f1, f2),
        (V2RayConfig::Trojan { password: p1 }, V2RayConfig::Trojan { password: p2 }) => string_eq(p1, p2),
        (V2RayConfig::Shadowsocks { method: m1, password: p1 }, V2RayConfig::Shadowsocks { method: m2, password: p2 }) =>
            string_eq(m1, m2) && string_eq(p1, p2),
        _ => false,
    }
}

/// `==` on protocols, by content.
pub fn protocol_eq(a: &Protocol, b: &Protocol) -> (r: bool)
    ensures
        r == protocol_same(*a, *b),
{
    match (a, b) {
        (Protocol::Clearweb, Protocol::Clearweb) => true,
        (Protocol::Tor { bridge: b1 }, Protocol::Tor { bridge: b2 }) => bridge_eq(b1, b2),
        (Protocol::I2P, Protocol::I2P) => true,
        (Protocol::V2Ray(c1), Protocol::V2Ray(c2)) => v2ray_eq(c1, c2),
        (Protocol::WireGuard { private_key: k1, endpoint: e1 }, Protocol::WireGuard { private_key: k2, endpoint: e2 }) =>
            string_eq(k1, k2) && string_eq(e1, e2),
        _ => false,
    }
}

/// The default settings: Tor without bridges, no saved bridges, configs
/// or profiles, Quad9 DNS, SOCKS port 9050.
pub open spec fn default_settings(s: NetworkSettings) -> bool {
    &&& s.active_protocol == plain_tor()
    &&& s.custom_bridges@.len() == 0
    &&& s.v2ray_configs@.len() == 0
    &&& s.secure_dns_provider == DnsProvider::Quad9
    &&& s.secure_dns_provider_custom@.len() == 0
    &&& s.profiles@.len() == 0
    &&& s.socks_port == 9050
}

impl NetworkSettings {
    pub fn new_default() -> (s: Self)
        ensures
            default_settings(s),
    {
        NetworkSettings {
            active_protocol: Protocol::Tor { bridge: TorBridge::NoBridge },
            custom_bridges: Vec::new(),
            v2ray_configs: Vec::new(),
            secure_dns_provider: DnsProvider::Quad9,
            secure_dns_provider_custom: String::new(),
            profiles: Vec::new(),
            socks_port: 9050,
        }
    }

    /// Saves a user-defined bridge.
    pub fn add_custom_bridge(&mut self, bridge: TorBridge)
        ensures
            final(self).custom_bridges@ == old(self).custom_bridges@.push(bridge),
            final(self).active_protocol == old(self).active_protocol,
            final(self).v2ray_configs@ == old(self).v2ray_configs@,
            final(self).profiles@ == old(self).profiles@,
    {
        self.custom_bridges.push(bridge);
    }

    /// Saves a user-defined V2Ray configuration.
    pub fn add_v2ray_config(&mut self, config: V2RayConfig)
        ensures
            final(self).v2ray_configs@ == old(self).v2ray_configs@.push(config),
            final(self).active_protocol == old(self).active_protocol,
            final(self).custom_bridges@ == old(self).custom_bridges@,
            final(self).profiles@ == old(self).profiles@,
    {
        self.v2ray_configs.push(config);
    }

    /// Saves a named profile for `protocol`.
    pub fn add_profile(&mut self, name: String, protocol: Protocol)
        ensures
            final(self).profiles@ == old(self).profiles@.push(ConnectionProfile { name, protocol }),
            final(self).active_protocol == old(self).active_protocol,
            final(self).custom_bridges@ == old(self).custom_bridges@,
            final(self).v2ray_configs@ == old(self).v2ray_configs@,
    {
        self.profiles.push(ConnectionProfile { name, protocol });
    }

    /// The protocol of the first saved profile named `name`.
    pub fn find_profile(&self, name: &str) -> (r: Option<Protocol>)
        ensures
            match r {
                Some(p) => exists|i: int| 0 <= i < self.profiles@.len()
                    && (#[trigger] self.profiles@[i]).name@ == name@
                    && self.profiles@[i].protocol == p
                    && forall|j: int| 0 <= j < i ==> (#[trigger] self.profiles@[j]).name@ != name@,
                None => forall|i: int| 0 <= i < self.profiles@.len() ==> (#[trigger] self.profiles@[i]).name@ != name@,
            },
    {
        let key = string_of(&chars_of(name));
        let mut i: usize = 0;
        while i < self.profiles.len()
            invariant
                i <= self.profiles@.len(),
                key@ == name@,
                forall|j: int| 0 <= j < i ==> (#[trigger] self.profiles@[j]).name@ != name@,
            decreases self.profiles@.len() - i,
        {
            if string_eq(&self.profiles[i].name, &key) {
                return Some(copy_protocol(&self.profiles[i].protocol));
            }
            i += 1;
        }
        None
    }

    /// Makes `protocol` the active protocol, keeping everything saved.
    pub fn update_config(&mut self, protocol: Protocol)
        ensures
            final(self).active_protocol == protocol,
            final(self).custom_bridges@ == old(self).custom_bridges@,
            final(self).v2ray_configs@ == old(self).v2ray_configs@,
            final(self).profiles@ == old(self).profiles@,
            final(self).secure_dns_provider == old(self).secure_dns_provider,
            final(self).socks_port == old(self).socks_port,
    {
        self.active_protocol = protocol;
    }

    /// Makes the protocol of the first saved profile named `name` the
    /// active one; fails with `Profile not found`, changing nothing, when
    /// there is none.
    pub fn switch_profile(&mut self, name: &str) -> (r: Result<(), String>)
        ensures
            r is Ok ==> exists|i: int|
                0 <= i < old(self).profiles@.len() && (#[trigger] old(self).profiles@[i]).name@ == name@
                    && final(self).active_protocol == old(self).profiles@[i].protocol
                    && forall|j: int| 0 <= j < i ==> (#[trigger] old(self).profiles@[j]).name@ != name@,
            r is Err <==> forall|i: int| 0 <= i < old(self).profiles@.len() ==> (#[trigger] old(self).profiles@[i]).name@ != name@,
            r matches Err(e) ==> e@ == "Profile not found"@ && final(self).active_protocol == old(self).active_protocol,
            final(self).custom_bridges@ == old(self).custom_bridges@,
            final(self).v2ray_configs@ == old(self).v2ray_configs@,
            final(self).profiles@ == old(self).profiles@,
            final(self).secure_dns_provider == old(self).secure_dns_provider,
            final(self).socks_port == old(self).socks_port,
    {
        match self.find_profile(name) {
            Some(p) => {
                self.active_protocol = p;
                Ok(())
            },
            None => Err(String::from_str("Profile not found")),
        }
    }

    /// The saved profiles, in order.
    pub fn list_profiles(&self) -> (r: Vec<ConnectionProfile>)
        ensures
            r@.len() == self.profiles@.len(),
            forall|i: int| 0 <= i < r@.len() ==> (#[trigger] r@[i]).name == self.profiles@[i].name
                && r@[i].protocol == self.profiles@[i].protocol,
    {
        let mut r: Vec<ConnectionProfile> = Vec::new();
        let mut i: usize = 0;
        while i < self.profiles.len()
            invariant
                i <= self.profiles@.len(),
                r@.len() == i,
                forall|k: int| 0 <= k < i ==> (#[trigger] r@[k]).name == self.profiles@[k].name
                    && r@[k].protocol == self.profiles@[k].protocol,
            decreases self.profiles@.len() - i,
        {
            let p = &self.profiles[i];
            r.push(ConnectionProfile { name: copy_string(&p.name), protocol: copy_protocol(&p.protocol) });
            i += 1;
        }
        r
    }
}

impl CensorshipMonitor {
    /// No probe yet; `now` is the creation time.
    pub fn new_at(now: u64) -> (m: Self)
        ensures
            m.status == ConnectivityStatus::Unknown,
            m.last_check == now,
    {
        CensorshipMonitor { status: ConnectivityStatus::Unknown, last_check: now }
    }

    /// No probe yet; the creation time is read from the clock.
    pub fn new() -> (m: Self)
        ensures
            m.status == ConnectivityStatus::Unknown,
    {
        Self::new_at(crate::clock::now_unix_secs())
    }

    /// Records a probe's outcome: blocked when the connection failed,
    /// degraded when it took more than a second, optimal otherwise.
    pub fn record_probe(&mut self, connected: bool, rtt_millis: u64, now: u64) -> (s: ConnectivityStatus)
        ensures
            s == final(self).status,
            final(self).last_check == now,
            s == (if !connected {
                ConnectivityStatus::Blocked
            } else if rtt_millis > 1000 {
                ConnectivityStatus::Degraded
            } else {
                ConnectivityStatus::Optimal
            }),
    {
        self.status = if !connected {
            ConnectivityStatus::Blocked
        } else if rtt_millis > 1000 {
            ConnectivityStatus::Degraded
        } else {
            ConnectivityStatus::Optimal
        };
        self.last_check = now;
        self.status
    }
}

/// The bridge line written to `bridges.txt` for a requested bridge;
/// `None` for no bridge.
pub open spec fn bridge_line_spec(b: TorBridge) -> Option<Seq<char>> {
    match b {
        TorBridge::NoBridge => None,
        TorBridge::Obfs4 { addr, cert, iat_mode } => Some(
            "Bridge obfs4 "@ + addr@ + " cert="@ + cert@ + " iat-mode="@ + decimal(iat_mode as nat),
        ),
        TorBridge::Snowflake { broker, relay } => Some(
            "Bridge snowflake 192.0.2.3:1 2B280B23E1107BB62ABFC40DDCC8824814F80A72 url="@ + broker@
                + " ice=stun:stun.l.google.com:19302 utls-imitate=hellorandomizedalpn"@,
        ),
        TorBridge::Meek { url } => Some("Bridge meek_lite 0.0.2.0:1 url="@ + url@),
    }
}

/// The bridge line to persist before bootstrapping Tor with `bridge`.
pub fn bridge_line(bridge: &TorBridge) -> (r: Option<String>)
    ensures
        match r {
            Some(l) => bridge_line_spec(*bridge) == Some(l@),
            None => bridge_line_spec(*bridge) is None,
        },
{
    match bridge {
        TorBridge::NoBridge => None,
        TorBridge::Obfs4 { addr, cert, iat_mode } => {
            let mut l = String::new();
            push_str(&mut l, "Bridge obfs4 ");
            push_str(&mut l, addr.as_str());
            push_str(&mut l, " cert=");
            push_str(&mut l, cert.as_str());
            push_str(&mut l, " iat-mode=");
            push_decimal(&mut l, *iat_mode as u64);
            Some(l)
        },
        TorBridge::Snowflake { broker, relay: _ } => {
            let mut l = String::new();
            push_str(&mut l, "Bridge snowflake 192.0.2.3:1 2B280B23E1107BB62ABFC40DDCC8824814F80A72 url=");
            push_str(&mut l, broker.as_str());
            push_str(&mut l, " ice=stun:stun.l.google.com:19302 utls-imitate=hellorandomizedalpn");
            Some(l)
        },
        TorBridge::Meek { url } => {
            let mut l = String::new();
            push_str(&mut l, "Bridge meek_lite 0.0.2.0:1 url=");
            push_str(&mut l, url.as_str());
            Some(l)
        },
    }
}

/// The DNS provider used under `protocol`: DNS over Tor in Tor mode,
/// otherwise the configured provider, except that Google is replaced by
/// Quad9.
pub fn dns_provider_for(protocol: &Protocol, configured: DnsProvider) -> (d: DnsProvider)
    ensures
        protocol is Tor ==> d == DnsProvider::Tor,
        !(protocol is Tor) ==> d == (if configured == DnsProvider::Google { DnsProvider::Quad9 } else { configured }),
        d != DnsProvider::Google,
{
    match protocol {
        Protocol::Tor { .. } => DnsProvider::Tor,
        _ => {
            if configured == DnsProvider::Google {
                DnsProvider::Quad9
            } else {
                configured
            }
        },
    }
}

/// Tor without a bridge.
pub open spec fn plain_tor() -> Protocol {
    Protocol::Tor { bridge: TorBridge::NoBridge }
}

pub open spec fn is_plain_tor(p: Protocol) -> bool {
    p matches Protocol::Tor { bridge } && bridge is NoBridge
}

/// The Snowflake bridge used by the automatic switch.
pub open spec fn is_default_snowflake(b: TorBridge) -> bool {
    b matches TorBridge::Snowflake { broker, relay }
        && broker@ == "https://snowflake-broker.torproject.net/"@
        && relay@ == "snowflake.torproject.net"@
}

/// Where the automatic circumvention switch moves from `current` when the
/// network is blocked: Clearweb to Tor; Tor without bridge to Tor over the
/// default Snowflake bridge when a Snowflake client is available (else it
/// stays); any other protocol stays.
pub fn auto_switch_target(current: &Protocol, snowflake_available: bool) -> (p: Protocol)
    ensures
        current is Clearweb ==> p == plain_tor(),
        is_plain_tor(*current) && snowflake_available ==> (p matches Protocol::Tor { bridge } && is_default_snowflake(bridge)),
        is_plain_tor(*current) && !snowflake_available ==> p == plain_tor(),
        !(current is Clearweb) && !is_plain_tor(*current) ==> p == *current,
{
    match current {
        Protocol::Clearweb => Protocol::Tor { bridge: TorBridge::NoBridge },
        Protocol::Tor { bridge: TorBridge::NoBridge } => {
            if snowflake_available {
                Protocol::Tor {
                    bridge: TorBridge::Snowflake {
                        broker: String::from_str("https://snowflake-broker.torproject.net/"),
                        relay: String::from_str("snowflake.torproject.net"),
                    },
                }
            } else {
                Protocol::Tor { bridge: TorBridge::NoBridge }
            }
        },
        other => copy_protocol(other),
    }
}

/// The protocol to switch to after a probe: only when the probe found the
/// network blocked and the target differs from the current protocol.
pub fn auto_switch_decision(current: &Protocol, status: ConnectivityStatus, snowflake_available: bool) -> (r: Option<Protocol>)
    ensures
        status != ConnectivityStatus::Blocked ==> r is None,
        r matches Some(p) ==> !protocol_same(p, *current),
        status == ConnectivityStatus::Blocked && (current is Clearweb) ==> r == Some(plain_tor()),
        status == ConnectivityStatus::Blocked && !(current is Clearweb) && !is_plain_tor(*current) ==> r is None,
        status == ConnectivityStatus::Blocked && is_plain_tor(*current) && snowflake_available
            ==> (r matches Some(Protocol::Tor { bridge }) && is_default_snowflake(bridge)),
        status == ConnectivityStatus::Blocked && is_plain_tor(*current) && !snowflake_available ==> r is None,
{
    if status != ConnectivityStatus::Blocked {
        return None;
    }
    let next = auto_switch_target(current, snowflake_available);
    if protocol_eq(&next, current) {
        None
    } else {
        Some(next)
    }
}

/// What initializing the network layer does for the active protocol.
#[derive(Debug, Clone, PartialEq, Eq)]
pub enum InitPlan {
    /// Bootstrap Tor in the foreground, first persisting the bridge line
    /// when one is given.
    BootstrapTor { bridge_line: Option<String> },
    /// Start the V2Ray process.
    StartV2Ray,
    /// Direct traffic; Tor still bootstraps in the background.
    BackgroundTor,
}

/// `l` is the bridge line of the Tor protocol `p`.
pub open spec fn tor_line_matches(p: Protocol, l: Option<String>) -> bool {
    match p {
        Protocol::Tor { bridge } => match l {
            Some(s) => bridge_line_spec(bridge) == Some(s@),
            None => bridge_line_spec(bridge) is None,
        },
        _ => false,
    }
}

/// The initialization plan for `protocol`; V2Ray needs a configured
/// environment, and I2P and WireGuard are not available.
pub fn init_plan(protocol: &Protocol, v2ray_ready: bool) -> (r: Result<InitPlan, String>)
    ensures
        protocol is Tor ==> (r matches Ok(InitPlan::BootstrapTor { bridge_line: l }) && tor_line_matches(*protocol, l)),
        protocol is V2Ray && v2ray_ready ==> r == Ok::<InitPlan, String>(InitPlan::StartV2Ray),
        protocol is V2Ray && !v2ray_ready ==> (r matches Err(e) && e@ == "V2Ray requires V2RAY_PATH + SENTINEL_V2RAY_HOST/PORT"@),
        protocol is Clearweb ==> r == Ok::<InitPlan, String>(InitPlan::BackgroundTor),
        (protocol is I2P || protocol is WireGuard) ==> (r matches Err(e) && e@ == "Protocol not available in this build"@),
{
    match protocol {
        Protocol::Tor { bridge } => Ok(InitPlan::BootstrapTor { bridge_line: bridge_line(bridge) }),
        Protocol::V2Ray(_) => {
            if v2ray_ready {
                Ok(InitPlan::StartV2Ray)
            } else {
                Err(String::from_str("V2Ray requires V2RAY_PATH + SENTINEL_V2RAY_HOST/PORT"))
            }
        },
        Protocol::Clearweb => Ok(InitPlan::BackgroundTor),
        _ => Err(String::from_str("Protocol not available in this build")),
    }
}

/// Whether a V2Ray session is configured: a binary path that exists, and
/// an outbound host and port that are set and not the placeholder
/// `127.0.0.1` / `10086` (an unparsable port counts as 0).
pub open spec fn v2ray_env_ready_spec(path: Seq<char>, path_exists: bool, host: Seq<char>, port_text: Option<Seq<char>>) -> bool {
    let port: u64 = match port_text {
        Some(t) => match parse_uint_spec(t, 0xffff) {
            Some(p) => p,
            None => 0,
        },
        None => 0,
    };
    &&& path.len() > 0
    &&& path_exists
    &&& host.len() > 0
    &&& host != "127.0.0.1"@
    &&& port != 0
    &&& port != 10086
}

/// The decision of `v2ray_ready` on the environment's values.
pub fn v2ray_ready(path: &str, path_exists: bool, host: &str, port_text: Option<&str>) -> (b: bool)
    ensures
        b == v2ray_env_ready_spec(path@, path_exists, host@, match port_text {
            Some(t) => Some(t@),
            None => None,
        }),
{
    let pv = chars_of(path);
    if pv.len() == 0 || !path_exists {
        return false;
    }
    let port: u64 = match port_text {
        Some(t) => match parse_uint_chars(&chars_of(t), 0xffff) {
            Some(p) => p,
            None => 0,
        },
        None => 0,
    };
    let hv = chars_of(host);
    let local = chars_of("127.0.0.1");
    hv.len() > 0 && !chars_eq(&hv, &local) && port != 0 && port != 10086
}

/// The one-line network summary: whether Tor is up and where SOCKS
/// listens, followed by the protocol's description.
pub open spec fn status_summary_spec(tor_up: bool, socks: Option<u16>, proto: Seq<char>) -> Seq<char> {
    match (tor_up, socks) {
        (true, Some(p)) => "Tor ready \u{b7} SOCKS 127.0.0.1:"@ + decimal(p as nat) + " \u{b7} "@ + proto,
        (true, None) => "Tor client up \u{b7} SOCKS not listening \u{b7} "@ + proto,
        (false, Some(p)) => "SOCKS on :"@ + decimal(p as nat) + " without Tor client \u{b7} "@ + proto,
        (false, None) => "Tor not bootstrapped \u{b7} "@ + proto,
    }
}

pub fn status_summary(tor_up: bool, socks: Option<u16>, proto: &str) -> (s: String)
    ensures
        s@ == status_summary_spec(tor_up, socks, proto@),
{
    let mut s = String::new();
    match (tor_up, socks) {
        (true, Some(p)) => {
            push_str(&mut s, "Tor ready \u{b7} SOCKS 127.0.0.1:");
            push_decimal(&mut s, p as u64);
            push_str(&mut s, " \u{b7} ");
        },
        (true, None) => push_str(&mut s, "Tor client up \u{b7} SOCKS not listening \u{b7} "),
        (false, Some(p)) => {
            push_str(&mut s, "SOCKS on :");
            push_decimal(&mut s, p as u64);
            push_str(&mut s, " without Tor client \u{b7} ");
        },
        (false, None) => push_str(&mut s, "Tor not bootstrapped \u{b7} "),
    }
    push_str(&mut s, proto);
    s
}

/// Where SOCKS listens, as the status page shows it: `127.0.0.1:port`, or
/// `none`.
pub fn socks_text(socks_port: Option<u16>) -> (r: String)
    ensures
        r@ == (match socks_port {
            Some(p) => "127.0.0.1:"@ + decimal(p as nat),
            None => "none"@,
        }),
{
    match socks_port {
        Some(p) => {
            let mut s = String::from_str("127.0.0.1:");
            push_decimal(&mut s, p as u64);
            s
        },
        None => String::from_str("none"),
    }
}

/// What the status page shows of the network layer: the summary line and
/// the protocol, both with the protocol in its `{:?}` form, and the other
/// readings as given.
pub fn status_snapshot(
    protocol: &Protocol,
    tor_ready: bool,
    socks_port: Option<u16>,
    active_connections: usize,
    pt: String,
) -> (s: NetworkStatusSnapshot)
    ensures
        s.protocol@ == crate::views::protocol_debug(*protocol),
        s.summary@ == status_summary_spec(tor_ready, socks_port, crate::views::protocol_debug(*protocol)),
        s.socks_port == socks_port,
        s.tor_ready == tor_ready,
        s.active_connections == active_connections,
        s.pt@ == pt@,
{
    let proto = crate::views::protocol_debug_text(protocol);
    let summary = status_summary(tor_ready, socks_port, proto.as_str());
    NetworkStatusSnapshot { summary, protocol: proto, socks_port, tor_ready, active_connections, pt }
}

/// Where the body of an HTTP response starts: just after the first blank
/// line (`\r\n\r\n`), or at 0 when there is none.
pub open spec fn body_start_spec(r: Seq<u8>) -> int {
    if exists|i: int| 0 <= i && i + 4 <= r.len() && is_crlfcrlf(r, i) {
        (choose|i: int| 0 <= i && i + 4 <= r.len() && is_crlfcrlf(r, i)
            && forall|j: int| 0 <= j < i ==> !is_crlfcrlf(r, j)) + 4
    } else {
        0
    }
}

pub open spec fn is_crlfcrlf(r: Seq<u8>, i: int) -> bool {
    r[i] == 13 && r[i + 1] == 10 && r[i + 2] == 13 && r[i + 3] == 10
}

proof fn lemma_body_start_found(r: Seq<u8>, i: int)
    requires
        0 <= i,
        i + 4 <= r.len(),
        is_crlfcrlf(r, i),
        forall|j: int| 0 <= j < i ==> !is_crlfcrlf(r, j),
    ensures
        body_start_spec(r) == i + 4,
{
    let w = choose|w: int| 0 <= w && w + 4 <= r.len() && is_crlfcrlf(r, w)
        && forall|j: int| 0 <= j < w ==> !is_crlfcrlf(r, j);
    assert(0 <= i && i + 4 <= r.len() && is_crlfcrlf(r, i) && forall|j: int| 0 <= j < i ==> !is_crlfcrlf(r, j));
    if w < i {
        assert(!is_crlfcrlf(r, w));
    } else if w > i {
        assert(!is_crlfcrlf(r, i));
    }
}

/// The offset of an HTTP response's body.
pub fn http_body_start(response: &[u8]) -> (k: usize)
    ensures
        k == body_start_spec(response@),
{
    let n = response.len();
    if n < 4 {
        return 0;
    }
    let mut i: usize = 0;
    while i <= n - 4
        invariant
            n == response@.len(),
            n >= 4,
            i <= n - 3,
            forall|j: int| 0 <= j < i ==> !is_crlfcrlf(response@, j),
        decreases n - i,
    {
        if response[i] == 13 && response[i + 1] == 10 && response[i + 2] == 13 && response[i + 3] == 10 {
            proof { lemma_body_start_found(response@, i as int); }
            return i + 4;
        }
        i += 1;
    }
    assert(forall|j: int| 0 <= j && j + 4 <= response@.len() ==> !is_crlfcrlf(response@, j));
    0
}

/// `host:port` split for a direct connection: exactly one `:` is required.
pub open spec fn host_port_spec(target: Seq<char>) -> Option<(Seq<char>, Seq<char>)> {
    match split_once(target, ':') {
        (h, Some(rest)) => if !rest.contains(':') { Some((h, rest)) } else { None },
        _ => None,
    }
}

pub fn split_host_port(target: &str) -> (r: Option<(String, String)>)
    ensures
        match r {
            Some((h, p)) => host_port_spec(target@) == Some((h@, p@)),
            None => host_port_spec(target@) is None,
        },
{
    let v = chars_of(target);
    let (h, rest) = split_once_chars(&v, ':');
    match rest {
        Some(r) => {
            if crate::codec::contains_char(&r, ':') {
                None
            } else {
                Some((string_of(&h), string_of(&r)))
            }
        },
        None => None,
    }
}

/// The port for a stream: the URL's own or its scheme's default port, else
/// 443 for `https`, 80 for `http` and 443 otherwise.
pub fn stream_port(known: Option<u16>, scheme: &str) -> (p: u16)
    ensures
        known matches Some(k) ==> p == k,
        known is None ==> p == (if scheme@ == "http"@ { 80u16 } else { 443u16 }),
{
    match known {
        Some(k) => k,
        None => {
            let s = chars_of(scheme);
            let http = chars_of("http");
            if chars_eq(&s, &http) { 80 } else { 443 }
        },
    }
}

/// How a page fetch is carried out.
#[derive(Debug, Clone, PartialEq, Eq)]
pub enum FetchRoute {
    /// Refused by the blocker, with this message.
    Blocked(String),
    /// Over a raw stream through the Tor client.
    TorStream,
    /// Through the ordinary HTTP client.
    Http,
}

/// A fetch refused by the blocker is reported as such; onion addresses and
/// every fetch on Tor go through the Tor client once it is up; the rest
/// through the HTTP client.
pub fn fetch_route(blocked: bool, url: &str, on_tor: bool, tor_ready: bool) -> (r: FetchRoute)
    ensures
        blocked ==> (r matches FetchRoute::Blocked(m) && m@ == "Blocked by Sentinel Shields: "@ + url@),
        !blocked && (on_tor || crate::query::contains_text(url@, ".onion"@)) && tor_ready ==> r == FetchRoute::TorStream,
        !blocked && !((on_tor || crate::query::contains_text(url@, ".onion"@)) && tor_ready) ==> r == FetchRoute::Http,
{
    if blocked {
        let mut m = String::from_str("Blocked by Sentinel Shields: ");
        push_str(&mut m, url);
        return FetchRoute::Blocked(m);
    }
    let onion = crate::query::contains_text_chars(&chars_of(url), &chars_of(".onion"));
    if (on_tor || onion) && tor_ready {
        FetchRoute::TorStream
    } else {
        FetchRoute::Http
    }
}

/// The request target of an address: its path (`/` when empty) followed by
/// `?` and the query when there is one.
pub open spec fn request_target_spec(path: Seq<char>, query: Option<Seq<char>>) -> Seq<char> {
    (if path.len() == 0 { "/"@ } else { path }) + match query {
        Some(q) => "?"@ + q,
        None => Seq::<char>::empty(),
    }
}

/// The request target of an address (see `request_target_spec`).
pub fn request_target(path: &str, query: Option<&str>) -> (r: String)
    ensures
        r@ == request_target_spec(path@, match query {
            Some(q) => Some(q@),
            None => None,
        }),
{
    proof {
        reveal_strlit("");
    }
    let mut s = if chars_of(path).len() == 0 { String::from_str("/") } else { String::from_str(path) };
    match query {
        Some(q) => {
            push_str(&mut s, "?");
            push_str(&mut s, q);
        },
        None => {
            assert(s@ + Seq::<char>::empty() =~= s@);
        },
    }
    s
}

/// The browser identity sent on page fetches.
pub const FETCH_USER_AGENT: &'static str = "Mozilla/5.0 (Windows NT 10.0; Win64; x64) AppleWebKit/537.36 (KHTML, like Gecko) Chrome/120.0.0.0 Safari/537.36 Sentinel/0.1";

/// The HTTP/1.1 request for a page fetched over Tor.
pub open spec fn tor_fetch_request_spec(target: Seq<char>, host: Seq<char>) -> Seq<char> {
    "GET "@ + target + " HTTP/1.1\r\nHost: "@ + host + "\r\nConnection: close\r\nUser-Agent: "@ + FETCH_USER_AGENT@
        + "\r\nAccept: text/html,application/xhtml+xml,application/xml;q=0.9,image/avif,image/webp,*/*;q=0.8\r\n\r\n"@
}

/// The HTTP/1.1 request for a page fetched over Tor (see
/// `tor_fetch_request_spec`).
pub fn tor_fetch_request(target: &str, host: &str) -> (r: String)
    ensures
        r@ == tor_fetch_request_spec(target@, host@),
{
    let mut s = String::from_str("GET ");
    push_str(&mut s, target);
    push_str(&mut s, " HTTP/1.1\r\nHost: ");
    push_str(&mut s, host);
    push_str(&mut s, "\r\nConnection: close\r\nUser-Agent: ");
    push_str(&mut s, FETCH_USER_AGENT);
    push_str(&mut s, "\r\nAccept: text/html,application/xhtml+xml,application/xml;q=0.9,image/avif,image/webp,*/*;q=0.8\r\n\r\n");
    s
}

/// The HTTP/1.0 request for a file download (path `/` when empty).
pub open spec fn download_request_spec(path: Seq<char>, host: Seq<char>) -> Seq<char> {
    "GET "@ + (if path.len() == 0 { "/"@ } else { path }) + " HTTP/1.0\r\nHost: "@ + host
        + "\r\nConnection: close\r\nUser-Agent: Sentinel/0.1\r\n\r\n"@
}

/// The HTTP/1.0 request for a file download (see `download_request_spec`).
pub fn download_request(path: &str, host: &str) -> (r: String)
    ensures
        r@ == download_request_spec(path@, host@),
{
    let mut s = String::from_str("GET ");
    if chars_of(path).len() == 0 {
        push_str(&mut s, "/");
    } else {
        push_str(&mut s, path);
    }
    push_str(&mut s, " HTTP/1.0\r\nHost: ");
    push_str(&mut s, host);
    push_str(&mut s, "\r\nConnection: close\r\nUser-Agent: Sentinel/0.1\r\n\r\n");
    s
}

/// Where the network settings are kept.
pub struct SettingsManager {
    path: String,
}

impl SettingsManager {
    /// A manager for the settings file at `path`.
    pub fn new(path: String) -> (m: Self)
        ensures
            m.path_view()@ == path@,
    {
        SettingsManager { path }
    }

    pub closed spec fn path_view(&self) -> String {
        self.path
    }

    /// The settings file.
    pub fn path(&self) -> (p: &String)
        ensures
            p@ == self.path_view()@,
    {
        &self.path
    }
}

} // verus!
