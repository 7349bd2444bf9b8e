//! The V2Ray tunnel: when it may be started, and the configuration handed
//! to the v2ray process (a SOCKS inbound on the loopback and one outbound
//! to the configured server), in the compact, key-sorted JSON form.

use vstd::prelude::*;
use crate::network::{V2RayConfig, v2ray_env_ready_spec};
use crate::text::{chars_of, decimal, parse_uint_chars, parse_uint_spec, push_decimal, push_str};
use crate::query::chars_eq;

verus! {

/// A lower-case hexadecimal digit.
pub open spec fn hex_digit(n: u32) -> char {
    if n < 10 { (48 + n) as char } else { (87 + n) as char }
}

/// How `serde_json` writes one character inside a string literal: quote and
/// backslash escaped with a backslash; backspace, form feed, line feed,
/// carriage return and tab as `\b`, `\f`, `\n`, `\r`, `\t`; the other
/// control characters below 0x20 as `\u00` and two lower-case hex digits;
/// every other character as itself.
pub open spec fn json_char(c: char) -> Seq<char> {
    let n = c as u32;
    if c == '"' {
        seq!['\\', '"']
    } else if c == '\\' {
        seq!['\\', '\\']
    } else if n == 8 {
        seq!['\\', 'b']
    } else if n == 12 {
        seq!['\\', 'f']
    } else if n == 10 {
        seq!['\\', 'n']
    } else if n == 13 {
        seq!['\\', 'r']
    } else if n == 9 {
        seq!['\\', 't']
    } else if n < 32 {
        seq!['\\', 'u', '0', '0', hex_digit(n / 16), hex_digit(n % 16)]
    } else {
        seq![c]
    }
}

/// The characters of `s`, each written as `json_char` gives.
pub open spec fn json_escaped(s: Seq<char>) -> Seq<char>
    decreases s.len(),
{
    if s.len() == 0 {
        seq![]
    } else {
        json_escaped(s.drop_last()) + json_char(s.last())
    }
}

/// The JSON string literal that `serde_json` writes for a text: the escaped
/// text between double quotes.
#[verifier::opaque]
pub open spec fn json_string(s: Seq<char>) -> Seq<char> {
    seq!['"'] + json_escaped(s) + seq!['"']
}

/// `serde_json::to_string` of a string slice (see `json_string`); writing a
/// string slice into memory does not fail.
#[verifier::external_body]
fn json_quote(s: &str) -> (r: String)
    ensures
        r@ == json_string(s@),
{
    match serde_json::to_string(s) {
        Ok(t) => t,
        Err(_) => String::new(),
    }
}

/// Why V2Ray is not started: no binary, or no real outbound.
pub const V2RAY_NO_BINARY: &'static str = "V2Ray disabled: set V2RAY_PATH to a real v2ray binary (not exposed in UI until then)";

pub const V2RAY_NO_OUTBOUND: &'static str = "V2Ray disabled: set SENTINEL_V2RAY_HOST and SENTINEL_V2RAY_PORT to a real outbound (placeholder 127.0.0.1:10086 rejected)";

/// The port given in the environment (0 when absent or unparsable).
pub open spec fn env_port(port_text: Option<Seq<char>>) -> u64 {
    match port_text {
        Some(t) => match parse_uint_spec(t, 0xffff) {
            Some(p) => p,
            None => 0,
        },
        None => 0,
    }
}

pub open spec fn opt_view(o: Option<&str>) -> Option<Seq<char>> {
    match o {
        Some(s) => Some(s@),
        None => None,
    }
}

/// Whether the tunnel may start, from the binary path (and whether it
/// exists) and the outbound host and port: the outbound port when it may,
/// else why not. It may exactly when `v2ray_env_ready_spec` holds.
pub fn v2ray_start_check(path: &str, path_exists: bool, host: &str, port_text: Option<&str>) -> (r: Result<u16, String>)
    ensures
        !(path@.len() > 0 && path_exists) ==> (r matches Err(e) && e@ == V2RAY_NO_BINARY@),
        path@.len() > 0 && path_exists && !v2ray_env_ready_spec(path@, path_exists, host@, opt_view(port_text)) ==> (r matches Err(
            e,
        ) && e@ == V2RAY_NO_OUTBOUND@),
        v2ray_env_ready_spec(path@, path_exists, host@, opt_view(port_text)) ==> r == Ok::<u16, String>(
            env_port(opt_view(port_text)) as u16,
        ),
{
    if chars_of(path).len() == 0 || !path_exists {
        return Err(String::from_str(V2RAY_NO_BINARY));
    }
    let port: u64 = match port_text {
        Some(t) => match parse_uint_chars(&chars_of(t), 0xffff) {
            Some(p) => p,
            None => 0,
        },
        None => 0,
    };
    let hv = chars_of(host);
    if hv.len() == 0 || chars_eq(&hv, &chars_of("127.0.0.1")) || port == 0 || port == 10086 {
        return Err(String::from_str(V2RAY_NO_OUTBOUND));
    }
    Ok(port as u16)
}

/// The outbound object for a server configuration.
pub open spec fn outbound_spec(c: V2RayConfig, host: Seq<char>, port: u16) -> Seq<char> {
    let h = json_string(host);
    let p = decimal(port as nat);
    match c {
        V2RayConfig::VMess { uuid, alter_id, security } => "{\"protocol\":\"vmess\",\"settings\":{\"vnext\":[{\"address\":"@ + h
            + ",\"port\":"@ + p + ",\"users\":[{\"alterId\":"@ + decimal(alter_id as nat) + ",\"id\":"@ + json_string(uuid@)
            + ",\"security\":"@ + json_string(security@) + "}]}]}}"@,
        V2RayConfig::VLESS { uuid, encryption, flow } => "{\"protocol\":\"vless\",\"settings\":{\"vnext\":[{\"address\":"@ + h
            + ",\"port\":"@ + p + ",\"users\":[{\"encryption\":"@ + json_string(encryption@) + ",\"flow\":"@ + json_string(flow@)
            + ",\"id\":"@ + json_string(uuid@) + "}]}]}}"@,
        V2RayConfig::Trojan { password } => "{\"protocol\":\"trojan\",\"settings\":{\"servers\":[{\"address\":"@ + h
            + ",\"password\":"@ + json_string(password@) + ",\"port\":"@ + p + "}]}}"@,
        V2RayConfig::Shadowsocks { method, password } => "{\"protocol\":\"shadowsocks\",\"settings\":{\"servers\":[{\"address\":"@
            + h + ",\"method\":"@ + json_string(method@) + ",\"password\":"@ + json_string(password@) + ",\"port\":"@ + p
            + "}]}}"@,
    }
}

/// The whole configuration: the SOCKS inbound on `127.0.0.1:socks_port`
/// (UDP on) and the outbound.
pub open spec fn v2ray_config_spec(c: V2RayConfig, host: Seq<char>, port: u16, socks_port: u16) -> Seq<char> {
    "{\"inbounds\":[{\"listen\":\"127.0.0.1\",\"port\":"@ + decimal(socks_port as nat)
        + ",\"protocol\":\"socks\",\"settings\":{\"udp\":true},\"tag\":\"socks-in\"}],\"outbounds\":["@ + outbound_spec(
        c,
        host,
        port,
    ) + "]}"@
}

fn push_json(s: &mut String, t: &str)
    ensures
        final(s)@ == old(s)@ + json_string(t@),
{
    let q = json_quote(t);
    push_str(s, q.as_str());
}

/// The configuration text handed to v2ray (see `v2ray_config_spec`).
pub fn v2ray_config_json(config: &V2RayConfig, host: &str, port: u16, socks_port: u16) -> (r: String)
    ensures
        r@ == v2ray_config_spec(*config, host@, port, socks_port),
{
    let mut s = String::from_str("{\"inbounds\":[{\"listen\":\"127.0.0.1\",\"port\":");
    push_decimal(&mut s, socks_port as u64);
    push_str(&mut s, ",\"protocol\":\"socks\",\"settings\":{\"udp\":true},\"tag\":\"socks-in\"}],\"outbounds\":[");
    match config {
        V2RayConfig::VMess { uuid, alter_id, security } => {
            push_str(&mut s, "{\"protocol\":\"vmess\",\"settings\":{\"vnext\":[{\"address\":");
            push_json(&mut s, host);
            push_str(&mut s, ",\"port\":");
            push_decimal(&mut s, port as u64);
            push_str(&mut s, ",\"users\":[{\"alterId\":");
            push_decimal(&mut s, *alter_id as u64);
            push_str(&mut s, ",\"id\":");
            push_json(&mut s, uuid.as_str());
            push_str(&mut s, ",\"security\":");
            push_json(&mut s, security.as_str());
            push_str(&mut s, "}]}]}}");
        },
        V2RayConfig::VLESS { uuid, encryption, flow } => {
            push_str(&mut s, "{\"protocol\":\"vless\",\"settings\":{\"vnext\":[{\"address\":");
            push_json(&mut s, host);
            push_str(&mut s, ",\"port\":");
            push_decimal(&mut s, port as u64);
            push_str(&mut s, ",\"users\":[{\"encryption\":");
            push_json(&mut s, encryption.as_str());
            push_str(&mut s, ",\"flow\":");
            push_json(&mut s, flow.as_str());
            push_str(&mut s, ",\"id\":");
            push_json(&mut s, uuid.as_str());
            push_str(&mut s, "}]}]}}");
        },
        V2RayConfig::Trojan { password } => {
            push_str(&mut s, "{\"protocol\":\"trojan\",\"settings\":{\"servers\":[{\"address\":");
            push_json(&mut s, host);
            push_str(&mut s, ",\"password\":");
            push_json(&mut s, password.as_str());
            push_str(&mut s, ",\"port\":");
            push_decimal(&mut s, port as u64);
            push_str(&mut s, "}]}}");
        },
        V2RayConfig::Shadowsocks { method, password } => {
            push_str(&mut s, "{\"protocol\":\"shadowsocks\",\"settings\":{\"servers\":[{\"address\":");
            push_json(&mut s, host);
            push_str(&mut s, ",\"method\":");
            push_json(&mut s, method.as_str());
            push_str(&mut s, ",\"password\":");
            push_json(&mut s, password.as_str());
            push_str(&mut s, ",\"port\":");
            push_decimal(&mut s, port as u64);
            push_str(&mut s, "}]}}");
        },
    }
    push_str(&mut s, "]}");
    s
}

/// The loopback port of the SOCKS inbound.
pub const V2RAY_SOCKS_PORT: u16 = 10808;

/// The tunnel for one server configuration, with the loopback port of its
/// SOCKS inbound.
pub struct V2RayHandler {
    pub config: V2RayConfig,
    pub socks_port: u16,
}

impl V2RayHandler {
    /// A tunnel for `config`, listening on `V2RAY_SOCKS_PORT`.
    pub fn new(config: V2RayConfig) -> (h: Self)
        ensures
            h.config == config,
            h.socks_port == V2RAY_SOCKS_PORT,
    {
        V2RayHandler { config, socks_port: V2RAY_SOCKS_PORT }
    }

    /// What starting the tunnel hands to the v2ray process, from the binary
    /// path (and whether it exists) and the outbound host and port in the
    /// environment: the SOCKS port and the configuration text, or why it
    /// does not start (see `v2ray_start_check`).
    pub fn start_config(&self, path: &str, path_exists: bool, host: &str, port_text: Option<&str>) -> (r: Result<
        (u16, String),
        String,
    >)
        ensures
            !(path@.len() > 0 && path_exists) ==> (r matches Err(e) && e@ == V2RAY_NO_BINARY@),
            path@.len() > 0 && path_exists && !v2ray_env_ready_spec(path@, path_exists, host@, opt_view(port_text)) ==> (r matches Err(
                e,
            ) && e@ == V2RAY_NO_OUTBOUND@),
            v2ray_env_ready_spec(path@, path_exists, host@, opt_view(port_text)) ==> (r matches Ok(p) && p.0
                == self.socks_port && p.1@ == v2ray_config_spec(
                self.config,
                host@,
                env_port(opt_view(port_text)) as u16,
                self.socks_port,
            )),
    {
        match v2ray_start_check(path, path_exists, host, port_text) {
            Ok(port) => Ok((self.socks_port, v2ray_config_json(&self.config, host, port, self.socks_port))),
            Err(e) => Err(e),
        }
    }
}

} // verus!
