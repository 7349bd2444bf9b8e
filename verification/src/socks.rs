//! The local SOCKS5 front door to Tor: what each message of the handshake
//! means and what is answered. The socket reads and writes, and the Tor
//! stream itself, are driven around these decisions.

use vstd::prelude::*;
use vstd::utf8::{decode_utf8, valid_utf8};
use crate::text::{decimal, push_decimal};

verus! {

/// The proxy, once listening.
pub struct SocksProxy {
    pub port: u16,
}

/// The answer to a greeting: no authentication.
pub const NO_AUTH_REPLY: [u8; 2] = [0x05, 0x00];

/// What a greeting `[version, method count]` asks for: the number of
/// method bytes that follow, or the refusal of anything but SOCKS5.
pub fn read_greeting(greeting: [u8; 2]) -> (r: Result<usize, String>)
    ensures
        greeting@[0] == 0x05 ==> r == Ok::<usize, String>(greeting@[1] as usize),
        greeting@[0] != 0x05 ==> (r matches Err(e) && e@ == "not SOCKS5"@),
{
    if greeting[0] != 0x05 {
        Err(String::from_str("not SOCKS5"))
    } else {
        Ok(greeting[1] as usize)
    }
}

/// How the target address of a CONNECT request is sent.
#[derive(Debug, Clone, Copy, PartialEq, Eq, Structural)]
pub enum AddressForm {
    /// Four bytes of IPv4.
    Ipv4,
    /// A length byte, then that many bytes of host name.
    Domain,
    /// Sixteen bytes of IPv6.
    Ipv6,
}

/// What the request header `[version, command, reserved, address type]`
/// leads to.
#[derive(Debug, Clone, PartialEq, Eq)]
pub enum RequestStep {
    /// Read the address in this form.
    ReadAddress(AddressForm),
    /// Not a SOCKS5 CONNECT: answer with this reply and stop.
    Refuse([u8; 10]),
    /// An unknown address type: stop without an answer.
    BadAddressType,
}

/// The ten-byte reply carrying `code`, with an empty IPv4 bind address.
pub open spec fn reply_spec(code: u8) -> Seq<u8> {
    seq![0x05, code, 0x00, 0x01, 0, 0, 0, 0, 0, 0]
}

/// The reply carrying `code` (0 success, 1 general failure, 5 connection
/// refused, 7 command not supported).
pub fn reply(code: u8) -> (r: [u8; 10])
    ensures
        r@ == reply_spec(code),
{
    let r = [0x05, code, 0x00, 0x01, 0, 0, 0, 0, 0, 0];
    assert(r@ =~= reply_spec(code));
    r
}

/// Only CONNECT (command 1) of SOCKS5 is served; the address type then
/// says how the target is sent (1 IPv4, 3 host name, 4 IPv6).
pub fn read_request_header(hdr: [u8; 4]) -> (r: RequestStep)
    ensures
        hdr@[0] != 0x05 || hdr@[1] != 0x01 ==> (r matches RequestStep::Refuse(a) && a@ == reply_spec(0x07)),
        hdr@[0] == 0x05 && hdr@[1] == 0x01 ==> r == (if hdr@[3] == 0x01 {
            RequestStep::ReadAddress(AddressForm::Ipv4)
        } else if hdr@[3] == 0x03 {
            RequestStep::ReadAddress(AddressForm::Domain)
        } else if hdr@[3] == 0x04 {
            RequestStep::ReadAddress(AddressForm::Ipv6)
        } else {
            RequestStep::BadAddressType
        }),
{
    if hdr[0] != 0x05 || hdr[1] != 0x01 {
        return RequestStep::Refuse(reply(0x07));
    }
    if hdr[3] == 0x01 {
        RequestStep::ReadAddress(AddressForm::Ipv4)
    } else if hdr[3] == 0x03 {
        RequestStep::ReadAddress(AddressForm::Domain)
    } else if hdr[3] == 0x04 {
        RequestStep::ReadAddress(AddressForm::Ipv6)
    } else {
        RequestStep::BadAddressType
    }
}

/// An IPv4 address in dotted decimal.
pub open spec fn ipv4_spec(ip: Seq<u8>) -> Seq<char> {
    decimal(ip[0] as nat) + "."@ + decimal(ip[1] as nat) + "."@ + decimal(ip[2] as nat) + "."@ + decimal(ip[3] as nat)
}

/// The dotted-decimal text of four address bytes.
pub fn ipv4_text(ip: [u8; 4]) -> (r: String)
    ensures
        r@ == ipv4_spec(ip@),
{
    let mut s = String::new();
    push_decimal(&mut s, ip[0] as u64);
    crate::text::push_str(&mut s, ".");
    push_decimal(&mut s, ip[1] as u64);
    crate::text::push_str(&mut s, ".");
    push_decimal(&mut s, ip[2] as u64);
    crate::text::push_str(&mut s, ".");
    push_decimal(&mut s, ip[3] as u64);
    s
}

/// A host name sent in the request: its bytes as UTF-8 text, refused when
/// they are not.
pub fn domain_text(name: Vec<u8>) -> (r: Result<String, String>)
    ensures
        valid_utf8(name@) ==> (r matches Ok(s) && s@ == decode_utf8(name@)),
        !valid_utf8(name@) ==> (r matches Err(e) && e@ == "hostname utf8"@),
{
    let ghost n = name@;
    match crate::text::utf8_string(name) {
        Some(s) => Ok(s),
        None => Err(String::from_str("hostname utf8")),
    }
}

/// The port sent after the address, in network byte order.
pub fn target_port(port: [u8; 2]) -> (p: u16)
    ensures
        p == port@[0] as int * 256 + port@[1] as int,
{
    (port[0] as u16) * 256 + (port[1] as u16)
}

} // verus!
