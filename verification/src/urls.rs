//! Addresses taken apart by the `url` crate, and what the network layer
//! derives from them: where a stream connects, and the raw HTTP requests
//! for a page fetched over Tor and for a download.

use vstd::prelude::*;
use crate::network::{download_request, download_request_spec, request_target, tor_fetch_request, tor_fetch_request_spec, request_target_spec};

verus! {

/// The parts of a parsed address that the network layer reads.
pub struct UrlParts {
    pub scheme: String,
    /// The host, when the address has one.
    pub host: Option<String>,
    /// The explicit port, else the scheme's known default port.
    pub port: Option<u16>,
    pub path: String,
    pub query: Option<String>,
}

pub open spec fn opt_text(o: Option<String>) -> Option<Seq<char>> {
    match o {
        Some(s) => Some(s@),
        None => None,
    }
}

/// Scheme, host, port, path and query as plain values.
pub open spec fn parts_view(p: UrlParts) -> (Seq<char>, Option<Seq<char>>, Option<u16>, Seq<char>, Option<Seq<char>>) {
    (p.scheme@, opt_text(p.host), p.port, p.path@, opt_text(p.query))
}

pub open spec fn parse_view(r: Result<UrlParts, String>) -> Result<
    (Seq<char>, Option<Seq<char>>, Option<u16>, Seq<char>, Option<Seq<char>>),
    Seq<char>,
> {
    match r {
        Ok(p) => Ok(parts_view(p)),
        Err(e) => Err(e@),
    }
}

/// The name for what `url::Url::parse` makes of a text: its scheme,
/// `host_str`, `port_or_known_default`, `path` and `query`, or the text
/// of the parse error.
pub uninterp spec fn parsed_url(s: Seq<char>) -> Result<
    (Seq<char>, Option<Seq<char>>, Option<u16>, Seq<char>, Option<Seq<char>>),
    Seq<char>,
>;

/// `url::Url::parse`, read through `scheme`, `host_str`,
/// `port_or_known_default`, `path` and `query`; the error as its text.
/// Named `parsed_url`.
#[verifier::external_body]
fn parse_url(s: &str) -> (r: Result<UrlParts, String>)
    ensures
        parse_view(r) == parsed_url(s@),
{
    match url::Url::parse(s) {
        Ok(u) => Ok(UrlParts {
            scheme: u.scheme().to_string(),
            host: u.host_str().map(|h| h.to_string()),
            port: u.port_or_known_default(),
            path: u.path().to_string(),
            query: u.query().map(|q| q.to_string()),
        }),
        Err(e) => Err(e.to_string()),
    }
}

/// Where a stream for an address with these parts connects: the host, the
/// port (the address's own or known default, else 80 for `http` and 443
/// otherwise) and whether TLS wraps it (`https`).
pub open spec fn connect_target_spec(
    p: (Seq<char>, Option<Seq<char>>, Option<u16>, Seq<char>, Option<Seq<char>>),
) -> Result<(Seq<char>, u16, bool), Seq<char>> {
    match p.1 {
        None => Err("No host in URL"@),
        Some(h) => Ok(
            (
                h,
                match p.2 {
                    Some(k) => k,
                    None => if p.0 == "http"@ {
                        80u16
                    } else {
                        443u16
                    },
                },
                p.0 == "https"@,
            ),
        ),
    }
}

/// Where a stream for `url` connects (see `connect_target_spec`), or why
/// there is none: the parse error, or an address without a host.
pub fn connect_target(url: &str) -> (r: Result<(String, u16, bool), String>)
    ensures
        match parsed_url(url@) {
            Err(e) => r matches Err(m) && m@ == e,
            Ok(p) => match connect_target_spec(p) {
                Ok(t) => r matches Ok(c) && c.0@ == t.0 && c.1 == t.1 && c.2 == t.2,
                Err(e) => r matches Err(m) && m@ == e,
            },
        },
{
    match parse_url(url) {
        Err(e) => Err(e),
        Ok(p) => match p.host {
            None => Err(String::from_str("No host in URL")),
            Some(h) => {
                let port = crate::network::stream_port(p.port, p.scheme.as_str());
                let tls = crate::query::chars_eq(&crate::text::chars_of(p.scheme.as_str()), &crate::text::chars_of("https"));
                Ok((h, port, tls))
            },
        },
    }
}

/// The request for a page fetched over a raw Tor stream: the path and
/// query of the address on its host (see `tor_fetch_request_spec`), or
/// why there is none.
pub fn tor_fetch_request_for(url: &str) -> (r: Result<String, String>)
    ensures
        match parsed_url(url@) {
            Err(e) => r matches Err(m) && m@ == e,
            Ok(p) => match p.1 {
                None => r matches Err(m) && m@ == "No host in URL"@,
                Some(h) => r matches Ok(q) && q@ == tor_fetch_request_spec(request_target_spec(p.3, p.4), h),
            },
        },
{
    match parse_url(url) {
        Err(e) => Err(e),
        Ok(p) => match p.host {
            None => Err(String::from_str("No host in URL")),
            Some(h) => {
                let q = match &p.query {
                    Some(q) => Some(q.as_str()),
                    None => None,
                };
                let target = request_target(p.path.as_str(), q);
                Ok(tor_fetch_request(target.as_str(), h.as_str()))
            },
        },
    }
}

/// The request for downloading the file at an address: its path on its
/// host (see `download_request_spec`), or why there is none.
pub fn download_request_for(url: &str) -> (r: Result<String, String>)
    ensures
        match parsed_url(url@) {
            Err(e) => r matches Err(m) && m@ == e,
            Ok(p) => match p.1 {
                None => r matches Err(m) && m@ == "No host in URL"@,
                Some(h) => r matches Ok(q) && q@ == download_request_spec(p.3, h),
            },
        },
{
    match parse_url(url) {
        Err(e) => Err(e),
        Ok(p) => match p.host {
            None => Err(String::from_str("No host in URL")),
            Some(h) => Ok(download_request(p.path.as_str(), h.as_str())),
        },
    }
}

} // verus!
