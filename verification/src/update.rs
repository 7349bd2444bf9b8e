//! Version comparison for the release update check.

use vstd::prelude::*;
use crate::text::{chars_of, digit_prefix, digit_prefix_chars, parse_u64_chars, parse_u64_spec, split_once, split_once_chars, string_of, strip_leading, strip_leading_chars, trim, trim_chars};

verus! {

/// A newer release that the user can be offered.
pub struct UpdateInfo {
    pub version: String,
    pub html_url: String,
}

/// The running application version.
pub fn current_version() -> (v: &'static str)
    ensures
        v@ == "0.1.0"@,
{
    "0.1.0"
}

/// The version triple written in `s`: surrounding whitespace and leading
/// `v`s are ignored; major and minor are the first two dot-separated
/// pieces, the patch is the leading digits of the third piece (0 when
/// there is no third piece). `None` when a number does not parse.
pub open spec fn semver_spec(s: Seq<char>) -> Option<(u64, u64, u64)> {
    let t = strip_leading(trim(s), 'v');
    let (p0, r0) = split_once(t, '.');
    match (parse_u64_spec(p0), r0) {
        (Some(major), Some(r)) => {
            let (p1, r1) = split_once(r, '.');
            let p2 = match r1 {
                Some(rr) => split_once(rr, '.').0,
                None => "0"@,
            };
            match (parse_u64_spec(p1), parse_u64_spec(digit_prefix(p2))) {
                (Some(minor), Some(patch)) => Some((major, minor, patch)),
                _ => None,
            }
        },
        _ => None,
    }
}

/// Lexicographic order on version triples.
pub open spec fn triple_gt(a: (u64, u64, u64), b: (u64, u64, u64)) -> bool {
    ||| a.0 > b.0
    ||| (a.0 == b.0 && a.1 > b.1)
    ||| (a.0 == b.0 && a.1 == b.1 && a.2 > b.2)
}

/// `remote` names a strictly greater version than `local`; false when
/// either does not parse.
pub open spec fn is_newer_spec(remote: Seq<char>, local: Seq<char>) -> bool {
    match (semver_spec(remote), semver_spec(local)) {
        (Some(r), Some(l)) => triple_gt(r, l),
        _ => false,
    }
}

/// Parses a version string such as `v1.2.3` (see `semver_spec`).
pub fn parse_semver(s: &str) -> (r: Option<(u64, u64, u64)>)
    ensures
        r == semver_spec(s@),
{
    let v = chars_of(s);
    let t0 = trim_chars(&v);
    let t = strip_leading_chars(&t0, 'v');
    let (p0, r0) = split_once_chars(&t, '.');
    let major = match parse_u64_chars(&p0) {
        Some(m) => m,
        None => return None,
    };
    let r = match r0 {
        Some(r) => r,
        None => return None,
    };
    let (p1, r1) = split_once_chars(&r, '.');
    let minor = match parse_u64_chars(&p1) {
        Some(m) => m,
        None => return None,
    };
    let p2 = match r1 {
        Some(rr) => split_once_chars(&rr, '.').0,
        None => {
            let z = chars_of("0");
            z
        },
    };
    let d = digit_prefix_chars(&p2);
    match parse_u64_chars(&d) {
        Some(patch) => Some((major, minor, patch)),
        None => None,
    }
}

/// Whether `remote_tag` names a strictly newer version than `local`.
pub fn is_newer(remote_tag: &str, local: &str) -> (b: bool)
    ensures
        b == is_newer_spec(remote_tag@, local@),
{
    match (parse_semver(remote_tag), parse_semver(local)) {
        (Some(r), Some(l)) => r.0 > l.0 || (r.0 == l.0 && r.1 > l.1) || (r.0 == l.0 && r.1 == l.1 && r.2 > l.2),
        _ => false,
    }
}

/// "Newer" orders versions by major, then minor, then patch: a greater
/// major is newer whatever follows; with equal majors a greater minor is
/// newer whatever the patches; with equal majors and minors the patch
/// decides; and nothing is newer than or older than a version that does not
/// parse.
pub proof fn lemma_newer_by_major_minor_patch(r: Seq<char>, l: Seq<char>)
    ensures
        (semver_spec(r) is None || semver_spec(l) is None) ==> !is_newer_spec(r, l),
        match (semver_spec(r), semver_spec(l)) {
            (Some(a), Some(b)) => {
                &&& a.0 > b.0 ==> is_newer_spec(r, l)
                &&& a.0 < b.0 ==> !is_newer_spec(r, l)
                &&& a.0 == b.0 && a.1 > b.1 ==> is_newer_spec(r, l)
                &&& a.0 == b.0 && a.1 < b.1 ==> !is_newer_spec(r, l)
                &&& a.0 == b.0 && a.1 == b.1 ==> (is_newer_spec(r, l) <==> a.2 > b.2)
            },
            _ => true,
        },
{
    match (semver_spec(r), semver_spec(l)) {
        (Some(a), Some(b)) => {
            assert(is_newer_spec(r, l) == triple_gt(a, b));
        },
        _ => {},
    }
}

/// No version is newer than itself.
pub proof fn lemma_not_newer_than_self(v: Seq<char>)
    ensures
        !is_newer_spec(v, v),
{
}

/// "Newer" is asymmetric: two versions are never each newer than the other.
pub proof fn lemma_newer_asymmetric(a: Seq<char>, b: Seq<char>)
    ensures
        !(is_newer_spec(a, b) && is_newer_spec(b, a)),
{
}

/// "Newer" is transitive.
pub proof fn lemma_newer_transitive(a: Seq<char>, b: Seq<char>, c: Seq<char>)
    requires
        is_newer_spec(a, b),
        is_newer_spec(b, c),
    ensures
        is_newer_spec(a, c),
{
}

/// What the update check offers, given the latest release's tag, page,
/// and draft/prerelease flags: nothing for drafts, prereleases and tags
/// that are not newer than `local`; otherwise the tag without its leading
/// `v`s, and the release page.
pub fn decide_update(tag_name: &str, html_url: String, draft: bool, prerelease: bool, local: &str) -> (r: Option<UpdateInfo>)
    ensures
        r is Some <==> (!draft && !prerelease && is_newer_spec(tag_name@, local@)),
        r matches Some(info) ==> info.version@ == strip_leading(tag_name@, 'v') && info.html_url@ == html_url@,
{
    if draft || prerelease {
        return None;
    }
    if !is_newer(tag_name, local) {
        return None;
    }
    let t = chars_of(tag_name);
    let version_chars = strip_leading_chars(&t, 'v');
    let version = string_of(&version_chars);
    Some(UpdateInfo { version, html_url })
}

} // verus!
