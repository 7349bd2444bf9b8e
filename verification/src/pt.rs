//! Pluggable transports: the user's bridge lines, which transports they
//! need, what must be installed for them, and the Tor Expert Bundle the
//! transport helpers are fetched from.

use vstd::prelude::*;
use crate::codec::starts_with;
use crate::query::{contains_text, contains_text_chars};
use crate::text::{
    chars_of, lemma_split_once_at, lemma_split_once_len, push_str, split_all, split_once, string_of, trim,
    trim_chars, trim_end, trim_start,
};

verus! {

/// `c` with an ASCII capital letter made small (`char::to_ascii_lowercase`).
pub open spec fn ascii_lower(c: char) -> char {
    if 'A' <= c && c <= 'Z' {
        ((c as u32) + 32) as char
    } else {
        c
    }
}

/// `str::to_ascii_lowercase`.
pub open spec fn ascii_lower_text(s: Seq<char>) -> Seq<char> {
    s.map_values(|c: char| ascii_lower(c))
}

fn ascii_lower_chars(v: &Vec<char>) -> (r: Vec<char>)
    ensures
        r@ == ascii_lower_text(v@),
{
    let mut out: Vec<char> = Vec::new();
    let mut i: usize = 0;
    while i < v.len()
        invariant
            i <= v@.len(),
            out@ == ascii_lower_text(v@.take(i as int)),
        decreases v@.len() - i,
    {
        let c = v[i];
        let l = if 'A' <= c && c <= 'Z' {
            let b = c as u8;
            (b + 32) as char
        } else {
            c
        };
        out.push(l);
        assert(ascii_lower_text(v@.take(i + 1)) =~= ascii_lower_text(v@.take(i as int)).push(ascii_lower(c)));
        i += 1;
    }
    assert(v@.take(v@.len() as int) =~= v@);
    out
}

/// A kept line of the bridge file, as Tor wants it: prefixed `Bridge `
/// unless it already starts with that word (in any letter case).
pub open spec fn bridge_line_form(l: Seq<char>) -> Seq<char> {
    if starts_with(ascii_lower_text(l), "bridge "@) {
        l
    } else {
        "Bridge "@ + l
    }
}

/// The bridge lines of a bridge file: each line trimmed; blank lines and
/// `#` comments dropped; the rest in `bridge_line_form`.
pub open spec fn bridge_lines_spec(lines: Seq<Seq<char>>) -> Seq<Seq<char>>
    decreases lines.len(),
{
    if lines.len() == 0 {
        seq![]
    } else {
        let rest = bridge_lines_spec(lines.drop_last());
        let l = trim(lines.last());
        if l.len() == 0 || l[0] == '#' {
            rest
        } else {
            rest.push(bridge_line_form(l))
        }
    }
}

pub open spec fn strings_view(v: Seq<String>) -> Seq<Seq<char>> {
    v.map_values(|s: String| s@)
}

/// The bridge lines in the text of a bridge file (see `bridge_lines_spec`;
/// the file's lines are its `\n`-separated pieces).
pub fn bridge_lines_from_text(text: &str) -> (r: Vec<String>)
    ensures
        strings_view(r@) == bridge_lines_spec(split_all(text@, '\n')),
{
    let v = chars_of(text);
    let pieces = crate::text::split_all_chars(&v, '\n');
    let ghost ps = pieces@.map_values(|p: Vec<char>| p@);
    let mut out: Vec<String> = Vec::new();
    let mut i: usize = 0;
    while i < pieces.len()
        invariant
            i <= pieces@.len(),
            ps == pieces@.map_values(|p: Vec<char>| p@),
            ps == split_all(text@, '\n'),
            strings_view(out@) == bridge_lines_spec(ps.take(i as int)),
        decreases pieces@.len() - i,
    {
        assert(ps.take(i + 1).drop_last() =~= ps.take(i as int));
        assert(ps.take(i + 1).last() == pieces@[i as int]@);
        let l = trim_chars(&pieces[i]);
        if l.len() > 0 && l[0] != '#' {
            let low = ascii_lower_chars(&l);
            let keep = crate::codec::starts_with_chars(&low, "bridge ");
            let s = if keep {
                string_of(&l)
            } else {
                let mut s = String::from_str("Bridge ");
                let ls = string_of(&l);
                push_str(&mut s, ls.as_str());
                s
            };
            out.push(s);
            assert(strings_view(out@) =~= strings_view(out@.drop_last()).push(out@.last()@));
        }
        i += 1;
    }
    assert(ps.take(ps.len() as int) =~= ps);
    out
}

/// Which transports a set of bridge lines needs, read on their ASCII
/// lower-cased form: obfs4 for ` obfs4 ` or a leading `bridge obfs4`,
/// Snowflake for ` snowflake ` or a leading `bridge snowflake`, meek for
/// ` meek` or `meek_lite` anywhere.
pub open spec fn needs_obfs4_line(l: Seq<char>) -> bool {
    let t = ascii_lower_text(l);
    contains_text(t, " obfs4 "@) || starts_with(t, "bridge obfs4"@)
}

pub open spec fn needs_snowflake_line(l: Seq<char>) -> bool {
    let t = ascii_lower_text(l);
    contains_text(t, " snowflake "@) || starts_with(t, "bridge snowflake"@)
}

pub open spec fn needs_meek_line(l: Seq<char>) -> bool {
    let t = ascii_lower_text(l);
    contains_text(t, " meek"@) || contains_text(t, "meek_lite"@)
}

/// The transports the bridge lines call for.
#[derive(Debug, Clone, Copy, PartialEq, Eq, Structural)]
pub struct BridgeNeeds {
    pub obfs4: bool,
    pub snowflake: bool,
    pub meek: bool,
}

/// What the bridge lines call for (see `needs_obfs4_line` and its kin).
pub fn bridge_needs(lines: &Vec<String>) -> (n: BridgeNeeds)
    ensures
        n.obfs4 == (exists|i: int| 0 <= i < lines@.len() && #[trigger] needs_obfs4_line(lines@[i]@)),
        n.snowflake == (exists|i: int| 0 <= i < lines@.len() && #[trigger] needs_snowflake_line(lines@[i]@)),
        n.meek == (exists|i: int| 0 <= i < lines@.len() && #[trigger] needs_meek_line(lines@[i]@)),
{
    let mut n = BridgeNeeds { obfs4: false, snowflake: false, meek: false };
    let mut i: usize = 0;
    while i < lines.len()
        invariant
            i <= lines@.len(),
            n.obfs4 == (exists|k: int| 0 <= k < i && #[trigger] needs_obfs4_line(lines@[k]@)),
            n.snowflake == (exists|k: int| 0 <= k < i && #[trigger] needs_snowflake_line(lines@[k]@)),
            n.meek == (exists|k: int| 0 <= k < i && #[trigger] needs_meek_line(lines@[k]@)),
        decreases lines@.len() - i,
    {
        let t = ascii_lower_chars(&chars_of(lines[i].as_str()));
        let o = contains_text_chars(&t, &chars_of(" obfs4 ")) || crate::codec::starts_with_chars(&t, "bridge obfs4");
        let s = contains_text_chars(&t, &chars_of(" snowflake ")) || crate::codec::starts_with_chars(&t, "bridge snowflake");
        let m = contains_text_chars(&t, &chars_of(" meek")) || contains_text_chars(&t, &chars_of("meek_lite"));
        assert(o == needs_obfs4_line(lines@[i as int]@));
        assert(s == needs_snowflake_line(lines@[i as int]@));
        assert(m == needs_meek_line(lines@[i as int]@));
        n = BridgeNeeds { obfs4: n.obfs4 || o, snowflake: n.snowflake || s, meek: n.meek || m };
        i += 1;
    }
    n
}

/// The refusal when a needed transport helper is missing, checked in this
/// order: obfs4 without obfs4proxy/lyrebird, Snowflake without
/// snowflake-client, meek without obfs4proxy/lyrebird.
pub open spec fn missing_helper_spec(n: BridgeNeeds, obfs4_found: bool, snowflake_found: bool) -> Option<Seq<char>> {
    if n.obfs4 && !obfs4_found {
        Some("obfs4 bridges configured but obfs4proxy/lyrebird not on PATH"@)
    } else if n.snowflake && !snowflake_found {
        Some("snowflake bridges configured but snowflake-client not on PATH"@)
    } else if n.meek && !obfs4_found {
        Some("meek bridges configured but obfs4proxy/lyrebird (meek_lite) not on PATH"@)
    } else {
        None
    }
}

pub open spec fn opt_view(o: Option<String>) -> Option<Seq<char>> {
    match o {
        Some(s) => Some(s@),
        None => None,
    }
}

/// The refusal for a missing helper, if any (see `missing_helper_spec`).
pub fn missing_helper(n: BridgeNeeds, obfs4_found: bool, snowflake_found: bool) -> (r: Option<String>)
    ensures
        opt_view(r) == missing_helper_spec(n, obfs4_found, snowflake_found),
{
    if n.obfs4 && !obfs4_found {
        Some(String::from_str("obfs4 bridges configured but obfs4proxy/lyrebird not on PATH"))
    } else if n.snowflake && !snowflake_found {
        Some(String::from_str("snowflake bridges configured but snowflake-client not on PATH"))
    } else if n.meek && !obfs4_found {
        Some(String::from_str("meek bridges configured but obfs4proxy/lyrebird (meek_lite) not on PATH"))
    } else {
        None
    }
}

/// The transports attached to the Tor client, with the helper each runs
/// (`true` for obfs4proxy/lyrebird, `false` for snowflake-client): obfs4 and
/// meek_lite through the obfs4 helper when it was found and they are
/// needed, then Snowflake when its helper was found and it is needed.
pub open spec fn transports_spec(n: BridgeNeeds, obfs4_found: bool, snowflake_found: bool) -> Seq<(Seq<char>, bool)> {
    (if obfs4_found && n.obfs4 { seq![("obfs4"@, true)] } else { seq![] })
        + (if obfs4_found && n.meek { seq![("meek_lite"@, true)] } else { seq![] })
        + (if snowflake_found && n.snowflake { seq![("snowflake"@, false)] } else { seq![] })
}

/// The transports to attach (see `transports_spec`).
pub fn transports_to_attach(n: BridgeNeeds, obfs4_found: bool, snowflake_found: bool) -> (r: Vec<(String, bool)>)
    ensures
        r@.map_values(|t: (String, bool)| (t.0@, t.1)) == transports_spec(n, obfs4_found, snowflake_found),
{
    let mut r: Vec<(String, bool)> = Vec::new();
    if obfs4_found && n.obfs4 {
        r.push((String::from_str("obfs4"), true));
    }
    if obfs4_found && n.meek {
        r.push((String::from_str("meek_lite"), true));
    }
    if snowflake_found && n.snowflake {
        r.push((String::from_str("snowflake"), false));
    }
    assert(r@.map_values(|t: (String, bool)| (t.0@, t.1)) =~= transports_spec(n, obfs4_found, snowflake_found));
    r
}

/// The upper-case ASCII form of `c` (`char::to_ascii_uppercase`).
pub open spec fn ascii_upper(c: char) -> char {
    if 'a' <= c && c <= 'z' {
        ((c as u32) - 32) as char
    } else {
        c
    }
}

/// The environment variable that may point at helper `name`: the name with
/// `-` turned into `_`, upper-cased, followed by `_PATH`.
pub open spec fn bin_env_key_spec(name: Seq<char>) -> Seq<char> {
    name.map_values(|c: char| if c == '-' { '_' } else { ascii_upper(c) }) + "_PATH"@
}

/// The environment variable naming helper `name` (see `bin_env_key_spec`).
pub fn bin_env_key(name: &str) -> (r: String)
    ensures
        r@ == bin_env_key_spec(name@),
{
    let v = chars_of(name);
    let mut out: Vec<char> = Vec::new();
    let mut i: usize = 0;
    while i < v.len()
        invariant
            i <= v@.len(),
            v@ == name@,
            out@ == v@.take(i as int).map_values(|c: char| if c == '-' { '_' } else { ascii_upper(c) }),
        decreases v@.len() - i,
    {
        let c = v[i];
        let u = if c == '-' {
            '_'
        } else if 'a' <= c && c <= 'z' {
            let b = c as u8;
            (b - 32) as char
        } else {
            c
        };
        out.push(u);
        assert(v@.take(i + 1).map_values(|c: char| if c == '-' { '_' } else { ascii_upper(c) }) =~= v@.take(
            i as int,
        ).map_values(|c: char| if c == '-' { '_' } else { ascii_upper(c) }).push(u));
        i += 1;
    }
    assert(v@.take(v@.len() as int) =~= v@);
    let mut s = string_of(&out);
    push_str(&mut s, "_PATH");
    s
}

/// The transport status line: whether snowflake-client was found, and
/// where obfs4proxy/lyrebird is (or that it is missing).
pub open spec fn pt_status_spec(snowflake_found: bool, obfs4_path: Option<Seq<char>>) -> Seq<char> {
    (if snowflake_found { "snowflake-client: found"@ } else { "snowflake-client: missing"@ }) + " \u{b7} "@ + match obfs4_path {
        Some(p) => "obfs4/lyrebird: "@ + p,
        None => "obfs4/lyrebird: missing"@,
    }
}

/// The transport status line (see `pt_status_spec`).
pub fn pt_status_summary(snowflake_found: bool, obfs4_path: Option<String>) -> (r: String)
    ensures
        r@ == pt_status_spec(snowflake_found, opt_view(obfs4_path)),
{
    let mut s = String::from_str(if snowflake_found { "snowflake-client: found" } else { "snowflake-client: missing" });
    push_str(&mut s, " \u{b7} ");
    match obfs4_path {
        Some(p) => {
            push_str(&mut s, "obfs4/lyrebird: ");
            push_str(&mut s, p.as_str());
        },
        None => push_str(&mut s, "obfs4/lyrebird: missing"),
    }
    s
}

/// The system the browser was built for, as far as transport helpers
/// care.
#[derive(Debug, Clone, Copy, PartialEq, Eq, Structural)]
pub enum TargetOs {
    Windows,
    MacArm,
    MacIntel,
    Linux,
}

/// The Tor Browser train the helpers are taken from.
pub const TOR_BUNDLE_VERSION: &'static str = "14.5.5";

/// The bundle file name for a system and version.
pub open spec fn bundle_file_spec(os: TargetOs, ver: Seq<char>) -> Seq<char> {
    match os {
        TargetOs::Windows => "tor-expert-bundle-windows-x86_64-"@ + ver + ".tar.gz"@,
        TargetOs::MacArm => "tor-expert-bundle-macos-aarch64-"@ + ver + ".tar.gz"@,
        TargetOs::MacIntel => "tor-expert-bundle-macos-x86_64-"@ + ver + ".tar.gz"@,
        TargetOs::Linux => "tor-expert-bundle-linux-x86_64-"@ + ver + ".tar.gz"@,
    }
}

/// Where the Expert Bundle is downloaded from: an explicit, non-empty
/// override address wins; otherwise the archive address of the bundle for
/// the system and the version given (the pinned one when none is).
pub open spec fn expert_bundle_url_spec(os: TargetOs, url_override: Option<Seq<char>>, version: Option<Seq<char>>) -> Seq<char> {
    match url_override {
        Some(u) if u.len() > 0 => u,
        _ => {
            let ver = match version {
                Some(v) => v,
                None => TOR_BUNDLE_VERSION@,
            };
            "https://archive.torproject.org/tor-package-archive/torbrowser/"@ + ver + "/"@ + bundle_file_spec(os, ver)
        },
    }
}

/// The Expert Bundle address (see `expert_bundle_url_spec`).
pub fn expert_bundle_url(os: TargetOs, url_override: Option<String>, version: Option<String>) -> (r: String)
    ensures
        r@ == expert_bundle_url_spec(os, opt_view(url_override), opt_view(version)),
{
    match url_override {
        Some(u) => {
            if u.as_str().unicode_len() > 0 {
                return u;
            }
        },
        None => {},
    }
    let ver = match version {
        Some(v) => v,
        None => String::from_str(TOR_BUNDLE_VERSION),
    };
    let mut s = String::from_str("https://archive.torproject.org/tor-package-archive/torbrowser/");
    push_str(&mut s, ver.as_str());
    push_str(&mut s, "/");
    push_str(
        &mut s,
        match os {
            TargetOs::Windows => "tor-expert-bundle-windows-x86_64-",
            TargetOs::MacArm => "tor-expert-bundle-macos-aarch64-",
            TargetOs::MacIntel => "tor-expert-bundle-macos-x86_64-",
            TargetOs::Linux => "tor-expert-bundle-linux-x86_64-",
        },
    );
    push_str(&mut s, ver.as_str());
    push_str(&mut s, ".tar.gz");
    s
}

/// The helper file names taken out of the bundle.
pub open spec fn want_names_spec(os: TargetOs) -> Seq<Seq<char>> {
    if os == TargetOs::Windows {
        seq!["lyrebird.exe"@, "snowflake-client.exe"@, "obfs4proxy.exe"@]
    } else {
        seq!["lyrebird"@, "snowflake-client"@, "obfs4proxy"@]
    }
}

/// The helper file names taken out of the bundle (see `want_names_spec`).
pub fn want_names(os: TargetOs) -> (r: Vec<String>)
    ensures
        strings_view(r@) == want_names_spec(os),
{
    let mut v: Vec<String> = Vec::new();
    if os == TargetOs::Windows {
        v.push(String::from_str("lyrebird.exe"));
        v.push(String::from_str("snowflake-client.exe"));
        v.push(String::from_str("obfs4proxy.exe"));
    } else {
        v.push(String::from_str("lyrebird"));
        v.push(String::from_str("snowflake-client"));
        v.push(String::from_str("obfs4proxy"));
    }
    assert(strings_view(v@) =~= want_names_spec(os));
    v
}

/// A bundle entry is extracted when its file name is one of the wanted
/// helper names.
pub fn is_wanted_helper(os: TargetOs, file_name: &str) -> (b: bool)
    ensures
        b == want_names_spec(os).contains(file_name@),
{
    let names = want_names(os);
    let f = chars_of(file_name);
    let mut i: usize = 0;
    while i < names.len()
        invariant
            i <= names@.len(),
            strings_view(names@) == want_names_spec(os),
            f@ == file_name@,
            forall|k: int| 0 <= k < i ==> want_names_spec(os)[k] != file_name@,
        decreases names@.len() - i,
    {
        assert(want_names_spec(os)[i as int] == names@[i as int]@);
        if crate::query::chars_eq(&chars_of(names[i].as_str()), &f) {
            return true;
        }
        i += 1;
    }
    false
}

/// The file names a helper may have in the install directory: its name,
/// and on Windows also with `.exe`.
pub fn installed_candidates(os: TargetOs, name: &str) -> (r: Vec<String>)
    ensures
        strings_view(r@) == (if os == TargetOs::Windows { seq![name@, name@ + ".exe"@] } else { seq![name@] }),
{
    let mut v: Vec<String> = Vec::new();
    v.push(String::from_str(name));
    if os == TargetOs::Windows {
        let mut e = String::from_str(name);
        push_str(&mut e, ".exe");
        v.push(e);
    }
    assert(strings_view(v@) =~= (if os == TargetOs::Windows { seq![name@, name@ + ".exe"@] } else { seq![name@] }));
    v
}

/// A downloaded bundle smaller than 10 000 bytes is refused.
pub open spec fn bundle_size_error_spec(len: nat) -> Option<Seq<char>> {
    if len < 10000 {
        Some("Expert bundle too small ("@ + crate::text::decimal(len) + " bytes) \u{2014} URL may be wrong"@)
    } else {
        None
    }
}

/// The refusal of a downloaded bundle of `len` bytes, if any.
pub fn bundle_size_error(len: usize) -> (r: Option<String>)
    ensures
        opt_view(r) == bundle_size_error_spec(len as nat),
{
    if len < 10000 {
        let mut s = String::from_str("Expert bundle too small (");
        crate::text::push_decimal(&mut s, len as u64);
        push_str(&mut s, " bytes) \u{2014} URL may be wrong");
        Some(s)
    } else {
        None
    }
}

/// The helper whose path is exported for obfs4 (the first extracted name
/// mentioning `lyrebird` or `obfs4`) and for Snowflake (the first
/// mentioning `snowflake`).
pub open spec fn first_with(names: Seq<Seq<char>>, a: Seq<char>, b: Seq<char>, from: int) -> Option<int>
    decreases names.len() - from,
{
    if from < 0 || from >= names.len() {
        None
    } else if contains_text(names[from], a) || contains_text(names[from], b) {
        Some(from)
    } else {
        first_with(names, a, b, from + 1)
    }
}

fn first_with_exec(names: &Vec<String>, a: &str, b: &str) -> (r: Option<usize>)
    ensures
        match r {
            Some(i) => i < names@.len() && first_with(strings_view(names@), a@, b@, 0) == Some(i as int),
            None => first_with(strings_view(names@), a@, b@, 0) is None,
        },
{
    let ghost ns = strings_view(names@);
    let av = chars_of(a);
    let bv = chars_of(b);
    let mut i: usize = 0;
    while i < names.len()
        invariant
            i <= names@.len(),
            ns == strings_view(names@),
            av@ == a@,
            bv@ == b@,
            first_with(ns, a@, b@, 0) == first_with(ns, a@, b@, i as int),
        decreases names@.len() - i,
    {
        let n = chars_of(names[i].as_str());
        assert(ns[i as int] == names@[i as int]@);
        if contains_text_chars(&n, &av) || contains_text_chars(&n, &bv) {
            return Some(i);
        }
        i += 1;
    }
    None
}

/// After an install, the extracted helper to export for obfs4 and the one
/// for Snowflake.
pub fn exported_helpers(extracted: &Vec<String>) -> (r: (Option<String>, Option<String>))
    ensures
        opt_view(r.0) == (match first_with(strings_view(extracted@), "lyrebird"@, "obfs4"@, 0) {
            Some(i) => Some(extracted@[i]@),
            None => None::<Seq<char>>,
        }),
        opt_view(r.1) == (match first_with(strings_view(extracted@), "snowflake"@, "snowflake"@, 0) {
            Some(i) => Some(extracted@[i]@),
            None => None::<Seq<char>>,
        }),
{
    let o = match first_with_exec(extracted, "lyrebird", "obfs4") {
        Some(i) => Some(extracted[i].clone()),
        None => None,
    };
    let s = match first_with_exec(extracted, "snowflake", "snowflake") {
        Some(i) => Some(extracted[i].clone()),
        None => None,
    };
    (o, s)
}

/// The report of a finished install: the directory and the helpers, joined
/// with `, `; an empty extraction is refused.
pub open spec fn joined(names: Seq<Seq<char>>) -> Seq<char>
    decreases names.len(),
{
    if names.len() == 0 {
        seq![]
    } else if names.len() == 1 {
        names[0]
    } else {
        joined(names.drop_last()) + ", "@ + names.last()
    }
}

/// The outcome of an install into `dir` that extracted `names`.
pub fn install_report(dir: &str, names: &Vec<String>) -> (r: Result<String, String>)
    ensures
        names@.len() == 0 ==> (r matches Err(e) && e@ == "No lyrebird/snowflake-client found inside expert bundle"@),
        names@.len() > 0 ==> (r matches Ok(m) && m@ == "Installed into "@ + dir@ + ": "@ + joined(strings_view(names@))),
{
    if names.len() == 0 {
        return Err(String::from_str("No lyrebird/snowflake-client found inside expert bundle"));
    }
    let ghost ns = strings_view(names@);
    let mut list = names[0].clone();
    let mut i: usize = 1;
    assert(ns.take(1) =~= seq![ns[0]]);
    while i < names.len()
        invariant
            1 <= i <= names@.len(),
            ns == strings_view(names@),
            list@ == joined(ns.take(i as int)),
        decreases names@.len() - i,
    {
        assert(ns.take(i + 1).drop_last() =~= ns.take(i as int));
        assert(ns[i as int] == names@[i as int]@);
        push_str(&mut list, ", ");
        push_str(&mut list, names[i].as_str());
        i += 1;
    }
    assert(ns.take(names@.len() as int) =~= ns);
    let mut m = String::from_str("Installed into ");
    push_str(&mut m, dir);
    push_str(&mut m, ": ");
    push_str(&mut m, list.as_str());
    Ok(m)
}


proof fn lemma_split_all_nonempty(s: Seq<char>, c: char)
    ensures
        split_all(s, c).len() > 0,
    decreases s.len(),
{
    match split_once(s, c) {
        (a, None) => {},
        (a, Some(rest)) => {
            if rest.len() < s.len() {
                lemma_split_all_nonempty(rest, c);
            }
        },
    }
}

/// Appending a line and a newline to a text that is empty or ends with a
/// newline replaces its last (empty) piece by the line and an empty piece.
proof fn lemma_split_all_append_line(t: Seq<char>, l: Seq<char>)
    requires
        t.len() == 0 || t.last() == '\n',
        !l.contains('\n'),
    ensures
        split_all(t + l + seq!['\n'], '\n') == split_all(t, '\n').drop_last() + seq![l, Seq::<char>::empty()],
    decreases t.len(),
{
    let u = t + l + seq!['\n'];
    if t.len() == 0 {
        assert(u =~= l + seq!['\n']);
        lemma_split_once_at(u, '\n', l.len() as int);
        assert(u.take(l.len() as int) =~= l);
        assert(u.skip(l.len() as int + 1) =~= Seq::<char>::empty());
        assert(split_once(Seq::<char>::empty(), '\n') == (Seq::<char>::empty(), None::<Seq<char>>));
        assert(split_all(Seq::<char>::empty(), '\n') =~= seq![Seq::<char>::empty()]);
        assert(split_all(t, '\n').drop_last() =~= Seq::<Seq<char>>::empty());
        assert(split_all(u, '\n') =~= seq![l] + seq![Seq::<char>::empty()]);
    } else {
        lemma_split_once_len(t, '\n');
        match split_once(t, '\n') {
            (a, None) => {
                assert(a.contains('\n')) by {
                    assert(a[a.len() - 1] == '\n');
                }
            },
            (a, Some(r)) => {
                assert(t =~= a + seq!['\n'] + r);
                let v = r + l + seq!['\n'];
                assert(u =~= a + seq!['\n'] + v);
                assert forall|j: int| 0 <= j < a.len() implies u[j] != '\n' by {
                    assert(u[j] == a[j]);
                }
                lemma_split_once_at(u, '\n', a.len() as int);
                assert(u.take(a.len() as int) =~= a);
                assert(u.skip(a.len() as int + 1) =~= v);
                if r.len() > 0 {
                    assert(r.last() == t.last());
                }
                lemma_split_all_append_line(r, l);
                lemma_split_all_nonempty(r, '\n');
                assert(split_all(u, '\n') == seq![a] + split_all(v, '\n'));
                assert(split_all(t, '\n') == seq![a] + split_all(r, '\n'));
                assert((seq![a] + split_all(r, '\n')).drop_last() =~= seq![a] + split_all(r, '\n').drop_last());
                assert(seq![a] + (split_all(r, '\n').drop_last() + seq![l, Seq::<char>::empty()]) =~= seq![a]
                    + split_all(r, '\n').drop_last() + seq![l, Seq::<char>::empty()]);
            },
        }
    }
}

/// The last piece of a text that is empty or ends with a newline is empty.
proof fn lemma_split_all_last_empty(t: Seq<char>)
    requires
        t.len() == 0 || t.last() == '\n',
    ensures
        split_all(t, '\n').last() == Seq::<char>::empty(),
    decreases t.len(),
{
    if t.len() == 0 {
        assert(split_once(t, '\n') == (t, None::<Seq<char>>));
        assert(split_all(t, '\n') =~= seq![t]);
        assert(t =~= Seq::<char>::empty());
    } else {
        lemma_split_once_len(t, '\n');
        match split_once(t, '\n') {
            (a, None) => {
                assert(a.contains('\n')) by {
                    assert(a[a.len() - 1] == '\n');
                }
            },
            (a, Some(r)) => {
                assert(t =~= a + seq!['\n'] + r);
                if r.len() > 0 {
                    assert(r.last() == t.last());
                }
                lemma_split_all_last_empty(r);
                lemma_split_all_nonempty(r, '\n');
                assert(split_all(t, '\n') == seq![a] + split_all(r, '\n'));
                assert((seq![a] + split_all(r, '\n')).last() == split_all(r, '\n').last());
            },
        }
    }
}

/// The bridge lines a kept line gives: none for a blank line or a comment.
pub open spec fn bridge_entry(line: Seq<char>) -> Seq<Seq<char>> {
    let l = trim(line);
    if l.len() == 0 || l[0] == '#' {
        seq![]
    } else {
        seq![bridge_line_form(l)]
    }
}

/// A bridge line appended to the bridge file (the line and a newline) is
/// read back after the bridge lines already there, in the form Tor wants;
/// a blank line or a comment adds nothing. This holds for a file that is
/// empty or ends with a newline, as every file written this way does.
pub proof fn lemma_persisted_bridge_read_back(text: Seq<char>, line: Seq<char>)
    requires
        text.len() == 0 || text.last() == '\n',
        !line.contains('\n'),
    ensures
        bridge_lines_spec(split_all(text + line + seq!['\n'], '\n')) == bridge_lines_spec(split_all(text, '\n'))
            + bridge_entry(line),
{
    lemma_split_all_append_line(text, line);
    lemma_split_all_nonempty(text, '\n');
    let xs = split_all(text, '\n');
    let pre = xs.drop_last();
    // the last piece of `text` is empty
    lemma_split_all_last_empty(text);
    assert(xs.last() =~= Seq::<char>::empty());
    assert(trim_start(Seq::<char>::empty()) =~= Seq::<char>::empty());
    assert(trim_end(Seq::<char>::empty()) =~= Seq::<char>::empty());
    assert(trim(Seq::<char>::empty()).len() == 0);
    let ys = pre + seq![line, Seq::<char>::empty()];
    assert(ys.drop_last() =~= pre + seq![line]);
    assert(ys.last() == Seq::<char>::empty());
    assert(bridge_lines_spec(ys) == bridge_lines_spec(pre + seq![line]));
    assert((pre + seq![line]).drop_last() =~= pre);
    assert(xs.drop_last() == pre);
    assert(bridge_lines_spec(xs) == bridge_lines_spec(pre));
    assert((pre + seq![line]).last() == line);
    assert(bridge_lines_spec(pre) + bridge_entry(line) =~= bridge_lines_spec(pre + seq![line]));
}

} // verus!
