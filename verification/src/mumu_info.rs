//! What the tool learns about the installed MuMu emulator: its version and
//! channel from `install_config.json`, its install directory from the
//! uninstall entry in the registry, and where `MuMuManager.exe` is.
use vstd::prelude::*;

use crate::json::{entry_field, entry_view, json_entry_field};
use crate::paths::{path2, PathSpec};
use crate::text::{chars_of, concat, concat3, owned, string_of, unquote, unquoted};

verus! {

/// What is known about the installed emulator, with the problems met while
/// finding it out.
pub struct MuMuInfo {
    pub install_dir: Option<String>,
    pub mumu_manager_path: Option<String>,
    pub appdata_dir: Option<String>,
    pub registry_key: Option<String>,
    pub full_version: Option<String>,
    pub major_version: Option<String>,
    pub channel: Option<String>,
    pub uninstall_string: Option<String>,
    pub errors: Vec<String>,
}

/// Nothing known yet.
pub open spec fn is_empty_info(i: MuMuInfo) -> bool {
    &&& i.install_dir is None
    &&& i.mumu_manager_path is None
    &&& i.appdata_dir is None
    &&& i.registry_key is None
    &&& i.full_version is None
    &&& i.major_version is None
    &&& i.channel is None
    &&& i.uninstall_string is None
    &&& i.errors@.len() == 0
}

impl Default for MuMuInfo {
    fn default() -> (r: Self)
        ensures
            is_empty_info(r),
    {
        MuMuInfo {
            install_dir: None,
            mumu_manager_path: None,
            appdata_dir: None,
            registry_key: None,
            full_version: None,
            major_version: None,
            channel: None,
            uninstall_string: None,
            errors: Vec::new(),
        }
    }
}

/// The views of the problems recorded in an info.
pub open spec fn error_texts(i: MuMuInfo) -> Seq<Seq<char>> {
    i.errors@.map_values(|e: String| e@)
}

/// The major version in a version text: the character after a leading `V`
/// or `v`, else the first character; `0` when there is none.
pub open spec fn major_of(version: Seq<char>) -> Seq<char> {
    if version.len() == 0 {
        seq!['0']
    } else if version[0] == 'V' || version[0] == 'v' {
        if version.len() > 1 {
            seq![version[1]]
        } else {
            seq!['0']
        }
    } else {
        seq![version[0]]
    }
}

/// Whether a major version belongs to the 5.x/6.x layout (`nx_main`).
pub open spec fn is_nx_major(major: Seq<char>) -> bool {
    major.len() > 0 && (major[0] == '5' || major[0] == '6')
}

/// Whether a major version text starts with the given digit.
pub open spec fn starts_with_char(s: Seq<char>, c: char) -> bool {
    s.len() > 0 && s[0] == c
}

/// Whether `s` starts with `c`.
pub fn first_is(s: &str, c: char) -> (r: bool)
    ensures
        r == starts_with_char(s@, c),
{
    let v = chars_of(s);
    v.len() > 0 && v[0] == c
}

/// The major version of a version text (`parse_major_version`).
pub fn parse_major_version(version: &str) -> (r: String)
    ensures
        r@ == major_of(version@),
{
    let v = chars_of(version);
    let mut out: Vec<char> = Vec::new();
    if v.len() == 0 {
        out.push('0');
    } else if v[0] == 'V' || v[0] == 'v' {
        if v.len() > 1 {
            out.push(v[1]);
        } else {
            out.push('0');
        }
    } else {
        out.push(v[0]);
    }
    assert(out@ =~= major_of(version@));
    string_of(out.as_slice())
}

/// A text without the double quotes around it (`trim_quotes`).
pub fn trim_quotes(s: &str) -> (r: String)
    ensures
        r@ == unquoted(s@),
{
    unquote(s)
}

/// Whether a path text surely ends in a file or folder name on every
/// platform: it is not empty, does not start with a separator (`/` or a backslash),
/// and does not end with a separator, a `:` (a drive) or a `.` (so its last
/// component is neither a root, a prefix, `.` nor `..`).
pub open spec fn ends_in_name(p: Seq<char>) -> bool {
    &&& p.len() > 0
    &&& p[0] != '/' && p[0] != '\\'
    &&& p.last() != '/' && p.last() != '\\' && p.last() != ':' && p.last() != '.'
}

/// Whether a path text is a single bare name: not empty, and without `/`,
/// backslash or `:`, so that it holds no root, no drive and no separator on
/// any platform.
pub open spec fn bare_name(p: Seq<char>) -> bool {
    p.len() > 0 && !p.contains('/') && !p.contains('\\') && !p.contains(':')
}

/// A relative path written with `/` between its parts, on which every
/// platform agrees: it holds a `/`, no backslash and no `:`, does not start
/// with `/`, and no part is empty or `.`.
pub open spec fn slash_path(p: Seq<char>) -> bool {
    &&& p.len() > 0
    &&& p[0] != '/'
    &&& p.contains('/')
    &&& !p.contains('\\') && !p.contains(':')
    &&& forall|i: int| 0 <= i < p.len() && #[trigger] p[i] == '/' ==> i + 1 < p.len() && p[i + 1] != '/'
    &&& forall|i: int|
        0 <= i < p.len() && #[trigger] p[i] == '.' ==> !((i == 0 || p[i - 1] == '/') && (i + 1 == p.len()
            || p[i + 1] == '/'))
}

/// The text before the last `/` (all of it when there is none).
pub open spec fn before_last_slash(p: Seq<char>) -> Seq<char>
    decreases p.len(),
{
    if p.len() == 0 {
        p
    } else if p.last() == '/' {
        p.drop_last()
    } else {
        before_last_slash(p.drop_last())
    }
}

/// What `std::path::Path::parent` gives for a path text, converted back to
/// text, for the platform the library is built for.
pub uninterp spec fn path_parent_text(text: Seq<char>) -> Option<Seq<char>>;

/// Trusted: calls `std::path::Path::parent` on the text and converts the
/// result back to a string.  `Path::parent` is documented to return `None`
/// for the empty path and for a path that ends in a root or a prefix, and
/// otherwise the path without its final component, which is a slice at the
/// start of the path.  Stated: `None` for the empty text, `Some` for a text
/// that ends in a name (`ends_in_name`), the empty text for a bare name
/// (`bare_name`: one component, whose parent is empty), the text before the
/// last `/` for a relative path of `/`-separated parts (`slash_path`: its
/// last component is a name or `..` and the parts before it are kept as
/// written), and a `Some` is a strictly shorter prefix.  The result is
/// named `path_parent_text`.  Where exactly the path is cut depends on the platform's path
/// syntax and is not stated.
#[verifier::external_body]
fn path_parent(path: &str) -> (r: Option<String>)
    ensures
        path@.len() == 0 ==> r is None,
        ends_in_name(path@) ==> r is Some,
        bare_name(path@) ==> r is Some && r->0@ == Seq::<char>::empty(),
        slash_path(path@) ==> r is Some && r->0@ == before_last_slash(path@),
        opt_text(r) == path_parent_text(path@),
        r matches Some(p) ==> p@.len() < path@.len() && path@.take(p@.len() as int) == p@,
{
    std::path::Path::new(path).parent().map(|p| p.to_string_lossy().to_string())
}

/// The install directory named by an uninstall command: the directory of
/// the unquoted program path (`parse_install_dir`).
pub fn parse_install_dir(uninstall_string: &str) -> (r: Option<String>)
    ensures
        unquoted(uninstall_string@).len() == 0 ==> r is None,
        ends_in_name(unquoted(uninstall_string@)) ==> r is Some,
        bare_name(unquoted(uninstall_string@)) ==> r is Some && r->0@ == Seq::<char>::empty(),
        slash_path(unquoted(uninstall_string@)) ==> r is Some && r->0@ == before_last_slash(
            unquoted(uninstall_string@),
        ),
        opt_text(r) == path_parent_text(unquoted(uninstall_string@)),
        r matches Some(p) ==> p@.len() < unquoted(uninstall_string@).len() && unquoted(
            uninstall_string@,
        ).take(p@.len() as int) == p@,
{
    let path = trim_quotes(uninstall_string);
    path_parent(path.as_str())
}

/// One uninstall key of the registry that may describe the emulator.
pub struct RegistryKey {
    pub label: String,
    pub subkey: String,
}

pub open spec fn v5_subkey() -> Seq<char> {
    "SOFTWARE\\Microsoft\\Windows\\CurrentVersion\\Uninstall\\MuMuPlayer"@
}

pub open spec fn v4_subkey() -> Seq<char> {
    "SOFTWARE\\Microsoft\\Windows\\CurrentVersion\\Uninstall\\MuMuPlayer-12.0"@
}

fn v5_key() -> (r: RegistryKey)
    ensures
        r.label@ == "V5"@,
        r.subkey@ == v5_subkey(),
{
    RegistryKey {
        label: owned("V5"),
        subkey: owned("SOFTWARE\\Microsoft\\Windows\\CurrentVersion\\Uninstall\\MuMuPlayer"),
    }
}

fn v4_key() -> (r: RegistryKey)
    ensures
        r.label@ == "V4"@,
        r.subkey@ == v4_subkey(),
{
    RegistryKey {
        label: owned("V4"),
        subkey: owned("SOFTWARE\\Microsoft\\Windows\\CurrentVersion\\Uninstall\\MuMuPlayer-12.0"),
    }
}

/// The uninstall keys to try, in order: the 4.x key first when the version
/// hint starts with `4`, else the 5.x key first.
pub fn registry_key_order(major_version_hint: &str) -> (r: Vec<RegistryKey>)
    ensures
        r@.len() == 2,
        starts_with_char(major_version_hint@, '4') ==> r@[0].subkey@ == v4_subkey() && r@[0].label@
            == "V4"@ && r@[1].subkey@ == v5_subkey() && r@[1].label@ == "V5"@,
        !starts_with_char(major_version_hint@, '4') ==> r@[0].subkey@ == v5_subkey()
            && r@[0].label@ == "V5"@ && r@[1].subkey@ == v4_subkey() && r@[1].label@ == "V4"@,
{
    let mut r: Vec<RegistryKey> = Vec::new();
    if first_is(major_version_hint, '5') || first_is(major_version_hint, '6') {
        r.push(v5_key());
        r.push(v4_key());
    } else if first_is(major_version_hint, '4') {
        r.push(v4_key());
        r.push(v5_key());
    } else {
        r.push(v5_key());
        r.push(v4_key());
    }
    r
}

/// What the uninstall key of the registry says about the emulator.
pub struct RegistryRead {
    pub install_dir: Option<String>,
    pub uninstall_string: Option<String>,
    pub display_version: Option<String>,
    pub registry_path: String,
}

fn unquote_opt(v: Option<String>) -> (r: Option<String>)
    ensures
        v is None ==> r is None,
        v matches Some(s) ==> r matches Some(t) && t@ == unquoted(s@),
{
    match v {
        Some(s) => Some(trim_quotes(s.as_str())),
        None => None,
    }
}

/// The values read from an uninstall key (`read_registry_values`): the
/// `UninstallString` and `DisplayVersion` without quotes, the install
/// directory taken from the uninstall command, and the key's full name.
pub fn registry_values(
    uninstall_string: Option<String>,
    display_version: Option<String>,
    key_path: &str,
) -> (r: RegistryRead)
    ensures
        uninstall_string is None ==> r.uninstall_string is None && r.install_dir is None,
        uninstall_string matches Some(u) ==> r.uninstall_string matches Some(t) && t@ == unquoted(
            u@,
        ),
        r.install_dir matches Some(d) ==> r.uninstall_string matches Some(u) && d@.len()
            < unquoted(u@).len() && unquoted(u@).take(d@.len() as int) == d@,
        uninstall_string matches Some(u) && unquoted(u@).len() == 0 ==> r.install_dir is None,
        uninstall_string matches Some(u) && ends_in_name(unquoted(u@)) ==> r.install_dir is Some,
        uninstall_string matches Some(u) && bare_name(unquoted(u@)) ==> r.install_dir is Some
            && r.install_dir->0@ == Seq::<char>::empty(),
        uninstall_string matches Some(u) ==> (slash_path(unquoted(u@)) ==> r.install_dir is Some
            && r.install_dir->0@ == before_last_slash(unquoted(u@))),
        uninstall_string matches Some(u) ==> opt_text(r.install_dir) == path_parent_text(unquoted(u@)),
        display_version is None ==> r.display_version is None,
        display_version matches Some(v) ==> r.display_version matches Some(t) && t@ == unquoted(
            v@,
        ),
        r.registry_path@ == "HKLM\\"@ + key_path@,
{
    let uninstall = unquote_opt(uninstall_string);
    let display = unquote_opt(display_version);
    let install_dir = match &uninstall {
        Some(u) => parse_install_dir(u.as_str()),
        None => None,
    };
    proof {
        if uninstall is Some {
            assert(unquoted(unquoted(uninstall_string->0@)) == unquoted(uninstall_string->0@)) by {
                crate::text::lemma_unquoted_idempotent(uninstall_string->0@);
            }
        }
    }
    RegistryRead {
        install_dir,
        uninstall_string: uninstall,
        display_version: display,
        registry_path: concat("HKLM\\", key_path),
    }
}

/// Where `MuMuManager.exe` may be, in the order to look: below `nx_main`
/// first for 5.x and 6.x, below `shell` first otherwise.
pub fn mumu_manager_candidates(install_dir: &str, major_version: &str) -> (r: Vec<PathSpec>)
    ensures
        r@.len() == 2,
        r@[0].base@ == install_dir@,
        r@[1].base@ == install_dir@,
        is_nx_major(major_version@) ==> r@[0].spec_parts() == seq!["nx_main"@, "MuMuManager.exe"@]
            && r@[1].spec_parts() == seq!["shell"@, "MuMuManager.exe"@],
        !is_nx_major(major_version@) ==> r@[0].spec_parts() == seq!["shell"@, "MuMuManager.exe"@]
            && r@[1].spec_parts() == seq!["nx_main"@, "MuMuManager.exe"@],
{
    let mut r: Vec<PathSpec> = Vec::new();
    if first_is(major_version, '5') || first_is(major_version, '6') {
        r.push(path2(install_dir, "nx_main", "MuMuManager.exe"));
        r.push(path2(install_dir, "shell", "MuMuManager.exe"));
    } else {
        r.push(path2(install_dir, "shell", "MuMuManager.exe"));
        r.push(path2(install_dir, "nx_main", "MuMuManager.exe"));
    }
    r
}

// ---------------------------------------------------------------------------
// install_config.json
// ---------------------------------------------------------------------------

/// What reading one `install_config.json` gave.
pub enum ConfigProbe {
    /// The file does not exist.
    Missing,
    /// The file could not be read; the reason.
    ReadFailed(String),
    /// The file is not JSON; the reason.
    ParseFailed(String),
    /// The `product.version` and `product.fchannel` strings, where present.
    Parsed { version: Option<String>, channel: Option<String> },
}

/// The view of an optional string.
pub open spec fn opt_text(o: Option<String>) -> Option<Seq<char>> {
    match o {
        Some(s) => Some(s@),
        None => None,
    }
}

/// What reading one existing `install_config.json` gave
/// (`read_install_config`): the read error, the parse error, or the
/// `product.version` and `product.fchannel` strings.
pub fn probe_from_text(read: Result<String, String>) -> (r: ConfigProbe)
    ensures
        read matches Err(e) ==> r matches ConfigProbe::ReadFailed(m) && m@ == e@,
        read matches Ok(t) ==> match (
            json_entry_field(t@, "product"@, "version"@),
            json_entry_field(t@, "product"@, "fchannel"@),
        ) {
            (Err(e), _) => r matches ConfigProbe::ParseFailed(m) && m@ == e,
            (Ok(_), Err(e)) => r matches ConfigProbe::ParseFailed(m) && m@ == e,
            (Ok(v), Ok(c)) => r matches ConfigProbe::Parsed { version, channel } && opt_text(version)
                == entry_member(v) && opt_text(channel) == entry_member(c),
        },
{
    match read {
        Err(e) => ConfigProbe::ReadFailed(e),
        Ok(t) => {
            let version = match entry_field(t.as_str(), "product", "version") {
                Ok(e) => member_of(e),
                Err(e) => {
                    return ConfigProbe::ParseFailed(e);
                },
            };
            let channel = match entry_field(t.as_str(), "product", "fchannel") {
                Ok(e) => member_of(e),
                Err(e) => {
                    return ConfigProbe::ParseFailed(e);
                },
            };
            ConfigProbe::Parsed { version, channel }
        },
    }
}

/// The member string of an entry, when the entry and the member are there.
pub open spec fn entry_member(e: Option<(bool, bool, Option<Seq<char>>)>) -> Option<Seq<char>> {
    match e {
        Some((_, _, m)) => m,
        None => None,
    }
}

fn member_of(e: Option<(bool, bool, Option<String>)>) -> (r: Option<String>)
    ensures
        opt_text(r) == entry_member(entry_view(e)),
{
    match e {
        Some((_, _, m)) => m,
        None => None,
    }
}

/// What `install_config.json` says: version, channel, major version and
/// the application data subdirectory the file was found in
/// (`MuMuPlayer` or `MuMuPlayer-12.0`).
pub struct InstallConfig {
    pub version: String,
    pub channel: String,
    pub major: String,
    pub subdir: String,
}

/// The problem to report for a probe that gave no version.
pub open spec fn probe_problem(label: Seq<char>, p: ConfigProbe) -> Option<Seq<char>> {
    match p {
        ConfigProbe::Missing => None,
        ConfigProbe::ReadFailed(e) => Some(label + " install_config.json 读取失败: "@ + e@),
        ConfigProbe::ParseFailed(e) => Some(label + " install_config.json JSON 解析失败: "@ + e@),
        ConfigProbe::Parsed { version, channel } => match version {
            Some(_) => None,
            None => Some(label + " install_config.json 中未找到 version 字段"@),
        },
    }
}

/// The configuration a probe yields, as (version, channel, major, subdir).
pub open spec fn found_config(subdir: Seq<char>, p: ConfigProbe) -> Option<(Seq<char>, Seq<char>, Seq<char>, Seq<char>)> {
    match p {
        ConfigProbe::Parsed { version: Some(v), channel } => Some(
            (
                v@,
                match channel {
                    Some(ch) => ch@,
                    None => Seq::empty(),
                },
                major_of(v@),
                subdir,
            ),
        ),
        _ => None,
    }
}

/// The view of a configuration, as (version, channel, major, subdir).
pub open spec fn config_view(c: InstallConfig) -> (Seq<char>, Seq<char>, Seq<char>, Seq<char>) {
    (c.version@, c.channel@, c.major@, c.subdir@)
}

/// Whether a probe found a version.
pub open spec fn probe_found(p: ConfigProbe) -> bool {
    p matches ConfigProbe::Parsed { version: Some(_), .. }
}

/// The problems of the probes, in order.
pub open spec fn probe_problems(v5: ConfigProbe, v4: ConfigProbe) -> Seq<Seq<char>> {
    let a: Seq<Seq<char>> = match probe_problem("V5"@, v5) {
        Some(e) => seq![e],
        None => Seq::empty(),
    };
    let b: Seq<Seq<char>> = match probe_problem("V4"@, v4) {
        Some(e) => seq![e],
        None => Seq::empty(),
    };
    a + b
}

/// `items` joined with `sep` between them.
pub open spec fn join_with(items: Seq<Seq<char>>, sep: Seq<char>) -> Seq<char>
    decreases items.len(),
{
    if items.len() == 0 {
        Seq::empty()
    } else if items.len() == 1 {
        items[0]
    } else {
        join_with(items.drop_last(), sep) + sep + items.last()
    }
}

/// Joins texts with a separator.
pub fn join_texts(items: &Vec<String>, sep: &str) -> (r: String)
    ensures
        r@ == join_with(items@.map_values(|s: String| s@), sep@),
{
    let n = items.len();
    let mut r = String::new();
    for i in 0..n
        invariant
            n == items@.len(),
            r@ == join_with(items@.take(i as int).map_values(|s: String| s@), sep@),
    {
        assert(items@.take(i + 1).map_values(|s: String| s@).drop_last() =~= items@.take(
            i as int,
        ).map_values(|s: String| s@));
        if i > 0 {
            r.append(sep);
        }
        r.append(items[i].as_str());
    }
    assert(items@.take(n as int) == items@);
    r
}

fn probe_outcome(label: &str, subdir: &str, probe: ConfigProbe, problems: &mut Vec<String>) -> (r: Option<
    InstallConfig,
>)
    ensures
        probe_found(probe) ==> r is Some && config_view(r->0) == found_config(subdir@, probe)->0
            && final(problems)@ == old(problems)@,
        !probe_found(probe) ==> r is None && final(problems)@.map_values(|s: String| s@) == old(
            problems,
        )@.map_values(|s: String| s@) + match probe_problem(label@, probe) {
            Some(e) => seq![e],
            None => Seq::empty(),
        },
{
    match probe {
        ConfigProbe::Missing => {
            assert(problems@.map_values(|s: String| s@) =~= old(problems)@.map_values(
                |s: String| s@,
            ) + Seq::empty());
            None
        },
        ConfigProbe::ReadFailed(e) => {
            problems.push(concat3(label, " install_config.json 读取失败: ", e.as_str()));
            assert(problems@.map_values(|s: String| s@) =~= old(problems)@.map_values(
                |s: String| s@,
            ) + seq![probe_problem(label@, probe)->0]);
            None
        },
        ConfigProbe::ParseFailed(e) => {
            problems.push(concat3(label, " install_config.json JSON 解析失败: ", e.as_str()));
            assert(problems@.map_values(|s: String| s@) =~= old(problems)@.map_values(
                |s: String| s@,
            ) + seq![probe_problem(label@, probe)->0]);
            None
        },
        ConfigProbe::Parsed { version, channel } => match version {
            Some(v) => {
                let major = parse_major_version(v.as_str());
                let ch = match channel {
                    Some(c) => c,
                    None => String::new(),
                };
                Some(InstallConfig { version: v, channel: ch, major, subdir: owned(subdir) })
            },
            None => {
                problems.push(concat(label, " install_config.json 中未找到 version 字段"));
                assert(problems@.map_values(|s: String| s@) =~= old(problems)@.map_values(
                    |s: String| s@,
                ) + seq![probe_problem(label@, probe)->0]);
                None
            },
        },
    }
}

/// The failure text when neither file gave a version.
pub open spec fn config_failure(v5_path: Seq<char>, v4_path: Seq<char>, problems: Seq<Seq<char>>) -> Seq<char> {
    "无法读取 install_config.json。尝试了 V5("@ + v5_path + ") 和 V4("@ + v4_path + ")。错误: "@
        + join_with(problems, "; "@)
}

/// The outcome of reading `install_config.json` (`read_install_config`):
/// the 5.x file (below `MuMuPlayer`) is tried first, then the 4.x file
/// (below `MuMuPlayer-12.0`); the first that holds a version wins, with the
/// subdirectory it was found in, else the problems of both are reported.
pub fn install_config_outcome(
    v5: ConfigProbe,
    v4: ConfigProbe,
    v5_path: &str,
    v4_path: &str,
) -> (r: Result<InstallConfig, String>)
    ensures
        probe_found(v5) ==> r is Ok && config_view(r->Ok_0) == found_config("MuMuPlayer"@, v5)->0,
        !probe_found(v5) && probe_found(v4) ==> r is Ok && config_view(r->Ok_0) == found_config(
            "MuMuPlayer-12.0"@,
            v4,
        )->0,
        !probe_found(v5) && !probe_found(v4) ==> r is Err && r->Err_0@ == config_failure(
            v5_path@,
            v4_path@,
            probe_problems(v5, v4),
        ),
{
    let mut problems: Vec<String> = Vec::new();
    let ghost p5 = v5;
    let ghost p4 = v4;
    match probe_outcome("V5", "MuMuPlayer", v5, &mut problems) {
        Some(c) => {
            return Ok(c);
        },
        None => {},
    }
    match probe_outcome("V4", "MuMuPlayer-12.0", v4, &mut problems) {
        Some(c) => {
            return Ok(c);
        },
        None => {},
    }
    assert(problems@.map_values(|s: String| s@) =~= probe_problems(p5, p4));
    let joined = join_texts(&problems, "; ");
    let mut msg = owned("无法读取 install_config.json。尝试了 V5(");
    msg.append(v5_path);
    msg.append(") 和 V4(");
    msg.append(v4_path);
    msg.append(")。错误: ");
    msg.append(joined.as_str());
    Err(msg)
}

// ---------------------------------------------------------------------------
// Putting the information together
// ---------------------------------------------------------------------------

/// The info after the application data directory was looked up: recorded
/// when found, else the problem is added.
pub fn info_with_appdata(info: MuMuInfo, appdata: Result<String, String>) -> (r: MuMuInfo)
    ensures
        appdata matches Ok(d) ==> r.appdata_dir == Some(d) && r.errors == info.errors,
        appdata matches Err(e) ==> r.appdata_dir == info.appdata_dir && error_texts(r)
            == error_texts(info).push("APPDATA 获取失败: "@ + e@),
        r.install_dir == info.install_dir,
        r.mumu_manager_path == info.mumu_manager_path,
        r.registry_key == info.registry_key,
        r.full_version == info.full_version,
        r.major_version == info.major_version,
        r.channel == info.channel,
        r.uninstall_string == info.uninstall_string,
{
    let mut info = info;
    match appdata {
        Ok(d) => {
            info.appdata_dir = Some(d);
        },
        Err(e) => {
            let ghost before = error_texts(info);
            info.errors.push(concat("APPDATA 获取失败: ", e.as_str()));
            assert(error_texts(info) =~= before.push("APPDATA 获取失败: "@ + e@));
        },
    }
    info
}

/// The info after `install_config.json` was read, with the major version to
/// go on with (empty when the file gave none).
pub fn info_with_install_config(info: MuMuInfo, config: Result<InstallConfig, String>) -> (r: (
    MuMuInfo,
    String,
))
    ensures
        config matches Ok(c) ==> (r.0.full_version == Some(c.version) && r.0.channel == Some(
            c.channel,
        ) && r.0.major_version is Some && r.0.major_version->0@ == c.major@ && r.1@ == c.major@
            && r.0.errors == info.errors),
        config matches Err(e) ==> r.0.full_version == info.full_version && r.0.channel
            == info.channel && r.0.major_version == info.major_version && r.1@ == Seq::<
            char,
        >::empty() && error_texts(r.0) == error_texts(info).push(
            "install_config.json 读取失败: "@ + e@,
        ),
        r.0.install_dir == info.install_dir,
        r.0.mumu_manager_path == info.mumu_manager_path,
        r.0.appdata_dir == info.appdata_dir,
        r.0.registry_key == info.registry_key,
        r.0.uninstall_string == info.uninstall_string,
{
    let mut info = info;
    match config {
        Ok(c) => {
            let major = owned(c.major.as_str());
            info.full_version = Some(c.version);
            info.channel = Some(c.channel);
            info.major_version = Some(c.major);
            (info, major)
        },
        Err(e) => {
            let ghost before = error_texts(info);
            info.errors.push(concat("install_config.json 读取失败: ", e.as_str()));
            assert(error_texts(info) =~= before.push("install_config.json 读取失败: "@ + e@));
            (info, String::new())
        },
    }
}

/// The info after the registry was read, the major version to go on with,
/// and the install directory whose `MuMuManager.exe` is to be looked for
/// (only when the registry named one).
pub fn info_with_registry(info: MuMuInfo, major: String, registry: Result<RegistryRead, String>) -> (r: (
    MuMuInfo,
    String,
    Option<String>,
))
    ensures
        registry matches Ok(reg) ==> {
            &&& r.0.install_dir == reg.install_dir
            &&& r.0.uninstall_string == reg.uninstall_string
            &&& r.0.registry_key == Some(reg.registry_path)
            &&& r.0.full_version == (if info.full_version is None {
                reg.display_version
            } else {
                info.full_version
            })
            &&& (r.0.full_version is Some && info.major_version is None) ==> (
            r.0.major_version is Some && r.0.major_version->0@ == major_of(r.0.full_version->0@)
                && r.1@ == major_of(r.0.full_version->0@))
            &&& !(r.0.full_version is Some && info.major_version is None) ==> (r.0.major_version
                == info.major_version && r.1@ == major@)
            &&& (r.2 is Some <==> reg.install_dir is Some)
            &&& r.2 is Some ==> r.2->0@ == reg.install_dir->0@
            &&& r.0.errors == info.errors
        },
        registry matches Err(e) ==> {
            &&& r.0.install_dir == info.install_dir
            &&& r.0.uninstall_string == info.uninstall_string
            &&& r.0.registry_key == info.registry_key
            &&& r.0.full_version == info.full_version
            &&& r.0.major_version == info.major_version
            &&& r.1@ == major@
            &&& r.2 is None
            &&& error_texts(r.0) == error_texts(info).push("注册表读取失败: "@ + e@)
        },
        r.0.mumu_manager_path == info.mumu_manager_path,
        r.0.appdata_dir == info.appdata_dir,
        r.0.channel == info.channel,
{
    let mut info = info;
    let mut major = major;
    match registry {
        Ok(reg) => {
            let lookup = match &reg.install_dir {
                Some(d) => Some(d.clone()),
                None => None,
            };
            info.install_dir = reg.install_dir;
            info.uninstall_string = reg.uninstall_string;
            info.registry_key = Some(reg.registry_path);
            if info.full_version.is_none() {
                info.full_version = reg.display_version;
            }
            let m = match &info.full_version {
                Some(v) => if info.major_version.is_none() {
                    Some(parse_major_version(v.as_str()))
                } else {
                    None
                },
                None => None,
            };
            match m {
                Some(m) => {
                    major = owned(m.as_str());
                    info.major_version = Some(m);
                },
                None => {},
            }
            (info, major, lookup)
        },
        Err(e) => {
            let ghost before = error_texts(info);
            info.errors.push(concat("注册表读取失败: ", e.as_str()));
            assert(error_texts(info) =~= before.push("注册表读取失败: "@ + e@));
            (info, major, None)
        },
    }
}

/// The advice recorded when `MuMuManager.exe` is not where it should be.
pub open spec fn manager_missing_advice() -> Seq<char> {
    "请确认版本不低于 4.0.0.3179"@
}

/// The info after looking for `MuMuManager.exe` below the registry's install
/// directory: the path when found, else the advice is added.
pub fn info_with_manager_lookup(info: MuMuInfo, found: Option<String>) -> (r: MuMuInfo)
    ensures
        found is Some ==> r.mumu_manager_path == found && r.errors == info.errors,
        found is None ==> r.mumu_manager_path == info.mumu_manager_path && error_texts(r)
            == error_texts(info).push(manager_missing_advice()),
        r.install_dir == info.install_dir,
        r.appdata_dir == info.appdata_dir,
        r.registry_key == info.registry_key,
        r.full_version == info.full_version,
        r.major_version == info.major_version,
        r.channel == info.channel,
        r.uninstall_string == info.uninstall_string,
{
    let mut info = info;
    match found {
        Some(p) => {
            info.mumu_manager_path = Some(p);
        },
        None => {
            let ghost before = error_texts(info);
            info.errors.push(owned("请确认版本不低于 4.0.0.3179"));
            assert(error_texts(info) =~= before.push(manager_missing_advice()));
        },
    }
    info
}

/// The install directory assumed when the registry named none.
pub open spec fn default_install_dir() -> Seq<char> {
    "D:\\Program Files\\Netease\\MuMu"@
}

/// The default install directory to check, when the registry named no
/// install directory but a major version is known.
pub fn default_install_dir_probe(info: &MuMuInfo, major: &str) -> (r: Option<String>)
    ensures
        info.install_dir is None && major@.len() > 0 ==> r is Some && r->0@
            == default_install_dir(),
        !(info.install_dir is None && major@.len() > 0) ==> r is None,
{
    if info.install_dir.is_none() && !major.is_empty() {
        Some(owned("D:\\Program Files\\Netease\\MuMu"))
    } else {
        None
    }
}

/// The info once the default install directory was found to exist, with
/// whatever `MuMuManager.exe` was found below it.
pub fn info_with_default_dir(info: MuMuInfo, dir: String, manager: Option<String>) -> (r: MuMuInfo)
    ensures
        r.install_dir == Some(dir),
        r.mumu_manager_path == manager,
        r.appdata_dir == info.appdata_dir,
        r.registry_key == info.registry_key,
        r.full_version == info.full_version,
        r.major_version == info.major_version,
        r.channel == info.channel,
        r.uninstall_string == info.uninstall_string,
        r.errors == info.errors,
{
    let mut info = info;
    info.install_dir = Some(dir);
    info.mumu_manager_path = manager;
    info
}

} // verus!
