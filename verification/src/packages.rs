//! Resource packages: how an installed package folder is named and
//! described, and how archive entries are placed inside it.
use vstd::prelude::*;

use crate::download::{url_last_segment, last_url_segment};
use crate::paths::{path1, PathSpec};
use crate::text::{
    alphanumeric, chars_of, concat, contains, has_substring, has_suffix, ends_with, is_alphanumeric,
    lowercase, owned, same_text, string_of, to_lowercase, trim_chars, trimmed,
};

verus! {

/// The description file that a resource package carries (name, description, web page).
pub struct ManifestInfo {
    pub name: String,
    pub description: String,
    pub webpage: String,
}

/// One file listed by a `.desc` file.
pub struct FileListEntry {
    pub filename: String,
    pub sha256: String,
    pub size: i64,
}

impl Default for ManifestInfo {
    fn default() -> (r: Self)
        ensures
            r.name@ == Seq::<char>::empty(),
            r.description@ == Seq::<char>::empty(),
            r.webpage@ == Seq::<char>::empty(),
    {
        ManifestInfo { name: String::new(), description: String::new(), webpage: String::new() }
    }
}

// ---------------------------------------------------------------------------
// Folder names
// ---------------------------------------------------------------------------

/// Whether `safe_name` keeps a character: letters, digits, `_`, `-`, `.`.
pub open spec fn keeps_char(c: char) -> bool {
    alphanumeric(c) || c == '_' || c == '-' || c == '.'
}

/// The character `safe_name` writes for `c`.
pub open spec fn safe_char(c: char) -> char {
    if keeps_char(c) {
        c
    } else {
        '_'
    }
}

/// A folder name made from any text: every character other than a letter,
/// digit, `_`, `-` or `.` becomes `_`; a blank result becomes `package`.
pub open spec fn safe_name_of(name: Seq<char>) -> Seq<char> {
    let cleaned = name.map_values(|c: char| safe_char(c));
    if trimmed(cleaned).len() == 0 {
        "package"@
    } else {
        cleaned
    }
}

/// A folder name made from any text (`safe_name`).
pub fn safe_name(name: &str) -> (r: String)
    ensures
        r@ == safe_name_of(name@),
{
    let v = chars_of(name);
    let n = v.len();
    let mut cleaned: Vec<char> = Vec::new();
    for i in 0..n
        invariant
            n == v@.len(),
            v@ == name@,
            cleaned@ == v@.take(i as int).map_values(|c: char| safe_char(c)),
    {
        let c = v[i];
        let keep = is_alphanumeric(c) || c == '_' || c == '-' || c == '.';
        if keep {
            cleaned.push(c);
        } else {
            cleaned.push('_');
        }
        assert(cleaned@ =~= v@.take(i + 1).map_values(|c: char| safe_char(c)));
    }
    assert(v@.take(n as int) == v@);
    let t = trim_chars(cleaned.as_slice());
    if t.len() == 0 {
        owned("package")
    } else {
        string_of(cleaned.as_slice())
    }
}

/// Every character of a safe name is a letter, digit, `_`, `-` or `.`.
pub proof fn law_safe_name_chars(name: Seq<char>)
    ensures
        forall|i: int| 0 <= i < safe_name_of(name).len() ==> keeps_char(#[trigger] safe_name_of(name)[i]),
{
    reveal_strlit("package");
    let cleaned = name.map_values(|c: char| safe_char(c));
    if trimmed(cleaned).len() == 0 {
        assert forall|i: int| 0 <= i < safe_name_of(name).len() implies keeps_char(#[trigger] safe_name_of(name)[i]) by {
            assert("package"@[i] as u32 >= 97);
        }
    }
}

/// A safe name never holds a path separator (`/` or `\`): it is a single
/// path component.
pub proof fn law_safe_name_single_component(name: Seq<char>)
    ensures
        !safe_name_of(name).contains('/'),
        !safe_name_of(name).contains('\\'),
{
    law_safe_name_chars(name);
    let s = safe_name_of(name);
    if s.contains('/') {
        let k = choose|k: int| 0 <= k < s.len() && s[k] == '/';
        assert(keeps_char(s[k]));
    }
    if s.contains('\\') {
        let k = choose|k: int| 0 <= k < s.len() && s[k] == '\\';
        assert(keeps_char(s[k]));
    }
}

/// Making a name safe twice changes nothing more.
pub proof fn law_safe_name_idempotent(name: Seq<char>)
    ensures
        safe_name_of(safe_name_of(name)) == safe_name_of(name),
{
    law_safe_name_chars(name);
    let s = safe_name_of(name);
    let again = s.map_values(|c: char| safe_char(c));
    assert(again =~= s);
    reveal_strlit("package");
    if trimmed(again).len() == 0 {
        let cleaned = name.map_values(|c: char| safe_char(c));
        if trimmed(cleaned).len() != 0 {
            assert(trimmed(cleaned).len() == 0) by {
                assert(again == cleaned);
            }
        } else {
            assert(s == "package"@);
            assert(trimmed(s) =~= s) by {
                lemma_trimmed_no_ws(s);
            }
        }
    }
}

/// A name becomes `package` only when it is empty: any other name is kept
/// character by character, each character that is not a letter, digit,
/// `_`, `-` or `.` becoming `_`.
pub proof fn law_safe_name_blank_only_when_empty(name: Seq<char>)
    ensures
        name.len() > 0 ==> safe_name_of(name) == name.map_values(|c: char| safe_char(c)),
        name.len() == 0 ==> safe_name_of(name) == "package"@,
{
    let cleaned = name.map_values(|c: char| safe_char(c));
    assert forall|i: int| 0 <= i < cleaned.len() implies !crate::text::white_space(
        #[trigger] cleaned[i],
    ) by {
        assert(keeps_char(cleaned[i]));
    }
    lemma_trimmed_no_ws(cleaned);
}

proof fn lemma_trimmed_no_ws(s: Seq<char>)
    requires
        forall|i: int| 0 <= i < s.len() ==> !crate::text::white_space(#[trigger] s[i]),
    ensures
        trimmed(s) == s,
{
    let p = crate::text::ws_pred();
    if s.len() > 0 {
        assert(!p(s[0]));
        assert(crate::text::keep_from(s, p, 0) == 0);
        assert(!p(s[s.len() - 1]));
        assert(crate::text::keep_until(s, p, 0, s.len() as int) == s.len());
    }
    assert(trimmed(s) =~= s);
}

/// The stem of a file name holding no path separator, as `Path::file_stem`
/// gives it: none for an empty name, `.` or `..`; the whole name when it
/// holds no `.` or only a leading one; else the text before the last `.`.
pub open spec fn stem_of(name: Seq<char>) -> Option<Seq<char>> {
    if name.len() == 0 || name == seq!['.'] || name == seq!['.', '.'] {
        None
    } else if !name.contains('.') {
        Some(name)
    } else {
        let k = last_dot(name, name.len() as int);
        if k == 0 {
            Some(name)
        } else {
            Some(name.take(k))
        }
    }
}

/// The index of the last `.` before `j` (-1 when there is none).
pub open spec fn last_dot(name: Seq<char>, j: int) -> int
    decreases j,
{
    if j <= 0 {
        -1
    } else if name[j - 1] == '.' {
        j - 1
    } else {
        last_dot(name, j - 1)
    }
}

proof fn lemma_last_dot(name: Seq<char>, j: int)
    requires
        0 <= j <= name.len(),
    ensures
        -1 <= last_dot(name, j) < j,
        last_dot(name, j) >= 0 ==> name[last_dot(name, j)] == '.',
        last_dot(name, j) == -1 ==> forall|k: int| 0 <= k < j ==> name[k] != '.',
    decreases j,
{
    if j > 0 && name[j - 1] != '.' {
        lemma_last_dot(name, j - 1);
    }
}

/// The stem of a safe file name (`Path::file_stem`), or `package` when it
/// has none.
pub fn stem_or_package(name: &str) -> (r: String)
    ensures
        match stem_of(name@) {
            Some(s) => r@ == s,
            None => r@ == "package"@,
        },
{
    let v = chars_of(name);
    let n = v.len();
    if n == 0 || (n == 1 && v[0] == '.') || (n == 2 && v[0] == '.' && v[1] == '.') {
        assert(n == 1 ==> v@ =~= seq!['.'] || v@[0] != '.');
        proof {
            if n == 1 && v@[0] == '.' {
                assert(v@ =~= seq!['.']);
            }
            if n == 2 && v@[0] == '.' && v@[1] == '.' {
                assert(v@ =~= seq!['.', '.']);
            }
        }
        return owned("package");
    }
    assert(name@ != seq!['.'] && name@ != seq!['.', '.']) by {
        if name@ == seq!['.'] {
            assert(v@[0] == '.');
        }
        if name@ == seq!['.', '.'] {
            assert(v@[0] == '.' && v@[1] == '.');
        }
    }
    let mut j: usize = n;
    while j > 0 && v[j - 1] != '.'
        invariant
            n == v@.len(),
            v@ == name@,
            j <= n,
            last_dot(name@, j as int) == last_dot(name@, n as int),
        decreases j,
    {
        j = j - 1;
    }
    proof {
        lemma_last_dot(name@, n as int);
    }
    if j == 0 {
        assert(last_dot(name@, n as int) == -1);
        assert(!name@.contains('.')) by {
            if name@.contains('.') {
                let k = choose|k: int| 0 <= k < name@.len() && name@[k] == '.';
                assert(name@[k] != '.');
            }
        }
        return string_of(v.as_slice());
    }
    let k = j - 1;
    assert(last_dot(name@, n as int) == k);
    assert(name@.contains('.')) by {
        assert(name@[k as int] == '.');
    }
    if k == 0 {
        return string_of(v.as_slice());
    }
    let mut out: Vec<char> = Vec::new();
    for i in 0..k
        invariant
            k < n,
            n == v@.len(),
            out@ == v@.take(i as int),
    {
        out.push(v[i]);
        assert(v@.take(i + 1) == v@.take(i as int).push(v@[i as int]));
    }
    string_of(out.as_slice())
}

/// The file name a downloaded package is saved as: the last segment of its
/// URL (without the query), or `download.zip` when that is empty.
pub open spec fn url_file_name(url: Seq<char>) -> Seq<char> {
    if url_last_segment(url).len() > 0 {
        url_last_segment(url)
    } else {
        "download.zip"@
    }
}

/// The file name a downloaded package is saved as.
pub fn file_name_from_url(url: &str) -> (r: String)
    ensures
        r@ == url_file_name(url@),
{
    let s = last_url_segment(url);
    if s.as_str().is_empty() {
        owned("download.zip")
    } else {
        s
    }
}

/// How a package file is installed.
pub enum PackageKind {
    /// A zip archive: unpacked with the built-in reader.
    Zip,
    /// A 7z archive: unpacked with 7-Zip.
    SevenZip,
    /// A self-extracting executable: run into the resource directory.
    SelfExtracting,
    /// Any other file: copied into its own folder.
    Plain,
}

/// How a local package is installed, by its lowercased extension.
pub fn package_kind_for_extension(ext: &str) -> (r: PackageKind)
    ensures
        lowercase(ext@) == "zip"@ ==> r is Zip,
        lowercase(ext@) == "7z"@ ==> r is SevenZip,
        lowercase(ext@) == "exe"@ ==> r is SelfExtracting,
        lowercase(ext@) != "zip"@ && lowercase(ext@) != "7z"@ && lowercase(ext@) != "exe"@ ==> r is Plain,
{
    proof {
        reveal_strlit("zip");
        reveal_strlit("7z");
        reveal_strlit("exe");
        assert("zip"@.len() == 3 && "7z"@.len() == 2 && "exe"@.len() == 3);
        assert("zip"@[0] != "exe"@[0]);
        assert("zip"@ != "7z"@ && "zip"@ != "exe"@ && "7z"@ != "exe"@);
    }
    let e = to_lowercase(ext);
    if same_text(e.as_str(), "zip") {
        PackageKind::Zip
    } else if same_text(e.as_str(), "7z") {
        PackageKind::SevenZip
    } else if same_text(e.as_str(), "exe") {
        PackageKind::SelfExtracting
    } else {
        PackageKind::Plain
    }
}

/// How a downloaded package is installed, by the end of its safe file name.
pub fn package_kind_for_file_name(name: &str) -> (r: PackageKind)
    ensures
        has_suffix(name@, ".zip"@) ==> r is Zip,
        !has_suffix(name@, ".zip"@) && has_suffix(name@, ".7z"@) ==> r is SevenZip,
        !has_suffix(name@, ".zip"@) && !has_suffix(name@, ".7z"@) && has_suffix(name@, ".exe"@) ==> r is SelfExtracting,
        !has_suffix(name@, ".zip"@) && !has_suffix(name@, ".7z"@) && !has_suffix(name@, ".exe"@) ==> r is Plain,
{
    let v = chars_of(name);
    let zip = chars_of(".zip");
    let sz = chars_of(".7z");
    let exe = chars_of(".exe");
    if ends_with(v.as_slice(), zip.as_slice()) {
        PackageKind::Zip
    } else if ends_with(v.as_slice(), sz.as_slice()) {
        PackageKind::SevenZip
    } else if ends_with(v.as_slice(), exe.as_slice()) {
        PackageKind::SelfExtracting
    } else {
        PackageKind::Plain
    }
}

/// The folder a downloaded package is installed into: the safe name of the
/// stem of the safe file name.
pub fn folder_name_for_download(url: &str) -> (r: (String, String))
    ensures
        r.0@ == safe_name_of(url_file_name(url@)),
        r.1@ == safe_name_of(
            match stem_of(safe_name_of(url_file_name(url@))) {
                Some(s) => s,
                None => "package"@,
            },
        ),
{
    let file = file_name_from_url(url);
    let safe_file = safe_name(file.as_str());
    let stem = stem_or_package(safe_file.as_str());
    let folder = safe_name(stem.as_str());
    (safe_file, folder)
}

/// The manifest written for the 7-Zip and aria2 tool packages: 7-Zip when
/// the lowercase folder name holds `7zip` or `7z`, else aria2 when it holds
/// `aria2`, else none.
pub fn tool_manifest(folder_name: &str) -> (r: Option<ManifestInfo>)
    ensures
        has_substring(lowercase(folder_name@), "7zip"@) || has_substring(lowercase(folder_name@), "7z"@) ==> r is Some
            && r->0.name@ == "7zip"@ && r->0.description@ == "7-Zip 命令行工具"@ && r->0.webpage@ == Seq::<char>::empty(),
        !(has_substring(lowercase(folder_name@), "7zip"@) || has_substring(lowercase(folder_name@), "7z"@))
            && has_substring(lowercase(folder_name@), "aria2"@) ==> r is Some && r->0.name@ == "aria2"@
            && r->0.description@ == "aria2 下载工具"@ && r->0.webpage@ == Seq::<char>::empty(),
        !(has_substring(lowercase(folder_name@), "7zip"@) || has_substring(lowercase(folder_name@), "7z"@))
            && !has_substring(lowercase(folder_name@), "aria2"@) ==> r is None,
{
    let l = to_lowercase(folder_name);
    let lc = chars_of(l.as_str());
    let a = chars_of("7zip");
    let b = chars_of("7z");
    let c = chars_of("aria2");
    let seven = contains(lc.as_slice(), a.as_slice()) || contains(lc.as_slice(), b.as_slice());
    let aria = contains(lc.as_slice(), c.as_slice());
    if seven {
        Some(ManifestInfo { name: owned("7zip"), description: owned("7-Zip 命令行工具"), webpage: String::new() })
    } else if aria {
        Some(ManifestInfo { name: owned("aria2"), description: owned("aria2 下载工具"), webpage: String::new() })
    } else {
        None
    }
}

/// The manifest written for a package that brought none: its folder name
/// and nothing else.
pub fn write_manifest(name: &str) -> (r: ManifestInfo)
    ensures
        r.name@ == name@,
        r.description@ == Seq::<char>::empty(),
        r.webpage@ == Seq::<char>::empty(),
{
    ManifestInfo { name: owned(name), description: String::new(), webpage: String::new() }
}

/// How a package folder is described: `resource` when it has a manifest,
/// else `directory`.
pub fn package_kind_label(has_manifest: bool) -> (r: String)
    ensures
        has_manifest ==> r@ == "resource"@,
        !has_manifest ==> r@ == "directory"@,
{
    if has_manifest {
        owned("resource")
    } else {
        owned("directory")
    }
}

/// The name a package is shown under: its manifest's name, or the folder
/// name when the manifest has none.
pub fn package_display_name(manifest_name: &str, folder_name: &str) -> (r: String)
    ensures
        manifest_name@.len() > 0 ==> r@ == manifest_name@,
        manifest_name@.len() == 0 ==> r@ == folder_name@,
{
    if !manifest_name.is_empty() {
        owned(manifest_name)
    } else {
        owned(folder_name)
    }
}

/// The version a package is shown with: that of its first `.desc` file, or
/// empty.
pub fn package_version(desc_versions: &Vec<String>) -> (r: String)
    ensures
        desc_versions@.len() > 0 ==> r@ == desc_versions@[0]@,
        desc_versions@.len() == 0 ==> r@ == Seq::<char>::empty(),
{
    if desc_versions.len() > 0 {
        desc_versions[0].clone()
    } else {
        String::new()
    }
}

// ---------------------------------------------------------------------------
// Archives and folders
// ---------------------------------------------------------------------------

/// One component of a path inside an archive.
pub enum EntryComponent {
    /// A plain name.
    Normal(String),
    /// A root, drive prefix, `.` or `..`.
    Other,
}

/// The plain names among the components.
pub open spec fn normal_names(c: Seq<EntryComponent>) -> Seq<Seq<char>>
    decreases c.len(),
{
    if c.len() == 0 {
        Seq::empty()
    } else {
        let prev = normal_names(c.drop_last());
        match c.last() {
            EntryComponent::Normal(s) => prev.push(s@),
            EntryComponent::Other => prev,
        }
    }
}

/// Where an archive entry goes below the destination
/// (`sanitize_entry_path`): only its plain names are kept, so that no entry
/// can leave the destination; an entry without any is refused.
pub fn sanitize_entry_path(components: Vec<EntryComponent>) -> (r: Result<Vec<String>, String>)
    ensures
        normal_names(components@).len() == 0 ==> r is Err && r->Err_0@ == "无效的压缩包路径"@,
        normal_names(components@).len() > 0 ==> r is Ok && crate::download::texts(r->Ok_0@) == normal_names(components@),
{
    let n = components.len();
    let mut names: Vec<String> = Vec::new();
    let mut i: usize = 0;
    let mut rest = components;
    let ghost all = rest@;
    let mut taken: Vec<EntryComponent> = Vec::new();
    while i < n
        invariant
            n == all.len(),
            i <= n,
            rest@ == all.skip(i as int),
            crate::download::texts(names@) == normal_names(all.take(i as int)),
        decreases n - i,
    {
        let c = rest.remove(0);
        assert(all.take(i + 1).drop_last() == all.take(i as int));
        assert(all.take(i + 1).last() == all[i as int]);
        assert(c == all[i as int]);
        match c {
            EntryComponent::Normal(s) => {
                names.push(s);
                assert(crate::download::texts(names@) =~= normal_names(all.take(i + 1)));
            },
            EntryComponent::Other => {},
        }
        assert(rest@ =~= all.skip(i + 1));
        i = i + 1;
    }
    assert(all.take(n as int) == all);
    if names.len() == 0 {
        Err(owned("无效的压缩包路径"))
    } else {
        Ok(names)
    }
}

/// A package whose archive held a single folder is flattened: its content
/// moves up one level.
pub fn flatten_single_top_dir(entry_count: usize, only_entry_is_dir: bool) -> (r: bool)
    ensures
        r == (entry_count == 1 && only_entry_is_dir),
{
    entry_count == 1 && only_entry_is_dir
}

/// One step of installing a package file.
pub enum InstallStep {
    /// Remove the package folder when it is there, then create it.
    PrepareFolder,
    /// Unpack the zip archive into the package folder.
    UnpackZip,
    /// Unpack the archive into the package folder with 7-Zip.
    UnpackSevenZip,
    /// Move the content of a single top folder up one level.
    FlattenSingleTopFolder,
    /// Write the default manifest (`write_manifest`) when the folder has none.
    WriteManifestIfMissing,
    /// Write the tool manifest (`tool_manifest`) when the folder is a tool's.
    WriteToolManifest,
    /// Run the self-extracting package into the resource folder.
    SelfExtractIntoResources,
    /// Copy the file into the package folder.
    CopyFile,
}

/// The steps that install a package file of a kind, in order, and whether
/// the package shown afterwards is the resource folder itself (`true`, for
/// a self-extracting package) or the package folder.
pub open spec fn install_steps_of(kind: PackageKind) -> (Seq<InstallStep>, bool) {
    match kind {
        PackageKind::Zip => (
            seq![
                InstallStep::PrepareFolder,
                InstallStep::UnpackZip,
                InstallStep::FlattenSingleTopFolder,
                InstallStep::WriteManifestIfMissing,
            ],
            false,
        ),
        PackageKind::SevenZip => (
            seq![
                InstallStep::PrepareFolder,
                InstallStep::UnpackSevenZip,
                InstallStep::FlattenSingleTopFolder,
                InstallStep::WriteToolManifest,
            ],
            false,
        ),
        PackageKind::SelfExtracting => (seq![InstallStep::SelfExtractIntoResources], true),
        PackageKind::Plain => (
            seq![InstallStep::PrepareFolder, InstallStep::CopyFile, InstallStep::WriteManifestIfMissing],
            false,
        ),
    }
}

/// The steps that install a package file of a kind (both install commands).
pub fn package_install_steps(kind: &PackageKind) -> (r: (Vec<InstallStep>, bool))
    ensures
        (r.0@, r.1) == install_steps_of(*kind),
{
    let mut v: Vec<InstallStep> = Vec::new();
    let shows_resources = match kind {
        PackageKind::Zip => {
            v.push(InstallStep::PrepareFolder);
            v.push(InstallStep::UnpackZip);
            v.push(InstallStep::FlattenSingleTopFolder);
            v.push(InstallStep::WriteManifestIfMissing);
            false
        },
        PackageKind::SevenZip => {
            v.push(InstallStep::PrepareFolder);
            v.push(InstallStep::UnpackSevenZip);
            v.push(InstallStep::FlattenSingleTopFolder);
            v.push(InstallStep::WriteToolManifest);
            false
        },
        PackageKind::SelfExtracting => {
            v.push(InstallStep::SelfExtractIntoResources);
            true
        },
        PackageKind::Plain => {
            v.push(InstallStep::PrepareFolder);
            v.push(InstallStep::CopyFile);
            v.push(InstallStep::WriteManifestIfMissing);
            false
        },
    };
    assert(v@ =~= install_steps_of(*kind).0);
    (v, shows_resources)
}

/// A package download must be answered with success; else it fails with
/// the HTTP status.
pub fn package_download_check(success: bool, status: &str) -> (r: Result<(), String>)
    ensures
        success ==> r is Ok,
        !success ==> r is Err && r->Err_0@ == crate::download::http_failure(status@),
{
    if success {
        Ok(())
    } else {
        Err(concat("下载失败: HTTP ", status))
    }
}

/// Whether the temporary download is removed after installing a package
/// from a URL: when the installation succeeded, and for a self-extracting
/// package whatever its outcome; a failed unpack keeps it.
pub fn remove_download_after(installed: bool, kind: &PackageKind) -> (r: bool)
    ensures
        r == (installed || *kind is SelfExtracting),
{
    installed || matches!(kind, PackageKind::SelfExtracting)
}

/// The folder `open_resource_dir` opens: the resource directory itself for
/// an empty name, else the named package below it.
pub fn resource_target(resource_dir: &str, name: &str) -> (r: PathSpec)
    ensures
        r.base@ == resource_dir@,
        name@.len() == 0 ==> r.spec_parts().len() == 0,
        name@.len() > 0 ==> r.spec_parts() == seq![name@],
{
    if name.is_empty() {
        let r = PathSpec { base: owned(resource_dir), parts: Vec::new() };
        assert(r.spec_parts() =~= Seq::<Seq<char>>::empty());
        r
    } else {
        path1(resource_dir, name)
    }
}

/// The refusal when a package does not exist.
pub fn missing_package(name: &str) -> (r: String)
    ensures
        r@ == "资源包不存在: "@ + name@,
{
    concat("资源包不存在: ", name)
}

/// The refusal when a `.desc` file does not exist.
pub fn missing_desc_file(desc_file: &str) -> (r: String)
    ensures
        r@ == "描述文件不存在: "@ + desc_file@,
{
    concat("描述文件不存在: ", desc_file)
}

/// The refusal when a local package path does not exist.
pub fn missing_source(path: &str) -> (r: String)
    ensures
        r@ == "路径不存在: "@ + path@,
{
    concat("路径不存在: ", path)
}

/// Packages are installed from archive files, never from folders.
pub fn folder_source_refusal() -> (r: String)
    ensures
        r@ == "不支持从文件夹安装资源包，选择压缩包文件"@,
{
    owned("不支持从文件夹安装资源包，选择压缩包文件")
}

/// The arguments of a self-extracting package, unpacking into `dest`.
pub fn self_extract_args(dest: &str) -> (r: Vec<String>)
    ensures
        crate::download::arg_texts(r@) == seq!["-y"@, "-o"@ + dest@],
{
    let mut r: Vec<String> = Vec::new();
    r.push(owned("-y"));
    r.push(concat("-o", dest));
    assert(crate::download::arg_texts(r@) =~= seq!["-y"@, "-o"@ + dest@]);
    r
}

/// The arguments of 7-Zip that unpack an archive into `dest`.
pub fn seven_zip_extract_args(dest: &str, archive: &str) -> (r: Vec<String>)
    ensures
        crate::download::arg_texts(r@) == seq!["x"@, "-y"@, "-o"@ + dest@, archive@],
{
    let mut r: Vec<String> = Vec::new();
    r.push(owned("x"));
    r.push(owned("-y"));
    r.push(concat("-o", dest));
    r.push(owned(archive));
    assert(crate::download::arg_texts(r@) =~= seq!["x"@, "-y"@, "-o"@ + dest@, archive@]);
    r
}

/// The arguments of aria2 that fetch a package into the resource directory
/// under a temporary name.
pub fn package_aria2_args(resource_dir: &str, url: &str) -> (r: Vec<String>)
    ensures
        crate::download::arg_texts(r@) == seq!["--allow-overwrite=true"@, "--dir"@, resource_dir@, "--out"@, "__download_tmp"@, url@],
{
    let mut r: Vec<String> = Vec::new();
    r.push(owned("--allow-overwrite=true"));
    r.push(owned("--dir"));
    r.push(owned(resource_dir));
    r.push(owned("--out"));
    r.push(owned("__download_tmp"));
    r.push(owned(url));
    assert(crate::download::arg_texts(r@) =~= seq!["--allow-overwrite=true"@, "--dir"@, resource_dir@, "--out"@, "__download_tmp"@, url@]);
    r
}

} // verus!
