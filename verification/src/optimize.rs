//! The emulator tweaks: what each one checks, which files it touches and in
//! which way, and what it reports.
use vstd::prelude::*;

use crate::decimal::decimal;
use crate::download::{arg_texts, unsigned_text};
use crate::json::{entry_field, json_entry_field, json_with_field, with_field};
use crate::mumu_info::{first_is, is_nx_major, opt_text, starts_with_char, MuMuInfo};
use crate::paths::{path2, path3, path4, path5, PathSpec};
use crate::text::{chars_of, concat, concat3, owned, same_text, string_of};

verus! {

// ---------------------------------------------------------------------------
// What the tweaks need from the emulator info
// ---------------------------------------------------------------------------

/// The major version of the info, empty when unknown.
pub fn major_version(info: &MuMuInfo) -> (r: String)
    ensures
        match info.major_version {
            Some(m) => r@ == m@,
            None => r@ == Seq::<char>::empty(),
        },
{
    match &info.major_version {
        Some(m) => m.clone(),
        None => String::new(),
    }
}

/// The install directory of the info, or the refusal when it is unknown.
pub fn get_install_dir_from_info(info: &MuMuInfo) -> (r: Result<String, String>)
    ensures
        match info.install_dir {
            Some(d) => r is Ok && r->Ok_0@ == d@,
            None => r is Err && r->Err_0@ == "未能获取 MuMu 安装目录"@,
        },
{
    match &info.install_dir {
        Some(d) => Ok(d.clone()),
        None => Err(owned("未能获取 MuMu 安装目录")),
    }
}

/// The application data directory of the info, or the refusal when it is
/// unknown.
pub fn get_appdata_dir_from_info(info: &MuMuInfo) -> (r: Result<String, String>)
    ensures
        match info.appdata_dir {
            Some(d) => r is Ok && r->Ok_0@ == d@,
            None => r is Err && r->Err_0@ == "未能获取 APPDATA 目录"@,
        },
{
    match &info.appdata_dir {
        Some(d) => Ok(d.clone()),
        None => Err(owned("未能获取 APPDATA 目录")),
    }
}

/// The refusal of tweaks that exist only for 5.x and 6.x.
pub open spec fn nx_only_text() -> Seq<char> {
    "该功能仅支持 5.x 或 6.x 版本"@
}

/// Tweaks that exist only for 5.x and 6.x refuse other versions.
pub fn require_nx_major(major: &str) -> (r: Result<(), String>)
    ensures
        is_nx_major(major@) ==> r is Ok,
        !is_nx_major(major@) ==> r is Err && r->Err_0@ == nx_only_text(),
{
    if first_is(major, '5') || first_is(major, '6') {
        Ok(())
    } else {
        Err(owned("该功能仅支持 5.x 或 6.x 版本"))
    }
}

/// The 4.x-only overlay tweak refuses other versions.
pub fn require_v4_major(major: &str) -> (r: Result<(), String>)
    ensures
        starts_with_char(major@, '4') ==> r is Ok,
        !starts_with_char(major@, '4') ==> r is Err && r->Err_0@ == "请使用其他方案"@,
{
    if first_is(major, '4') {
        Ok(())
    } else {
        Err(owned("请使用其他方案"))
    }
}

// ---------------------------------------------------------------------------
// hosts redirects
// ---------------------------------------------------------------------------

/// The two groups of servers that can be redirected to the local machine.
pub enum DomainGroup {
    /// The update servers.
    Update,
    /// The telemetry servers.
    Report,
}

/// The hosts lines of a group.
pub open spec fn group_entries(g: DomainGroup) -> Seq<Seq<char>> {
    match g {
        DomainGroup::Update => seq!["127.0.0.1 mumu.nie.netease.com"@, "127.0.0.1 g.fp.ps.netease.com"@],
        DomainGroup::Report => seq!["127.0.0.1 sentry.netease.com"@, "127.0.0.1 report.mumu.nie.netease.com"@],
    }
}

/// The name pinged to see whether a group is redirected.
pub open spec fn group_probe(g: DomainGroup) -> Seq<char> {
    match g {
        DomainGroup::Update => "g.fp.ps.netease.com"@,
        DomainGroup::Report => "report.mumu.nie.netease.com"@,
    }
}

/// The hosts lines of each group are exactly two redirects to the local
/// machine: the telemetry group blocks `sentry.netease.com` and
/// `report.mumu.nie.netease.com`, the update group `mumu.nie.netease.com` and
/// `g.fp.ps.netease.com`; and the name pinged to check a group is one of the
/// names that the group redirects.
pub proof fn law_group_entries()
    ensures
        group_entries(DomainGroup::Report) == seq![
            "127.0.0.1 sentry.netease.com"@,
            "127.0.0.1 report.mumu.nie.netease.com"@,
        ],
        group_entries(DomainGroup::Update) == seq![
            "127.0.0.1 mumu.nie.netease.com"@,
            "127.0.0.1 g.fp.ps.netease.com"@,
        ],
        forall|g: DomainGroup| #[trigger] group_entries(g).contains("127.0.0.1 "@ + group_probe(g)),
{
    reveal_strlit("127.0.0.1 ");
    reveal_strlit("127.0.0.1 report.mumu.nie.netease.com");
    reveal_strlit("report.mumu.nie.netease.com");
    reveal_strlit("127.0.0.1 g.fp.ps.netease.com");
    reveal_strlit("g.fp.ps.netease.com");
    assert("127.0.0.1 "@ + "report.mumu.nie.netease.com"@ =~= "127.0.0.1 report.mumu.nie.netease.com"@);
    assert("127.0.0.1 "@ + "g.fp.ps.netease.com"@ =~= "127.0.0.1 g.fp.ps.netease.com"@);
    assert(group_entries(DomainGroup::Report)[1] == "127.0.0.1 report.mumu.nie.netease.com"@);
    assert(group_entries(DomainGroup::Update)[1] == "127.0.0.1 g.fp.ps.netease.com"@);
    assert forall|g: DomainGroup| #[trigger] group_entries(g).contains("127.0.0.1 "@ + group_probe(g)) by {
        match g {
            DomainGroup::Report => assert(group_entries(g)[1] == "127.0.0.1 "@ + group_probe(g)),
            DomainGroup::Update => assert(group_entries(g)[1] == "127.0.0.1 "@ + group_probe(g)),
        }
    }
}

impl DomainGroup {
    /// The hosts lines that redirect the group.
    pub fn entries(&self) -> (r: Vec<String>)
        ensures
            arg_texts(r@) == group_entries(*self),
            *self is Report ==> arg_texts(r@) == seq![
                "127.0.0.1 sentry.netease.com"@,
                "127.0.0.1 report.mumu.nie.netease.com"@,
            ],
            *self is Update ==> arg_texts(r@) == seq![
                "127.0.0.1 mumu.nie.netease.com"@,
                "127.0.0.1 g.fp.ps.netease.com"@,
            ],
    {
        let mut r: Vec<String> = Vec::new();
        match self {
            DomainGroup::Update => {
                r.push(owned("127.0.0.1 mumu.nie.netease.com"));
                r.push(owned("127.0.0.1 g.fp.ps.netease.com"));
            },
            DomainGroup::Report => {
                r.push(owned("127.0.0.1 sentry.netease.com"));
                r.push(owned("127.0.0.1 report.mumu.nie.netease.com"));
            },
        }
        assert(arg_texts(r@) =~= group_entries(*self));
        r
    }

    /// The name pinged to check the redirect.
    pub fn probe_domain(&self) -> (r: String)
        ensures
            r@ == group_probe(*self),
    {
        match self {
            DomainGroup::Update => owned("g.fp.ps.netease.com"),
            DomainGroup::Report => owned("report.mumu.nie.netease.com"),
        }
    }

    /// The outcome of redirecting the group: it must now resolve locally.
    pub fn block_outcome(&self, resolves_locally: bool) -> (r: Result<String, String>)
        ensures
            !resolves_locally ==> r is Err && r->Err_0@ == "hosts 修改失败，仍能正常解析域名"@,
            resolves_locally && *self is Update ==> r is Ok && r->Ok_0@ == "更新域名已屏蔽"@,
            resolves_locally && *self is Report ==> r is Ok && r->Ok_0@ == "数据上报域名已屏蔽"@,
    {
        if !resolves_locally {
            return Err(owned("hosts 修改失败，仍能正常解析域名"));
        }
        match self {
            DomainGroup::Update => Ok(owned("更新域名已屏蔽")),
            DomainGroup::Report => Ok(owned("数据上报域名已屏蔽")),
        }
    }

    /// The outcome of lifting the redirect: it must no longer resolve
    /// locally (a failed ping counts as not local).
    pub fn unblock_outcome(&self, resolves_locally: bool) -> (r: Result<String, String>)
        ensures
            resolves_locally ==> r is Err && r->Err_0@ == "解析仍未恢复，请检查网络或 hosts 配置"@,
            !resolves_locally && *self is Update ==> r is Ok && r->Ok_0@ == "更新域名已恢复"@,
            !resolves_locally && *self is Report ==> r is Ok && r->Ok_0@ == "数据上报域名已恢复"@,
    {
        if resolves_locally {
            return Err(owned("解析仍未恢复，请检查网络或 hosts 配置"));
        }
        match self {
            DomainGroup::Update => Ok(owned("更新域名已恢复")),
            DomainGroup::Report => Ok(owned("数据上报域名已恢复")),
        }
    }
}

/// Where the Windows hosts file is.
pub fn get_hosts_path() -> (r: String)
    ensures
        r@ == "C:\\Windows\\System32\\drivers\\etc\\hosts"@,
{
    owned("C:\\Windows\\System32\\drivers\\etc\\hosts")
}

// ---------------------------------------------------------------------------
// Decoding command output
// ---------------------------------------------------------------------------

/// What `encoding_rs::GBK.decode` gives for some bytes: the text and whether
/// malformed sequences were replaced.
pub uninterp spec fn gbk_decoding(bytes: Seq<u8>) -> (Seq<char>, bool);

/// What `String::from_utf8_lossy` gives for some bytes.
pub uninterp spec fn utf8_lossy(bytes: Seq<u8>) -> Seq<char>;

/// Trusted: calls `std::str::from_utf8`, which succeeds exactly on valid
/// UTF-8 and then holds the decoded characters.
#[verifier::external_body]
fn utf8_text(bytes: &[u8]) -> (r: Option<String>)
    ensures
        r is Some <==> vstd::utf8::valid_utf8(bytes@),
        r matches Some(s) ==> s@ == vstd::utf8::decode_utf8(bytes@),
{
    std::str::from_utf8(bytes).ok().map(|s| s.to_string())
}

/// Trusted: calls `Encoding::decode` of `encoding_rs::GBK`; the text and
/// the malformed-input flag are named `gbk_decoding`.
#[verifier::external_body]
fn gbk_decode(bytes: &[u8]) -> (r: (String, bool))
    ensures
        (r.0@, r.1) == gbk_decoding(bytes@),
{
    let (cow, _encoding, had_errors) = encoding_rs::GBK.decode(bytes);
    (cow.into_owned(), had_errors)
}

/// Trusted: calls `String::from_utf8_lossy`; the result is named
/// `utf8_lossy`.
#[verifier::external_body]
fn lossy_text(bytes: &[u8]) -> (r: String)
    ensures
        r@ == utf8_lossy(bytes@),
{
    String::from_utf8_lossy(bytes).to_string()
}

/// The text of Windows command output: UTF-8 when it is valid UTF-8, else
/// GBK (the Chinese console code page) when that decodes cleanly, else
/// UTF-8 with replacement characters.
pub open spec fn windows_output_text(bytes: Seq<u8>) -> Seq<char> {
    if vstd::utf8::valid_utf8(bytes) {
        vstd::utf8::decode_utf8(bytes)
    } else if !gbk_decoding(bytes).1 {
        gbk_decoding(bytes).0
    } else {
        utf8_lossy(bytes)
    }
}

/// Decodes Windows command output (`decode_windows_output`).
pub fn decode_windows_output(bytes: &[u8]) -> (r: String)
    ensures
        r@ == windows_output_text(bytes@),
{
    match utf8_text(bytes) {
        Some(s) => s,
        None => {
            let (text, had_errors) = gbk_decode(bytes);
            if had_errors {
                lossy_text(bytes)
            } else {
                text
            }
        },
    }
}

// ---------------------------------------------------------------------------
// Startup image
// ---------------------------------------------------------------------------

/// Where the emulators keep their startup image, below the application
/// data directory.
pub fn startup_image_candidates(appdata_dir: &str) -> (r: Vec<PathSpec>)
    ensures
        r@.len() == 4,
        forall|i: int| 0 <= i < 4 ==> (#[trigger] r@[i]).base@ == appdata_dir@,
        r@[0].spec_parts() == seq!["Netease"@, "MuMuPlayer"@, "startupImage"@],
        r@[1].spec_parts() == seq!["Netease"@, "MuMuPlayer-12.0"@, "startupImage"@],
        r@[2].spec_parts() == seq!["Netease"@, "MuMuPlayer"@, "data"@, "startupImage"@],
        r@[3].spec_parts() == seq!["Netease"@, "MuMuPlayer-12.0"@, "data"@, "startupImage"@],
{
    let mut r: Vec<PathSpec> = Vec::new();
    r.push(path3(appdata_dir, "Netease", "MuMuPlayer", "startupImage"));
    r.push(path3(appdata_dir, "Netease", "MuMuPlayer-12.0", "startupImage"));
    r.push(path4(appdata_dir, "Netease", "MuMuPlayer", "data", "startupImage"));
    r.push(path4(appdata_dir, "Netease", "MuMuPlayer-12.0", "data", "startupImage"));
    r
}

/// What disabling the startup image does at one location.
pub enum StartupStep {
    /// A directory: remove it and put an empty file in its place.
    ReplaceDirectory,
    /// Already a file: nothing to do.
    AlreadyFile,
    /// Nothing there: put an empty file there.
    CreateFile,
}

/// What disabling the startup image does at a location.
pub fn startup_image_step(is_dir: bool, is_file: bool) -> (r: StartupStep)
    ensures
        is_dir ==> r is ReplaceDirectory,
        !is_dir && is_file ==> r is AlreadyFile,
        !is_dir && !is_file ==> r is CreateFile,
{
    if is_dir {
        StartupStep::ReplaceDirectory
    } else if is_file {
        StartupStep::AlreadyFile
    } else {
        StartupStep::CreateFile
    }
}

/// The outcome of disabling the startup image after `handled` locations.
pub fn startup_disable_outcome(handled: usize) -> (r: Result<String, String>)
    ensures
        handled == 0 ==> r is Err && r->Err_0@ == "未找到任何 startupImage 目录"@,
        handled > 0 ==> r is Ok && r->Ok_0@ == "启动图已禁用"@,
{
    if handled == 0 {
        Err(owned("未找到任何 startupImage 目录"))
    } else {
        Ok(owned("启动图已禁用"))
    }
}

/// Restoring a location is needed only where the placeholder file stands.
pub fn startup_restore_needed(exists: bool, is_file: bool) -> (r: bool)
    ensures
        r == (exists && is_file),
{
    exists && is_file
}

/// The outcome of restoring the startup image after `restored` locations.
pub fn startup_restore_outcome(restored: usize) -> (r: Result<String, String>)
    ensures
        restored == 0 ==> r is Err && r->Err_0@ == "未找到 startupImage 文件，无需恢复"@,
        restored > 0 ==> r is Ok && r->Ok_0@ == "启动图已恢复，共处理 "@ + decimal(restored as nat) + " 个位置"@,
{
    if restored == 0 {
        Err(owned("未找到 startupImage 文件，无需恢复"))
    } else {
        let n = unsigned_text(restored as u64);
        Ok(concat3("启动图已恢复，共处理 ", n.as_str(), " 个位置"))
    }
}

// ---------------------------------------------------------------------------
// Multi-instance data packages
// ---------------------------------------------------------------------------

/// The `MuMuManager.exe` to import a data package with; refused when there
/// is none or the version is not 4.x, 5.x or 6.x.
pub fn import_data_manager(info: &MuMuInfo) -> (r: Result<String, String>)
    ensures
        info.mumu_manager_path is None ==> r is Err && r->Err_0@ == "未找到 MuMuManager"@,
        info.mumu_manager_path matches Some(m) ==> {
            let major = match info.major_version {
                Some(v) => v@,
                None => Seq::<char>::empty(),
            };
            if starts_with_char(major, '5') || starts_with_char(major, '6') || starts_with_char(major, '4') {
                r is Ok && r->Ok_0@ == m@
            } else {
                r is Err && r->Err_0@ == "不支持的版本"@
            }
        },
{
    let major = major_version(info);
    let manager = match &info.mumu_manager_path {
        Some(m) => m.clone(),
        None => {
            return Err(owned("未找到 MuMuManager"));
        },
    };
    if !first_is(major.as_str(), '5') && !first_is(major.as_str(), '6') && !first_is(major.as_str(), '4') {
        return Err(owned("不支持的版本"));
    }
    Ok(manager)
}

/// The arguments of `MuMuManager.exe` that import a data package into a new
/// instance.
pub fn import_data_args(path: &str) -> (r: Vec<String>)
    ensures
        arg_texts(r@) == seq!["import"@, "-p"@, path@, "-n"@, "1"@],
{
    let mut r: Vec<String> = Vec::new();
    r.push(owned("import"));
    r.push(owned("-p"));
    r.push(owned(path));
    r.push(owned("-n"));
    r.push(owned("1"));
    assert(arg_texts(r@) =~= seq!["import"@, "-p"@, path@, "-n"@, "1"@]);
    r
}

/// The outcome of an import, from its exit status and decoded output.
pub fn import_data_outcome(success: bool, stdout: &str, stderr: &str) -> (r: Result<String, String>)
    ensures
        success ==> r is Ok && r->Ok_0@ == "Data 优化包已导入\n"@ + stdout@,
        !success ==> r is Err && r->Err_0@ == "导入失败: "@ + stderr@,
{
    if success {
        Ok(concat("Data 优化包已导入\n", stdout))
    } else {
        Err(concat("导入失败: ", stderr))
    }
}

/// Instances made from a data package cannot be told apart, so undoing the
/// import is left to the user.
pub fn undo_import_data_package() -> (r: Result<String, String>)
    ensures
        r is Ok && r->Ok_0@ == "无法自动判断使用了 Data 优化包的多开实例，请手动删除相关实例"@,
{
    Ok(owned("无法自动判断使用了 Data 优化包的多开实例，请手动删除相关实例"))
}

// ---------------------------------------------------------------------------
// Updater
// ---------------------------------------------------------------------------

/// Where `MuMuPlayerUpdater.exe` is: below `nx_main` for 5.x/6.x, below
/// `shell` otherwise.
pub fn updater_path(install_dir: &str, major: &str) -> (r: PathSpec)
    ensures
        r.base@ == install_dir@,
        is_nx_major(major@) ==> r.spec_parts() == seq!["nx_main"@, "MuMuPlayerUpdater.exe"@],
        !is_nx_major(major@) ==> r.spec_parts() == seq!["shell"@, "MuMuPlayerUpdater.exe"@],
{
    if first_is(major, '5') || first_is(major, '6') {
        path2(install_dir, "nx_main", "MuMuPlayerUpdater.exe")
    } else {
        path2(install_dir, "shell", "MuMuPlayerUpdater.exe")
    }
}

/// Where the real updater is kept while it is disabled: the same directory,
/// with `.bak` after `.exe`.
pub fn updater_backup_path(install_dir: &str, major: &str) -> (r: PathSpec)
    ensures
        r.base@ == install_dir@,
        is_nx_major(major@) ==> r.spec_parts() == seq!["nx_main"@, "MuMuPlayerUpdater.exe.bak"@],
        !is_nx_major(major@) ==> r.spec_parts() == seq!["shell"@, "MuMuPlayerUpdater.exe.bak"@],
{
    if first_is(major, '5') || first_is(major, '6') {
        path2(install_dir, "nx_main", "MuMuPlayerUpdater.exe.bak")
    } else {
        path2(install_dir, "shell", "MuMuPlayerUpdater.exe.bak")
    }
}

/// What disabling the updater does.
pub enum DisableUpdaterPlan {
    /// The backup exists and the updater is gone: nothing to do.
    AlreadyDisabled,
    /// Remove the updater (a backup exists), then write an empty stand-in.
    RemoveThenStub,
    /// Move the updater to the backup, then write an empty stand-in.
    BackUpThenStub,
    /// Neither exists: write an empty stand-in.
    StubOnly,
}

/// The plan `disable_updater_plan` picks.
pub open spec fn disable_plan_of(updater_exists: bool, backup_exists: bool) -> DisableUpdaterPlan {
    if !updater_exists && backup_exists {
        DisableUpdaterPlan::AlreadyDisabled
    } else if updater_exists && backup_exists {
        DisableUpdaterPlan::RemoveThenStub
    } else if updater_exists {
        DisableUpdaterPlan::BackUpThenStub
    } else {
        DisableUpdaterPlan::StubOnly
    }
}

/// The updater and its backup as file contents (`None` when absent), after
/// disabling: the plan is carried out as each of its variants describes,
/// the stand-in being an empty file.
pub open spec fn after_disable(f: (Option<Seq<u8>>, Option<Seq<u8>>)) -> (Option<Seq<u8>>, Option<Seq<u8>>) {
    match disable_plan_of(f.0 is Some, f.1 is Some) {
        DisableUpdaterPlan::AlreadyDisabled => f,
        DisableUpdaterPlan::RemoveThenStub => (Some(Seq::empty()), f.1),
        DisableUpdaterPlan::BackUpThenStub => (Some(Seq::empty()), f.0),
        DisableUpdaterPlan::StubOnly => (Some(Seq::empty()), f.1),
    }
}

/// The updater and its backup after restoring: with a backup, the
/// stand-in (if any) is removed and the backup moved back; without one,
/// nothing changes (`restore_updater_plan` refuses).
pub open spec fn after_restore(f: (Option<Seq<u8>>, Option<Seq<u8>>)) -> (Option<Seq<u8>>, Option<Seq<u8>>) {
    if f.1 is Some {
        (f.1, None)
    } else {
        f
    }
}

/// Disabling and then restoring the updater brings the real updater back
/// and leaves no backup: the updater that was there, or the backup when one
/// was kept already (for an install that has the updater or its backup).
pub proof fn law_restore_undoes_disable(f: (Option<Seq<u8>>, Option<Seq<u8>>))
    requires
        f.0 is Some || f.1 is Some,
    ensures
        after_restore(after_disable(f)) == (if f.1 is Some { f.1 } else { f.0 }, None::<Seq<u8>>),
{
}

/// What disabling the updater does, given which of the updater and its
/// backup exist.
pub fn disable_updater_plan(updater_exists: bool, backup_exists: bool) -> (r: DisableUpdaterPlan)
    ensures
        r == disable_plan_of(updater_exists, backup_exists),
        !updater_exists && backup_exists ==> r is AlreadyDisabled,
        updater_exists && backup_exists ==> r is RemoveThenStub,
        updater_exists && !backup_exists ==> r is BackUpThenStub,
        !updater_exists && !backup_exists ==> r is StubOnly,
{
    if !updater_exists && backup_exists {
        DisableUpdaterPlan::AlreadyDisabled
    } else if updater_exists {
        if backup_exists {
            DisableUpdaterPlan::RemoveThenStub
        } else {
            DisableUpdaterPlan::BackUpThenStub
        }
    } else {
        DisableUpdaterPlan::StubOnly
    }
}

/// The report when the updater was already disabled.
pub fn updater_already_disabled() -> (r: String)
    ensures
        r@ == "更新程序已处于禁用状态"@,
{
    owned("更新程序已处于禁用状态")
}

/// The report when the updater has been disabled.
pub fn updater_disabled() -> (r: String)
    ensures
        r@ == "更新程序已禁用"@,
{
    owned("更新程序已禁用")
}

/// Restoring the updater needs its backup; the stand-in is removed first
/// when it is there.  `Ok(true)` means: remove the stand-in, then move the
/// backup back.
pub fn restore_updater_plan(updater_exists: bool, backup_exists: bool) -> (r: Result<bool, String>)
    ensures
        backup_exists ==> r == Ok::<bool, String>(updater_exists),
        !backup_exists ==> r is Err && r->Err_0@ == "未找到备份文件 .bak"@,
{
    if backup_exists {
        Ok(updater_exists)
    } else {
        Err(owned("未找到备份文件 .bak"))
    }
}

/// The report when the updater has been restored.
pub fn updater_restored() -> (r: String)
    ensures
        r@ == "更新程序已恢复"@,
{
    owned("更新程序已恢复")
}

// ---------------------------------------------------------------------------
// Overlay (4.x)
// ---------------------------------------------------------------------------

/// Which 7-Zip to run.
pub enum SevenZipChoice {
    /// `7zip/7z.exe` in the resource directory.
    Resource,
    /// `resources/7zip/7z.exe` next to the executable.
    BesideExecutable,
}

/// Which 7-Zip to run: the one in the resource directory first, then the
/// one next to the executable; refused when neither exists.
pub fn seven_zip_choice(resource_copy_exists: bool, beside_exe_exists: bool) -> (r: Result<SevenZipChoice, String>)
    ensures
        resource_copy_exists ==> r matches Ok(SevenZipChoice::Resource),
        !resource_copy_exists && beside_exe_exists ==> r matches Ok(SevenZipChoice::BesideExecutable),
        !resource_copy_exists && !beside_exe_exists ==> r is Err && r->Err_0@ == "7z.exe 未找到，请先安装 7zip 资源包"@,
{
    if resource_copy_exists {
        Ok(SevenZipChoice::Resource)
    } else if beside_exe_exists {
        Ok(SevenZipChoice::BesideExecutable)
    } else {
        Err(owned("7z.exe 未找到，请先安装 7zip 资源包"))
    }
}

/// What applying the overlay package does to the current `overlay`
/// directory.
pub enum OverlayPlan {
    /// Move it to `overlay_backup` and create an empty `overlay`.
    BackUp,
    /// A backup exists already: remove it.
    Remove,
    /// There is none: nothing to do.
    Nothing,
}

/// What applying the overlay package does to the current `overlay`.
pub fn overlay_apply_plan(overlay_exists: bool, backup_exists: bool) -> (r: OverlayPlan)
    ensures
        overlay_exists && !backup_exists ==> r is BackUp,
        overlay_exists && backup_exists ==> r is Remove,
        !overlay_exists ==> r is Nothing,
{
    if overlay_exists && !backup_exists {
        OverlayPlan::BackUp
    } else if overlay_exists {
        OverlayPlan::Remove
    } else {
        OverlayPlan::Nothing
    }
}

/// The arguments of 7-Zip that unpack an overlay package over the install
/// directory.
pub fn overlay_extract_args(install_dir: &str, package_path: &str) -> (r: Vec<String>)
    ensures
        arg_texts(r@) == seq!["x"@, "-y"@, "-o"@ + install_dir@, package_path@],
{
    let mut r: Vec<String> = Vec::new();
    r.push(owned("x"));
    r.push(owned("-y"));
    r.push(concat("-o", install_dir));
    r.push(owned(package_path));
    assert(arg_texts(r@) =~= seq!["x"@, "-y"@, "-o"@ + install_dir@, package_path@]);
    r
}

/// The outcome of unpacking the overlay package.
pub fn overlay_apply_outcome(success: bool, stderr: &str) -> (r: Result<String, String>)
    ensures
        success ==> r is Ok && r->Ok_0@ == "仿专版 overlay 已应用"@,
        !success ==> r is Err && r->Err_0@ == "解压 overlay 包失败: "@ + stderr@,
{
    if success {
        Ok(owned("仿专版 overlay 已应用"))
    } else {
        Err(concat("解压 overlay 包失败: ", stderr))
    }
}

/// The `overlay` directory and its backup (`None` when absent) after the
/// overlay package is applied: the plan is carried out, then the package
/// is unpacked, which leaves `unpacked` in `overlay`.
pub open spec fn after_overlay_apply<T>(d: (Option<T>, Option<T>), unpacked: T) -> (Option<T>, Option<T>) {
    if d.0 is Some && d.1 is None {
        (Some(unpacked), d.0)
    } else {
        (Some(unpacked), d.1)
    }
}

/// The `overlay` directory and its backup after undoing: the current one
/// is removed; the backup is moved back, or an empty `overlay` created.
pub open spec fn after_overlay_undo<T>(d: (Option<T>, Option<T>), empty: T) -> (Option<T>, Option<T>) {
    if d.1 is Some {
        (d.1, None)
    } else {
        (Some(empty), None)
    }
}

/// Applying the overlay package and then undoing it restores the stock
/// `overlay` directory and leaves no backup: the one that was there, or the
/// backup when one was kept already.
pub proof fn law_overlay_undo_restores<T>(d: (Option<T>, Option<T>), unpacked: T, empty: T)
    requires
        d.0 is Some || d.1 is Some,
    ensures
        after_overlay_undo(after_overlay_apply(d, unpacked), empty) == (
            if d.1 is Some { d.1 } else { d.0 },
            None::<T>,
        ),
{
}

/// Undoing the overlay: the current `overlay` is removed when it exists;
/// then the backup is moved back when it exists (`true`), else an empty
/// `overlay` is created (`false`).
pub fn overlay_undo_plan(overlay_exists: bool, backup_exists: bool) -> (r: (bool, bool))
    ensures
        r == (overlay_exists, backup_exists),
{
    (overlay_exists, backup_exists)
}

/// The report when the stock overlay has been put back.
pub fn overlay_restored() -> (r: String)
    ensures
        r@ == "仿专版 overlay 已恢复"@,
{
    owned("仿专版 overlay 已恢复")
}

// ---------------------------------------------------------------------------
// fchannel
// ---------------------------------------------------------------------------

/// The channel that makes the emulator behave as the special edition.
pub open spec fn special_channel() -> Seq<char> {
    "yx-yys"@
}

/// The stock channel.
pub open spec fn stock_channel() -> Seq<char> {
    "nochannel-mumu12"@
}

/// Where the 5.x/6.x `install_config.json` is, below the application data
/// directory.
pub fn install_config_path(appdata_dir: &str) -> (r: PathSpec)
    ensures
        r.base@ == appdata_dir@,
        r.spec_parts() == seq!["Netease"@, "MuMuPlayer"@, "install_config.json"@],
{
    path3(appdata_dir, "Netease", "MuMuPlayer", "install_config.json")
}

/// The channel that `apply_fchannel` writes.
pub fn special_channel_name() -> (r: String)
    ensures
        r@ == special_channel(),
{
    owned("yx-yys")
}

/// The channel that `undo_fchannel` writes.
pub fn stock_channel_name() -> (r: String)
    ensures
        r@ == stock_channel(),
{
    owned("nochannel-mumu12")
}

/// Whether the configuration already names the special channel (a missing
/// or non-text channel counts as empty).
pub fn fchannel_already_special(current: Option<String>) -> (r: bool)
    ensures
        r == (current is Some && current->0@ == special_channel()),
{
    match current {
        Some(c) => same_text(c.as_str(), "yx-yys"),
        None => false,
    }
}

/// The channel to write when applying the special channel: none when the
/// configuration holds it already (the file is then left as it is).
pub fn fchannel_to_write(current: Option<String>) -> (r: Option<String>)
    ensures
        fchannel_already_special_spec(current) ==> r is None,
        !fchannel_already_special_spec(current) ==> r is Some && r->0@ == special_channel(),
{
    if fchannel_already_special(current) {
        None
    } else {
        Some(special_channel_name())
    }
}

/// The channel entry of `install_config.json`: member `fchannel` of
/// `product`.
pub open spec fn channel_slot_of(text: Seq<char>) -> Result<Option<(bool, bool, Option<Seq<char>>)>, Seq<char>> {
    json_entry_field(text, "product"@, "fchannel"@)
}

/// How applying (`apply`) or restoring the channel changes the text of
/// `install_config.json`: a parse error and a missing `product` are
/// refused; applying when the channel is special already writes nothing
/// (`Ok(None)`); else the text with the new channel is written
/// (`Ok(Some(..))`), unless serialising fails.  `None` when `product` is
/// neither an object nor null, where no member can be set in it.
pub open spec fn fchannel_edit(text: Seq<char>, apply: bool) -> Option<Result<Option<Seq<char>>, Seq<char>>> {
    match channel_slot_of(text) {
        Err(e) => Some(Err("解析 install_config.json 失败: "@ + e)),
        Ok(None) => Some(Err("install_config.json 中缺少 product 节点"@)),
        Ok(Some((is_object, is_null, current))) => if apply && current == Some(special_channel()) {
            Some(Ok(None))
        } else if !(is_object || is_null) {
            None
        } else {
            match json_with_field(
                text,
                "product"@,
                "fchannel"@,
                if apply {
                    special_channel()
                } else {
                    stock_channel()
                },
            ) {
                Ok(t) => Some(Ok(Some(t))),
                Err(e) => Some(Err("序列化失败: "@ + e)),
            }
        },
    }
}

/// The new text of `install_config.json` for `apply_fchannel` (`apply`) or
/// `undo_fchannel`, as `fchannel_edit` describes it.  A text written holds
/// the new channel in `product.fchannel`; so applying the special channel
/// again to the text it wrote writes nothing more.
pub fn config_with_fchannel(text: &str, apply: bool) -> (r: Option<Result<Option<String>, String>>)
    ensures
        match fchannel_edit(text@, apply) {
            None => r is None,
            Some(Err(e)) => r matches Some(Err(m)) && m@ == e,
            Some(Ok(None)) => r matches Some(Ok(None)),
            Some(Ok(Some(t))) => r matches Some(Ok(Some(m))) && m@ == t,
        },
        r matches Some(Ok(Some(t))) ==> channel_slot_of(t@) == Ok::<Option<(bool, bool, Option<Seq<char>>)>, Seq<char>>(
            Some((true, false, Some(if apply { special_channel() } else { stock_channel() }))),
        ),
        r matches Some(Ok(Some(t))) ==> (apply ==> fchannel_edit(t@, true) == Some(
            Ok::<Option<Seq<char>>, Seq<char>>(None),
        )),
{
    let slot = match entry_field(text, "product", "fchannel") {
        Err(e) => {
            return Some(Err(concat("解析 install_config.json 失败: ", e.as_str())));
        },
        Ok(None) => {
            return Some(Err(owned("install_config.json 中缺少 product 节点")));
        },
        Ok(Some(slot)) => slot,
    };
    let (is_object, is_null, current) = slot;
    let target = if apply {
        match fchannel_to_write(current) {
            None => {
                return Some(Ok(None));
            },
            Some(t) => t,
        }
    } else {
        stock_channel_name()
    };
    if !(is_object || is_null) {
        return None;
    }
    match with_field(text, "product", "fchannel", target.as_str()) {
        Ok(t) => Some(Ok(Some(t))),
        Err(e) => Some(Err(concat("序列化失败: ", e.as_str()))),
    }
}

/// Whether a channel value is the special channel.
pub open spec fn fchannel_already_special_spec(current: Option<String>) -> bool {
    current is Some && current->0@ == special_channel()
}

/// The report of applying the special channel.
pub fn fchannel_applied(already: bool) -> (r: String)
    ensures
        already ==> r@ == "fchannel 已经是 yx-yys"@,
        !already ==> r@ == "fchannel 已修改为 yx-yys"@,
{
    if already {
        owned("fchannel 已经是 yx-yys")
    } else {
        owned("fchannel 已修改为 yx-yys")
    }
}

/// The report of restoring the stock channel.
pub fn fchannel_restored() -> (r: String)
    ensures
        r@ == "fchannel 已恢复为 nochannel-mumu12"@,
{
    owned("fchannel 已恢复为 nochannel-mumu12")
}

// ---------------------------------------------------------------------------
// System image
// ---------------------------------------------------------------------------

/// The system images to mark for a major version: the 12.0 image for 5.x,
/// the 12.0 and 15.0 images for 6.x; refused for other versions.
pub fn get_system_vdi_paths(install_dir: &str, major: &str) -> (r: Result<Vec<PathSpec>, String>)
    ensures
        starts_with_char(major@, '5') ==> r is Ok && r->Ok_0@.len() == 1 && r->Ok_0@[0].base@ == install_dir@
            && r->Ok_0@[0].spec_parts() == seq!["nx_device"@, "12.0"@, "vms"@, "MuMuPlayer-12.0-base"@, "system.vdi"@],
        starts_with_char(major@, '6') ==> r is Ok && r->Ok_0@.len() == 2 && r->Ok_0@[0].base@ == install_dir@
            && r->Ok_0@[0].spec_parts() == seq!["nx_device"@, "12.0"@, "vms"@, "MuMuPlayer-12.0-base"@, "system.vdi"@]
            && r->Ok_0@[1].base@ == install_dir@
            && r->Ok_0@[1].spec_parts() == seq!["nx_device"@, "15.0"@, "vms"@, "MuMuPlayer-15.0-base"@, "system.vdi"@],
        !is_nx_major(major@) ==> r is Err && r->Err_0@ == nx_only_text(),
{
    let mut paths: Vec<PathSpec> = Vec::new();
    if first_is(major, '5') {
        paths.push(path5(install_dir, "nx_device", "12.0", "vms", "MuMuPlayer-12.0-base", "system.vdi"));
    } else if first_is(major, '6') {
        paths.push(path5(install_dir, "nx_device", "12.0", "vms", "MuMuPlayer-12.0-base", "system.vdi"));
        paths.push(path5(install_dir, "nx_device", "15.0", "vms", "MuMuPlayer-15.0-base", "system.vdi"));
    } else {
        return Err(owned("该功能仅支持 5.x 或 6.x 版本"));
    }
    Ok(paths)
}

/// The name of the record kept beside a marked image: the image's name
/// with `.mutools_patch` after `.vdi`.
pub fn patch_record_name() -> (r: String)
    ensures
        r@ == "system.vdi.mutools_patch"@,
{
    owned("system.vdi.mutools_patch")
}

/// What marking one image does, given whether it and its record exist.
pub enum VdiStep {
    /// The image is missing: skip it.
    SkipMissing,
    /// The record exists: the image is already marked.
    SkipMarked,
    /// Mark it.
    Patch,
}

/// What marking one image does.
pub fn vdi_patch_step(image_exists: bool, record_exists: bool) -> (r: VdiStep)
    ensures
        !image_exists ==> r is SkipMissing,
        image_exists && record_exists ==> r is SkipMarked,
        image_exists && !record_exists ==> r is Patch,
{
    if !image_exists {
        VdiStep::SkipMissing
    } else if record_exists {
        VdiStep::SkipMarked
    } else {
        VdiStep::Patch
    }
}

/// What restoring one image does, given whether it and its record exist.
pub enum VdiUndoStep {
    SkipMissing,
    SkipUnmarked,
    Restore,
}

/// What restoring one image does.
pub fn vdi_restore_step(image_exists: bool, record_exists: bool) -> (r: VdiUndoStep)
    ensures
        !image_exists ==> r is SkipMissing,
        image_exists && !record_exists ==> r is SkipUnmarked,
        image_exists && record_exists ==> r is Restore,
{
    if !image_exists {
        VdiUndoStep::SkipMissing
    } else if !record_exists {
        VdiUndoStep::SkipUnmarked
    } else {
        VdiUndoStep::Restore
    }
}

/// The report line of an image that was skipped because it is missing.
pub fn vdi_missing_line(image: &str) -> (r: String)
    ensures
        r@ == "跳过 "@ + image@ + " (文件不存在)"@,
{
    concat3("跳过 ", image, " (文件不存在)")
}

/// The report line of an image that was already marked.
pub fn vdi_marked_line(image: &str) -> (r: String)
    ensures
        r@ == "跳过 "@ + image@ + " (已被修改)"@,
{
    concat3("跳过 ", image, " (已被修改)")
}

/// The report line of an image without a record.
pub fn vdi_unmarked_line(image: &str) -> (r: String)
    ensures
        r@ == "跳过 "@ + image@ + " (未找到补丁记录)"@,
{
    concat3("跳过 ", image, " (未找到补丁记录)")
}

/// The report line of an image that was marked.
pub fn vdi_patched_line(image: &str, md5: &str) -> (r: String)
    ensures
        r@ == image@ + " 已添加海外版标识, MD5: "@ + md5@,
{
    concat3(image, " 已添加海外版标识, MD5: ", md5)
}

/// The report line of an image that was restored.
pub fn vdi_restored_line(image: &str) -> (r: String)
    ensures
        r@ == image@ + " 海外版标识已还原"@,
{
    concat(image, " 海外版标识已还原")
}

// ---------------------------------------------------------------------------
// Optimisation files in resource packages
// ---------------------------------------------------------------------------

/// ASCII case-insensitive equality (what `str::eq_ignore_ascii_case` tests).
pub open spec fn eq_ignore_ascii_case(a: Seq<char>, b: Seq<char>) -> bool {
    a.len() == b.len() && forall|i: int| 0 <= i < a.len() ==> crate::text::ascii_lower(#[trigger] a[i]) == crate::text::ascii_lower(b[i])
}

fn ascii_lower_exec(c: char) -> (r: char)
    ensures
        r == crate::text::ascii_lower(c),
{
    if 'A' <= c && c <= 'Z' {
        ((c as u32) + 32) as u8 as char
    } else {
        c
    }
}

/// Whether two texts are equal when ASCII letters are compared without case.
pub fn same_ignoring_ascii_case(a: &str, b: &str) -> (r: bool)
    ensures
        r == eq_ignore_ascii_case(a@, b@),
{
    let x = chars_of(a);
    let y = chars_of(b);
    if x.len() != y.len() {
        return false;
    }
    let n = x.len();
    for i in 0..n
        invariant
            n == x@.len(),
            n == y@.len(),
            x@ == a@,
            y@ == b@,
            forall|k: int| 0 <= k < i ==> crate::text::ascii_lower(#[trigger] x@[k]) == crate::text::ascii_lower(y@[k]),
    {
        if ascii_lower_exec(x[i]) != ascii_lower_exec(y[i]) {
            return false;
        }
    }
    true
}

/// Whether a file extension is one of `extensions`, ignoring ASCII case.
pub fn extension_matches(ext: &str, extensions: &Vec<String>) -> (r: bool)
    ensures
        r == exists|i: int| 0 <= i < extensions@.len() && eq_ignore_ascii_case(#[trigger] extensions@[i]@, ext@),
{
    let n = extensions.len();
    for i in 0..n
        invariant
            n == extensions@.len(),
            forall|k: int| 0 <= k < i ==> !eq_ignore_ascii_case(#[trigger] extensions@[k]@, ext@),
    {
        if same_ignoring_ascii_case(extensions[i].as_str(), ext) {
            return true;
        }
    }
    false
}

/// The extensions of data packages.
pub fn data_package_extensions() -> (r: Vec<String>)
    ensures
        arg_texts(r@) == seq!["mumudata"@],
{
    let mut r: Vec<String> = Vec::new();
    r.push(owned("mumudata"));
    assert(arg_texts(r@) =~= seq!["mumudata"@]);
    r
}

/// The extensions of overlay packages.
pub fn overlay_package_extensions() -> (r: Vec<String>)
    ensures
        arg_texts(r@) == seq!["7z"@, "zip"@],
{
    let mut r: Vec<String> = Vec::new();
    r.push(owned("7z"));
    r.push(owned("zip"));
    assert(arg_texts(r@) =~= seq!["7z"@, "zip"@]);
    r
}

} // verus!
