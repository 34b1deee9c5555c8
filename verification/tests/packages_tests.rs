use mutools::packages::{package_download_check, package_install_steps, remove_download_after, InstallStep};
use mutools::packages::{
    file_name_from_url, flatten_single_top_dir, folder_name_for_download, missing_package,
    package_aria2_args, package_display_name, package_kind_for_extension, package_kind_for_file_name,
    package_kind_label, package_version, resource_target, safe_name, sanitize_entry_path,
    self_extract_args, seven_zip_extract_args, stem_or_package, tool_manifest, write_manifest,
    EntryComponent, ManifestInfo, PackageKind,
};

#[test]
fn safe_folder_names() {
    assert_eq!(safe_name("MuMu 优化包 v1.2"), "MuMu_优化包_v1.2");
    assert_eq!(safe_name("a/b\\c:d"), "a_b_c_d");
    assert_eq!(safe_name(""), "package");
    assert_eq!(safe_name("my-pkg_1.0"), "my-pkg_1.0");
    assert_eq!(safe_name("   "), "___");
    for n in ["x y", "", "..", "中文/路径"] {
        let once = safe_name(n);
        assert_eq!(safe_name(&once), once);
        assert!(!once.contains('/') && !once.contains('\\'));
    }
}

#[test]
fn file_stems() {
    for n in ["a.b.c", ".bashrc", "a.", "..x", "plain", "x.zip"] {
        let expected = std::path::Path::new(n).file_stem().map(|s| s.to_string_lossy().to_string()).unwrap_or_else(|| "package".to_string());
        assert_eq!(stem_or_package(n), expected);
    }
    assert_eq!(stem_or_package(".."), "package");
    assert_eq!(stem_or_package("."), "package");
    assert_eq!(stem_or_package(""), "package");
}

#[test]
fn download_names() {
    assert_eq!(file_name_from_url("https://host/res/7zip.7z?token=a/b"), "7zip.7z");
    assert_eq!(file_name_from_url("https://host/res/"), "download.zip");
    let (file, folder) = folder_name_for_download("https://host/My Pack.zip");
    assert_eq!(file, "My_Pack.zip");
    assert_eq!(folder, "My_Pack");
    let (file, folder) = folder_name_for_download("https://host/");
    assert_eq!((file.as_str(), folder.as_str()), ("download.zip", "download"));
}

#[test]
fn package_kinds() {
    assert!(matches!(package_kind_for_extension("ZIP"), PackageKind::Zip));
    assert!(matches!(package_kind_for_extension("7z"), PackageKind::SevenZip));
    assert!(matches!(package_kind_for_extension("Exe"), PackageKind::SelfExtracting));
    assert!(matches!(package_kind_for_extension("rar"), PackageKind::Plain));
    assert!(matches!(package_kind_for_file_name("a.zip"), PackageKind::Zip));
    assert!(matches!(package_kind_for_file_name("a.ZIP"), PackageKind::Plain));
    assert!(matches!(package_kind_for_file_name("a.7z"), PackageKind::SevenZip));
    assert!(matches!(package_kind_for_file_name("a.exe"), PackageKind::SelfExtracting));
}

#[test]
fn manifests() {
    let m = tool_manifest("7-Zip-23").map(|m| m.name);
    assert_eq!(m, None);
    let m = tool_manifest("7zip_x64").unwrap();
    assert_eq!((m.name.as_str(), m.description.as_str(), m.webpage.as_str()), ("7zip", "7-Zip 命令行工具", ""));
    let m = tool_manifest("Aria2-win").unwrap();
    assert_eq!((m.name.as_str(), m.description.as_str()), ("aria2", "aria2 下载工具"));
    assert!(tool_manifest("pkg").is_none());
    let w = write_manifest("pkg");
    assert_eq!(w.name, "pkg");
    assert_eq!(w.description, "");
    let d = ManifestInfo::default();
    assert_eq!((d.name, d.description, d.webpage), (String::new(), String::new(), String::new()));
    assert_eq!(package_kind_label(true), "resource");
    assert_eq!(package_kind_label(false), "directory");
    assert_eq!(package_display_name("", "folder"), "folder");
    assert_eq!(package_display_name("Nice", "folder"), "Nice");
    assert_eq!(package_version(&vec!["1.0".to_string(), "2.0".to_string()]), "1.0");
    assert_eq!(package_version(&vec![]), "");
}

#[test]
fn archive_entries_stay_inside() {
    let comps = vec![EntryComponent::Other, EntryComponent::Normal("a".into()), EntryComponent::Other, EntryComponent::Normal("b.txt".into())];
    assert_eq!(sanitize_entry_path(comps).ok().unwrap(), vec!["a", "b.txt"]);
    assert_eq!(sanitize_entry_path(vec![EntryComponent::Other]).err().unwrap(), "无效的压缩包路径");
    assert_eq!(sanitize_entry_path(vec![]).err().unwrap(), "无效的压缩包路径");
    assert!(flatten_single_top_dir(1, true));
    assert!(!flatten_single_top_dir(2, true));
    assert!(!flatten_single_top_dir(1, false));
}

#[test]
fn folders_and_arguments() {
    assert!(resource_target("R", "").parts.is_empty());
    assert_eq!(resource_target("R", "p").parts, vec!["p"]);
    assert_eq!(missing_package("p"), "资源包不存在: p");
    assert_eq!(self_extract_args("R"), vec!["-y", "-oR"]);
    assert_eq!(seven_zip_extract_args("D", "a.7z"), vec!["x", "-y", "-oD", "a.7z"]);
    assert_eq!(package_aria2_args("R", "u"), vec!["--allow-overwrite=true", "--dir", "R", "--out", "__download_tmp", "u"]);
}

#[test]
fn download_kept_only_after_failed_unpack() {
    assert!(remove_download_after(true, &PackageKind::Zip));
    assert!(!remove_download_after(false, &PackageKind::Zip));
    assert!(!remove_download_after(false, &PackageKind::Plain));
    assert!(remove_download_after(false, &PackageKind::SelfExtracting));
}

fn step_names(kind: &PackageKind) -> (Vec<&'static str>, bool) {
    let (steps, shows) = package_install_steps(kind);
    let names = steps
        .iter()
        .map(|s| match s {
            InstallStep::PrepareFolder => "prepare",
            InstallStep::UnpackZip => "unzip",
            InstallStep::UnpackSevenZip => "un7z",
            InstallStep::FlattenSingleTopFolder => "flatten",
            InstallStep::WriteManifestIfMissing => "manifest",
            InstallStep::WriteToolManifest => "tool",
            InstallStep::SelfExtractIntoResources => "selfextract",
            InstallStep::CopyFile => "copy",
        })
        .collect();
    (names, shows)
}

#[test]
fn install_steps_by_kind() {
    assert_eq!(step_names(&PackageKind::Zip), (vec!["prepare", "unzip", "flatten", "manifest"], false));
    assert_eq!(step_names(&PackageKind::SevenZip), (vec!["prepare", "un7z", "flatten", "tool"], false));
    assert_eq!(step_names(&PackageKind::SelfExtracting), (vec!["selfextract"], true));
    assert_eq!(step_names(&PackageKind::Plain), (vec!["prepare", "copy", "manifest"], false));
}

#[test]
fn package_download_status() {
    assert!(package_download_check(true, "200 OK").is_ok());
    assert_eq!(package_download_check(false, "404 Not Found").err().unwrap(), "下载失败: HTTP 404 Not Found");
}
