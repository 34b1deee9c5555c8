use mutools::download::{
    after_aria2, cancel_before_component, installers_to_delete, v6_step_outcome, aria2_args, aria2_executable_names, aria2_package_dirs, aria2_search_dirs, aria2_finished, component_already_downloaded,
    component_file_name, content_range_total, download_link, download_total, downloaded_files_report,
    install_dir_arg, installer_file_name, installer_version, is_aria2_dir_name, match_component_files,
    parse_downloaded_files, probed_total, remove_before_download, request_body, require_download_url,
    response_plan, restart_total, resume_plan, start_install, uuid_prefix, v4_install_failure_progress,
    v4_install_outcome, v4_installer_args, v6_install_steps, v6_installer_args, v6_release,
    v6_step_failure, v6_step_message, api_endpoint, AfterAria2, DownloadControl, DownloadData,
    DownloadLink, DownloadResponse, InstallerVersion, PartialFiles, ResponsePlan, ResumePlan,
    V6Action, V6Component, V6DownloadData, V6DownloadResponse,
};

fn comp(name: &str, link: &str, size: i64) -> V6Component {
    V6Component { name: name.into(), version: "1".into(), checksum: "c".into(), link: link.into(), size }
}

#[test]
fn link_from_api_response() {
    let ok = DownloadResponse {
        errcode: 100,
        errmsg: "".into(),
        data: Some(DownloadData {
            mumu: Some(DownloadLink { link: "https://x/MuMu.exe".into(), checksum: "h".into() }),
            engine: None,
            version: None,
            architecture: None,
        }),
        sign: None,
    };
    assert_eq!(download_link(ok).ok().unwrap(), "https://x/MuMu.exe");
    let err = DownloadResponse { errcode: -3, errmsg: "bad".into(), data: None, sign: None };
    assert_eq!(download_link(err).err().unwrap(), "API返回错误: -3 - bad");
    let none = DownloadResponse { errcode: 100, errmsg: "".into(), data: None, sign: None };
    assert_eq!(download_link(none).err().unwrap(), "响应中未找到下载链接");
}

#[test]
fn v6_release_fields() {
    let resp = V6DownloadResponse {
        errcode: 100,
        errmsg: "".into(),
        data: Some(V6DownloadData {
            engine: None,
            version: Some("6.0.1".into()),
            architecture: None,
            components: Some(vec![comp("core", "https://a/core.exe", 1)]),
            default_download_engine: None,
        }),
        sign: None,
    };
    let r = v6_release(resp).ok().unwrap();
    assert_eq!(r.version, "6.0.1");
    assert_eq!(r.components.len(), 1);
    assert_eq!(r.default_download_engine, "");
    let resp = V6DownloadResponse { errcode: 100, errmsg: "".into(), data: None, sign: None };
    assert_eq!(v6_release(resp).err().unwrap(), "响应中未找到data");
    let resp = V6DownloadResponse { errcode: 7, errmsg: "m".into(), data: None, sign: None };
    assert_eq!(v6_release(resp).err().unwrap(), "API返回错误: 7 - m");
}

#[test]
fn version_selector_and_request() {
    assert!(matches!(installer_version("MuMu12-V4"), Ok(InstallerVersion::V4)));
    assert!(matches!(installer_version("MuMu12-V6"), Ok(InstallerVersion::V6)));
    assert_eq!(installer_version("MuMu11").err().unwrap(), "仅支持MuMu-V4V5V6版本获取");
    assert_eq!(api_endpoint(&InstallerVersion::V5), "https://api.mumu.nie.netease.com/api/v1/download/nx");
    assert_eq!(uuid_prefix("1b4e28ba-2fa1-11d2"), "1b4e28ba");
    assert_eq!(uuid_prefix("nodash"), "nodash");
    let body = request_body(&InstallerVersion::V5, "1b4e28ba-2fa1");
    assert!(body.starts_with("architecture=x86_64&channel=nochannel-mumu12&detectinfo=&downloader_version=5.0.2&has_installed=0&language=zh-Hans&machine=%7B"));
    assert!(body.ends_with("&n=MuMu_5.0.2_1b4e28ba&package=&product=&usage=0&uuid=1b4e28ba-2fa1"));
    let body = request_body(&InstallerVersion::V4, "u");
    assert!(body.ends_with("&n=MuMuInstaller_3.1.14_hoeCnNC&package=&product=&usage=0&uuid=u"));
    let body = request_body(&InstallerVersion::V6, "ab-c");
    assert!(body.contains("downloader_version=6.0.1&has_installed=1"));
    assert!(body.ends_with("&n=MuMu_6.0.1_ab&package=&product=&usage=0&uuid=ab-c"));
}

#[test]
fn cancel_and_pause_requests() {
    let mut c = DownloadControl::new();
    assert!(c.interruption().is_none());
    c.pause();
    assert_eq!(c.interruption().unwrap(), "下载已暂停");
    c.cancel();
    assert_eq!(c.interruption().unwrap(), "下载已取消");
    assert!(!c.paused);
    c.start(false);
    assert!(c.interruption().is_none());
    c.pause();
    c.start(true);
    assert_eq!(c.interruption().unwrap(), "下载已暂停");
    c.resume();
    assert!(c.interruption().is_none());
}

#[test]
fn cancel_wins_over_a_later_pause() {
    let mut c = DownloadControl::new();
    c.cancel();
    c.pause();
    assert_eq!(c.interruption().unwrap(), "下载已取消");
    c.resume();
    assert_eq!(c.interruption().unwrap(), "下载已取消");
    c.start(true);
    assert!(c.interruption().is_none());
}

#[test]
fn partial_files_tracking() {
    let mut p = PartialFiles::new();
    p.track("a".into());
    p.track("b".into());
    p.track("a".into());
    p.untrack("a");
    assert_eq!(p.files, vec!["b".to_string()]);
    let all = p.take_all();
    assert_eq!(all, vec!["b".to_string()]);
    assert!(p.files.is_empty());
}

#[test]
fn sizes_and_ranges() {
    assert_eq!(content_range_total("bytes 0-0/123456"), Some(123456));
    assert_eq!(content_range_total("bytes 0-0/*"), None);
    assert_eq!(content_range_total("77"), Some(77));
    assert_eq!(probed_total(true, Some("bytes 0-0/99".into()), Some(1)), 99);
    assert_eq!(probed_total(true, Some("bytes */x".into()), Some(1)), 1);
    assert_eq!(probed_total(true, None, None), 0);
    assert_eq!(probed_total(false, Some("bytes 0-0/99".into()), Some(5)), 5);
    assert_eq!(download_total(10, Some(20)), 10);
    assert_eq!(download_total(0, Some(20)), 20);
    assert_eq!(download_total(0, None), 0);
}

#[test]
fn resume_and_response_plans() {
    assert!(matches!(resume_plan(100, 100), ResumePlan::Complete));
    assert!(matches!(resume_plan(0, 100), ResumePlan::Fresh));
    match resume_plan(40, 100) {
        ResumePlan::Resume { from, range } => {
            assert_eq!(from, 40);
            assert_eq!(range, "bytes=40-");
        }
        _ => panic!("resume expected"),
    }
    assert!(matches!(resume_plan(40, 0), ResumePlan::Resume { .. }));
    assert!(matches!(response_plan(40, 100, false, true, "200 OK", None, Some(100)), ResponsePlan::Restart));
    match response_plan(0, 0, false, false, "404 Not Found", None, None) {
        ResponsePlan::Fail(m) => assert_eq!(m, "下载失败: HTTP 404 Not Found"),
        _ => panic!("failure expected"),
    }
    match response_plan(40, 0, true, true, "206", Some("bytes 40-99/100".into()), Some(60)) {
        ResponsePlan::Stream { total, start } => assert_eq!((total, start), (100, 40)),
        _ => panic!("stream expected"),
    }
    match response_plan(0, 0, false, true, "200", None, Some(60)) {
        ResponsePlan::Stream { total, start } => assert_eq!((total, start), (60, 0)),
        _ => panic!("stream expected"),
    }
    assert_eq!(restart_total(0, true, "200", Some(9)).ok(), Some(9));
    assert_eq!(restart_total(5, true, "200", Some(9)).ok(), Some(5));
    assert_eq!(restart_total(5, false, "500 x", Some(9)).err().unwrap(), "下载失败: HTTP 500 x");
}

#[test]
fn aria2_invocation() {
    let a = aria2_args(16, 4, "D:\\dl", "MuMu_Setup_V4.exe", "https://u");
    assert_eq!(a, vec![
        "--allow-overwrite=true", "--file-allocation=none", "--continue=true",
        "--max-connection-per-server", "16", "--split", "4", "--console-log-level=error",
        "--dir", "D:\\dl", "--out", "MuMu_Setup_V4.exe", "https://u",
    ]);
    let mut c = DownloadControl::new();
    assert!(aria2_finished(&c, true, true));
    assert!(!aria2_finished(&c, true, false));
    assert!(matches!(after_aria2(false, &c), AfterAria2::FallBack));
    assert!(matches!(after_aria2(true, &c), AfterAria2::Done));
    c.pause();
    assert!(!aria2_finished(&c, true, true));
    assert!(matches!(after_aria2(false, &c), AfterAria2::Paused));
    c.cancel();
    assert!(matches!(after_aria2(false, &c), AfterAria2::Cancelled));
    assert_eq!(aria2_executable_names(), vec!["aria2c.exe", "aria2c", "aria2.exe"]);
    assert!(is_aria2_dir_name("Aria2-1.37"));
    assert!(!is_aria2_dir_name("7zip"));
}

#[test]
fn installer_names_and_skips() {
    assert_eq!(installer_file_name("MuMu12-V5"), "MuMu_Setup_V5.exe");
    assert_eq!(installer_file_name("MuMu12-V4"), "MuMu_Setup_V4.exe");
    assert_eq!(installer_file_name("other"), "MuMu_Setup_V4.exe");
    assert_eq!(require_download_url("").err().unwrap(), "安装包下载链接不能为空");
    assert!(require_download_url("u").is_ok());
    assert_eq!(component_file_name(&comp("core", "https://cdn/x/MuMu-core.exe?sig=1/2", 1)), "MuMu-core.exe");
    assert_eq!(component_file_name(&comp("core", "https://cdn/x/", 1)), "");
    assert!(remove_before_download(false, true));
    assert!(!remove_before_download(true, true));
    assert!(component_already_downloaded(true, true, 10, 10));
    assert!(!component_already_downloaded(true, true, 9, 10));
    assert!(!component_already_downloaded(false, true, 10, 10));
    assert!(!component_already_downloaded(true, true, 10, 0));
}

#[test]
fn downloaded_files_report_round_trip() {
    let files = vec!["D:\\dl\\a \"b\".exe".to_string(), "c.exe".to_string()];
    let report = downloaded_files_report(&files);
    assert_eq!(report, serde_json::to_string(&files).unwrap());
    assert_eq!(parse_downloaded_files(&report).ok().unwrap(), files);
    assert!(parse_downloaded_files("[1,").err().unwrap().starts_with("解析文件列表失败: "));
}

#[test]
fn downloaded_files_report_escapes() {
    let files = vec!["a\"b\\".to_string(), "c\n\u{1}\t中".to_string()];
    assert_eq!(downloaded_files_report(&files), "[\"a\\\"b\\\\\",\"c\\n\\u0001\\t中\"]");
    assert_eq!(downloaded_files_report(&vec![]), "[]");
}

#[test]
fn components_are_matched_to_files() {
    let comps = vec![comp("Core", "l", 1), comp("missing", "l", 1), comp("ui", "l", 1)];
    let files = vec!["D:\\dl\\MuMu-UI.exe".to_string(), "D:\\dl\\mumu-core.exe".to_string()];
    assert_eq!(match_component_files(&comps, &files), vec![(0, 1), (2, 0)]);
    assert!(match_component_files(&comps, &vec![]).is_empty());
}

#[test]
fn v6_install_phases() {
    let steps = v6_install_steps(2);
    let order: Vec<(usize, bool)> = steps.iter().map(|(i, a)| (*i, matches!(a, V6Action::Prepare))).collect();
    assert_eq!(order, vec![(0, true), (1, true), (1, false), (0, false)]);
    assert!(v6_install_steps(0).is_empty());
    let args = v6_installer_args(&V6Action::Commit, "tx", "6.0.1");
    assert_eq!(args, vec![
        "/from_orchestrator=1", "/action=commit", "/txn_id=tx", "/silent=1", "/product_version=6.0.1",
        "/auto_start=false", "/fchannel=nochannel-mumu12", "/auto_run=false",
    ]);
    assert_eq!(install_dir_arg("D:\\Program Files\\MuMu"), "/D=D:\\Program Files\\MuMu");
    assert_eq!(v6_step_message(3, 4, "core", &V6Action::Commit), "安装组件 3/4: core (commit)");
    assert_eq!(v6_step_failure("core", &V6Action::Prepare, Some(2), "o", "e"), "组件 core 安装失败 (exit: 2)\no\ne");
    assert_eq!(v6_step_failure("core", &V6Action::Commit, None, "o", "e"), "组件 core commit 失败 (exit: -1)\no\ne");
}

#[test]
fn v4_install_reports() {
    assert_eq!(v4_installer_args(), vec!["/S"]);
    assert_eq!(v4_install_outcome(true, Some(0), "D:\\M", "done", "").ok().unwrap(), "安装成功\n安装目录: D:\\M\ndone");
    assert_eq!(v4_install_outcome(false, Some(5), "D:\\M", "o", "e").err().unwrap(), "安装失败 (exit: 5)\no\ne");
    assert_eq!(v4_install_failure_progress(None), "安装失败 (exit: -1)");
    assert_eq!(
        start_install("MuMu12-V4", "local", "C:\\s.exe", "D:\\M"),
        "MuMu12-V4 本地安装 安装任务已开始\n安装包路径: C:\\s.exe\n安装目录: D:\\M"
    );
    assert!(start_install("v", "online", "p", "d").contains(" 在线安装 "));
}

fn loc(p: &mutools::paths::PathSpec) -> (String, Vec<String>) {
    (p.base.clone(), p.parts.clone())
}

#[test]
fn aria2_search_order() {
    let named = vec!["R\\aria2-1.37".to_string()];
    let pk: Vec<_> = aria2_package_dirs("R", &named).iter().map(loc).collect();
    assert_eq!(pk, vec![
        ("R".to_string(), vec!["aria2".to_string()]),
        ("R\\aria2-1.37".to_string(), vec![]),
    ]);
    let all: Vec<_> = aria2_search_dirs("R", &named, Some("E".into())).iter().map(loc).collect();
    assert_eq!(all.len(), 6);
    assert_eq!(all[2], ("E".to_string(), vec!["aria2".to_string()]));
    assert_eq!(all[3], ("E".to_string(), vec!["testdata".to_string(), "aria2".to_string()]));
    assert_eq!(all[4], ("testdata".to_string(), vec!["aria2".to_string()]));
    assert_eq!(all[5], ("aria2".to_string(), vec![]));
    assert_eq!(aria2_search_dirs("R", &vec![], None).len(), 3);
}

#[test]
fn cancel_checked_before_each_component() {
    let mut c = DownloadControl::new();
    assert_eq!(cancel_before_component(&c), None);
    c.pause();
    assert_eq!(cancel_before_component(&c), None);
    c.cancel();
    assert_eq!(cancel_before_component(&c).as_deref(), Some("下载已取消"));
}

#[test]
fn install_step_outcome_and_cleanup() {
    assert!(v6_step_outcome("core", &V6Action::Prepare, true, Some(0), "", "").is_ok());
    assert_eq!(
        v6_step_outcome("core", &V6Action::Commit, false, Some(2), "o", "e").err().unwrap(),
        "组件 core commit 失败 (exit: 2)\no\ne"
    );
    let files = vec!["a.exe".to_string(), "b.exe".to_string()];
    assert_eq!(installers_to_delete(true, true, &files), files);
    assert!(installers_to_delete(false, true, &files).is_empty());
    assert!(installers_to_delete(true, false, &files).is_empty());
}
