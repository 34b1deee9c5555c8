use mutools::mumu_info::probe_from_text;
use mutools::mumu_info::{
    default_install_dir_probe, info_with_appdata, info_with_default_dir, info_with_install_config,
    info_with_manager_lookup, info_with_registry, install_config_outcome, mumu_manager_candidates,
    parse_install_dir, parse_major_version, registry_key_order, registry_values, trim_quotes,
    ConfigProbe, InstallConfig, MuMuInfo, RegistryRead,
};

#[test]
fn major_version_of_version_texts() {
    assert_eq!(parse_major_version("5.12.3.1234"), "5");
    assert_eq!(parse_major_version("V4.1.31"), "4");
    assert_eq!(parse_major_version("v6"), "6");
    assert_eq!(parse_major_version("V"), "0");
    assert_eq!(parse_major_version(""), "0");
}

#[test]
fn quotes_and_install_dir() {
    assert_eq!(trim_quotes("\"C:\\a b\\u.exe\""), "C:\\a b\\u.exe");
    let dir = parse_install_dir("\"D:/Program Files/Netease/MuMu/uninstall.exe\"");
    assert_eq!(dir.as_deref(), Some("D:/Program Files/Netease/MuMu"));
    assert_eq!(parse_install_dir(""), None);
    assert_eq!(parse_install_dir("\"\""), None);
    assert_eq!(parse_install_dir("\"uninstall.exe\"").as_deref(), Some(""));
    assert_eq!(parse_install_dir("uninstall.exe").as_deref(), Some(""));
    assert_eq!(
        parse_install_dir("\"Program Files/Netease/MuMu/uninstall.exe\"").as_deref(),
        Some("Program Files/Netease/MuMu")
    );
    assert_eq!(parse_install_dir("a/../b").as_deref(), Some("a/.."));
    assert!(parse_install_dir("\"D:\\MuMu\\uninstall.exe\"").is_some());
}

#[test]
fn registry_keys_in_version_order() {
    let k = registry_key_order("4");
    assert_eq!(k[0].label, "V4");
    assert!(k[0].subkey.ends_with("MuMuPlayer-12.0"));
    assert_eq!(k[1].label, "V5");
    for hint in ["5", "6", "", "x"] {
        let k = registry_key_order(hint);
        assert_eq!(k[0].label, "V5");
        assert_eq!(k[0].subkey, "SOFTWARE\\Microsoft\\Windows\\CurrentVersion\\Uninstall\\MuMuPlayer");
        assert_eq!(k[1].label, "V4");
    }
}

#[test]
fn registry_values_unquote_and_name_the_key() {
    let r = registry_values(Some("\"D:/MuMu/uninstall.exe\"".to_string()), Some("\"4.1.2\"".to_string()), "SOFTWARE\\X");
    assert_eq!(r.uninstall_string.as_deref(), Some("D:/MuMu/uninstall.exe"));
    assert_eq!(r.install_dir.as_deref(), Some("D:/MuMu"));
    assert_eq!(r.display_version.as_deref(), Some("4.1.2"));
    assert_eq!(r.registry_path, "HKLM\\SOFTWARE\\X");
    let bare = registry_values(Some("\"uninstall.exe\"".to_string()), None, "K");
    assert_eq!(bare.install_dir.as_deref(), Some(""));
    let blank = registry_values(Some("\"\"".to_string()), None, "K");
    assert_eq!(blank.install_dir, None);
    assert_eq!(blank.uninstall_string.as_deref(), Some(""));
    let r = registry_values(None, None, "K");
    assert!(r.install_dir.is_none() && r.uninstall_string.is_none() && r.display_version.is_none());
}

#[test]
fn manager_candidates_by_layout() {
    let c = mumu_manager_candidates("D:\\MuMu", "5");
    assert_eq!(c[0].parts, vec!["nx_main".to_string(), "MuMuManager.exe".to_string()]);
    assert_eq!(c[1].parts, vec!["shell".to_string(), "MuMuManager.exe".to_string()]);
    let c = mumu_manager_candidates("D:\\MuMu", "4");
    assert_eq!(c[0].parts[0], "shell");
    assert_eq!(c[1].parts[0], "nx_main");
    assert_eq!(c[0].base, "D:\\MuMu");
}

#[test]
fn install_config_prefers_the_5x_file() {
    let v5 = ConfigProbe::Parsed { version: Some("5.0.2".to_string()), channel: None };
    let v4 = ConfigProbe::Parsed { version: Some("4.1.0".to_string()), channel: Some("c".to_string()) };
    let c = install_config_outcome(v5, v4, "a", "b").ok().unwrap();
    assert_eq!((c.version.as_str(), c.channel.as_str(), c.major.as_str(), c.subdir.as_str()), ("5.0.2", "", "5", "MuMuPlayer"));
    let v5 = ConfigProbe::Missing;
    let v4 = ConfigProbe::Parsed { version: Some("V4.1.0".to_string()), channel: Some("c".to_string()) };
    let c = install_config_outcome(v5, v4, "a", "b").ok().unwrap();
    assert_eq!((c.version.as_str(), c.channel.as_str(), c.major.as_str(), c.subdir.as_str()), ("V4.1.0", "c", "4", "MuMuPlayer-12.0"));
}

#[test]
fn install_config_reports_both_problems() {
    let v5 = ConfigProbe::Parsed { version: None, channel: None };
    let v4 = ConfigProbe::ReadFailed("denied".to_string());
    let e = install_config_outcome(v5, v4, "P5", "P4").err().unwrap();
    assert_eq!(e, "无法读取 install_config.json。尝试了 V5(P5) 和 V4(P4)。错误: V5 install_config.json 中未找到 version 字段; V4 install_config.json 读取失败: denied");
    let e = install_config_outcome(ConfigProbe::Missing, ConfigProbe::ParseFailed("bad".to_string()), "P5", "P4").err().unwrap();
    assert!(e.ends_with("错误: V4 install_config.json JSON 解析失败: bad"));
    let e = install_config_outcome(ConfigProbe::Missing, ConfigProbe::Missing, "P5", "P4").err().unwrap();
    assert!(e.ends_with("错误: "));
}

#[test]
fn info_is_assembled_step_by_step() {
    let info = MuMuInfo::default();
    let info = info_with_appdata(info, Err("no var".to_string()));
    assert_eq!(info.errors, vec!["APPDATA 获取失败: no var".to_string()]);
    let info = info_with_appdata(info, Ok("C:\\AppData".to_string()));
    assert_eq!(info.appdata_dir.as_deref(), Some("C:\\AppData"));
    let (info, major) = info_with_install_config(info, Err("x".to_string()));
    assert_eq!(major, "");
    assert_eq!(info.errors.len(), 2);
    let reg = RegistryRead {
        install_dir: Some("D:\\MuMu".to_string()),
        uninstall_string: Some("D:\\MuMu\\u.exe".to_string()),
        display_version: Some("V5.1".to_string()),
        registry_path: "HKLM\\K".to_string(),
    };
    let (info, major, lookup) = info_with_registry(info, major, Ok(reg));
    assert_eq!(info.full_version.as_deref(), Some("V5.1"));
    assert_eq!(info.major_version.as_deref(), Some("5"));
    assert_eq!(major, "5");
    assert_eq!(lookup.as_deref(), Some("D:\\MuMu"));
    let info = info_with_manager_lookup(info, None);
    assert_eq!(info.errors.last().map(|s| s.as_str()), Some("请确认版本不低于 4.0.0.3179"));
    let info = info_with_manager_lookup(info, Some("D:\\MuMu\\nx_main\\MuMuManager.exe".to_string()));
    assert!(info.mumu_manager_path.is_some());
    assert!(default_install_dir_probe(&info, &major).is_none());
}

#[test]
fn config_version_wins_over_registry_version() {
    let cfg = InstallConfig { version: "4.1.0".into(), channel: "ch".into(), major: "4".into(), subdir: "MuMuPlayer-12.0".into() };
    let (info, major) = info_with_install_config(MuMuInfo::default(), Ok(cfg));
    assert_eq!(major, "4");
    let (info, major, lookup) = info_with_registry(info, major, Err("gone".to_string()));
    assert_eq!(info.full_version.as_deref(), Some("4.1.0"));
    assert_eq!(info.errors, vec!["注册表读取失败: gone".to_string()]);
    assert!(lookup.is_none());
    let dir = default_install_dir_probe(&info, &major).unwrap();
    assert_eq!(dir, "D:\\Program Files\\Netease\\MuMu");
    let info = info_with_default_dir(info, dir, None);
    assert_eq!(info.install_dir.as_deref(), Some("D:\\Program Files\\Netease\\MuMu"));
    assert!(default_install_dir_probe(&MuMuInfo::default(), "").is_none());
}

#[test]
fn install_config_probe_from_text() {
    match probe_from_text(Ok("{\"product\":{\"version\":\"5.0.2\",\"fchannel\":7}}".into())) {
        ConfigProbe::Parsed { version, channel } => {
            assert_eq!(version.as_deref(), Some("5.0.2"));
            assert_eq!(channel, None);
        }
        _ => panic!("expected a parsed probe"),
    }
    match probe_from_text(Ok("{}".into())) {
        ConfigProbe::Parsed { version, channel } => assert!(version.is_none() && channel.is_none()),
        _ => panic!("expected a parsed probe"),
    }
    assert!(matches!(probe_from_text(Ok("not json".into())), ConfigProbe::ParseFailed(_)));
    match probe_from_text(Err("denied".into())) {
        ConfigProbe::ReadFailed(e) => assert_eq!(e, "denied"),
        _ => panic!("expected a read failure"),
    }
}
