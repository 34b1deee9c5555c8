use mutools::config::{
    appdata_data_dir, aria2_settings, default_admin_elevation, default_aria2_max_connections,
    default_aria2_split, default_auto_delete_installer, default_data_dir_mode, resolve_data_dir,
    with_admin_elevation, with_aria2, with_auto_delete_installer, with_data_dir, DataConfig, DataDir,
};

fn config(mode: &str, custom: &str) -> DataConfig {
    let mut c = DataConfig::default();
    c.data_dir_mode = mode.to_string();
    c.data_dir_custom = custom.to_string();
    c
}

#[test]
fn defaults_match_the_documented_settings() {
    let c = DataConfig::default();
    assert_eq!(c.data_dir_mode, "appdata");
    assert_eq!(c.data_dir_custom, "");
    assert!(c.admin_elevation);
    assert_eq!(c.aria2_max_connections, 5);
    assert_eq!(c.aria2_split, 5);
    assert!(!c.auto_delete_installer);
    assert_eq!(default_data_dir_mode(), "appdata");
    assert!(default_admin_elevation());
    assert_eq!(default_aria2_max_connections(), 5);
    assert_eq!(default_aria2_split(), 5);
    assert!(!default_auto_delete_installer());
}

#[test]
fn data_dir_modes() {
    assert!(matches!(resolve_data_dir(&config("exe_dir", "")), DataDir::ExeDir));
    match resolve_data_dir(&config("custom", "  D:\\MuTools  ")) {
        DataDir::Custom(p) => assert_eq!(p, "D:\\MuTools"),
        _ => panic!("custom path expected"),
    }
    assert!(matches!(resolve_data_dir(&config("custom", "   ")), DataDir::AppData));
    assert!(matches!(resolve_data_dir(&config("appdata", "x")), DataDir::AppData));
    assert!(matches!(resolve_data_dir(&config("weird", "x")), DataDir::AppData));
}

#[test]
fn appdata_fallbacks() {
    let p = appdata_data_dir(Some("C:\\Users\\u\\AppData\\Roaming".to_string()), Some("C:\\Users\\u".to_string()));
    assert_eq!(p.base, "C:\\Users\\u\\AppData\\Roaming");
    assert_eq!(p.parts, vec!["MuTools".to_string()]);
    let p = appdata_data_dir(None, Some("C:\\Users\\u".to_string()));
    assert_eq!(p.base, "C:\\Users\\u");
    assert_eq!(p.parts, vec![".mutools".to_string()]);
    let p = appdata_data_dir(None, None);
    assert_eq!(p.base, ".");
    assert!(p.parts.is_empty());
}

#[test]
fn saving_one_setting_keeps_the_others() {
    let c = with_aria2(DataConfig::default(), 16, 8);
    let s = aria2_settings(&c);
    assert_eq!((s.max_connections, s.split), (16, 8));
    assert!(c.admin_elevation);
    let c = with_admin_elevation(c, false);
    assert!(!c.admin_elevation);
    assert_eq!(c.aria2_max_connections, 16);
    let c = with_auto_delete_installer(c, true);
    assert!(c.auto_delete_installer);
    let c = with_data_dir(c, "custom".to_string(), "E:\\data".to_string());
    assert_eq!(c.data_dir_mode, "custom");
    assert_eq!(c.data_dir_custom, "E:\\data");
    assert!(!c.admin_elevation);
    assert!(c.auto_delete_installer);
    assert_eq!((c.aria2_max_connections, c.aria2_split), (16, 8));
}
