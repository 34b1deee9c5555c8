use mutools::mumu_info::MuMuInfo;
use mutools::optimize::{
    data_package_extensions, decode_windows_output, disable_updater_plan, extension_matches,
    config_with_fchannel, fchannel_already_special, fchannel_applied, fchannel_to_write, fchannel_restored, get_appdata_dir_from_info,
    get_hosts_path, get_install_dir_from_info, get_system_vdi_paths, import_data_args,
    import_data_manager, import_data_outcome, install_config_path, major_version,
    overlay_apply_outcome, overlay_apply_plan, overlay_extract_args, overlay_package_extensions,
    overlay_restored, overlay_undo_plan, require_nx_major, require_v4_major, restore_updater_plan,
    same_ignoring_ascii_case, seven_zip_choice, startup_disable_outcome, startup_image_candidates,
    startup_image_step, startup_restore_needed, startup_restore_outcome, undo_import_data_package,
    updater_backup_path, updater_path, vdi_patch_step, vdi_restore_step, vdi_missing_line,
    vdi_patched_line, DisableUpdaterPlan, DomainGroup, OverlayPlan, SevenZipChoice, StartupStep,
    VdiStep, VdiUndoStep,
};

fn info(major: Option<&str>, manager: Option<&str>) -> MuMuInfo {
    let mut i = MuMuInfo::default();
    i.major_version = major.map(|s| s.to_string());
    i.mumu_manager_path = manager.map(|s| s.to_string());
    i
}

#[test]
fn info_requirements() {
    let mut i = MuMuInfo::default();
    assert_eq!(major_version(&i), "");
    assert_eq!(get_install_dir_from_info(&i).err().unwrap(), "未能获取 MuMu 安装目录");
    assert_eq!(get_appdata_dir_from_info(&i).err().unwrap(), "未能获取 APPDATA 目录");
    i.install_dir = Some("D:\\M".into());
    i.appdata_dir = Some("C:\\A".into());
    assert_eq!(get_install_dir_from_info(&i).ok().unwrap(), "D:\\M");
    assert_eq!(get_appdata_dir_from_info(&i).ok().unwrap(), "C:\\A");
    assert!(require_nx_major("6").is_ok());
    assert_eq!(require_nx_major("4").err().unwrap(), "该功能仅支持 5.x 或 6.x 版本");
    assert!(require_v4_major("4").is_ok());
    assert_eq!(require_v4_major("").err().unwrap(), "请使用其他方案");
}

#[test]
fn hosts_groups() {
    assert_eq!(DomainGroup::Update.entries(), vec!["127.0.0.1 mumu.nie.netease.com", "127.0.0.1 g.fp.ps.netease.com"]);
    assert_eq!(DomainGroup::Report.probe_domain(), "report.mumu.nie.netease.com");
    assert_eq!(DomainGroup::Update.block_outcome(true).ok().unwrap(), "更新域名已屏蔽");
    assert_eq!(DomainGroup::Report.block_outcome(false).err().unwrap(), "hosts 修改失败，仍能正常解析域名");
    assert_eq!(DomainGroup::Report.unblock_outcome(false).ok().unwrap(), "数据上报域名已恢复");
    assert_eq!(DomainGroup::Update.unblock_outcome(true).err().unwrap(), "解析仍未恢复，请检查网络或 hosts 配置");
    assert_eq!(get_hosts_path(), "C:\\Windows\\System32\\drivers\\etc\\hosts");
}

#[test]
fn windows_output_decoding() {
    assert_eq!(decode_windows_output("已完成".as_bytes()), "已完成");
    assert_eq!(decode_windows_output(&[0xC4, 0xE3, 0xBA, 0xC3]), "你好");
    assert_eq!(decode_windows_output(&[0x81]), "\u{FFFD}");
}

#[test]
fn startup_image_plans() {
    let c = startup_image_candidates("C:\\A");
    assert_eq!(c.len(), 4);
    assert_eq!(c[3].parts, vec!["Netease", "MuMuPlayer-12.0", "data", "startupImage"]);
    assert!(matches!(startup_image_step(true, false), StartupStep::ReplaceDirectory));
    assert!(matches!(startup_image_step(false, true), StartupStep::AlreadyFile));
    assert!(matches!(startup_image_step(false, false), StartupStep::CreateFile));
    assert_eq!(startup_disable_outcome(0).err().unwrap(), "未找到任何 startupImage 目录");
    assert_eq!(startup_disable_outcome(4).ok().unwrap(), "启动图已禁用");
    assert!(startup_restore_needed(true, true));
    assert!(!startup_restore_needed(true, false));
    assert_eq!(startup_restore_outcome(2).ok().unwrap(), "启动图已恢复，共处理 2 个位置");
    assert_eq!(startup_restore_outcome(0).err().unwrap(), "未找到 startupImage 文件，无需恢复");
}

#[test]
fn data_package_import() {
    assert_eq!(import_data_manager(&info(Some("5"), None)).err().unwrap(), "未找到 MuMuManager");
    assert_eq!(import_data_manager(&info(Some("3"), Some("m.exe"))).err().unwrap(), "不支持的版本");
    assert_eq!(import_data_manager(&info(None, Some("m.exe"))).err().unwrap(), "不支持的版本");
    assert_eq!(import_data_manager(&info(Some("4"), Some("m.exe"))).ok().unwrap(), "m.exe");
    assert_eq!(import_data_args("D:\\p.mumudata"), vec!["import", "-p", "D:\\p.mumudata", "-n", "1"]);
    assert_eq!(import_data_outcome(true, "ok", "").ok().unwrap(), "Data 优化包已导入\nok");
    assert_eq!(import_data_outcome(false, "", "boom").err().unwrap(), "导入失败: boom");
    assert!(undo_import_data_package().ok().unwrap().contains("请手动删除相关实例"));
}

#[test]
fn updater_plans() {
    assert_eq!(updater_path("D:\\M", "5").parts, vec!["nx_main", "MuMuPlayerUpdater.exe"]);
    assert_eq!(updater_backup_path("D:\\M", "4").parts, vec!["shell", "MuMuPlayerUpdater.exe.bak"]);
    assert!(matches!(disable_updater_plan(false, true), DisableUpdaterPlan::AlreadyDisabled));
    assert!(matches!(disable_updater_plan(true, true), DisableUpdaterPlan::RemoveThenStub));
    assert!(matches!(disable_updater_plan(true, false), DisableUpdaterPlan::BackUpThenStub));
    assert!(matches!(disable_updater_plan(false, false), DisableUpdaterPlan::StubOnly));
    assert_eq!(restore_updater_plan(true, true).ok(), Some(true));
    assert_eq!(restore_updater_plan(false, true).ok(), Some(false));
    assert_eq!(restore_updater_plan(true, false).err().unwrap(), "未找到备份文件 .bak");
}

#[test]
fn overlay_plans() {
    assert!(matches!(seven_zip_choice(true, true), Ok(SevenZipChoice::Resource)));
    assert!(matches!(seven_zip_choice(false, true), Ok(SevenZipChoice::BesideExecutable)));
    assert_eq!(seven_zip_choice(false, false).err().unwrap(), "7z.exe 未找到，请先安装 7zip 资源包");
    assert!(matches!(overlay_apply_plan(true, false), OverlayPlan::BackUp));
    assert!(matches!(overlay_apply_plan(true, true), OverlayPlan::Remove));
    assert!(matches!(overlay_apply_plan(false, true), OverlayPlan::Nothing));
    assert_eq!(overlay_extract_args("D:\\M", "p.7z"), vec!["x", "-y", "-oD:\\M", "p.7z"]);
    assert_eq!(overlay_apply_outcome(false, "e").err().unwrap(), "解压 overlay 包失败: e");
    assert_eq!(overlay_apply_outcome(true, "").ok().unwrap(), "仿专版 overlay 已应用");
    assert_eq!(overlay_undo_plan(true, false), (true, false));
    assert_eq!(overlay_restored(), "仿专版 overlay 已恢复");
}

#[test]
fn fchannel_reports() {
    assert_eq!(install_config_path("C:\\A").parts, vec!["Netease", "MuMuPlayer", "install_config.json"]);
    assert!(fchannel_already_special(Some("yx-yys".into())));
    assert_eq!(fchannel_to_write(Some("yx-yys".into())), None);
    assert_eq!(fchannel_to_write(Some("nochannel-mumu12".into())).as_deref(), Some("yx-yys"));
    assert_eq!(fchannel_to_write(None).as_deref(), Some("yx-yys"));
    assert!(!fchannel_already_special(Some("nochannel-mumu12".into())));
    assert!(!fchannel_already_special(None));
    assert_eq!(fchannel_applied(true), "fchannel 已经是 yx-yys");
    assert_eq!(fchannel_applied(false), "fchannel 已修改为 yx-yys");
    assert_eq!(fchannel_restored(), "fchannel 已恢复为 nochannel-mumu12");
}

#[test]
fn system_image_locations() {
    let p = get_system_vdi_paths("D:\\M", "5").ok().unwrap();
    assert_eq!(p.len(), 1);
    assert_eq!(p[0].parts, vec!["nx_device", "12.0", "vms", "MuMuPlayer-12.0-base", "system.vdi"]);
    let p = get_system_vdi_paths("D:\\M", "6").ok().unwrap();
    assert_eq!(p.len(), 2);
    assert_eq!(p[1].parts[1], "15.0");
    assert_eq!(get_system_vdi_paths("D:\\M", "4").err().unwrap(), "该功能仅支持 5.x 或 6.x 版本");
    assert!(matches!(vdi_patch_step(false, true), VdiStep::SkipMissing));
    assert!(matches!(vdi_patch_step(true, true), VdiStep::SkipMarked));
    assert!(matches!(vdi_patch_step(true, false), VdiStep::Patch));
    assert!(matches!(vdi_restore_step(true, false), VdiUndoStep::SkipUnmarked));
    assert!(matches!(vdi_restore_step(true, true), VdiUndoStep::Restore));
    assert_eq!(vdi_missing_line("x.vdi"), "跳过 x.vdi (文件不存在)");
    assert_eq!(vdi_patched_line("x.vdi", "ab"), "x.vdi 已添加海外版标识, MD5: ab");
}

#[test]
fn optimisation_file_extensions() {
    assert!(same_ignoring_ascii_case("MuMuData", "mumudata"));
    assert!(!same_ignoring_ascii_case("mumudat", "mumudata"));
    assert!(extension_matches("MUMUDATA", &data_package_extensions()));
    assert!(extension_matches("Zip", &overlay_package_extensions()));
    assert!(!extension_matches("rar", &overlay_package_extensions()));
}

#[test]
fn fchannel_edit_of_config_text() {
    let text = "{\"product\":{\"version\":\"5.0\",\"fchannel\":\"nochannel-mumu12\"}}";
    let applied = config_with_fchannel(text, true).unwrap().ok().unwrap().unwrap();
    let v: serde_json::Value = serde_json::from_str(&applied).unwrap();
    assert_eq!(v["product"]["fchannel"], "yx-yys");
    assert_eq!(v["product"]["version"], "5.0");
    assert_eq!(config_with_fchannel(&applied, true).unwrap().ok().unwrap(), None);
    let again = config_with_fchannel(&config_with_fchannel(text, false).unwrap().ok().unwrap().unwrap(), true);
    assert!(again.unwrap().ok().unwrap().is_some());
    let undone = config_with_fchannel(&applied, false).unwrap().ok().unwrap().unwrap();
    let u: serde_json::Value = serde_json::from_str(&undone).unwrap();
    assert_eq!(u["product"]["fchannel"], "nochannel-mumu12");
    assert!(config_with_fchannel("{", true).unwrap().err().unwrap().starts_with("解析 install_config.json 失败: "));
    assert_eq!(config_with_fchannel("{\"a\":1}", true).unwrap().err().unwrap(), "install_config.json 中缺少 product 节点");
    assert!(config_with_fchannel("{\"product\":3}", false).is_none());
    let from_null = config_with_fchannel("{\"product\":null}", true).unwrap().ok().unwrap().unwrap();
    let n: serde_json::Value = serde_json::from_str(&from_null).unwrap();
    assert_eq!(n["product"]["fchannel"], "yx-yys");
}
