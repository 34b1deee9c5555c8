use mutools::paths::{first_present, path1, path2, path3, path4, path5};

#[test]
fn locations_keep_base_and_names_in_order() {
    let p = path1("C:\\a", "b");
    assert_eq!(p.base, "C:\\a");
    assert_eq!(p.parts, vec!["b".to_string()]);
    assert_eq!(path2("x", "nx_main", "MuMuManager.exe").parts, vec!["nx_main", "MuMuManager.exe"]);
    assert_eq!(path3("x", "a", "b", "c").parts, vec!["a", "b", "c"]);
    assert_eq!(path4("x", "a", "b", "c", "d").parts, vec!["a", "b", "c", "d"]);
    let p5 = path5("D:\\MuMu", "nx_device", "12.0", "vms", "MuMuPlayer-12.0-base", "system.vdi");
    assert_eq!(p5.base, "D:\\MuMu");
    assert_eq!(p5.parts, vec!["nx_device", "12.0", "vms", "MuMuPlayer-12.0-base", "system.vdi"]);
}

#[test]
fn first_existing_candidate() {
    assert_eq!(first_present(&[false, true, true]), Some(1));
    assert_eq!(first_present(&[true]), Some(0));
    assert_eq!(first_present(&[false, false]), None);
    assert_eq!(first_present(&[]), None);
}
