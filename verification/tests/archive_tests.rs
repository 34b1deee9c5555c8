use std::io::Write;

use mutools::archive::{open_zip, zip_entry_step, ZipStep};

fn sample_zip() -> Vec<u8> {
    let mut w = zip::ZipWriter::new(std::io::Cursor::new(Vec::new()));
    let opts = zip::write::SimpleFileOptions::default();
    w.add_directory("pkg/", opts).unwrap();
    w.start_file("pkg/a.txt", opts).unwrap();
    w.write_all(b"hello").unwrap();
    w.start_file("../../evil.txt", opts).unwrap();
    w.write_all(b"x").unwrap();
    w.start_file("..", opts).unwrap();
    w.finish().unwrap().into_inner()
}

#[test]
fn zip_entries_become_steps() {
    let (mut a, n) = open_zip(sample_zip()).ok().unwrap();
    assert_eq!(n, 4);
    match zip_entry_step(&mut a, 0) {
        ZipStep::Directory(p) => assert_eq!(p, vec!["pkg"]),
        _ => panic!("expected a folder"),
    }
    match zip_entry_step(&mut a, 1) {
        ZipStep::File(p, d) => {
            assert_eq!(p, vec!["pkg", "a.txt"]);
            assert_eq!(d, b"hello");
        }
        _ => panic!("expected a file"),
    }
    match zip_entry_step(&mut a, 2) {
        ZipStep::File(p, d) => {
            assert_eq!(p, vec!["evil.txt"]);
            assert_eq!(d, b"x");
        }
        _ => panic!("expected a file"),
    }
    match zip_entry_step(&mut a, 3) {
        ZipStep::Fail(m) => assert_eq!(m, "无效的压缩包路径"),
        _ => panic!("expected a failure"),
    }
    match zip_entry_step(&mut a, 9) {
        ZipStep::Fail(m) => assert!(m.starts_with("读取压缩包条目失败: ")),
        _ => panic!("expected a failure"),
    }
}

#[test]
fn zip_open_failure() {
    assert!(open_zip(b"not a zip".to_vec()).err().unwrap().starts_with("无法解析压缩包: "));
}
