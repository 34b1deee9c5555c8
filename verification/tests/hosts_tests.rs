use mutools::hosts::{host_content_with_entry, host_content_without_entry, host_entry_addition, ping_shows_local};

const ENTRY: &str = "127.0.0.1 g.fp.ps.netease.com";

#[test]
fn addition_needs_separator_only_without_final_newline() {
    assert_eq!(host_entry_addition("# hosts", ENTRY), Some(format!("\n{}\n", ENTRY)));
    assert_eq!(host_entry_addition("# hosts\n", ENTRY), Some(format!("{}\n", ENTRY)));
    assert_eq!(host_entry_addition("", ENTRY), Some(format!("\n{}\n", ENTRY)));
    assert_eq!(host_entry_addition(&format!("x\n  {}  \n", ENTRY), ENTRY), None);
}

#[test]
fn ensured_entry_is_present_and_written_once() {
    let once = host_content_with_entry("# hosts\n", ENTRY);
    assert!(once.contains(ENTRY));
    assert!(once.starts_with("# hosts\n"));
    let twice = host_content_with_entry(&once, ENTRY);
    assert_eq!(once, twice);
}

#[test]
fn removal_drops_every_matching_line() {
    let content = format!("a\r\n  {} \n b\n{}", ENTRY, ENTRY);
    let removed = host_content_without_entry(&content, ENTRY);
    assert_eq!(removed, "a\n b\n");
    assert!(removed.lines().all(|l| l.trim() != ENTRY));
}

#[test]
fn removal_always_ends_with_newline() {
    assert_eq!(host_content_without_entry("", ENTRY), "\n");
    assert_eq!(host_content_without_entry(ENTRY, ENTRY), "\n");
    assert_eq!(host_content_without_entry("a\n\n", ENTRY), "a\n");
}

#[test]
fn ensure_after_remove_restores_entry() {
    let start = format!("# hosts\n{}\n", ENTRY);
    let removed = host_content_without_entry(&start, ENTRY);
    assert!(!removed.contains(ENTRY));
    let again = host_content_with_entry(&removed, ENTRY);
    assert_eq!(again, start);
}

#[test]
fn ping_output_shows_local_address() {
    assert!(ping_shows_local("正在 Ping g.fp.ps.netease.com [127.0.0.1] 具有 32 字节的数据"));
    assert!(!ping_shows_local("Reply from 10.0.0.1"));
}
