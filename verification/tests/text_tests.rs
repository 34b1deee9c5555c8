use mutools::decimal::{format_i32, format_u64, parse_u32, parse_u64};
use mutools::text::{
    chars_of, contains, ends_with, find, join_with_newlines, lines_of, starts_with, string_of,
    trim, unquote,
};
use mutools::packages::{package_kind_for_extension, safe_name, PackageKind};

fn cv(s: &str) -> Vec<char> {
    s.chars().collect()
}

#[test]
fn trim_removes_outer_whitespace_only() {
    assert_eq!(trim("  a b \t\r\n"), "a b");
    assert_eq!(trim("   "), "");
    assert_eq!(trim(""), "");
    assert_eq!(trim("\u{3000}x\u{3000}"), "x");
}

#[test]
fn unquote_strips_quotes_at_both_ends() {
    assert_eq!(unquote("\"D:\\MuMu\\uninstall.exe\""), "D:\\MuMu\\uninstall.exe");
    assert_eq!(unquote("\"\"a\"b\"\""), "a\"b");
    assert_eq!(unquote("\"\"\""), "");
}

#[test]
fn whitespace_and_alphanumeric_classes() {
    assert_eq!(trim(" \u{85}a\u{85} "), "a");
    assert_eq!(trim("\u{85}"), "");
    assert_eq!(safe_name("Z中-a b"), "Z中-a_b");
    assert!(matches!(package_kind_for_extension("ZIP"), PackageKind::Zip));
    assert!(matches!(package_kind_for_extension("Exe"), PackageKind::SelfExtracting));
}

#[test]
fn substring_search() {
    assert!(contains(&cv("127.0.0.1 host"), &cv("0.0.1")));
    assert!(!contains(&cv("abc"), &cv("abcd")));
    assert!(contains(&cv("abc"), &cv("")));
    assert_eq!(find(&cv("abcabc"), &cv("ca")), Some(2));
    assert_eq!(find(&cv("abc"), &cv("x")), None);
    assert!(starts_with(&cv("MuMu"), &cv("Mu")));
    assert!(ends_with(&cv("setup.exe"), &cv(".exe")));
    assert!(!ends_with(&cv("exe"), &cv(".exe")));
}

#[test]
fn lines_follow_str_lines() {
    let text = "a\r\nb\n\nc\r";
    let got: Vec<String> = lines_of(&cv(text)).iter().map(|l| l.iter().collect()).collect();
    let expected: Vec<String> = text.lines().map(|l| l.to_string()).collect();
    assert_eq!(got, expected);
    assert!(lines_of(&cv("")).is_empty());
    assert_eq!(lines_of(&cv("x\n")).len(), 1);
}

#[test]
fn join_puts_newlines_between() {
    let ls = vec![cv("a"), cv(""), cv("b")];
    let joined: String = join_with_newlines(&ls).into_iter().collect();
    assert_eq!(joined, "a\n\nb");
    assert!(join_with_newlines(&vec![]).is_empty());
}

#[test]
fn char_round_trip() {
    assert_eq!(string_of(&chars_of("多开 data")), "多开 data");
}

#[test]
fn decimal_parse_and_format() {
    assert_eq!(parse_u64(&cv("12345")), Some(12345));
    assert_eq!(parse_u64(&cv("+7")), Some(7));
    assert_eq!(parse_u64(&cv("")), None);
    assert_eq!(parse_u64(&cv("+")), None);
    assert_eq!(parse_u64(&cv("-0")), None);
    assert_eq!(parse_u64(&cv("1a")), None);
    assert_eq!(parse_u64(&cv("18446744073709551615")), Some(u64::MAX));
    assert_eq!(parse_u64(&cv("18446744073709551616")), None);
    assert_eq!(parse_u32(&cv("4294967296")), None);
    assert_eq!(parse_u32(&cv("3")), Some(3));
    let f: String = format_u64(0).into_iter().collect();
    assert_eq!(f, "0");
    let f: String = format_u64(u64::MAX).into_iter().collect();
    assert_eq!(f, u64::MAX.to_string());
    let f: String = format_i32(-1).into_iter().collect();
    assert_eq!(f, "-1");
    let f: String = format_i32(i32::MIN).into_iter().collect();
    assert_eq!(f, i32::MIN.to_string());
}

#[test]
fn parse_reads_back_format() {
    for n in [0u64, 9, 10, 99, 100, 4096, 123456789, u64::MAX] {
        assert_eq!(parse_u64(&format_u64(n)), Some(n));
    }
}
