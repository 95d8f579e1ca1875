use secretcli::text::{execution_failed, str_contains, str_eq, trim_newline, u64_to_dec_string};

#[test]
fn trim_drops_trailing_crlf() {
    let mut s = "secret1abc...\r\n".to_string();
    trim_newline(&mut s);
    assert_eq!(s, "secret1abc...");
}

#[test]
fn trim_drops_trailing_newline_alone() {
    let mut s = "secret1abc\n".to_string();
    trim_newline(&mut s);
    assert_eq!(s, "secret1abc");
}

#[test]
fn trim_leaves_bare_carriage_return() {
    let mut s = "abc\r".to_string();
    trim_newline(&mut s);
    assert_eq!(s, "abc\r");
}

#[test]
fn trim_removes_only_one_newline() {
    let mut s = "abc\n\n".to_string();
    trim_newline(&mut s);
    assert_eq!(s, "abc\n");
}

#[test]
fn trim_handles_empty_and_lone_break() {
    let mut s = String::new();
    trim_newline(&mut s);
    assert_eq!(s, "");
    let mut s = "\r\n".to_string();
    trim_newline(&mut s);
    assert_eq!(s, "");
}

#[test]
fn contains_finds_middle_and_misses() {
    assert!(str_contains("abcdef", "cde"));
    assert!(str_contains("abcdef", ""));
    assert!(str_contains("abc", "abc"));
    assert!(!str_contains("abc", "abcd"));
    assert!(!str_contains("abcdef", "xyz"));
}

#[test]
fn execution_failure_detected_in_raw_log() {
    assert!(execution_failed(
        "out of gas: failed to execute message; message index: 0"
    ));
    assert!(!execution_failed("ok"));
}

#[test]
fn string_equality_is_exact() {
    assert!(str_eq("code_id", "code_id"));
    assert!(!str_eq("code_id", "code_idx"));
    assert!(!str_eq("code_id", "Code_id"));
    assert!(str_eq("", ""));
}

#[test]
fn decimal_rendering_matches_display() {
    assert_eq!(u64_to_dec_string(0), "0");
    assert_eq!(u64_to_dec_string(7), "7");
    assert_eq!(u64_to_dec_string(10), "10");
    assert_eq!(u64_to_dec_string(12345), "12345");
    assert_eq!(u64_to_dec_string(u64::MAX), u64::MAX.to_string());
}
