use zcash_local_net::decimal::decimal;
use zcash_local_net::path::join;
use zcash_local_net::text::{contains_bytes, find, render_log};

#[test]
fn find_gives_the_first_occurrence() {
    assert_eq!(find(b"abcabc", b"bc"), Some(1));
    assert_eq!(find(b"abcabc", b"abc"), Some(0));
    assert_eq!(find(b"aaab", b"ab"), Some(2));
    assert_eq!(find(b"abc", b"c"), Some(2));
}

#[test]
fn find_gives_nothing_where_the_needle_is_absent() {
    assert_eq!(find(b"abcabc", b"cb"), None);
    assert_eq!(find(b"ab", b"abc"), None);
    assert_eq!(find(b"", b"a"), None);
    assert_eq!(find(b"Error", b"Error:"), None);
}

#[test]
fn the_empty_needle_stands_at_the_start_of_everything() {
    assert_eq!(find(b"abc", b""), Some(0));
    assert_eq!(find(b"", b""), Some(0));
    assert!(contains_bytes(b"", b""));
}

#[test]
fn contains_agrees_with_find() {
    assert!(contains_bytes(b"warning Error: x", b"Error:"));
    assert!(contains_bytes(b"Error:", b"Error:"));
    assert!(!contains_bytes(b"Error :", b"Error:"));
    assert!(!contains_bytes(b"rror:", b"Error:"));
}

#[test]
fn a_log_is_printed_with_a_line_feed_after_it() {
    assert_eq!(render_log(b"line one\nline two"), b"line one\nline two\n".to_vec());
    assert_eq!(render_log(b""), b"\n".to_vec());
}

#[test]
fn join_puts_one_separator_between_directory_and_name() {
    assert_eq!(join("/tmp/abc", "zcash.conf"), "/tmp/abc/zcash.conf");
    assert_eq!(join("/tmp/abc/", "zcash.conf"), "/tmp/abc/zcash.conf");
    assert_eq!(join("relative", "stdout.log"), "relative/stdout.log");
    assert_eq!(join("/", "x"), "/x");
}

#[test]
fn join_keeps_a_name_that_stands_for_itself() {
    assert_eq!(join("", "zcash.conf"), "zcash.conf");
    assert_eq!(join("/tmp/abc", "/etc/zcash.conf"), "/etc/zcash.conf");
    assert_eq!(join("/tmp/abc", ""), "/tmp/abc/");
    assert_eq!(join("", ""), "");
}

#[test]
fn join_agrees_with_the_standard_library() {
    let cases = [
        ("/tmp/abc", "zcash.conf"),
        ("/tmp/abc/", "zindexer.toml"),
        ("", "stdout.log"),
        ("/tmp/abc", "/etc/zcash.conf"),
        ("/tmp/abc", ""),
        ("dir", "sub/file"),
    ];
    for (dir, name) in cases {
        let expected = std::path::Path::new(dir).join(name);
        assert_eq!(join(dir, name), expected.to_str().unwrap());
    }
}

#[test]
fn decimal_writes_a_number_without_leading_zeros() {
    assert_eq!(decimal(0), "0");
    assert_eq!(decimal(7), "7");
    assert_eq!(decimal(10), "10");
    assert_eq!(decimal(101), "101");
    assert_eq!(decimal(4294967295), "4294967295");
}

#[test]
fn decimal_agrees_with_the_standard_library() {
    for n in [0u32, 1, 9, 10, 11, 99, 100, 12345, 1_000_000, u32::MAX - 1, u32::MAX] {
        assert_eq!(decimal(n), n.to_string());
    }
}
