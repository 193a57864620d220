use gosh::util::{parse_speed, sanitize_filename, truncate_str};

#[test]
fn truncate_ascii() {
    assert_eq!(truncate_str("hello world", 11), "hello world");
    assert_eq!(truncate_str("hello world", 8), "hello...");
}

#[test]
fn truncate_emoji() {
    // "Hello 🌍!" is 11 bytes (🌍 = 4 bytes)
    assert_eq!(truncate_str("Hello 🌍!", 11), "Hello 🌍!");
    assert_eq!(truncate_str("Hello 🌍!", 8), "Hello...");
    // 🌍 is 4 bytes at offset 6; including it + "..." = 13 bytes > 10
    assert_eq!(truncate_str("Hello 🌍!", 10), "Hello ...");
    // "Hi 🌍 bye" = 11 bytes; emoji preserved when room allows
    assert_eq!(truncate_str("Hi 🌍 bye", 11), "Hi 🌍 bye");
    assert_eq!(truncate_str("Hi 🌍 bye", 10), "Hi 🌍...");
}

#[test]
fn truncate_cjk() {
    // Each CJK char is 3 bytes
    assert_eq!(truncate_str("你好世界", 12), "你好世界");
    assert_eq!(truncate_str("你好世界", 9), "你好...");
}

#[test]
fn truncate_short() {
    assert_eq!(truncate_str("abc", 3), "abc");
    assert_eq!(truncate_str("abc", 2), "...");
}

#[test]
fn sanitize_valid() {
    assert_eq!(sanitize_filename("file.zip").unwrap(), "file.zip");
    assert_eq!(sanitize_filename("sub/file.zip").unwrap(), "sub/file.zip");
}

#[test]
fn sanitize_rejects_traversal() {
    assert!(sanitize_filename("../etc/passwd").is_err());
    assert!(sanitize_filename("foo/../../bar").is_err());
}

#[test]
fn sanitize_rejects_absolute() {
    assert!(sanitize_filename("/etc/passwd").is_err());
}

#[test]
fn sanitize_rejects_empty() {
    assert!(sanitize_filename("").is_err());
    assert!(sanitize_filename("   ").is_err());
}

#[test]
fn test_parse_speed_bytes() {
    assert_eq!(parse_speed("1000").unwrap(), 1000);
}

#[test]
fn test_parse_speed_k() {
    assert_eq!(parse_speed("1K").unwrap(), 1024);
    assert_eq!(parse_speed("2k").unwrap(), 2048);
}

#[test]
fn test_parse_speed_m() {
    assert_eq!(parse_speed("1M").unwrap(), 1024 * 1024);
    assert_eq!(parse_speed("5m").unwrap(), 5 * 1024 * 1024);
}

#[test]
fn test_parse_speed_g() {
    assert_eq!(parse_speed("1G").unwrap(), 1024 * 1024 * 1024);
}

#[test]
fn test_parse_speed_invalid() {
    assert!(parse_speed("abc").is_err());
}
