use gosh::input::{parse_input, ParsedInput};

#[test]
fn test_parse_http_url() {
    let result = parse_input("https://example.com/file.zip", false).unwrap();
    assert!(matches!(result, ParsedInput::Http(_)));
}

#[test]
fn test_parse_magnet() {
    let result = parse_input("magnet:?xt=urn:btih:abc123", false).unwrap();
    assert!(matches!(result, ParsedInput::Magnet(_)));
}

#[test]
fn test_parse_bare_domain() {
    let result = parse_input("example.com", false).unwrap();
    if let ParsedInput::Http(url) = result {
        assert!(url.starts_with("https://"));
    } else {
        panic!("Expected HTTP");
    }
}

#[test]
fn parse_rejects_known_extension() {
    assert!(parse_input("file.txt", false).is_err());
    assert!(parse_input("notes.md", false).is_err());
}

#[test]
fn parse_existing_file_is_torrent() {
    let result = parse_input("whatever.bin", true).unwrap();
    assert!(matches!(result, ParsedInput::TorrentFile(_)));
}

#[test]
fn parse_missing_torrent_reports_not_found() {
    assert!(parse_input("missing.torrent", false).is_err());
}

#[test]
fn parse_empty_input_is_rejected() {
    assert!(parse_input("   ", false).is_err());
}

#[test]
fn parse_www_prefix_becomes_https() {
    let result = parse_input("www.example.org", false).unwrap();
    if let ParsedInput::Http(url) = result {
        assert_eq!(url, "https://www.example.org");
    } else {
        panic!("Expected HTTP");
    }
}

#[test]
fn display_decodes_magnet_name() {
    let input = ParsedInput::Magnet("magnet:?xt=urn:btih:abc&dn=hello%20world".to_string());
    assert_eq!(input.display(), "hello world");
}

#[test]
fn display_falls_back_to_info_hash() {
    let input = ParsedInput::Magnet(
        "magnet:?xt=urn:btih:0123456789abcdef0123456789abcdef01234567".to_string(),
    );
    assert_eq!(input.display(), "magnet:0123456789abcdef");
}

#[test]
fn kind_labels() {
    assert_eq!(ParsedInput::Http("https://a.example".to_string()).kind(), "http");
    assert_eq!(ParsedInput::Magnet("magnet:?".to_string()).kind(), "magnet");
    assert_eq!(ParsedInput::TorrentFile("a.torrent".to_string()).kind(), "torrent");
}
