use rss_miner::{extract_title_from_url, parse_url_list, resolve_url, ResolveError};

fn url_file_content() -> String {
    let mut content = String::new();
    content.push_str("# Comment line\n");
    content.push_str("https://example.com\n");
    content.push('\n');
    content.push_str("https://test.com\n");
    content.push_str("  https://trimmed.com  \n");
    content
}

#[test]
fn lib_test_read_urls_from_file() {
    let urls = parse_url_list(&url_file_content());
    assert_eq!(urls.len(), 3);
    assert_eq!(urls[0], "https://example.com");
    assert_eq!(urls[1], "https://test.com");
    assert_eq!(urls[2], "https://trimmed.com");
}

#[test]
fn main_test_read_urls_from_file() {
    let urls = parse_url_list(&url_file_content());
    assert_eq!(urls.len(), 3);
    assert_eq!(urls[0], "https://example.com");
    assert_eq!(urls[1], "https://test.com");
    assert_eq!(urls[2], "https://trimmed.com");
}

#[test]
fn lib_test_resolve_url_absolute() {
    let result = resolve_url("https://example.com", "https://feed.example.com/rss").unwrap();
    assert_eq!(result, "https://feed.example.com/rss");
}

#[test]
fn main_test_resolve_url_absolute() {
    let result = resolve_url("https://example.com", "https://feed.example.com/rss").unwrap();
    assert_eq!(result, "https://feed.example.com/rss");
}

#[test]
fn lib_test_resolve_url_relative() {
    let result = resolve_url("https://example.com", "/feed.xml").unwrap();
    assert_eq!(result, "https://example.com/feed.xml");
}

#[test]
fn main_test_resolve_url_relative() {
    let result = resolve_url("https://example.com", "/feed.xml").unwrap();
    assert_eq!(result, "https://example.com/feed.xml");
}

#[test]
fn lib_test_extract_title_from_url() {
    let title = extract_title_from_url("https://example.com/path");
    assert_eq!(title, "example.com");
}

#[test]
fn main_test_extract_title_from_url() {
    let title = extract_title_from_url("https://example.com/path");
    assert_eq!(title, "example.com");
}

#[test]
fn lib_test_extract_title_from_invalid_url() {
    let title = extract_title_from_url("not-a-url");
    assert_eq!(title, "Unknown");
}

#[test]
fn main_test_extract_title_from_invalid_url() {
    let title = extract_title_from_url("not-a-url");
    assert_eq!(title, "Unknown");
}

#[test]
fn resolve_rejects_invalid_base() {
    assert_eq!(resolve_url("not-a-url", "/feed.xml"), Err(ResolveError::InvalidBaseUrl));
}

#[test]
fn resolve_rejects_unjoinable_href() {
    assert_eq!(resolve_url("https://example.com", "http://[::1"), Err(ResolveError::InvalidHref));
}

#[test]
fn resolve_path_relative_and_protocol_relative() {
    assert_eq!(resolve_url("https://example.com/blog/post", "feed.xml").unwrap(), "https://example.com/blog/feed.xml");
    assert_eq!(resolve_url("https://example.com/a", "//cdn.example.org/rss").unwrap(), "https://cdn.example.org/rss");
}

#[test]
fn url_list_handles_crlf_unicode_space_and_no_final_newline() {
    let urls = parse_url_list("\u{a0}https://a.example\r\n#x\r\n   \r\nhttps://b.example");
    assert_eq!(urls, vec!["https://a.example".to_string(), "https://b.example".to_string()]);
    assert!(parse_url_list("").is_empty());
    assert!(parse_url_list("\n\n# only comments\n").is_empty());
}
