use readwise_reader_tui::document::Document;
use readwise_reader_tui::hostname::{get_hostname, hostname_or_url};

fn doc(id: &str, url: &str) -> Document {
    Document {
        id: id.to_string(),
        title: format!("Title {}", id),
        author: None,
        source: None,
        site_name: None,
        source_url: url.to_string(),
        location: "new".to_string(),
        category: "article".to_string(),
        html_content: None,
        created_at: "2024-01-01T00:00:00Z".to_string(),
        published_date: None,
        summary: None,
        first_opened_at: None,
        tags: None,
        reading_progress: 0,
    }
}

#[test]
fn unopened_document_is_not_seen() {
    let mut d = doc("a", "https://example.com/x");
    assert!(!d.is_seen());
    d.first_opened_at = Some("2024-02-02".to_string());
    assert!(d.is_seen());
}

#[test]
fn listed_match_by_id_or_nonempty_url() {
    let d = doc("a", "https://example.com/x");
    assert!(d.matches_listed(&"a".to_string(), &"other".to_string()));
    assert!(d.matches_listed(&"b".to_string(), &"https://example.com/x".to_string()));
    assert!(!d.matches_listed(&"b".to_string(), &"https://example.com/y".to_string()));
    let e = doc("c", "");
    assert!(!e.matches_listed(&"b".to_string(), &"".to_string()));
}

#[test]
fn open_match_accepts_empty_url() {
    let e = doc("c", "");
    assert!(e.matches_open(&"b".to_string(), &"".to_string()));
    assert!(e.matches_open(&"c".to_string(), &"z".to_string()));
    assert!(!e.matches_open(&"b".to_string(), &"z".to_string()));
}

#[test]
fn tag_names_copies_in_order_or_gives_none() {
    let mut d = doc("a", "u");
    assert!(d.tag_names().is_empty());
    d.tags = Some(vec!["b".to_string(), "progress:40".to_string(), "a".to_string()]);
    assert_eq!(d.tag_names(), vec!["b".to_string(), "progress:40".to_string(), "a".to_string()]);
}

#[test]
fn source_display_prefers_site_name() {
    let mut d = doc("a", "https://blog.example.org/post");
    d.site_name = Some("My Blog".to_string());
    d.source = Some("Feed".to_string());
    assert_eq!(d.source_display(), "My Blog");
}

#[test]
fn source_display_skips_reader_rss_site_name() {
    let mut d = doc("a", "https://blog.example.org/post");
    d.site_name = Some("Reader RSS".to_string());
    d.source = Some("Feed".to_string());
    assert_eq!(d.source_display(), "blog.example.org");
}

#[test]
fn source_display_uses_source_without_site_name() {
    let mut d = doc("a", "https://blog.example.org/post");
    d.source = Some("Feed".to_string());
    assert_eq!(d.source_display(), "Feed");
    d.source = Some("Reader RSS".to_string());
    assert_eq!(d.source_display(), "blog.example.org");
}

#[test]
fn source_display_falls_back_to_host_then_url() {
    let d = doc("a", "https://news.example.com:8080/a?b=c");
    assert_eq!(d.source_display(), "news.example.com");
    let e = doc("a", "not a url");
    assert_eq!(e.source_display(), "not a url");
}

#[test]
fn author_display_defaults_to_unknown() {
    let mut d = doc("a", "u");
    assert_eq!(d.author_display(), "Unknown");
    d.author = Some("Ada".to_string());
    assert_eq!(d.author_display(), "Ada");
}

#[test]
fn unread_marker_dot_until_seen() {
    let mut d = doc("a", "u");
    assert_eq!(d.unread_marker(), "●");
    d.first_opened_at = Some("local".to_string());
    assert_eq!(d.unread_marker(), " ");
}

#[test]
fn hostname_of_urls() {
    assert_eq!(get_hostname("https://example.com/a/b"), "example.com");
    assert_eq!(get_hostname("http://[::1]:80/"), "[::1]");
    assert_eq!(get_hostname("mailto:someone@example.com"), "mailto:someone@example.com");
    assert_eq!(get_hostname(""), "");
    assert_eq!(get_hostname("example.com/path"), "example.com/path");
}

#[test]
fn hostname_or_url_cases() {
    assert_eq!(hostname_or_url(Some(Some("h".to_string())), "u"), "h");
    assert_eq!(hostname_or_url(Some(None), "u"), "u");
    assert_eq!(hostname_or_url(None, "u"), "u");
}
