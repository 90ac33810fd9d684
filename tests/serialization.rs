use rss_miner::{opml_document, FeedType, PyRssFeed, RssFeed, SubscriptionDocument};

fn feed(title: &str, url: &str, feed_type: FeedType) -> RssFeed {
    RssFeed {
        title: title.to_string(),
        url: url.to_string(),
        html_url: "https://example.com".to_string(),
        feed_type,
    }
}

/// Every attribute value that the document would write out.
fn attributes(doc: &SubscriptionDocument) -> Vec<String> {
    let mut all = vec![doc.title.clone()];
    for e in &doc.entries {
        all.push(e.title.clone());
        all.push(e.kind.clone());
        all.push(e.xml_url.clone());
        all.push(e.html_url.clone());
    }
    all
}

fn contains(doc: &SubscriptionDocument, needle: &str) -> bool {
    attributes(doc).iter().any(|a| a.contains(needle))
}

fn occurrences(doc: &SubscriptionDocument, needle: &str) -> usize {
    attributes(doc).iter().map(|a| a.matches(needle).count()).sum()
}

#[test]
fn lib_test_create_opml_file() {
    let feeds = vec![
        feed("Test Feed 1", "https://example.com/feed1.xml", FeedType::Rss),
        feed("Test Feed 2", "https://example.com/feed2.xml", FeedType::Atom),
    ];
    let doc = opml_document(&feeds, None);
    assert!(contains(&doc, "Test Feed 1"));
    assert!(contains(&doc, "Test Feed 2"));
    assert!(contains(&doc, "https://example.com/feed1.xml"));
    assert!(contains(&doc, "https://example.com/feed2.xml"));
    assert_eq!(doc.title, "RSS Feeds");
}

#[test]
fn main_test_create_opml_file() {
    let feeds = vec![
        feed("Test Feed 1", "https://example.com/feed1.xml", FeedType::Rss),
        feed("Test Feed 2", "https://example.com/feed2.xml", FeedType::Atom),
    ];
    let doc = opml_document(&feeds, None);
    assert!(contains(&doc, "Test Feed 1"));
    assert!(contains(&doc, "Test Feed 2"));
    assert!(contains(&doc, "https://example.com/feed1.xml"));
    assert!(contains(&doc, "https://example.com/feed2.xml"));
    assert_eq!(doc.entries.len(), 2);
}

#[test]
fn test_create_opml_file_with_duplicates() {
    let feeds = vec![
        feed("Test Feed 1", "https://example.com/feed1.xml", FeedType::Rss),
        feed("Test Feed 2", "https://example.com/feed2.xml", FeedType::Atom),
        feed("Test Feed 1 Duplicate", "https://example.com/feed1.xml", FeedType::Rss),
        feed("Test Feed 3", "https://example.com/feed3.xml", FeedType::Rss),
        feed("Test Feed 2 Duplicate", "https://example.com/feed2.xml", FeedType::Atom),
    ];
    let doc = opml_document(&feeds, None);

    assert!(contains(&doc, "Test Feed 1"));
    assert!(contains(&doc, "Test Feed 2"));
    assert!(contains(&doc, "Test Feed 3"));

    assert!(!contains(&doc, "Test Feed 1 Duplicate"));
    assert!(!contains(&doc, "Test Feed 2 Duplicate"));

    assert_eq!(occurrences(&doc, "https://example.com/feed1.xml"), 1);
    assert_eq!(occurrences(&doc, "https://example.com/feed2.xml"), 1);
    assert_eq!(occurrences(&doc, "https://example.com/feed3.xml"), 1);
}

#[test]
fn test_create_opml_file_rss_only() {
    let feeds = vec![
        feed("RSS Feed 1", "https://example.com/rss1.xml", FeedType::Rss),
        feed("Atom Feed 1", "https://example.com/atom1.xml", FeedType::Atom),
        feed("RSS Feed 2", "https://example.com/rss2.xml", FeedType::Rss),
    ];
    let doc = opml_document(&feeds, Some(FeedType::Rss));

    assert!(contains(&doc, "RSS Feed 1"));
    assert!(contains(&doc, "RSS Feed 2"));
    assert!(contains(&doc, "https://example.com/rss1.xml"));
    assert!(contains(&doc, "https://example.com/rss2.xml"));

    assert!(!contains(&doc, "Atom Feed 1"));
    assert!(!contains(&doc, "https://example.com/atom1.xml"));

    assert!(contains(&doc, "RSS Feeds"));
}

#[test]
fn test_create_opml_file_atom_only() {
    let feeds = vec![
        feed("RSS Feed 1", "https://example.com/rss1.xml", FeedType::Rss),
        feed("Atom Feed 1", "https://example.com/atom1.xml", FeedType::Atom),
        feed("Atom Feed 2", "https://example.com/atom2.xml", FeedType::Atom),
    ];
    let doc = opml_document(&feeds, Some(FeedType::Atom));

    assert!(contains(&doc, "Atom Feed 1"));
    assert!(contains(&doc, "Atom Feed 2"));
    assert!(contains(&doc, "https://example.com/atom1.xml"));
    assert!(contains(&doc, "https://example.com/atom2.xml"));

    assert!(!contains(&doc, "RSS Feed 1"));
    assert!(!contains(&doc, "https://example.com/rss1.xml"));

    assert!(contains(&doc, "Atom Feeds"));
}

#[test]
fn dedup_keeps_first_title_in_order() {
    let feeds = vec![
        feed("1", "https://a.example/feed", FeedType::Rss),
        feed("2", "https://b.example/feed", FeedType::Atom),
        feed("1-dup", "https://a.example/feed", FeedType::Atom),
    ];
    let doc = opml_document(&feeds, None);
    assert_eq!(doc.entries.len(), 2);
    assert_eq!(doc.entries[0].title, "1");
    assert_eq!(doc.entries[0].kind, "rss");
    assert_eq!(doc.entries[0].xml_url, "https://a.example/feed");
    assert_eq!(doc.entries[0].html_url, "https://example.com");
    assert_eq!(doc.entries[1].title, "2");
    assert_eq!(doc.entries[1].kind, "atom");
    assert!(!contains(&doc, "1-dup"));
}

#[test]
fn filter_applies_before_dedup() {
    let feeds = vec![
        feed("atom first", "https://a.example/feed", FeedType::Atom),
        feed("rss later", "https://a.example/feed", FeedType::Rss),
    ];
    let doc = opml_document(&feeds, Some(FeedType::Rss));
    assert_eq!(doc.entries.len(), 1);
    assert_eq!(doc.entries[0].title, "rss later");
}

#[test]
fn empty_feed_list_gives_empty_document() {
    let doc = opml_document(&[], None);
    assert_eq!(doc.title, "RSS Feeds");
    assert!(doc.entries.is_empty());
}

#[test]
fn flat_record_round_trip() {
    let f = feed("T", "https://example.com/a.xml", FeedType::Atom);
    let p = PyRssFeed::from_feed(f.clone());
    assert_eq!(p.feed_type, "atom");
    let back = p.to_feed();
    assert_eq!(back.feed_type, FeedType::Atom);
    assert_eq!(back.url, f.url);
    let r = PyRssFeed::from_feed(feed("R", "https://example.com/r.xml", FeedType::Rss));
    assert_eq!(r.feed_type, "rss");
    assert_eq!(r.to_feed().feed_type, FeedType::Rss);
}
