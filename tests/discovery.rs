use rss_miner::discovery::probe_candidates;
use rss_miner::markup::markup_candidates;
use rss_miner::validate::pick_format;
use rss_miner::{classify_feed, merge_page_results, validate_response, FeedType, FetchOutcome, PageDiscovery, Phase, RssFeed};

const RSS_DOC: &str = "<?xml version=\"1.0\"?><rss version=\"2.0\"><channel><title>T</title><link>https://example.com</link><description>D</description></channel></rss>";
const ATOM_DOC: &str = "<?xml version=\"1.0\" encoding=\"utf-8\"?><feed xmlns=\"http://www.w3.org/2005/Atom\"><title>T</title><id>urn:example:feed</id><updated>2024-01-01T00:00:00Z</updated></feed>";
const HTML_DOC: &str = "<html><head><title>Not a feed</title></head><body><p>hello</p></body></html>";

fn ok(body: &str) -> FetchOutcome {
    FetchOutcome::Response { status: 200, body: Some(body.to_string()) }
}

fn hinted_page() -> String {
    "<html><head>\
     <link rel=\"alternate\" type=\"application/rss+xml\" title=\"Main\" href=\"/feed.xml\">\
     <link rel=\"alternate\" type=\"application/atom+xml\" href=\"https://example.com/atom.xml\">\
     <link rel=\"stylesheet\" type=\"text/css\" href=\"/style.css\">\
     <link rel=\"alternate\" type=\"application/rss+xml\" title=\"No href\">\
     </head><body></body></html>"
        .to_string()
}

/// Runs a discovery of `page` against a fixed table of responses.
fn run(page: &str, html: Option<&str>, respond: &dyn Fn(&str) -> FetchOutcome) -> (Vec<RssFeed>, Vec<String>) {
    let mut d = PageDiscovery::new(page);
    let mut asked = Vec::new();
    while let Some(target) = d.next_request() {
        if d.phase() == Phase::FetchPage {
            d.page_fetched(html);
        } else {
            asked.push(target.clone());
            d.candidate_fetched(&respond(&target));
        }
    }
    (d.into_feeds(), asked)
}

#[test]
fn classifies_rss_atom_and_other() {
    assert_eq!(classify_feed(RSS_DOC), Some(FeedType::Rss));
    assert_eq!(classify_feed(ATOM_DOC), Some(FeedType::Atom));
    assert_eq!(classify_feed(HTML_DOC), None);
    assert_eq!(classify_feed(""), None);
}

#[test]
fn format_order_prefers_rss() {
    assert_eq!(pick_format(true, true), Some(FeedType::Rss));
    assert_eq!(pick_format(true, false), Some(FeedType::Rss));
    assert_eq!(pick_format(false, true), Some(FeedType::Atom));
    assert_eq!(pick_format(false, false), None);
}

#[test]
fn validation_is_repeatable() {
    for _ in 0..3 {
        assert_eq!(validate_response(&ok(RSS_DOC)), Some(FeedType::Rss));
        assert_eq!(validate_response(&ok(ATOM_DOC)), Some(FeedType::Atom));
    }
}

#[test]
fn validation_failures() {
    assert_eq!(validate_response(&FetchOutcome::Failed), None);
    assert_eq!(validate_response(&FetchOutcome::Response { status: 404, body: Some(RSS_DOC.to_string()) }), None);
    assert_eq!(validate_response(&FetchOutcome::Response { status: 199, body: Some(RSS_DOC.to_string()) }), None);
    assert_eq!(validate_response(&FetchOutcome::Response { status: 300, body: Some(RSS_DOC.to_string()) }), None);
    assert_eq!(validate_response(&FetchOutcome::Response { status: 299, body: Some(ATOM_DOC.to_string()) }), Some(FeedType::Atom));
    assert_eq!(validate_response(&FetchOutcome::Response { status: 200, body: None }), None);
    assert_eq!(validate_response(&ok(HTML_DOC)), None);
}

#[test]
fn markup_candidates_resolve_and_title() {
    let c = markup_candidates("https://example.com/blog", &hinted_page());
    assert_eq!(c.len(), 2);
    assert_eq!(c[0].url, "https://example.com/feed.xml");
    assert_eq!(c[0].title, "Main");
    assert_eq!(c[1].url, "https://example.com/atom.xml");
    assert_eq!(c[1].title, "Untitled Feed");
    assert!(markup_candidates("https://example.com", HTML_DOC).is_empty());
}

#[test]
fn probe_paths_in_order() {
    let p = probe_candidates("https://example.com/some/page");
    let urls: Vec<&str> = p.iter().map(|c| c.url.as_str()).collect();
    assert_eq!(
        urls,
        vec![
            "https://example.com/feed",
            "https://example.com/rss",
            "https://example.com/feed.xml",
            "https://example.com/rss.xml",
            "https://example.com/atom.xml",
            "https://example.com/index.xml",
        ]
    );
    assert!(p.iter().all(|c| c.title == "example.com"));
    assert!(probe_candidates("not-a-url").is_empty());
}

#[test]
fn end_to_end_markup_links() {
    let page = "https://example.com";
    let html = hinted_page();
    let (feeds, asked) = run(page, Some(&html), &|u: &str| {
        if u.ends_with("feed.xml") { ok(RSS_DOC) } else if u.ends_with("atom.xml") { ok(ATOM_DOC) } else { ok(HTML_DOC) }
    });
    assert_eq!(asked, vec!["https://example.com/feed.xml".to_string(), "https://example.com/atom.xml".to_string()]);
    assert_eq!(feeds.len(), 2);
    assert_eq!(feeds[0].title, "Main");
    assert_eq!(feeds[0].url, "https://example.com/feed.xml");
    assert_eq!(feeds[0].feed_type, FeedType::Rss);
    assert_eq!(feeds[1].title, "Untitled Feed");
    assert_eq!(feeds[1].feed_type, FeedType::Atom);
    assert!(feeds.iter().all(|f| f.html_url == page));
}

#[test]
fn end_to_end_fallback_stops_at_first_success() {
    let page = "https://example.com/path";
    let (feeds, asked) = run(page, Some(HTML_DOC), &|u: &str| {
        if u.ends_with("/feed") {
            FetchOutcome::Response { status: 404, body: Some(String::new()) }
        } else if u.ends_with("/rss") {
            FetchOutcome::Failed
        } else if u.ends_with("/rss.xml") {
            ok(RSS_DOC)
        } else if u.ends_with("/atom.xml") {
            ok(ATOM_DOC)
        } else {
            ok(HTML_DOC)
        }
    });
    assert_eq!(feeds.len(), 1);
    assert_eq!(feeds[0].url, "https://example.com/rss.xml");
    assert_eq!(feeds[0].title, "example.com");
    assert_eq!(feeds[0].html_url, page);
    assert_eq!(feeds[0].feed_type, FeedType::Rss);
    assert_eq!(asked.len(), 4);
    assert!(!asked.iter().any(|u| u.ends_with("/atom.xml")));
}

#[test]
fn markup_without_valid_feed_falls_back_to_probing() {
    let (feeds, asked) = run("https://example.com", Some(&hinted_page()), &|u: &str| {
        if u == "https://example.com/index.xml" { ok(ATOM_DOC) } else { ok(HTML_DOC) }
    });
    assert_eq!(asked.len(), 8);
    assert_eq!(feeds.len(), 1);
    assert_eq!(feeds[0].url, "https://example.com/index.xml");
    assert_eq!(feeds[0].feed_type, FeedType::Atom);
}

#[test]
fn failed_page_yields_nothing() {
    let (feeds, asked) = run("https://example.com", None, &|_u: &str| ok(RSS_DOC));
    assert!(feeds.is_empty());
    assert!(asked.is_empty());
}

#[test]
fn batch_isolates_faults() {
    let timed_out = run("https://slow.example", None, &|_u: &str| FetchOutcome::Failed).0;
    let not_feed = run("https://plain.example", Some(HTML_DOC), &|_u: &str| ok(HTML_DOC)).0;
    let good = run("https://example.com", Some(&hinted_page()), &|u: &str| {
        if u.ends_with("feed.xml") { ok(RSS_DOC) } else { ok(ATOM_DOC) }
    })
    .0;
    let merged = merge_page_results(&vec![timed_out, not_feed, good.clone()]);
    assert_eq!(merged.len(), 2);
    for (m, g) in merged.iter().zip(good.iter()) {
        assert_eq!(m.url, g.url);
        assert_eq!(m.title, g.title);
        assert_eq!(m.html_url, "https://example.com");
    }
}
