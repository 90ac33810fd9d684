use vstd::prelude::*;

verus! {

/// The syndication formats that a feed is recognised as.
#[derive(Debug, Clone, Copy, PartialEq, Eq, Structural)]
pub enum FeedType {
    Rss,
    Atom,
}

/// The mathematical value of a feed: its title, its document URL, the page
/// it was found on, and its format.
pub struct FeedRecord {
    pub title: Seq<char>,
    pub url: Seq<char>,
    pub html_url: Seq<char>,
    pub feed_type: FeedType,
}

/// A validated feed, found on the page `html_url`.
#[derive(Debug, Clone)]
pub struct RssFeed {
    pub title: String,
    pub url: String,
    pub html_url: String,
    pub feed_type: FeedType,
}

impl View for RssFeed {
    type V = FeedRecord;

    open spec fn view(&self) -> FeedRecord {
        FeedRecord {
            title: self.title@,
            url: self.url@,
            html_url: self.html_url@,
            feed_type: self.feed_type,
        }
    }
}

/// The label under which a format is written in an outline entry.
pub open spec fn type_label(t: FeedType) -> Seq<char> {
    match t {
        FeedType::Rss => "rss"@,
        FeedType::Atom => "atom"@,
    }
}

impl FeedType {
    /// The label of the format: `rss` or `atom`.
    pub fn label(&self) -> (r: String)
        ensures
            r@ == type_label(*self),
    {
        match self {
            FeedType::Rss => "rss".to_owned(),
            FeedType::Atom => "atom".to_owned(),
        }
    }
}

impl RssFeed {
    /// A copy of the feed with the same value.
    pub fn duplicate(&self) -> (r: RssFeed)
        ensures
            r@ == self@,
    {
        RssFeed {
            title: self.title.clone(),
            url: self.url.clone(),
            html_url: self.html_url.clone(),
            feed_type: self.feed_type,
        }
    }
}

/// A feed whose format is carried as its label, for hosts that exchange
/// plain strings.
#[derive(Debug, Clone)]
pub struct PyRssFeed {
    pub title: String,
    pub url: String,
    pub html_url: String,
    pub feed_type: String,
}

impl PyRssFeed {
    /// The feed with its format written as `rss` or `atom`.
    pub fn from_feed(feed: RssFeed) -> (r: PyRssFeed)
        ensures
            r.title@ == feed.title@,
            r.url@ == feed.url@,
            r.html_url@ == feed.html_url@,
            r.feed_type@ == type_label(feed.feed_type),
    {
        let feed_type = feed.feed_type.label();
        PyRssFeed { title: feed.title, url: feed.url, html_url: feed.html_url, feed_type }
    }

    /// The feed back with its format: `rss` reads as RSS, any other label as
    /// Atom.
    pub fn to_feed(&self) -> (r: RssFeed)
        ensures
            r.title@ == self.title@,
            r.url@ == self.url@,
            r.html_url@ == self.html_url@,
            r.feed_type == (if self.feed_type@ == "rss"@ {
                FeedType::Rss
            } else {
                FeedType::Atom
            }),
    {
        let rss = "rss".to_owned();
        let feed_type = if self.feed_type == rss {
            FeedType::Rss
        } else {
            FeedType::Atom
        };
        RssFeed {
            title: self.title.clone(),
            url: self.url.clone(),
            html_url: self.html_url.clone(),
            feed_type,
        }
    }
}

} // verus!
