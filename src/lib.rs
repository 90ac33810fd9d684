//! Discovery of RSS and Atom feeds advertised by web pages, and their
//! consolidation into an OPML subscription list.
//!
//! The library decides; the caller fetches. A [`PageDiscovery`] says which
//! URL to fetch next and takes back what the fetch gave, so that every
//! decision (which links are candidates, which responses are feeds, when to
//! fall back to probing conventional paths and when to stop) is verified.

pub mod batch;
pub mod discovery;
pub mod feed;
pub mod markup;
pub mod resolve;
pub mod subscription;
pub mod url_list;
pub mod validate;

pub use batch::merge_page_results;
pub use discovery::{PageDiscovery, Phase};
pub use feed::{FeedType, PyRssFeed, RssFeed};
pub use resolve::{extract_title_from_url, resolve_url, ResolveError};
pub use subscription::{opml_document, OutlineEntry, SubscriptionDocument};
pub use url_list::parse_url_list;
pub use validate::{classify_feed, validate_response, FetchOutcome};
