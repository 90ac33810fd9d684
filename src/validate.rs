use vstd::prelude::*;
use crate::feed::FeedType;

verus! {

/// Whether `rss::Channel::read_from` accepts the document.
pub uninterp spec fn rss_accepts(body: Seq<char>) -> bool;

/// Whether `atom_syndication::Feed::read_from` accepts the document.
pub uninterp spec fn atom_accepts(body: Seq<char>) -> bool;

/// What one HTTP GET gave: no response at all (connection error, timeout,
/// unknown host), or a status code with the body text, `None` where the body
/// could not be read.
#[derive(Debug, Clone)]
pub enum FetchOutcome {
    Failed,
    Response { status: u16, body: Option<String> },
}

/// The mathematical value of a fetch outcome.
pub enum FetchRecord {
    Failed,
    Response { status: u16, body: Option<Seq<char>> },
}

impl View for FetchOutcome {
    type V = FetchRecord;

    open spec fn view(&self) -> FetchRecord {
        match self {
            FetchOutcome::Failed => FetchRecord::Failed,
            FetchOutcome::Response { status, body } => FetchRecord::Response {
                status: *status,
                body: match body {
                    Some(b) => Some(b@),
                    None => None,
                },
            },
        }
    }
}

/// The format that the parser results decide, RSS being tried first.
pub open spec fn format_of(rss_ok: bool, atom_ok: bool) -> Option<FeedType> {
    if rss_ok {
        Some(FeedType::Rss)
    } else if atom_ok {
        Some(FeedType::Atom)
    } else {
        None
    }
}

/// The format of a document, by content alone.
pub open spec fn classification(body: Seq<char>) -> Option<FeedType> {
    format_of(rss_accepts(body), atom_accepts(body))
}

/// Whether an HTTP status is a success (2xx).
pub open spec fn is_success(status: u16) -> bool {
    200 <= status <= 299
}

/// The verdict on a candidate feed URL from what fetching it gave.
pub open spec fn verdict(outcome: FetchRecord) -> Option<FeedType> {
    match outcome {
        FetchRecord::Failed => None,
        FetchRecord::Response { status, body } => {
            if !is_success(status) {
                None
            } else {
                match body {
                    Some(b) => classification(b),
                    None => None,
                }
            }
        },
    }
}

/// Relies on rss::Channel::read_from: tells whether the text parses as an RSS channel.
#[verifier::external_body]
fn parses_as_rss(body: &str) -> (r: bool)
    ensures
        r == rss_accepts(body@),
{
    rss::Channel::read_from(body.as_bytes()).is_ok()
}

/// Relies on atom_syndication::Feed::read_from: tells whether the text parses
/// as an Atom feed.
#[verifier::external_body]
fn parses_as_atom(body: &str) -> (r: bool)
    ensures
        r == atom_accepts(body@),
{
    atom_syndication::Feed::read_from(body.as_bytes()).is_ok()
}

/// Picks the format from the parsers' answers: the first parser in the
/// order RSS, Atom that accepts the document decides.
pub fn pick_format(rss_ok: bool, atom_ok: bool) -> (r: Option<FeedType>)
    ensures
        r == format_of(rss_ok, atom_ok),
{
    if rss_ok {
        Some(FeedType::Rss)
    } else if atom_ok {
        Some(FeedType::Atom)
    } else {
        None
    }
}

/// Classifies a document by trying the RSS parser, then (only where it
/// fails) the Atom parser.
pub fn classify_feed(body: &str) -> (r: Option<FeedType>)
    ensures
        r == classification(body@),
{
    let rss_ok = parses_as_rss(body);
    let atom_ok = if rss_ok {
        false
    } else {
        parses_as_atom(body)
    };
    pick_format(rss_ok, atom_ok)
}

/// Whether an HTTP status is a success (2xx).
pub fn status_is_success(status: u16) -> (r: bool)
    ensures
        r == is_success(status),
{
    200 <= status && status <= 299
}

/// Validates a candidate feed from what fetching it gave: a failed fetch, a
/// status outside 2xx or an unreadable body is no feed; otherwise the
/// content decides.
pub fn validate_response(outcome: &FetchOutcome) -> (r: Option<FeedType>)
    ensures
        r == verdict(outcome@),
{
    match outcome {
        FetchOutcome::Failed => None,
        FetchOutcome::Response { status, body } => {
            if !status_is_success(*status) {
                None
            } else {
                match body {
                    Some(b) => classify_feed(b.as_str()),
                    None => None,
                }
            }
        },
    }
}

/// Validation has no hidden state: two successful fetches that gave the
/// same content are classified alike, by that content alone.
pub proof fn lemma_validation_deterministic(a: FetchRecord, b: FetchRecord, body: Seq<char>)
    requires
        a matches FetchRecord::Response { status, body: Some(x) } && is_success(status) && x
            == body,
        b matches FetchRecord::Response { status, body: Some(y) } && is_success(status) && y
            == body,
    ensures
        verdict(a) == verdict(b),
        verdict(a) == classification(body),
{
}

} // verus!
