use vstd::prelude::*;

verus! {

#[verifier::external_type_specification]
#[verifier::external_body]
pub struct ExParseError(url::ParseError);

/// Whether `url::Url::parse` accepts the text as an absolute URL.
pub uninterp spec fn url_parses(s: Seq<char>) -> bool;

/// The serialization of the URL that `url::Url::join` makes of `href` against
/// the URL parsed from `base`; `None` where the join fails.
pub uninterp spec fn url_join(base: Seq<char>, href: Seq<char>) -> Option<Seq<char>>;

/// The host that `url::Url::host_str` reports for the URL parsed from the text.
pub uninterp spec fn url_host(s: Seq<char>) -> Option<Seq<char>>;

/// Why a link could not be resolved against its page.
#[derive(Debug, Clone, Copy, PartialEq, Eq, Structural)]
pub enum ResolveError {
    InvalidBaseUrl,
    InvalidHref,
}

/// The absolute URL that `href` denotes on the page `base`, if any.
pub open spec fn resolved(base: Seq<char>, href: Seq<char>) -> Option<Seq<char>> {
    if url_parses(base) {
        url_join(base, href)
    } else {
        None
    }
}

/// The title given to a feed found by probing: the host of the page, or
/// `Unknown` where the page URL has none.
pub open spec fn host_title(page: Seq<char>) -> Seq<char> {
    if url_parses(page) && url_host(page) is Some {
        url_host(page)->0
    } else {
        "Unknown"@
    }
}

/// Relies on url::Url::parse: tells whether the text parses as a URL.
#[verifier::external_body]
fn parses_as_url(s: &str) -> (r: bool)
    ensures
        r == url_parses(s@),
{
    url::Url::parse(s).is_ok()
}

/// Relies on url::Url::join: resolves `href` against the URL parsed from
/// `base` and serializes the result.
#[verifier::external_body]
fn join_url(base: &str, href: &str) -> (r: Result<String, url::ParseError>)
    requires
        url_parses(base@),
    ensures
        match r {
            Ok(s) => url_join(base@, href@) == Some(s@),
            Err(_) => url_join(base@, href@) is None,
        },
{
    url::Url::parse(base)?.join(href).map(|u| u.to_string())
}

/// Relies on url::Url::host_str: the host of the URL parsed from the text.
#[verifier::external_body]
fn host_of(s: &str) -> (r: Option<String>)
    requires
        url_parses(s@),
    ensures
        match r {
            Some(h) => url_host(s@) == Some(h@),
            None => url_host(s@) is None,
        },
{
    url::Url::parse(s).ok().and_then(|u| u.host_str().map(String::from))
}

/// Resolves a link found on the page `base` into an absolute URL.
pub fn resolve_url(base: &str, href: &str) -> (r: Result<String, ResolveError>)
    ensures
        r == Err::<String, ResolveError>(ResolveError::InvalidBaseUrl) <==> !url_parses(base@),
        r == Err::<String, ResolveError>(ResolveError::InvalidHref) <==> url_parses(base@)
            && url_join(base@, href@) is None,
        match r {
            Ok(s) => resolved(base@, href@) == Some(s@),
            Err(_) => resolved(base@, href@) is None,
        },
{
    if !parses_as_url(base) {
        return Err(ResolveError::InvalidBaseUrl);
    }
    match join_url(base, href) {
        Ok(s) => Ok(s),
        Err(_) => Err(ResolveError::InvalidHref),
    }
}

/// The title of a feed found by probing the page `url`: its host name, or
/// `Unknown`.
pub fn extract_title_from_url(url: &str) -> (r: String)
    ensures
        r@ == host_title(url@),
{
    if parses_as_url(url) {
        match host_of(url) {
            Some(h) => h,
            None => "Unknown".to_owned(),
        }
    } else {
        "Unknown".to_owned()
    }
}

} // verus!
