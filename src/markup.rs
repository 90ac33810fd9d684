use vstd::prelude::*;
use crate::resolve::{resolve_url, resolved};

verus! {

/// The `href` and `title` attributes of a link element, each where present.
#[derive(Debug, Clone)]
pub struct LinkHint {
    pub href: Option<String>,
    pub title: Option<String>,
}

/// The mathematical value of a link element's attributes.
pub type HintRecord = (Option<Seq<char>>, Option<Seq<char>>);

pub open spec fn opt_view(o: Option<String>) -> Option<Seq<char>> {
    match o {
        Some(s) => Some(s@),
        None => None,
    }
}

impl View for LinkHint {
    type V = HintRecord;

    open spec fn view(&self) -> HintRecord {
        (opt_view(self.href), opt_view(self.title))
    }
}

/// The attributes of the elements that the CSS selector matches in the HTML
/// document, in document order, as `scraper` parses and selects them; `None`
/// where the selector does not parse.
pub uninterp spec fn selected_links(html: Seq<char>, selector: Seq<char>) -> Option<Seq<HintRecord>>;

/// A feed URL to check, with the title that a confirmed feed there gets.
#[derive(Debug, Clone)]
pub struct Candidate {
    pub url: String,
    pub title: String,
}

/// The mathematical value of a candidate.
pub struct CandidateRecord {
    pub url: Seq<char>,
    pub title: Seq<char>,
}

impl View for Candidate {
    type V = CandidateRecord;

    open spec fn view(&self) -> CandidateRecord {
        CandidateRecord { url: self.url@, title: self.title@ }
    }
}

pub open spec fn candidates_view(v: Seq<Candidate>) -> Seq<CandidateRecord> {
    v.map_values(|c: Candidate| c@)
}

pub open spec fn hints_view(v: Seq<LinkHint>) -> Seq<HintRecord> {
    v.map_values(|h: LinkHint| h@)
}

/// The selector of link elements that advertise an RSS or an Atom feed.
pub open spec fn feed_link_selector() -> Seq<char> {
    "link[type='application/rss+xml'], link[type='application/atom+xml']"@
}

/// The candidates that the link elements give on the page `page`: one for each
/// element whose `href` is present and resolves, titled by its `title`
/// attribute or `Untitled Feed`.
pub open spec fn hint_candidates(page: Seq<char>, hints: Seq<HintRecord>) -> Seq<CandidateRecord>
    decreases hints.len(),
{
    if hints.len() == 0 {
        seq![]
    } else {
        let before = hint_candidates(page, hints.drop_last());
        let (href, title) = hints.last();
        match href {
            Some(h) => match resolved(page, h) {
                Some(u) => before.push(
                    CandidateRecord {
                        url: u,
                        title: match title {
                            Some(t) => t,
                            None => "Untitled Feed"@,
                        },
                    },
                ),
                None => before,
            },
            None => before,
        }
    }
}

/// The candidates that the markup of the page `page` advertises.
pub open spec fn markup_candidates_of(page: Seq<char>, html: Seq<char>) -> Seq<CandidateRecord> {
    match selected_links(html, feed_link_selector()) {
        Some(hints) => hint_candidates(page, hints),
        None => seq![],
    }
}

/// Relies on scraper::Html::parse_document, scraper::Selector::parse and
/// scraper::ElementRef::attr: the `href` and `title` of each element that the
/// selector matches.
#[verifier::external_body]
fn select_links(html: &str, selector: &str) -> (r: Option<Vec<LinkHint>>)
    ensures
        match r {
            Some(v) => selected_links(html@, selector@) == Some(hints_view(v@)),
            None => selected_links(html@, selector@) is None,
        },
{
    let document = scraper::Html::parse_document(html);
    let selector = scraper::Selector::parse(selector).ok()?;
    Some(document.select(&selector).map(|e| LinkHint {
        href: e.attr("href").map(String::from),
        title: e.attr("title").map(String::from),
    }).collect())
}

/// The feed candidates that link elements advertise, resolved against
/// `page`; elements without an `href`, or whose `href` does not resolve, are
/// skipped.
pub fn candidates_from_hints(page: &str, hints: &Vec<LinkHint>) -> (r: Vec<Candidate>)
    ensures
        candidates_view(r@) == hint_candidates(page@, hints_view(hints@)),
{
    let mut out: Vec<Candidate> = Vec::new();
    let mut i: usize = 0;
    while i < hints.len()
        invariant
            i <= hints@.len(),
            candidates_view(out@) == hint_candidates(page@, hints_view(hints@).take(i as int)),
        decreases hints@.len() - i,
    {
        let ghost before = out@;
        let hint = &hints[i];
        assert(hints_view(hints@).take(i + 1).drop_last() =~= hints_view(hints@).take(i as int));
        if let Some(href) = &hint.href {
            if let Ok(url) = resolve_url(page, href.as_str()) {
                let title = match &hint.title {
                    Some(t) => t.clone(),
                    None => "Untitled Feed".to_owned(),
                };
                out.push(Candidate { url, title });
                assert(candidates_view(out@) =~= candidates_view(before).push(out@.last()@));
            }
        }
        i += 1;
    }
    assert(hints_view(hints@).take(hints@.len() as int) =~= hints_view(hints@));
    out
}

/// The feed candidates that the markup of the page `page` advertises, in
/// document order.
pub fn markup_candidates(page: &str, html: &str) -> (r: Vec<Candidate>)
    ensures
        candidates_view(r@) == markup_candidates_of(page@, html@),
{
    let selector = "link[type='application/rss+xml'], link[type='application/atom+xml']";
    match select_links(html, selector) {
        Some(hints) => candidates_from_hints(page, &hints),
        None => Vec::new(),
    }
}

} // verus!
