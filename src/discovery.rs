use vstd::prelude::*;
use crate::feed::{FeedRecord, FeedType, RssFeed};
use crate::markup::{markup_candidates, markup_candidates_of, candidates_view, Candidate, CandidateRecord};
use crate::resolve::{extract_title_from_url, host_title, resolve_url, resolved};
use crate::validate::{validate_response, verdict, FetchOutcome};

verus! {

/// Where the discovery of one page stands.
#[derive(Debug, Clone, Copy, PartialEq, Eq, Structural)]
pub enum Phase {
    /// The page itself is to be fetched.
    FetchPage,
    /// The candidates that the markup advertises are being validated.
    CheckMarkup,
    /// The conventional feed paths are being probed.
    Probe,
    /// Nothing is left to fetch.
    Finished,
}

/// The mathematical value of a page discovery.
pub struct DiscoveryState {
    pub page: Seq<char>,
    pub phase: Phase,
    /// The candidates of the current phase, in the order they are checked.
    pub queue: Seq<CandidateRecord>,
    /// The index in `queue` of the candidate whose fetch is awaited.
    pub next: int,
    pub feeds: Seq<FeedRecord>,
}

pub open spec fn feeds_view(v: Seq<RssFeed>) -> Seq<FeedRecord> {
    v.map_values(|f: RssFeed| f@)
}

/// The conventional paths probed where the markup yields no feed, in order.
pub open spec fn probe_paths() -> Seq<Seq<char>> {
    seq!["/feed"@, "/rss"@, "/feed.xml"@, "/rss.xml"@, "/atom.xml"@, "/index.xml"@]
}

/// The probe candidates for `paths` on the page `page`: each path that
/// resolves, titled after the page's host.
pub open spec fn path_candidates(page: Seq<char>, paths: Seq<Seq<char>>) -> Seq<CandidateRecord>
    decreases paths.len(),
{
    if paths.len() == 0 {
        seq![]
    } else {
        let before = path_candidates(page, paths.drop_last());
        match resolved(page, paths.last()) {
            Some(u) => before.push(CandidateRecord { url: u, title: host_title(page) }),
            None => before,
        }
    }
}

pub open spec fn probe_candidates_of(page: Seq<char>) -> Seq<CandidateRecord> {
    path_candidates(page, probe_paths())
}

/// The feed confirmed at a candidate of the page `page`.
pub open spec fn feed_at(c: CandidateRecord, page: Seq<char>, t: FeedType) -> FeedRecord {
    FeedRecord { title: c.title, url: c.url, html_url: page, feed_type: t }
}

pub open spec fn finished(page: Seq<char>, feeds: Seq<FeedRecord>) -> DiscoveryState {
    DiscoveryState { page, phase: Phase::Finished, queue: seq![], next: 0, feeds }
}

/// The state in which probing begins, or finishes at once where no path
/// resolves.
pub open spec fn start_probing(page: Seq<char>) -> DiscoveryState {
    let p = probe_candidates_of(page);
    if p.len() > 0 {
        DiscoveryState { page, phase: Phase::Probe, queue: p, next: 0, feeds: seq![] }
    } else {
        finished(page, seq![])
    }
}

/// The state after the page was fetched: `None` where the fetch failed.
pub open spec fn after_page(s: DiscoveryState, html: Option<Seq<char>>) -> DiscoveryState {
    match html {
        None => finished(s.page, seq![]),
        Some(h) => {
            let c = markup_candidates_of(s.page, h);
            if c.len() > 0 {
                DiscoveryState { page: s.page, phase: Phase::CheckMarkup, queue: c, next: 0, feeds: seq![] }
            } else {
                start_probing(s.page)
            }
        },
    }
}

/// The state after the awaited candidate got the verdict `v`.
pub open spec fn after_check(s: DiscoveryState, v: Option<FeedType>) -> DiscoveryState {
    let c = s.queue[s.next];
    if s.phase == Phase::CheckMarkup {
        let feeds = match v {
            Some(t) => s.feeds.push(feed_at(c, s.page, t)),
            None => s.feeds,
        };
        if s.next + 1 < s.queue.len() {
            DiscoveryState { page: s.page, phase: s.phase, queue: s.queue, next: s.next + 1, feeds }
        } else if feeds.len() > 0 {
            finished(s.page, feeds)
        } else {
            start_probing(s.page)
        }
    } else if s.phase == Phase::Probe {
        match v {
            Some(t) => finished(s.page, seq![feed_at(c, s.page, t)]),
            None => if s.next + 1 < s.queue.len() {
                DiscoveryState { page: s.page, phase: s.phase, queue: s.queue, next: s.next + 1, feeds: s.feeds }
            } else {
                finished(s.page, seq![])
            },
        }
    } else {
        s
    }
}

/// The feeds that the first `n` candidates give under their verdicts: each
/// candidate whose verdict is a format, in order.
pub open spec fn confirmed(
    page: Seq<char>,
    cands: Seq<CandidateRecord>,
    verdicts: Seq<Option<FeedType>>,
    n: nat,
) -> Seq<FeedRecord>
    decreases n,
{
    if n == 0 {
        seq![]
    } else {
        let before = confirmed(page, cands, verdicts, (n - 1) as nat);
        match verdicts[n - 1] {
            Some(t) => before.push(feed_at(cands[n - 1], page, t)),
            None => before,
        }
    }
}

/// The state after the awaited candidates got the verdicts, one after the other.
pub open spec fn run_checks(s: DiscoveryState, verdicts: Seq<Option<FeedType>>) -> DiscoveryState
    decreases verdicts.len(),
{
    if verdicts.len() == 0 {
        s
    } else {
        run_checks(after_check(s, verdicts[0]), verdicts.drop_first())
    }
}

proof fn lemma_markup_run_from(
    page: Seq<char>,
    cands: Seq<CandidateRecord>,
    verdicts: Seq<Option<FeedType>>,
    j: nat,
)
    requires
        cands.len() > 0,
        verdicts.len() == cands.len(),
        j < cands.len(),
    ensures
        run_checks(
            DiscoveryState {
                page,
                phase: Phase::CheckMarkup,
                queue: cands,
                next: j as int,
                feeds: confirmed(page, cands, verdicts, j),
            },
            verdicts.skip(j as int),
        ) == (if confirmed(page, cands, verdicts, cands.len()).len() > 0 {
            finished(page, confirmed(page, cands, verdicts, cands.len()))
        } else {
            start_probing(page)
        }),
    decreases cands.len() - j,
{
    let rest = verdicts.skip(j as int);
    let sj = DiscoveryState {
        page,
        phase: Phase::CheckMarkup,
        queue: cands,
        next: j as int,
        feeds: confirmed(page, cands, verdicts, j),
    };
    assert(rest[0] == verdicts[j as int]);
    assert(rest.drop_first() =~= verdicts.skip(j + 1 as int));
    let nxt = after_check(sj, verdicts[j as int]);
    assert(run_checks(sj, rest) == run_checks(nxt, verdicts.skip(j + 1 as int)));
    assert(nxt.feeds == confirmed(page, cands, verdicts, (j + 1) as nat));
    if j + 1 < cands.len() {
        lemma_markup_run_from(page, cands, verdicts, (j + 1) as nat);
    } else {
        assert(verdicts.skip(j + 1 as int).len() == 0);
        assert(run_checks(nxt, verdicts.skip(j + 1 as int)) == nxt);
    }
}

/// Markup discovery: once the page's markup has given candidates, and each
/// has got its verdict, the page's feeds are exactly the candidates confirmed
/// as feeds, in markup order, each found on the page and tagged with its
/// verdict's format; where none was confirmed, probing begins.
pub proof fn lemma_markup_discovery(page: Seq<char>, html: Seq<char>, verdicts: Seq<Option<FeedType>>)
    requires
        markup_candidates_of(page, html).len() > 0,
        verdicts.len() == markup_candidates_of(page, html).len(),
    ensures
        ({
            let c = markup_candidates_of(page, html);
            let found = confirmed(page, c, verdicts, c.len());
            let start = DiscoveryState { page, phase: Phase::FetchPage, queue: seq![], next: 0, feeds: seq![] };
            run_checks(after_page(start, Some(html)), verdicts) == (if found.len() > 0 {
                finished(page, found)
            } else {
                start_probing(page)
            })
        }),
{
    let c = markup_candidates_of(page, html);
    assert(confirmed(page, c, verdicts, 0) =~= seq![]);
    assert(verdicts.skip(0) =~= verdicts);
    lemma_markup_run_from(page, c, verdicts, 0);
}

proof fn lemma_probe_run_from(page: Seq<char>, verdicts: Seq<Option<FeedType>>, j: nat)
    requires
        probe_candidates_of(page).len() > 0,
        0 < verdicts.len() <= probe_candidates_of(page).len(),
        j < verdicts.len(),
        forall|i: int| 0 <= i < verdicts.len() - 1 ==> verdicts[i] is None,
        verdicts.last() is Some || verdicts.len() == probe_candidates_of(page).len(),
    ensures
        run_checks(
            DiscoveryState {
                page,
                phase: Phase::Probe,
                queue: probe_candidates_of(page),
                next: j as int,
                feeds: seq![],
            },
            verdicts.skip(j as int),
        ) == match verdicts.last() {
            Some(t) => finished(
                page,
                seq![feed_at(probe_candidates_of(page)[verdicts.len() - 1], page, t)],
            ),
            None => finished(page, seq![]),
        },
    decreases verdicts.len() - j,
{
    let rest = verdicts.skip(j as int);
    let sj = DiscoveryState {
        page,
        phase: Phase::Probe,
        queue: probe_candidates_of(page),
        next: j as int,
        feeds: seq![],
    };
    assert(rest[0] == verdicts[j as int]);
    assert(rest.drop_first() =~= verdicts.skip(j + 1 as int));
    let nxt = after_check(sj, verdicts[j as int]);
    assert(run_checks(sj, rest) == run_checks(nxt, verdicts.skip(j + 1 as int)));
    if j + 1 < verdicts.len() {
        assert(verdicts[j as int] is None);
        lemma_probe_run_from(page, verdicts, (j + 1) as nat);
    } else {
        assert(verdicts.skip(j + 1 as int).len() == 0);
        assert(run_checks(nxt, verdicts.skip(j + 1 as int)) == nxt);
    }
}

/// Probing stops at the first success: where the probes up to one path got
/// no feed and that path's probe confirmed one, discovery finishes with that
/// single feed and asks for no later path, whatever those would give; where
/// every probe failed, it finishes with none.
pub proof fn lemma_probing_stops_at_first_success(page: Seq<char>, verdicts: Seq<Option<FeedType>>)
    requires
        probe_candidates_of(page).len() > 0,
        0 < verdicts.len() <= probe_candidates_of(page).len(),
        forall|i: int| 0 <= i < verdicts.len() - 1 ==> verdicts[i] is None,
        verdicts.last() is Some || verdicts.len() == probe_candidates_of(page).len(),
    ensures
        run_checks(start_probing(page), verdicts) == match verdicts.last() {
            Some(t) => finished(
                page,
                seq![feed_at(probe_candidates_of(page)[verdicts.len() - 1], page, t)],
            ),
            None => finished(page, seq![]),
        },
        run_checks(start_probing(page), verdicts).phase == Phase::Finished,
{
    assert(verdicts.skip(0) =~= verdicts);
    lemma_probe_run_from(page, verdicts, 0);
}

/// Whether a state is one that discovery can reach.
pub open spec fn state_wf(s: DiscoveryState) -> bool {
    &&& (s.phase == Phase::CheckMarkup || s.phase == Phase::Probe) ==> 0 <= s.next < s.queue.len()
    &&& s.phase == Phase::Probe ==> s.feeds.len() == 0
    &&& (s.phase == Phase::FetchPage || s.phase == Phase::Finished) ==> s.queue.len() == 0 && s.next == 0
    &&& s.phase == Phase::FetchPage ==> s.feeds.len() == 0
}

/// The discovery of the feeds of one page, as a sequence of decisions. Each
/// fetch that it asks for is made by the caller, who hands back what it gave.
pub struct PageDiscovery {
    page_url: String,
    phase: Phase,
    queue: Vec<Candidate>,
    next: usize,
    feeds: Vec<RssFeed>,
}

impl View for PageDiscovery {
    type V = DiscoveryState;

    closed spec fn view(&self) -> DiscoveryState {
        DiscoveryState {
            page: self.page_url@,
            phase: self.phase,
            queue: candidates_view(self.queue@),
            next: self.next as int,
            feeds: feeds_view(self.feeds@),
        }
    }
}

/// The probe candidates of the page `page`.
pub fn probe_candidates(page: &str) -> (r: Vec<Candidate>)
    ensures
        candidates_view(r@) == probe_candidates_of(page@),
{
    let paths: Vec<&str> = vec!["/feed", "/rss", "/feed.xml", "/rss.xml", "/atom.xml", "/index.xml"];
    let ghost pv = paths@.map_values(|p: &str| p@);
    assert(pv =~= probe_paths());
    let title = extract_title_from_url(page);
    let mut out: Vec<Candidate> = Vec::new();
    let mut i: usize = 0;
    while i < paths.len()
        invariant
            i <= paths@.len(),
            pv == paths@.map_values(|p: &str| p@),
            title@ == host_title(page@),
            candidates_view(out@) == path_candidates(page@, pv.take(i as int)),
        decreases paths@.len() - i,
    {
        let ghost before = out@;
        assert(pv.take(i + 1).drop_last() =~= pv.take(i as int));
        if let Ok(url) = resolve_url(page, paths[i]) {
            out.push(Candidate { url, title: title.clone() });
            assert(candidates_view(out@) =~= candidates_view(before).push(out@.last()@));
        }
        i += 1;
    }
    assert(pv.take(paths@.len() as int) =~= pv);
    out
}

impl PageDiscovery {
    pub open spec fn wf(&self) -> bool {
        state_wf(self@)
    }

    /// A discovery of the page `page_url`, which first asks for the page.
    pub fn new(page_url: &str) -> (r: PageDiscovery)
        ensures
            r.wf(),
            r@ == (DiscoveryState { page: page_url@, phase: Phase::FetchPage, queue: seq![], next: 0, feeds: seq![] }),
    {
        let r = PageDiscovery {
            page_url: page_url.to_owned(),
            phase: Phase::FetchPage,
            queue: Vec::new(),
            next: 0,
            feeds: Vec::new(),
        };
        assert(candidates_view(r.queue@) =~= seq![]);
        assert(feeds_view(r.feeds@) =~= seq![]);
        r
    }

    /// Where discovery stands.
    pub fn phase(&self) -> (r: Phase)
        ensures
            r == self@.phase,
    {
        self.phase
    }

    /// The URL to fetch next, or `None` once discovery is finished.
    pub fn next_request(&self) -> (r: Option<String>)
        requires
            self.wf(),
        ensures
            self@.phase == Phase::FetchPage ==> (r matches Some(u) && u@ == self@.page),
            (self@.phase == Phase::CheckMarkup || self@.phase == Phase::Probe) ==> (r matches Some(
                u,
            ) && u@ == self@.queue[self@.next].url),
            self@.phase == Phase::Finished ==> r is None,
    {
        match self.phase {
            Phase::FetchPage => Some(self.page_url.clone()),
            Phase::Finished => None,
            _ => Some(self.queue[self.next].url.clone()),
        }
    }

    /// The feeds confirmed so far; all of them once discovery is finished.
    pub fn feeds(&self) -> (r: &Vec<RssFeed>)
        ensures
            feeds_view(r@) == self@.feeds,
    {
        &self.feeds
    }

    /// Ends the discovery, handing over its feeds.
    pub fn into_feeds(self) -> (r: Vec<RssFeed>)
        ensures
            feeds_view(r@) == self@.feeds,
    {
        self.feeds
    }

    fn finish(&mut self)
        ensures
            final(self)@ == finished(old(self)@.page, old(self)@.feeds),
            final(self).wf(),
    {
        self.phase = Phase::Finished;
        self.queue = Vec::new();
        self.next = 0;
        assert(candidates_view(self.queue@) =~= seq![]);
    }

    fn begin_probing(&mut self)
        requires
            old(self).feeds@.len() == 0,
        ensures
            final(self)@ == start_probing(old(self)@.page),
            final(self).wf(),
    {
        let probes = probe_candidates(self.page_url.as_str());
        if probes.len() > 0 {
            self.phase = Phase::Probe;
            self.queue = probes;
            self.next = 0;
            assert(feeds_view(self.feeds@) =~= seq![]);
        } else {
            self.finish();
            assert(feeds_view(self.feeds@) =~= seq![]);
        }
    }

    /// Takes what fetching the page gave: its text, or `None` where the fetch
    /// failed. A failed page yields no feed; a page whose markup advertises no
    /// candidate goes on to probing.
    pub fn page_fetched(&mut self, html: Option<&str>)
        requires
            old(self).wf(),
            old(self)@.phase == Phase::FetchPage,
        ensures
            final(self).wf(),
            final(self)@ == after_page(old(self)@, match html {
                Some(h) => Some(h@),
                None => None,
            }),
    {
        assert(self.feeds@.len() == feeds_view(self.feeds@).len());
        assert(self@.feeds =~= seq![]);
        match html {
            None => {
                self.finish();
            },
            Some(h) => {
                let candidates = markup_candidates(self.page_url.as_str(), h);
                if candidates.len() > 0 {
                    self.phase = Phase::CheckMarkup;
                    self.queue = candidates;
                    self.next = 0;
                } else {
                    self.begin_probing();
                }
            },
        }
    }

    /// Takes what fetching the awaited candidate gave. In the markup phase a
    /// confirmed candidate is kept and the next one is awaited; once all are
    /// checked without a feed, probing begins. In the probing phase the first
    /// confirmed candidate is kept and discovery finishes.
    pub fn candidate_fetched(&mut self, outcome: &FetchOutcome)
        requires
            old(self).wf(),
            old(self)@.phase == Phase::CheckMarkup || old(self)@.phase == Phase::Probe,
        ensures
            final(self).wf(),
            final(self)@ == after_check(old(self)@, verdict(outcome@)),
    {
        let v = validate_response(outcome);
        let ghost s = self@;
        assert(self.queue@.len() == s.queue.len());
        assert(self.next < self.queue@.len());
        assert(s.phase == Phase::Probe ==> s.feeds =~= seq![]);
        let c = &self.queue[self.next];
        assert(c@ == s.queue[s.next]);
        if self.phase == Phase::CheckMarkup {
            if let Some(t) = v {
                let feed = RssFeed {
                    title: c.title.clone(),
                    url: c.url.clone(),
                    html_url: self.page_url.clone(),
                    feed_type: t,
                };
                let ghost fb = self.feeds@;
                self.feeds.push(feed);
                assert(feeds_view(self.feeds@) =~= feeds_view(fb).push(feed_at(s.queue[s.next], s.page, t)));
            }
            assert(self.feeds@.len() == feeds_view(self.feeds@).len());
            if self.next < self.queue.len() - 1 {
                self.next = self.next + 1;
            } else if self.feeds.len() > 0 {
                self.finish();
            } else {
                self.begin_probing();
            }
        } else {
            match v {
                Some(t) => {
                    let feed = RssFeed {
                        title: c.title.clone(),
                        url: c.url.clone(),
                        html_url: self.page_url.clone(),
                        feed_type: t,
                    };
                    self.feeds = vec![feed];
                    assert(feeds_view(self.feeds@) =~= seq![feed_at(s.queue[s.next], s.page, t)]);
                    self.finish();
                },
                None => {
                    if self.next < self.queue.len() - 1 {
                        self.next = self.next + 1;
                    } else {
                        self.finish();
                    }
                },
            }
        }
    }
}

} // verus!
