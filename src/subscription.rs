use vstd::prelude::*;
use crate::feed::{type_label, FeedRecord, FeedType, RssFeed};

verus! {

/// One outline entry of a subscription list.
#[derive(Debug, Clone)]
pub struct OutlineEntry {
    pub title: String,
    /// `rss` or `atom`.
    pub kind: String,
    pub xml_url: String,
    pub html_url: String,
}

/// The mathematical value of an outline entry: title, format label, feed URL
/// and page URL.
pub type EntryRecord = (Seq<char>, Seq<char>, Seq<char>, Seq<char>);

impl View for OutlineEntry {
    type V = EntryRecord;

    open spec fn view(&self) -> EntryRecord {
        (self.title@, self.kind@, self.xml_url@, self.html_url@)
    }
}

pub open spec fn entries_view(v: Seq<OutlineEntry>) -> Seq<EntryRecord> {
    v.map_values(|e: OutlineEntry| e@)
}

/// A subscription list: a document title and its entries, in order.
#[derive(Debug, Clone)]
pub struct SubscriptionDocument {
    pub title: String,
    pub entries: Vec<OutlineEntry>,
}

/// Whether a feed of format `t` passes the format filter.
pub open spec fn passes(filter: Option<FeedType>, t: FeedType) -> bool {
    match filter {
        Some(k) => k == t,
        None => true,
    }
}

pub open spec fn urls_of(feeds: Seq<FeedRecord>) -> Seq<Seq<char>> {
    feeds.map_values(|f: FeedRecord| f.url)
}

/// The feeds that a subscription list keeps, in input order: those that pass
/// the filter and whose URL no earlier kept feed has.
pub open spec fn survivors(feeds: Seq<FeedRecord>, filter: Option<FeedType>) -> Seq<FeedRecord>
    decreases feeds.len(),
{
    if feeds.len() == 0 {
        seq![]
    } else {
        let before = survivors(feeds.drop_last(), filter);
        let f = feeds.last();
        if passes(filter, f.feed_type) && !urls_of(before).contains(f.url) {
            before.push(f)
        } else {
            before
        }
    }
}

/// The outline entry of a feed.
pub open spec fn entry_of(f: FeedRecord) -> EntryRecord {
    (f.title, type_label(f.feed_type), f.url, f.html_url)
}

/// The document title: `Atom Feeds` under the Atom filter, else `RSS Feeds`.
pub open spec fn document_title(filter: Option<FeedType>) -> Seq<char> {
    match filter {
        Some(FeedType::Atom) => "Atom Feeds"@,
        _ => "RSS Feeds"@,
    }
}

/// The entries of the subscription list of `feeds` under `filter`.
pub open spec fn document_entries(feeds: Seq<FeedRecord>, filter: Option<FeedType>) -> Seq<EntryRecord> {
    survivors(feeds, filter).map_values(|f: FeedRecord| entry_of(f))
}

proof fn lemma_survivors_facts(feeds: Seq<FeedRecord>, filter: Option<FeedType>)
    ensures
        forall|i: int, j: int|
            0 <= i < j < survivors(feeds, filter).len() ==> survivors(feeds, filter)[i].url
                != survivors(feeds, filter)[j].url,
        forall|i: int|
            0 <= i < survivors(feeds, filter).len() ==> passes(
                filter,
                #[trigger] survivors(feeds, filter)[i].feed_type,
            ),
        forall|k: int|
            0 <= k < feeds.len() && passes(filter, #[trigger] feeds[k].feed_type) ==> urls_of(
                survivors(feeds, filter),
            ).contains(feeds[k].url),
        forall|i: int|
            0 <= i < survivors(feeds, filter).len() ==> exists|k: int|
                0 <= k < feeds.len() && feeds[k] == #[trigger] survivors(feeds, filter)[i]
                    && first_with_url(feeds, filter, k),
    decreases feeds.len(),
{
    if feeds.len() > 0 {
        let rest = feeds.drop_last();
        lemma_survivors_facts(rest, filter);
        let before = survivors(rest, filter);
        let f = feeds.last();
        let s = survivors(feeds, filter);
        let n = feeds.len() - 1;
        assert forall|k: int| 0 <= k < feeds.len() && passes(filter, #[trigger] feeds[k].feed_type)
            implies urls_of(s).contains(feeds[k].url) by {
            if k < n {
                assert(rest[k] == feeds[k]);
                let j = choose|j: int| 0 <= j < urls_of(before).len() && urls_of(before)[j] == feeds[k].url;
                assert(urls_of(s)[j] == feeds[k].url);
            } else if passes(filter, f.feed_type) && !urls_of(before).contains(f.url) {
                assert(urls_of(s)[before.len() as int] == f.url);
            } else {
                let j = choose|j: int| 0 <= j < urls_of(before).len() && urls_of(before)[j] == f.url;
                assert(urls_of(s)[j] == f.url);
            }
        }
        assert forall|i: int| 0 <= i < s.len() implies exists|k: int|
            0 <= k < feeds.len() && feeds[k] == #[trigger] s[i] && first_with_url(feeds, filter, k) by {
            if i < before.len() {
                assert(s[i] == before[i]);
                let k = choose|k: int| 0 <= k < rest.len() && rest[k] == before[i] && first_with_url(rest, filter, k);
                assert(feeds[k] == rest[k]);
                assert forall|m: int| 0 <= m < k implies !(passes(filter, #[trigger] feeds[m].feed_type)
                    && feeds[m].url == feeds[k].url) by {
                    assert(feeds[m] == rest[m]);
                }
            } else {
                assert(s[i] == f);
                assert forall|m: int| 0 <= m < n implies !(passes(filter, #[trigger] feeds[m].feed_type)
                    && feeds[m].url == feeds[n].url) by {
                    assert(feeds[m] == rest[m]);
                }
                assert(first_with_url(feeds, filter, n));
            }
        }
        if passes(filter, f.feed_type) && !urls_of(before).contains(f.url) {
            assert forall|i: int| 0 <= i < before.len() implies before[i].url != f.url by {
                assert(urls_of(before)[i] == before[i].url);
            }
        }
    }
}

/// Whether `feeds[k]` passes the filter and no earlier feed that passes it
/// has its URL.
pub open spec fn first_with_url(feeds: Seq<FeedRecord>, filter: Option<FeedType>, k: int) -> bool {
    &&& passes(filter, feeds[k].feed_type)
    &&& forall|m: int| 0 <= m < k ==> !(passes(filter, #[trigger] feeds[m].feed_type) && feeds[m].url == feeds[k].url)
}

/// Deduplication: no two entries of a subscription list share a feed URL;
/// each entry is that of the first feed with its URL that passes the filter,
/// so its title is the first occurrence's; and every feed that passes the
/// filter has its URL in the list.
pub proof fn lemma_dedup(feeds: Seq<FeedRecord>, filter: Option<FeedType>)
    ensures
        forall|i: int, j: int|
            0 <= i < j < document_entries(feeds, filter).len() ==> document_entries(feeds, filter)[i].2
                != document_entries(feeds, filter)[j].2,
        forall|i: int|
            #![trigger document_entries(feeds, filter)[i]]
            0 <= i < document_entries(feeds, filter).len() ==> exists|k: int|
                0 <= k < feeds.len() && document_entries(feeds, filter)[i] == entry_of(#[trigger] feeds[k])
                    && first_with_url(feeds, filter, k),
        forall|k: int|
            0 <= k < feeds.len() && passes(filter, #[trigger] feeds[k].feed_type) ==> exists|i: int|
                0 <= i < document_entries(feeds, filter).len() && document_entries(feeds, filter)[i].2
                    == feeds[k].url,
{
    lemma_survivors_facts(feeds, filter);
    let s = survivors(feeds, filter);
    let e = document_entries(feeds, filter);
    assert forall|i: int| #![trigger e[i]] 0 <= i < e.len() implies exists|k: int|
        0 <= k < feeds.len() && e[i] == entry_of(#[trigger] feeds[k]) && first_with_url(feeds, filter, k) by {
        assert(e[i] == entry_of(s[i]));
        let k = choose|k: int| 0 <= k < feeds.len() && feeds[k] == #[trigger] s[i] && first_with_url(feeds, filter, k);
        assert(e[i] == entry_of(feeds[k]));
    }
    assert forall|k: int| 0 <= k < feeds.len() && passes(filter, #[trigger] feeds[k].feed_type)
        implies exists|i: int| 0 <= i < e.len() && e[i].2 == feeds[k].url by {
        let j = choose|j: int| 0 <= j < urls_of(s).len() && urls_of(s)[j] == feeds[k].url;
        assert(e[j].2 == s[j].url);
    }
}

/// Filtering: under a format filter every entry of a subscription list has
/// that format's label, and the document is titled after the format.
pub proof fn lemma_filter(feeds: Seq<FeedRecord>, t: FeedType)
    ensures
        forall|i: int|
            0 <= i < document_entries(feeds, Some(t)).len() ==> #[trigger] document_entries(feeds, Some(t))[i].1
                == type_label(t),
        document_title(Some(t)) == match t {
            FeedType::Rss => "RSS Feeds"@,
            FeedType::Atom => "Atom Feeds"@,
        },
{
    lemma_survivors_facts(feeds, Some(t));
    let s = survivors(feeds, Some(t));
    assert forall|i: int| 0 <= i < document_entries(feeds, Some(t)).len() implies #[trigger] document_entries(
        feeds,
        Some(t),
    )[i].1 == type_label(t) by {
        assert(passes(Some(t), s[i].feed_type));
    }
}

/// Whether a feed of format `t` passes the format filter.
pub fn matches_filter(filter: Option<FeedType>, t: FeedType) -> (r: bool)
    ensures
        r == passes(filter, t),
{
    match filter {
        Some(k) => k == t,
        None => true,
    }
}

/// The title of the subscription list under `filter`.
pub fn title_for(filter: Option<FeedType>) -> (r: String)
    ensures
        r@ == document_title(filter),
{
    match filter {
        Some(FeedType::Atom) => "Atom Feeds".to_owned(),
        _ => "RSS Feeds".to_owned(),
    }
}

fn contains_url(seen: &Vec<String>, url: &String) -> (r: bool)
    ensures
        r == seen@.map_values(|s: String| s@).contains(url@),
{
    let ghost sv = seen@.map_values(|s: String| s@);
    let mut i: usize = 0;
    while i < seen.len()
        invariant
            i <= seen@.len(),
            sv == seen@.map_values(|s: String| s@),
            forall|j: int| 0 <= j < i ==> sv[j] != url@,
        decreases seen@.len() - i,
    {
        if seen[i] == *url {
            assert(sv[i as int] == url@);
            return true;
        }
        i += 1;
    }
    false
}

/// Builds the subscription list of `feeds`: the feeds that pass `filter`, in
/// input order, each feed URL once, the first feed with that URL winning.
pub fn opml_document(feeds: &[RssFeed], filter: Option<FeedType>) -> (r: SubscriptionDocument)
    ensures
        r.title@ == document_title(filter),
        entries_view(r.entries@) == document_entries(feeds@.map_values(|f: RssFeed| f@), filter),
{
    let ghost fv = feeds@.map_values(|f: RssFeed| f@);
    let mut entries: Vec<OutlineEntry> = Vec::new();
    let mut seen: Vec<String> = Vec::new();
    let mut i: usize = 0;
    while i < feeds.len()
        invariant
            i <= feeds@.len(),
            fv == feeds@.map_values(|f: RssFeed| f@),
            entries_view(entries@) == survivors(fv.take(i as int), filter).map_values(
                |f: FeedRecord| entry_of(f),
            ),
            seen@.map_values(|s: String| s@) == urls_of(survivors(fv.take(i as int), filter)),
        decreases feeds@.len() - i,
    {
        let ghost before = survivors(fv.take(i as int), filter);
        let ghost eb = entries@;
        let ghost sb = seen@;
        assert(fv.take(i + 1).drop_last() =~= fv.take(i as int));
        assert(fv.take(i + 1).last() == feeds@[i as int]@);
        let feed = &feeds[i];
        if matches_filter(filter, feed.feed_type) && !contains_url(&seen, &feed.url) {
            entries.push(
                OutlineEntry {
                    title: feed.title.clone(),
                    kind: feed.feed_type.label(),
                    xml_url: feed.url.clone(),
                    html_url: feed.html_url.clone(),
                },
            );
            seen.push(feed.url.clone());
            assert(entries_view(entries@) =~= entries_view(eb).push(entry_of(feed@)));
            assert(before.push(feed@).map_values(|f: FeedRecord| entry_of(f)) =~= before.map_values(
                |f: FeedRecord| entry_of(f),
            ).push(entry_of(feed@)));
            assert(seen@.map_values(|s: String| s@) =~= sb.map_values(|s: String| s@).push(feed.url@));
            assert(urls_of(before.push(feed@)) =~= urls_of(before).push(feed.url@));
        }
        i += 1;
    }
    assert(fv.take(feeds@.len() as int) =~= fv);
    SubscriptionDocument { title: title_for(filter), entries }
}

} // verus!
