use vstd::prelude::*;
use crate::discovery::feeds_view;
use crate::feed::{FeedRecord, RssFeed};

verus! {

/// The feeds of several pages, one page after the other.
pub open spec fn flatten_feeds(pages: Seq<Seq<FeedRecord>>) -> Seq<FeedRecord>
    decreases pages.len(),
{
    if pages.len() == 0 {
        seq![]
    } else {
        flatten_feeds(pages.drop_last()) + pages.last()
    }
}

pub open spec fn pages_view(pages: Seq<Vec<RssFeed>>) -> Seq<Seq<FeedRecord>> {
    pages.map_values(|p: Vec<RssFeed>| feeds_view(p@))
}

/// Combines the feeds that the pages of a batch yielded, page by page, each
/// page's feeds in their own order. A page that failed yields no feed and so
/// adds nothing.
pub fn merge_page_results(pages: &Vec<Vec<RssFeed>>) -> (r: Vec<RssFeed>)
    ensures
        feeds_view(r@) == flatten_feeds(pages_view(pages@)),
{
    let ghost pv = pages_view(pages@);
    let mut out: Vec<RssFeed> = Vec::new();
    let mut i: usize = 0;
    assert(pv.take(0) =~= seq![]);
    assert(feeds_view(out@) =~= seq![]);
    while i < pages.len()
        invariant
            i <= pages@.len(),
            pv == pages_view(pages@),
            feeds_view(out@) == flatten_feeds(pv.take(i as int)),
        decreases pages@.len() - i,
    {
        let page = &pages[i];
        let ghost base = feeds_view(out@);
        let mut j: usize = 0;
        while j < page.len()
            invariant
                j <= page@.len(),
                page == pages@[i as int],
                feeds_view(out@) == base + feeds_view(page@).take(j as int),
            decreases page@.len() - j,
        {
            let ghost ob = out@;
            out.push(page[j].duplicate());
            assert(feeds_view(out@) =~= feeds_view(ob).push(page@[j as int]@));
            assert(feeds_view(page@).take(j + 1) =~= feeds_view(page@).take(j as int).push(page@[j as int]@));
            j += 1;
        }
        assert(pv.take(i + 1).drop_last() =~= pv.take(i as int));
        assert(feeds_view(page@).take(page@.len() as int) =~= feeds_view(page@));
        i += 1;
    }
    assert(pv.take(pages@.len() as int) =~= pv);
    out
}

proof fn lemma_flatten_concat(a: Seq<Seq<FeedRecord>>, b: Seq<Seq<FeedRecord>>)
    ensures
        flatten_feeds(a + b) == flatten_feeds(a) + flatten_feeds(b),
    decreases b.len(),
{
    if b.len() == 0 {
        assert(a + b =~= a);
        assert(flatten_feeds(a) + seq![] =~= flatten_feeds(a));
    } else {
        lemma_flatten_concat(a, b.drop_last());
        assert((a + b).drop_last() =~= a + b.drop_last());
        assert(flatten_feeds(a) + flatten_feeds(b) =~= flatten_feeds(a) + flatten_feeds(b.drop_last())
            + b.last());
    }
}

/// Fault isolation: in a merged batch the feeds of each page stand exactly as
/// that page yielded them, between the feeds of the pages before and after
/// it, whatever those pages gave; a page that yielded nothing can be left out
/// without changing the result.
pub proof fn lemma_fault_isolation(pages: Seq<Seq<FeedRecord>>, i: int)
    requires
        0 <= i < pages.len(),
    ensures
        flatten_feeds(pages) == flatten_feeds(pages.take(i)) + pages[i] + flatten_feeds(
            pages.skip(i + 1),
        ),
        pages[i].len() == 0 ==> flatten_feeds(pages) == flatten_feeds(pages.remove(i)),
{
    assert(pages =~= pages.take(i) + (seq![pages[i]] + pages.skip(i + 1)));
    lemma_flatten_concat(pages.take(i), seq![pages[i]] + pages.skip(i + 1));
    lemma_flatten_concat(seq![pages[i]], pages.skip(i + 1));
    let one = seq![pages[i]];
    assert(one.drop_last() =~= Seq::<Seq<FeedRecord>>::empty());
    assert(flatten_feeds(one.drop_last()) == Seq::<FeedRecord>::empty());
    assert(flatten_feeds(one) == flatten_feeds(one.drop_last()) + pages[i]);
    assert(flatten_feeds(one) =~= pages[i]);
    assert(pages.remove(i) =~= pages.take(i) + pages.skip(i + 1));
    lemma_flatten_concat(pages.take(i), pages.skip(i + 1));
    if pages[i].len() == 0 {
        assert(flatten_feeds(pages.take(i)) + pages[i] =~= flatten_feeds(pages.take(i)));
    }
    assert(flatten_feeds(pages.take(i)) + (pages[i] + flatten_feeds(pages.skip(i + 1)))
        =~= flatten_feeds(pages.take(i)) + pages[i] + flatten_feeds(pages.skip(i + 1)));
}

} // verus!
