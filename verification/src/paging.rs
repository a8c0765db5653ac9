//! Walking through the pages of a search: which page to ask for next, what
//! progress to report, and the cards collected so far.
//!
//! The caller sends the requests; after the first page arrives it starts a
//! [`Pagination`], asks it for the next page, and hands every page that
//! arrives back to it.

use vstd::prelude::*;

use crate::models::{page_range, PublicationDocumentCard, SearchResult};

verus! {

/// Number of pages of a search: a search that reports no pages has one.
pub open spec fn total_pages(first: SearchResult) -> int {
    if first.pages_total_count == 0 {
        1
    } else {
        first.pages_total_count as int
    }
}

/// The progress in percent reported for `page` of a search of `total` pages.
pub open spec fn progress_of(total: int, page: int) -> int {
    (100int / total) * page
}

/// Where a paged search stands: the page to ask for next, the last page and
/// the progress that each page is worth.
struct PageCursor {
    next_page: u64,
    last_page: u32,
    percent_per_page: u32,
}

impl PageCursor {
    #[verifier::type_invariant]
    spec fn inv(self) -> bool {
        &&& 1 <= self.last_page
        &&& self.percent_per_page == 100int / (self.last_page as int)
        &&& 1 <= self.next_page
    }
}

/// The number of pages of a search is the number the first page reports
/// (one when it reports none): it does not depend on the cards, on the count
/// of documents or on the page size.
pub proof fn lemma_total_pages(first: SearchResult, other: SearchResult)
    ensures
        total_pages(first) == (if first.pages_total_count == 0 {
            1
        } else {
            first.pages_total_count as int
        }),
        other.pages_total_count == first.pages_total_count ==> total_pages(other) == total_pages(first),
        1 <= total_pages(first) <= u32::MAX,
{
}

/// The state of a paged search after its first page.
pub struct Pagination {
    cursor: PageCursor,
    items: Vec<PublicationDocumentCard>,
}

/// `(100 / total) * page` stays within 0..=100 and grows with `page`.
pub proof fn lemma_progress_bounded(total: int, page: int, later: int)
    requires
        1 <= total,
        0 <= page <= later <= total,
    ensures
        0 <= progress_of(total, page) <= progress_of(total, later) <= 100,
{
    let step: int = 100int / total;
    assert(0 <= step);
    assert(step * page <= step * later) by (nonlinear_arith)
        requires
            0 <= step,
            page <= later,
    ;
    assert(step * later <= step * total) by (nonlinear_arith)
        requires
            0 <= step,
            later <= total,
    ;
    assert(step * total <= 100) by (nonlinear_arith)
        requires
            step == 100int / total,
            1 <= total,
    ;
    assert(0 <= step * page) by (nonlinear_arith)
        requires
            0 <= step,
            0 <= page,
    ;
}

/// After page `current` of a search of `total` pages, the pages asked for are
/// each of `current + 1 ..= total`, once and in increasing order, and the last
/// one asked for is `total`.
pub proof fn lemma_pages_after(current: int, total: int)
    requires
        0 <= current,
        1 <= total <= u32::MAX,
    ensures
        page_range(current + 1, total).len() == if current < total { total - current } else { 0 },
        forall|i: int, j: int|
            0 <= i < j < page_range(current + 1, total).len() ==> #[trigger] page_range(
                current + 1,
                total,
            )[i] < #[trigger] page_range(current + 1, total)[j],
        forall|p: u32| current < p <= total ==> #[trigger] page_range(current + 1, total).contains(p),
        forall|i: int|
            0 <= i < page_range(current + 1, total).len() ==> current < #[trigger] page_range(
                current + 1,
                total,
            )[i] <= total,
        current < total ==> page_range(current + 1, total).last() == total,
{
    let r = page_range(current + 1, total);
    assert forall|p: u32| current < p <= total implies r.contains(p) by {
        assert(r[p - current - 1] == p);
    }
}

/// After the first page of a search, the pages asked for are exactly those
/// after it up to the number of pages the first page reports (one when it
/// reports none), in increasing order.
pub proof fn lemma_search_pages(first: SearchResult)
    ensures
        ({
            let last: int = if first.pages_total_count == 0 {
                1
            } else {
                first.pages_total_count as int
            };
            let pages = page_range(first.current_page + 1, total_pages(first));
            &&& forall|p: u32| #[trigger] pages.contains(p) <==> first.current_page < p <= last
            &&& forall|i: int, j: int| 0 <= i < j < pages.len() ==> #[trigger] pages[i] < #[trigger] pages[j]
        }),
{
    let last: int = if first.pages_total_count == 0 {
        1
    } else {
        first.pages_total_count as int
    };
    lemma_total_pages(first, first);
    lemma_pages_after(first.current_page as int, last);
    let pages = page_range(first.current_page + 1, total_pages(first));
    assert forall|p: u32| #[trigger] pages.contains(p) implies first.current_page < p <= last by {
        let i = choose|i: int| 0 <= i < pages.len() && pages[i] == p;
    }
}

impl Pagination {
    /// The pages still to ask for, in order.
    pub closed spec fn pages_left(self) -> Seq<u32> {
        page_range(self.cursor.next_page as int, self.cursor.last_page as int)
    }

    /// The number of pages of the search.
    pub closed spec fn total(self) -> int {
        self.cursor.last_page as int
    }

    /// The cards collected so far, in the order of their pages.
    pub closed spec fn collected(self) -> Seq<PublicationDocumentCard> {
        self.items@
    }

    /// Starts the walk after the first page of a search arrived; returns the
    /// progress to report for it, `100 / pages` percent. The pages still to
    /// ask for are those after the page that came, up to the last one.
    pub fn start(first: SearchResult) -> (r: (Pagination, u32))
        requires
            first.current_page < u32::MAX,
        ensures
            r.0.total() == total_pages(first),
            r.0.total() == (if first.pages_total_count == 0 {
                1
            } else {
                first.pages_total_count as int
            }),
            r.0.pages_left() == page_range(first.current_page + 1, total_pages(first)),
            r.0.collected() == first.items@,
            r.1 == progress_of(total_pages(first), 1),
    {
        let total: u32 = if first.pages_total_count == 0 {
            1
        } else {
            first.pages_total_count
        };
        let step: u32 = 100 / total;
        proof {
            lemma_progress_bounded(total as int, 1, 1);
        }
        let cursor = PageCursor {
            next_page: first.current_page as u64 + 1,
            last_page: total,
            percent_per_page: step,
        };
        let pagination = Pagination { cursor: cursor, items: first.items };
        (pagination, step * 1)
    }

    /// The page to ask for next, or `None` when all pages have come.
    pub fn next_page(&self) -> (r: Option<u32>)
        ensures
            r == (if self.pages_left().len() > 0 {
                Some(self.pages_left()[0])
            } else {
                None
            }),
    {
        if self.cursor.next_page <= self.cursor.last_page as u64 {
            Some(self.cursor.next_page as u32)
        } else {
            None
        }
    }

    /// Takes the page that was asked for last: keeps its cards after those
    /// collected so far and returns the progress to report for it.
    pub fn record_page(&mut self, page: SearchResult) -> (progress: u32)
        requires
            old(self).pages_left().len() > 0,
        ensures
            final(self).pages_left() == old(self).pages_left().drop_first(),
            final(self).collected() == old(self).collected() + page.items@,
            final(self).total() == old(self).total(),
            progress == progress_of(old(self).total(), old(self).pages_left()[0] as int),
            progress <= 100,
    {
        proof {
            use_type_invariant(&self.cursor);
        }
        let current = self.cursor.next_page as u32;
        proof {
            lemma_progress_bounded(self.cursor.last_page as int, current as int, current as int);
        }
        let progress = self.cursor.percent_per_page * current;
        let mut items = page.items;
        self.items.append(&mut items);
        self.cursor = PageCursor {
            next_page: self.cursor.next_page + 1,
            last_page: self.cursor.last_page,
            percent_per_page: self.cursor.percent_per_page,
        };
        proof {
            assert(final(self).pages_left() =~= old(self).pages_left().drop_first());
        }
        progress
    }

    /// The cards collected from all pages that came.
    pub fn into_items(self) -> (items: Vec<PublicationDocumentCard>)
        ensures
            items@ == self.collected(),
    {
        self.items
    }
}

} // verus!
