//! Cursor pagination: lazy, forward-only iteration over comment listings.
//!
//! A listing starts either from a timestamp (or from the beginning of
//! time) or from a continuation token, and each page answers with the
//! token for the next page; a page without a token is the final one. The
//! client never reorders: concatenating the pages in the order fetched
//! yields the listing in the server's order.

use vstd::prelude::*;

use crate::comment::{Comment, CommentsIterPage, Continuation};
use crate::time::Timestamp;

verus! {

/// The state of a page iterator: not yet started, resuming from the
/// token of the previous page, or finished.
pub enum CommentsIterCursor {
    Start(Option<Timestamp>),
    Next(Continuation),
    Done,
}

/// The query parameters of one page request: the timestamp to start
/// from, or the token to resume from. At most one of the two is present;
/// a first page without a timestamp lists from the beginning of time.
pub struct PageRequest {
    pub from_timestamp: Option<Timestamp>,
    pub after: Option<Continuation>,
}

/// Builds the page request a cursor asks for. The first page of a
/// time-range listing carries the start timestamp; every later page
/// carries only the token of the page before it.
pub fn page_request(cursor: &CommentsIterCursor) -> (r: PageRequest)
    requires
        !(cursor is Done),
    ensures
        (cursor matches CommentsIterCursor::Start(from) ==> r.from_timestamp == from && r.after
            is None),
        (cursor matches CommentsIterCursor::Next(c) ==> ({
            &&& r.from_timestamp is None
            &&& r.after matches Some(a) && a@ == c@
        })),
{
    match cursor {
        CommentsIterCursor::Start(from) => PageRequest { from_timestamp: *from, after: None },
        CommentsIterCursor::Next(c) => PageRequest { from_timestamp: None, after: Some(c.clone()) },
        CommentsIterCursor::Done => PageRequest { from_timestamp: None, after: None },
    }
}

/// Advances the cursor past a fetched page: the page's token points at
/// the next page, and a page without a token ends the iteration.
pub fn advance_cursor(cursor: &mut CommentsIterCursor, page_continuation: Option<Continuation>)
    requires
        !(*old(cursor) is Done),
    ensures
        (page_continuation matches Some(c) ==> (*final(cursor)
            matches CommentsIterCursor::Next(n) && n@ == c@)),
        (page_continuation is None ==> *final(cursor) is Done),
{
    match page_continuation {
        Some(c) => {
            *cursor = CommentsIterCursor::Next(c);
        },
        None => {
            *cursor = CommentsIterCursor::Done;
        },
    }
}

/// The comments of the pages up to and including index `cut`, in page
/// order.
pub open spec fn spec_flatten_pages(pages: Seq<CommentsIterPage>, cut: int) -> Seq<Comment>
    decreases cut + 1,
{
    if cut < 0 {
        Seq::empty()
    } else {
        spec_flatten_pages(pages, cut - 1) + pages[cut].comments@
    }
}

/// The index of the final page: the first page without a continuation.
pub open spec fn spec_is_last_page(pages: Seq<CommentsIterPage>, i: int) -> bool {
    pages[i].continuation is None && forall|j: int|
        0 <= j < i ==> (#[trigger] pages[j].continuation) is Some
}

/// Drives the page iterator over a fixed sequence of pages: `pages[i]`
/// is what the server would answer to the `i + 1`-th page request.
/// Returns the concatenation of the fetched pages' comments, in fetch
/// order.
///
/// Iteration stops after the first page without a continuation, so the
/// result is exactly the flattening of the pages up to and including
/// that page: what a single unbounded fetch of the same listing would
/// return.
#[verifier::loop_isolation(false)]
pub fn collect_pages(pages: Vec<CommentsIterPage>) -> (r: Vec<Comment>)
    requires
        pages@.len() > 0,
        pages@.last().continuation is None,
    ensures
        exists|cut: int|
            {
                &&& 0 <= cut < pages@.len()
                &&& #[trigger] spec_is_last_page(pages@, cut)
                &&& r@ == spec_flatten_pages(pages@, cut)
            },
{
    let ghost all = pages@;
    let mut remaining = pages;
    let mut out: Vec<Comment> = Vec::new();
    let ghost mut fetched: int = 0;
    let mut cursor = CommentsIterCursor::Start(None);
    loop
        invariant
            0 <= fetched < all.len(),
            remaining@ =~= all.skip(fetched),
            all.last().continuation is None,
            out@ == spec_flatten_pages(all, fetched - 1),
            forall|j: int| 0 <= j < fetched ==> (#[trigger] all[j].continuation) is Some,
            !(cursor is Done),
        decreases remaining@.len(),
    {
        let _request = page_request(&cursor);
        let ghost at = fetched;
        let page = remaining.remove(0);
        proof {
            assert(page == all[at]);
            assert(remaining@ =~= all.skip(at + 1));
        }
        let CommentsIterPage { comments, continuation } = page;
        let mut comments = comments;
        out.append(&mut comments);
        let done = continuation.is_none();
        advance_cursor(&mut cursor, continuation);
        if done {
            proof {
                assert(spec_is_last_page(all, at));
                assert(out@ == spec_flatten_pages(all, at));
            }
            return out;
        }
        proof {
            fetched = fetched + 1;
            assert(all[at].continuation is Some);
            if fetched == all.len() {
                assert(all.last().continuation is Some);
            }
        }
    }
}

/// Pagination is consistent: when every page but the last carries a
/// continuation and the last does not, the iterator fetches every page,
/// and concatenating all pages in order is exactly what it returns.
pub proof fn lemma_pagination_concat_consistent(pages: Seq<CommentsIterPage>)
    requires
        pages.len() > 0,
        pages.last().continuation is None,
        forall|j: int| 0 <= j < pages.len() - 1 ==> (#[trigger] pages[j].continuation) is Some,
    ensures
        spec_is_last_page(pages, pages.len() - 1),
        forall|cut: int|
            0 <= cut < pages.len() && #[trigger] spec_is_last_page(pages, cut) ==> cut
                == pages.len() - 1,
{
    assert forall|cut: int|
        0 <= cut < pages.len() && #[trigger] spec_is_last_page(pages, cut) implies cut
        == pages.len() - 1 by {
        if cut < pages.len() - 1 {
            assert(pages[cut].continuation is Some);
        }
    }
}

/// A page without a continuation ends the iteration: no page after the
/// final page contributes to the result, whatever it holds.
pub proof fn lemma_early_stop_ignores_later_pages(
    pages: Seq<CommentsIterPage>,
    other: Seq<CommentsIterPage>,
    cut: int,
)
    requires
        0 <= cut < pages.len(),
        0 <= cut < other.len(),
        forall|j: int| 0 <= j <= cut ==> #[trigger] pages[j] == other[j],
    ensures
        spec_flatten_pages(pages, cut) == spec_flatten_pages(other, cut),
        spec_is_last_page(pages, cut) == spec_is_last_page(other, cut),
    decreases cut,
{
    if cut > 0 {
        lemma_early_stop_ignores_later_pages(pages, other, cut - 1);
    }
    assert(pages[cut] == other[cut]);
    if cut == 0 {
        assert(spec_flatten_pages(pages, -1) == Seq::<Comment>::empty());
        assert(spec_flatten_pages(other, -1) == Seq::<Comment>::empty());
    }
    if spec_is_last_page(pages, cut) {
        assert forall|j: int| 0 <= j < cut implies (#[trigger] other[j].continuation) is Some by {
            assert(pages[j] == other[j]);
            assert(pages[j].continuation is Some);
        }
        assert(spec_is_last_page(other, cut));
    }
    if spec_is_last_page(other, cut) {
        assert forall|j: int| 0 <= j < cut implies (#[trigger] pages[j].continuation) is Some by {
            assert(pages[j] == other[j]);
            assert(other[j].continuation is Some);
        }
        assert(spec_is_last_page(pages, cut));
    }
}

} // verus!
