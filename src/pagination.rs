//! The paged transfer history: a fetch cell for one page and the cursor
//! state that tells whether a next page may exist.
use vstd::prelude::*;

use crate::address::Address;
use crate::async_result::{AsyncResult, FetchError};
use crate::fetch_cell::{ActivityFilter, CellView, FetchCell, FetchKey, Ticket};
use crate::model::Transfer;

verus! {

/// Whether a page of `returned` entries leaves room for a next one: only a
/// full page does.
pub open spec fn page_is_full(returned: int, page_size: int) -> bool {
    returned == page_size
}

/// Whether a next page may exist after a page of `returned` entries.
pub fn has_more_after(returned: usize, page_size: u64) -> (r: bool)
    ensures
        r == page_is_full(returned as int, page_size as int),
{
    returned as u128 == page_size as u128
}

/// The abstract state of a transfer feed.
pub struct FeedView {
    pub cell: CellView<Vec<Transfer>>,
    pub page_size: u64,
    /// Whether the latest page that landed was full.
    pub has_more: bool,
}

impl FeedView {
    /// The read of the page at `offset` under `filter`.
    pub open spec fn key_for(self, filter: ActivityFilter, offset: u64) -> FetchKey {
        FetchKey::Transfers { filter, offset, page_size: self.page_size }
    }

    /// The feed after a hook asked for the page at `offset` under `filter`.
    pub open spec fn requested(self, filter: ActivityFilter, offset: u64) -> FeedView {
        FeedView {
            cell: self.cell.requested(self.key_for(filter, offset)),
            page_size: self.page_size,
            has_more: self.has_more,
        }
    }

    /// The feed after the fetch of `ticket` landed with `outcome`: a page that
    /// is committed sets `has_more`; anything else leaves it.
    pub open spec fn landed(self, ticket: Ticket, outcome: Result<Vec<Transfer>, FetchError>) -> FeedView {
        FeedView {
            cell: self.cell.completed(ticket, outcome),
            page_size: self.page_size,
            has_more: if self.cell.accepts(ticket) && outcome is Ok {
                page_is_full(outcome->Ok_0@.len() as int, self.page_size as int)
            } else {
                self.has_more
            },
        }
    }
}

/// A paged view of the transfer history.
pub struct TransferFeed {
    cell: FetchCell<Vec<Transfer>>,
    page_size: u64,
    has_more: bool,
}

impl View for TransferFeed {
    type V = FeedView;

    closed spec fn view(&self) -> FeedView {
        FeedView { cell: self.cell@, page_size: self.page_size, has_more: self.has_more }
    }
}

impl TransferFeed {
    /// A feed that has asked for nothing yet: it shows `Loading`, and no page
    /// has told that more exist.
    pub fn new(page_size: u64) -> (r: TransferFeed)
        ensures
            r@.cell.key is None,
            r@.cell.state is Loading,
            r@.cell.generation == 0,
            !r@.cell.in_flight,
            r@.cell.wf(),
            r@.page_size == page_size,
            !r@.has_more,
    {
        TransferFeed { cell: FetchCell::new(), page_size, has_more: false }
    }

    /// What the feed shows now: the latest page, or its loading or error state.
    pub fn state(&self) -> (r: &AsyncResult<Vec<Transfer>>)
        ensures
            *r == self@.cell.state,
    {
        self.cell.state()
    }

    pub fn has_more(&self) -> (r: bool)
        ensures
            r == self@.has_more,
    {
        self.has_more
    }

    pub fn page_size(&self) -> (r: u64)
        ensures
            r == self@.page_size,
    {
        self.page_size
    }

    pub fn generation(&self) -> (r: u64)
        ensures
            r == self@.cell.generation,
    {
        self.cell.generation()
    }

    /// The fetch of `ticket` landed. As for a cell, only the latest fetch is
    /// committed; a committed page sets `has_more` to whether it is full.
    pub fn complete(&mut self, ticket: Ticket, outcome: Result<Vec<Transfer>, FetchError>) -> (r:
        bool)
        requires
            old(self)@.cell.wf(),
        ensures
            r == old(self)@.cell.accepts(ticket),
            final(self)@ == old(self)@.landed(ticket, outcome),
            final(self)@.cell.wf(),
    {
        let returned: Option<usize> = match &outcome {
            Ok(page) => Some(page.len()),
            Err(_) => None,
        };
        let committed = self.cell.complete(ticket, outcome);
        if committed {
            match returned {
                Some(n) => {
                    self.has_more = has_more_after(n, self.page_size);
                },
                None => {},
            }
        }
        committed
    }

    /// Runs the fetch of the current page again.
    pub fn refresh(&mut self) -> (r: Option<Ticket>)
        requires
            old(self)@.cell.wf(),
            old(self)@.cell.can_advance(),
        ensures
            final(self)@.cell == old(self)@.cell.refreshed(),
            final(self)@.page_size == old(self)@.page_size,
            final(self)@.has_more == old(self)@.has_more,
            r == old(self)@.cell.refresh_ticket(),
            final(self)@.cell.wf(),
    {
        self.cell.refresh()
    }
}

/// The page at `offset` of the transfers that `filter` selects, fetched again
/// whenever the filter or the offset changes.
pub fn use_transfers(feed: &mut TransferFeed, filter: ActivityFilter, offset: u64) -> (r: Option<
    Ticket,
>)
    requires
        old(feed)@.cell.wf(),
        old(feed)@.cell.can_advance(),
    ensures
        final(feed)@ == old(feed)@.requested(filter, offset),
        r == old(feed)@.cell.request_ticket(old(feed)@.key_for(filter, offset)),
        final(feed)@.cell.wf(),
{
    let key = FetchKey::Transfers { filter, offset, page_size: feed.page_size };
    feed.cell.request(key)
}

/// The page at `offset` of the transfers that involve `user`.
pub fn use_user_transfers(feed: &mut TransferFeed, user: Address, offset: u64) -> (r: Option<
    Ticket,
>)
    requires
        old(feed)@.cell.wf(),
        old(feed)@.cell.can_advance(),
    ensures
        final(feed)@ == old(feed)@.requested(ActivityFilter::Account(user), offset),
        r == old(feed)@.cell.request_ticket(
            old(feed)@.key_for(ActivityFilter::Account(user), offset),
        ),
        final(feed)@.cell.wf(),
{
    use_transfers(feed, ActivityFilter::Account(user), offset)
}

/// A page that the feed commits tells that more exist exactly when it is full.
pub proof fn lemma_full_page_has_more(f: FeedView, ticket: Ticket, page: Vec<Transfer>)
    requires
        f.cell.accepts(ticket),
    ensures
        f.landed(ticket, Ok(page)).cell.state == AsyncResult::Ready(page),
        f.landed(ticket, Ok(page)).has_more == (page@.len() == f.page_size as int),
{
}

} // verus!
