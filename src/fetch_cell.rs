//! The keyed fetch cell: one slot holding the state of a remote read, and the
//! generation of the fetch that is allowed to fill it.
use vstd::prelude::*;

use crate::address::Address;
use crate::async_result::{AsyncResult, FetchError};

verus! {

/// Which transfers a history query covers.
#[derive(Clone, Copy, Debug, PartialEq, Eq)]
pub enum ActivityFilter {
    /// Transfers of every account.
    Global,
    /// Transfers that involve one account.
    Account(Address),
}

impl ActivityFilter {
    pub fn same_as(&self, other: &ActivityFilter) -> (r: bool)
        ensures
            r == (*self == *other),
    {
        match self {
            ActivityFilter::Global => match other {
                ActivityFilter::Global => true,
                ActivityFilter::Account(_) => false,
            },
            ActivityFilter::Account(a) => match other {
                ActivityFilter::Global => false,
                ActivityFilter::Account(b) => a.same_as(b),
            },
        }
    }
}

/// What a cell is filled from: the gateway read and its parameters.
#[derive(Clone, Copy, Debug, PartialEq, Eq)]
pub enum FetchKey {
    /// The token supply of the mint.
    Supply,
    /// The treasury account.
    Treasury,
    /// The liveness probe of the gateway.
    Ping,
    /// The token balance of an account.
    Balance(Address),
    /// The proof account of a miner.
    Proof(Address),
    /// One page of the transfer history.
    Transfers { filter: ActivityFilter, offset: u64, page_size: u64 },
}

impl FetchKey {
    /// Whether two keys name the same read.
    pub fn same_as(&self, other: &FetchKey) -> (r: bool)
        ensures
            r == (*self == *other),
    {
        match self {
            FetchKey::Supply => matches!(other, FetchKey::Supply),
            FetchKey::Treasury => matches!(other, FetchKey::Treasury),
            FetchKey::Ping => matches!(other, FetchKey::Ping),
            FetchKey::Balance(a) => match other {
                FetchKey::Balance(b) => a.same_as(b),
                _ => false,
            },
            FetchKey::Proof(a) => match other {
                FetchKey::Proof(b) => a.same_as(b),
                _ => false,
            },
            FetchKey::Transfers { filter: f1, offset: o1, page_size: p1 } => match other {
                FetchKey::Transfers { filter: f2, offset: o2, page_size: p2 } => {
                    f1.same_as(f2) && *o1 == *o2 && *p1 == *p2
                },
                _ => false,
            },
        }
    }
}

/// A fetch that the host has to run: the read to make, and the generation
/// that its outcome must carry back to the cell.
#[derive(Clone, Copy, Debug, PartialEq, Eq)]
pub struct Ticket {
    pub key: FetchKey,
    pub generation: u64,
}

/// The abstract state of a fetch cell.
pub struct CellView<T> {
    /// The key of the latest request; `None` before the first one.
    pub key: Option<FetchKey>,
    pub state: AsyncResult<T>,
    /// The generation of the latest fetch issued.
    pub generation: u64,
    /// Whether the latest fetch has not landed yet.
    pub in_flight: bool,
}

impl<T> CellView<T> {
    /// The cell's invariant: a fetch is in flight exactly while the cell shows
    /// `Loading` for a key; with no key there is nothing in flight.
    pub open spec fn wf(self) -> bool {
        &&& self.key is None ==> !self.in_flight && self.state is Loading
        &&& self.key is Some ==> (self.in_flight <==> self.state is Loading)
    }

    /// A new generation can still be issued.
    pub open spec fn can_advance(self) -> bool {
        self.generation < u64::MAX
    }

    /// Asking for `key` issues a fetch exactly when `key` differs from the
    /// key of the latest request.
    pub open spec fn issues_fetch(self, key: FetchKey) -> bool {
        self.key != Some(key)
    }

    /// The ticket of the next fetch for `key`.
    pub open spec fn next_ticket(self, key: FetchKey) -> Ticket {
        Ticket { key, generation: (self.generation + 1) as u64 }
    }

    /// The cell reset to `Loading` for a new fetch of `key`.
    pub open spec fn restarted(self, key: FetchKey) -> CellView<T> {
        CellView {
            key: Some(key),
            state: AsyncResult::Loading,
            generation: (self.generation + 1) as u64,
            in_flight: true,
        }
    }

    /// The cell after a hook asked it for `key`.
    pub open spec fn requested(self, key: FetchKey) -> CellView<T> {
        if self.issues_fetch(key) {
            self.restarted(key)
        } else {
            self
        }
    }

    /// The ticket handed out when a hook asks for `key`.
    pub open spec fn request_ticket(self, key: FetchKey) -> Option<Ticket> {
        if self.issues_fetch(key) {
            Some(self.next_ticket(key))
        } else {
            None
        }
    }

    /// The cell after an explicit refresh: a new fetch of the current key.
    pub open spec fn refreshed(self) -> CellView<T> {
        match self.key {
            Some(k) => self.restarted(k),
            None => self,
        }
    }

    /// The ticket handed out by an explicit refresh.
    pub open spec fn refresh_ticket(self) -> Option<Ticket> {
        match self.key {
            Some(k) => Some(self.next_ticket(k)),
            None => None,
        }
    }

    /// An outcome is committed only for the latest fetch, while it is in
    /// flight.
    pub open spec fn accepts(self, ticket: Ticket) -> bool {
        &&& self.in_flight
        &&& self.key == Some(ticket.key)
        &&& self.generation == ticket.generation
    }

    /// The cell after the fetch of `ticket` landed with `outcome`.
    pub open spec fn completed(self, ticket: Ticket, outcome: Result<T, FetchError>) -> CellView<
        T,
    > {
        if self.accepts(ticket) {
            CellView {
                key: self.key,
                state: AsyncResult::of_outcome(outcome),
                generation: self.generation,
                in_flight: false,
            }
        } else {
            self
        }
    }
}

/// One reactive slot: the state of a remote read and the identity of the
/// fetch that may fill it.
pub struct FetchCell<T> {
    key: Option<FetchKey>,
    state: AsyncResult<T>,
    generation: u64,
    in_flight: bool,
}

impl<T> View for FetchCell<T> {
    type V = CellView<T>;

    closed spec fn view(&self) -> CellView<T> {
        CellView {
            key: self.key,
            state: self.state,
            generation: self.generation,
            in_flight: self.in_flight,
        }
    }
}

impl<T> FetchCell<T> {
    /// A cell that no hook has asked yet: it shows `Loading`.
    pub fn new() -> (r: FetchCell<T>)
        ensures
            r@.key is None,
            r@.state is Loading,
            r@.generation == 0,
            !r@.in_flight,
            r@.wf(),
    {
        FetchCell { key: None, state: AsyncResult::Loading, generation: 0, in_flight: false }
    }

    /// What the cell shows now.
    pub fn state(&self) -> (r: &AsyncResult<T>)
        ensures
            *r == self@.state,
    {
        &self.state
    }

    pub fn key(&self) -> (r: Option<FetchKey>)
        ensures
            r == self@.key,
    {
        self.key
    }

    pub fn generation(&self) -> (r: u64)
        ensures
            r == self@.generation,
    {
        self.generation
    }

    pub fn is_in_flight(&self) -> (r: bool)
        ensures
            r == self@.in_flight,
    {
        self.in_flight
    }

    /// Whether the latest request was for `key`.
    fn has_key(&self, key: &FetchKey) -> (r: bool)
        ensures
            r == (self@.key == Some(*key)),
    {
        match &self.key {
            Some(k) => k.same_as(key),
            None => false,
        }
    }

    fn restart(&mut self, key: FetchKey) -> (r: Ticket)
        requires
            old(self)@.can_advance(),
        ensures
            final(self)@ == old(self)@.restarted(key),
            r == old(self)@.next_ticket(key),
    {
        self.generation = self.generation + 1;
        self.key = Some(key);
        self.state = AsyncResult::Loading;
        self.in_flight = true;
        Ticket { key, generation: self.generation }
    }

    /// A hook asks for `key`. When the key changed, the cell goes back to
    /// `Loading` and the ticket of the fetch to run is returned; otherwise
    /// nothing changes and no fetch is issued.
    pub fn request(&mut self, key: FetchKey) -> (r: Option<Ticket>)
        requires
            old(self)@.wf(),
            old(self)@.can_advance(),
        ensures
            final(self)@ == old(self)@.requested(key),
            r == old(self)@.request_ticket(key),
            final(self)@.wf(),
    {
        if self.has_key(&key) {
            None
        } else {
            Some(self.restart(key))
        }
    }

    /// Runs the current key's fetch again, if a hook has asked for one.
    pub fn refresh(&mut self) -> (r: Option<Ticket>)
        requires
            old(self)@.wf(),
            old(self)@.can_advance(),
        ensures
            final(self)@ == old(self)@.refreshed(),
            r == old(self)@.refresh_ticket(),
            final(self)@.wf(),
    {
        match self.key {
            Some(k) => Some(self.restart(k)),
            None => None,
        }
    }

    /// The fetch of `ticket` landed. Its outcome is committed, as a value or
    /// as an error, only when it is the latest fetch and still in flight;
    /// returns whether it was.
    pub fn complete(&mut self, ticket: Ticket, outcome: Result<T, FetchError>) -> (r: bool)
        requires
            old(self)@.wf(),
        ensures
            r == old(self)@.accepts(ticket),
            final(self)@ == old(self)@.completed(ticket, outcome),
            final(self)@.wf(),
    {
        if self.in_flight && self.generation == ticket.generation && self.has_key(&ticket.key) {
            self.state = AsyncResult::from_outcome(outcome);
            self.in_flight = false;
            true
        } else {
            false
        }
    }
}


/// When a hook asks for a key and the fetch it issues succeeds, the cell shows
/// exactly the value that the gateway returned.
pub proof fn lemma_success_shows_value<T>(c: CellView<T>, key: FetchKey, value: T)
    requires
        c.wf(),
        c.can_advance(),
        c.issues_fetch(key),
    ensures
        c.requested(key).accepts(c.request_ticket(key)->0),
        c.requested(key).completed(c.request_ticket(key)->0, Ok(value)).state
            == AsyncResult::Ready(value),
{
}

/// When a hook asks for a key and the fetch it issues fails, the cell shows
/// the cause as an error.
pub proof fn lemma_failure_shows_error<T>(c: CellView<T>, key: FetchKey, cause: FetchError)
    requires
        c.wf(),
        c.can_advance(),
        c.issues_fetch(key),
    ensures
        c.requested(key).accepts(c.request_ticket(key)->0),
        c.requested(key).completed(c.request_ticket(key)->0, Err(cause)).state
            == AsyncResult::<T>::Error(cause),
{
}

/// A cell that shows a value or an error has no fetch in flight: an outcome
/// that lands then, of any ticket, leaves it as it is.
pub proof fn lemma_settled_cell_ignores_outcomes<T>(
    c: CellView<T>,
    ticket: Ticket,
    outcome: Result<T, FetchError>,
)
    requires
        c.wf(),
        !(c.state is Loading),
    ensures
        !c.accepts(ticket),
        c.completed(ticket, outcome) == c,
{
}

/// Asking again for the key whose value the cell already shows changes nothing
/// and issues no fetch.
pub proof fn lemma_same_key_is_idempotent<T>(c: CellView<T>, key: FetchKey)
    requires
        c.wf(),
        c.key == Some(key),
        c.state is Ready,
    ensures
        c.requested(key) == c,
        c.request_ticket(key) is None,
{
}

/// While the fetch of `ticket` for one key is in flight, asking for another
/// key shows `Loading` for the new key at once, and the old fetch's outcome,
/// whatever it is, leaves the cell as it is when it lands.
pub proof fn lemma_stale_outcome_is_discarded<T>(
    c: CellView<T>,
    ticket: Ticket,
    other: FetchKey,
    outcome: Result<T, FetchError>,
)
    requires
        c.wf(),
        c.can_advance(),
        c.accepts(ticket),
        other != ticket.key,
    ensures
        c.requested(other).key == Some(other),
        c.requested(other).state is Loading,
        c.requested(other).completed(ticket, outcome) == c.requested(other),
{
}

/// An outcome that lands after an explicit refresh of the same key belongs to
/// the superseded fetch and is discarded as well.
pub proof fn lemma_refresh_discards_earlier_fetch<T>(
    c: CellView<T>,
    ticket: Ticket,
    outcome: Result<T, FetchError>,
)
    requires
        c.wf(),
        c.can_advance(),
        c.accepts(ticket),
    ensures
        c.refreshed().state is Loading,
        c.refreshed().completed(ticket, outcome) == c.refreshed(),
{
}

} // verus!
