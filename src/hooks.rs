//! The data hooks: each one asks its cell for the read that it stands for.
//!
//! A hook is called on every render. It returns the ticket of the fetch that
//! the host has to run, if any, and the host reads what to show from the
//! cell's state.
use vstd::prelude::*;

use crate::address::Address;
use crate::fetch_cell::{FetchCell, FetchKey, Ticket};
use crate::model::{Proof, TokenAmount, Treasury};

verus! {

/// The token supply of the mint: fetched once per cell, shown as the gateway
/// returned it.
pub fn use_mars_supply(cell: &mut FetchCell<TokenAmount>) -> (r: Option<Ticket>)
    requires
        old(cell)@.wf(),
        old(cell)@.can_advance(),
    ensures
        final(cell)@ == old(cell)@.requested(FetchKey::Supply),
        r == old(cell)@.request_ticket(FetchKey::Supply),
        final(cell)@.wf(),
{
    cell.request(FetchKey::Supply)
}

/// The treasury account: fetched once per cell.
pub fn use_treasury(cell: &mut FetchCell<Treasury>) -> (r: Option<Ticket>)
    requires
        old(cell)@.wf(),
        old(cell)@.can_advance(),
    ensures
        final(cell)@ == old(cell)@.requested(FetchKey::Treasury),
        r == old(cell)@.request_ticket(FetchKey::Treasury),
        final(cell)@.wf(),
{
    cell.request(FetchKey::Treasury)
}

/// The gateway's liveness: its `Error` state is the connectivity signal.
pub fn use_ping(cell: &mut FetchCell<()>) -> (r: Option<Ticket>)
    requires
        old(cell)@.wf(),
        old(cell)@.can_advance(),
    ensures
        final(cell)@ == old(cell)@.requested(FetchKey::Ping),
        r == old(cell)@.request_ticket(FetchKey::Ping),
        final(cell)@.wf(),
{
    cell.request(FetchKey::Ping)
}

/// The token balance of `owner`, fetched again whenever `owner` changes.
pub fn use_mars_balance(cell: &mut FetchCell<TokenAmount>, owner: Address) -> (r: Option<
    Ticket,
>)
    requires
        old(cell)@.wf(),
        old(cell)@.can_advance(),
    ensures
        final(cell)@ == old(cell)@.requested(FetchKey::Balance(owner)),
        r == old(cell)@.request_ticket(FetchKey::Balance(owner)),
        final(cell)@.wf(),
{
    cell.request(FetchKey::Balance(owner))
}

/// The proof account of `owner`, fetched again whenever `owner` changes.
pub fn use_proof(cell: &mut FetchCell<Proof>, owner: Address) -> (r: Option<Ticket>)
    requires
        old(cell)@.wf(),
        old(cell)@.can_advance(),
    ensures
        final(cell)@ == old(cell)@.requested(FetchKey::Proof(owner)),
        r == old(cell)@.request_ticket(FetchKey::Proof(owner)),
        final(cell)@.wf(),
{
    cell.request(FetchKey::Proof(owner))
}

} // verus!
