//! The records that the gateway returns.
use vstd::prelude::*;

use crate::address::Address;

verus! {

/// A token amount as the gateway reports it: the raw integer amount as a
/// decimal string, the number of decimals, and the decimal-scaled amount as a
/// string.
#[derive(Clone, Debug, PartialEq, Eq)]
pub struct TokenAmount {
    pub amount: String,
    pub decimals: u8,
    pub ui_amount_string: String,
}

/// A miner's proof account.
#[derive(Clone, Copy, Debug, PartialEq, Eq)]
pub struct Proof {
    pub authority: Address,
    /// Unclaimed mining rewards, in raw token units.
    pub claimable_rewards: u64,
    pub total_hashes: u64,
    pub total_rewards: u64,
}

/// The program's treasury account.
#[derive(Clone, Copy, Debug, PartialEq, Eq, Structural)]
pub struct Treasury {
    /// Rewards claimed by all miners so far, in raw token units.
    pub total_claimed_rewards: u64,
}

/// What kind of movement a transfer records.
#[derive(Clone, Copy, Debug, PartialEq, Eq, Structural)]
pub enum TransferType {
    Claim,
    Mine,
    Spl,
}

/// One entry of the transfer history.
#[derive(Clone, Debug, PartialEq, Eq)]
pub struct Transfer {
    pub sig: String,
    pub from_address: String,
    pub to_address: String,
    /// Amount in raw token units.
    pub amount: u64,
    /// Unix time of the transfer, in seconds.
    pub ts: i64,
    pub memo: Option<String>,
    pub transfer_type: TransferType,
}

} // verus!
