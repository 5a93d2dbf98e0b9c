//! What the activity views compute from fetched records: how long ago a
//! transfer happened, which kind of account an address is, and how many
//! entries a live feed shows.
use vstd::prelude::*;

use crate::address::Address;
use crate::async_result::{AsyncResult, FetchError};
use crate::model::{TokenAmount, TransferType};

verus! {

pub const SECS_PER_MINUTE: u64 = 60;

pub const SECS_PER_HOUR: u64 = 3600;

pub const SECS_PER_DAY: u64 = 86400;

/// How many entries of the latest page a live feed shows.
pub const LIVE_FEED_LEN: usize = 5;

/// The unit that an elapsed time is shown in.
#[derive(Clone, Copy, Debug, PartialEq, Eq, Structural)]
pub enum TimeUnit {
    Seconds,
    Minutes,
    Hours,
    Days,
}

/// An elapsed time, rounded down to whole units.
#[derive(Clone, Copy, Debug, PartialEq, Eq, Structural)]
pub struct Elapsed {
    pub count: u64,
    pub unit: TimeUnit,
}

/// A Unix timestamp read as an unsigned number of seconds: a negative one
/// lies past every present time.
pub open spec fn start_secs(ts: i64) -> int {
    if ts >= 0 {
        ts as int
    } else {
        ts as int + 0x1_0000_0000_0000_0000
    }
}

/// Seconds from `ts` to `now`, or zero when `ts` is not in the past.
pub open spec fn elapsed_secs(now: u64, ts: i64) -> int {
    if now as int > start_secs(ts) {
        now as int - start_secs(ts)
    } else {
        0
    }
}

/// The largest unit of which strictly more than one whole unit has passed.
pub open spec fn elapsed_of(t: int) -> Elapsed {
    if t > SECS_PER_DAY {
        Elapsed { count: (t / SECS_PER_DAY as int) as u64, unit: TimeUnit::Days }
    } else if t > SECS_PER_HOUR {
        Elapsed { count: (t / SECS_PER_HOUR as int) as u64, unit: TimeUnit::Hours }
    } else if t > SECS_PER_MINUTE {
        Elapsed { count: (t / SECS_PER_MINUTE as int) as u64, unit: TimeUnit::Minutes }
    } else {
        Elapsed { count: t as u64, unit: TimeUnit::Seconds }
    }
}

/// How long before `now_secs` a transfer made at `ts` happened.
pub fn time_ago(now_secs: u64, ts: i64) -> (r: Elapsed)
    ensures
        r == elapsed_of(elapsed_secs(now_secs, ts)),
{
    let start: u64 = if ts >= 0 {
        ts as u64
    } else {
        let shifted: i64 = (ts + i64::MAX) + 1;
        shifted as u64 + 0x8000_0000_0000_0000u64
    };
    let t: u64 = if now_secs > start {
        now_secs - start
    } else {
        0
    };
    if t > SECS_PER_DAY {
        Elapsed { count: t / SECS_PER_DAY, unit: TimeUnit::Days }
    } else if t > SECS_PER_HOUR {
        Elapsed { count: t / SECS_PER_HOUR, unit: TimeUnit::Hours }
    } else if t > SECS_PER_MINUTE {
        Elapsed { count: t / SECS_PER_MINUTE, unit: TimeUnit::Minutes }
    } else {
        Elapsed { count: t, unit: TimeUnit::Seconds }
    }
}

/// How many entries of a page of `page_len` a live feed shows.
pub fn live_feed_count(page_len: usize) -> (r: usize)
    ensures
        r == if page_len < LIVE_FEED_LEN {
            page_len
        } else {
            LIVE_FEED_LEN
        },
{
    if page_len < LIVE_FEED_LEN {
        page_len
    } else {
        LIVE_FEED_LEN
    }
}

/// What an account is to the program.
#[derive(Clone, Copy, Debug, PartialEq, Eq, Structural)]
pub enum AccountKind {
    /// One of the reward buses, by its index.
    Bus(usize),
    /// The treasury.
    Treasury,
    /// Any other account.
    User,
}

/// Whether `kind` is what `addr` is: a bus where it is one of `buses` (the
/// first match gives the index), else the treasury where it is `treasury`,
/// else a user.
pub open spec fn is_kind_of(kind: AccountKind, addr: Address, treasury: Address, buses: Seq<Address>) -> bool {
    &&& forall|i: usize|
        kind == AccountKind::Bus(i) <==> (i < buses.len() && buses[i as int] == addr && forall|j: int|
            0 <= j < i ==> buses[j] != addr)
    &&& kind == AccountKind::Treasury <==> ((forall|j: int| 0 <= j < buses.len() ==> buses[j] != addr)
        && addr == treasury)
    &&& kind == AccountKind::User <==> ((forall|j: int| 0 <= j < buses.len() ==> buses[j] != addr)
        && addr != treasury)
}

/// The kind of `addr`: a bus where it is one of `buses` (the first match
/// gives the index), else the treasury where it is `treasury`, else a user.
pub fn account_kind(addr: &Address, treasury: &Address, buses: &Vec<Address>) -> (r: AccountKind)
    ensures
        is_kind_of(r, *addr, *treasury, buses@),
{
    let mut i: usize = 0;
    while i < buses.len()
        invariant
            0 <= i <= buses@.len(),
            forall|j: int| 0 <= j < i ==> buses@[j] != *addr,
        decreases buses@.len() - i,
    {
        if buses[i].same_as(addr) {
            return AccountKind::Bus(i);
        }
        i = i + 1;
    }
    if addr.same_as(treasury) {
        AccountKind::Treasury
    } else {
        AccountKind::User
    }
}


/// The title of a transfer's detail view.
pub fn transfer_title(kind: TransferType) -> (r: &'static str)
    ensures
        kind is Claim ==> r@ == "Claim"@,
        kind is Mine ==> r@ == "Mine"@,
        kind is Spl ==> r@ == "Transfer"@,
{
    match kind {
        TransferType::Claim => "Claim",
        TransferType::Mine => "Mine",
        TransferType::Spl => "Transfer",
    }
}

/// The text shown for the total supply: the scaled amount once it is known,
/// a dash while it loads, `Err` when the read failed.
pub fn supply_label(supply: &AsyncResult<TokenAmount>) -> (r: String)
    ensures
        supply is Ready ==> r@ == supply->Ready_0.ui_amount_string@,
        supply is Loading ==> r@ == "-"@,
        supply is Error ==> r@ == "Err"@,
{
    match supply {
        AsyncResult::Ready(amount) => amount.ui_amount_string.clone(),
        AsyncResult::Loading => "-".to_owned(),
        AsyncResult::Error(_) => "Err".to_owned(),
    }
}


/// The 32 bytes that `s` denotes as a base-58 account address, if it denotes
/// one.
pub uninterp spec fn decoded_address(s: Seq<char>) -> Option<Seq<u8>>;

/// Relies on solana_sdk's `Pubkey::from_str`: it decodes a base-58 address,
/// and refuses a string longer than 44 bytes without decoding it.
#[verifier::external_body]
fn parse_pubkey(s: &str) -> (r: Option<Address>)
    ensures
        r is Some <==> decoded_address(s@) is Some,
        r is Some ==> r->0.bytes@ == decoded_address(s@)->0,
        s@.len() > 44 ==> r is None,
{
    match <solana_sdk::pubkey::Pubkey as std::str::FromStr>::from_str(s) {
        Ok(key) => Some(Address::new(key.to_bytes())),
        Err(_) => None,
    }
}

/// The account that a user view is opened for, and what it is to the
/// program; `NotFound` where `id` is no address.
pub fn user_account(id: &str, treasury: &Address, buses: &Vec<Address>) -> (r: Result<
    (Address, AccountKind),
    FetchError,
>)
    ensures
        r is Err <==> decoded_address(id@) is None,
        r is Err ==> r->Err_0 == FetchError::NotFound,
        r is Ok ==> r->Ok_0.0.bytes@ == decoded_address(id@)->0 && is_kind_of(
            r->Ok_0.1,
            r->Ok_0.0,
            *treasury,
            buses@,
        ),
{
    match parse_pubkey(id) {
        Some(addr) => {
            let kind = account_kind(&addr, treasury, buses);
            Ok((addr, kind))
        },
        None => Err(FetchError::NotFound),
    }
}

} // verus!
