use mars_hooks::activity::{
    account_kind, live_feed_count, supply_label, time_ago, transfer_title, user_account,
    AccountKind, Elapsed, TimeUnit,
};
use mars_hooks::address::Address;
use mars_hooks::async_result::{AsyncResult, FetchError};
use mars_hooks::model::{TokenAmount, TransferType};
use solana_sdk::pubkey::Pubkey;

fn addr(b: u8) -> Address {
    Address::new([b; 32])
}

#[test]
fn elapsed_in_seconds_up_to_a_minute() {
    assert_eq!(time_ago(1000, 970), Elapsed { count: 30, unit: TimeUnit::Seconds });
    assert_eq!(time_ago(1000, 940), Elapsed { count: 60, unit: TimeUnit::Seconds });
}

#[test]
fn elapsed_in_larger_units() {
    assert_eq!(time_ago(1000, 939), Elapsed { count: 1, unit: TimeUnit::Minutes });
    assert_eq!(time_ago(10_000, 10_000 - 3601), Elapsed { count: 1, unit: TimeUnit::Hours });
    assert_eq!(time_ago(10_000, 10_000 - 3600), Elapsed { count: 60, unit: TimeUnit::Minutes });
    assert_eq!(time_ago(1_000_000, 1_000_000 - 2 * 86400 - 5), Elapsed { count: 2, unit: TimeUnit::Days });
    assert_eq!(time_ago(1_000_000, 1_000_000 - 86400), Elapsed { count: 24, unit: TimeUnit::Hours });
}

#[test]
fn future_or_negative_timestamp_is_zero() {
    assert_eq!(time_ago(1000, 2000), Elapsed { count: 0, unit: TimeUnit::Seconds });
    assert_eq!(time_ago(1000, -5), Elapsed { count: 0, unit: TimeUnit::Seconds });
    assert_eq!(time_ago(u64::MAX, -1), Elapsed { count: 0, unit: TimeUnit::Seconds });
    assert_eq!(time_ago(u64::MAX, -2), Elapsed { count: 1, unit: TimeUnit::Seconds });
}

#[test]
fn live_feed_shows_at_most_five() {
    assert_eq!(live_feed_count(0), 0);
    assert_eq!(live_feed_count(3), 3);
    assert_eq!(live_feed_count(5), 5);
    assert_eq!(live_feed_count(20), 5);
}

#[test]
fn account_kinds() {
    let buses = vec![addr(10), addr(11), addr(12), addr(11)];
    let treasury = addr(1);
    assert_eq!(account_kind(&addr(10), &treasury, &buses), AccountKind::Bus(0));
    assert_eq!(account_kind(&addr(11), &treasury, &buses), AccountKind::Bus(1));
    assert_eq!(account_kind(&addr(1), &treasury, &buses), AccountKind::Treasury);
    assert_eq!(account_kind(&addr(2), &treasury, &buses), AccountKind::User);
    assert_eq!(account_kind(&addr(2), &treasury, &Vec::new()), AccountKind::User);
}

#[test]
fn user_account_parses_address() {
    let key = Pubkey::new_from_array([7u8; 32]).to_string();
    let buses = vec![addr(10)];
    let r = user_account(&key, &addr(1), &buses);
    let (a, kind) = r.unwrap();
    assert_eq!(a, addr(7));
    assert_eq!(kind, AccountKind::User);
    let r = user_account("11111111111111111111111111111111", &addr(0), &buses);
    let (a, kind) = r.unwrap();
    assert_eq!(a, addr(0));
    assert_eq!(kind, AccountKind::Treasury);
    let bus = Pubkey::new_from_array([10u8; 32]).to_string();
    assert_eq!(user_account(&bus, &addr(1), &buses).unwrap().1, AccountKind::Bus(0));
}

#[test]
fn user_account_refuses_bad_ids() {
    let buses = vec![addr(10)];
    assert_eq!(user_account("not a key", &addr(1), &buses), Err(FetchError::NotFound));
    assert_eq!(user_account("", &addr(1), &buses), Err(FetchError::NotFound));
    assert_eq!(user_account("1111", &addr(1), &buses), Err(FetchError::NotFound));
    let long = "1".repeat(45);
    assert_eq!(user_account(&long, &addr(1), &buses), Err(FetchError::NotFound));
}

#[test]
fn transfer_titles() {
    assert_eq!(transfer_title(TransferType::Claim), "Claim");
    assert_eq!(transfer_title(TransferType::Mine), "Mine");
    assert_eq!(transfer_title(TransferType::Spl), "Transfer");
}

#[test]
fn supply_labels() {
    let amount = TokenAmount {
        amount: "1234567800000".to_string(),
        decimals: 9,
        ui_amount_string: "1234.5678".to_string(),
    };
    assert_eq!(supply_label(&AsyncResult::Ready(amount)), "1234.5678");
    assert_eq!(supply_label(&AsyncResult::Loading), "-");
    assert_eq!(supply_label(&AsyncResult::Error(FetchError::Transport)), "Err");
}
