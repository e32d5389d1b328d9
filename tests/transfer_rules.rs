use nc_governance::address::Address;
use nc_governance::sell_window::{enforce_sell_limit, SellWindow};
use nc_governance::token::{ErrorCode, NCTokenState};

fn addr(n: u8) -> Address {
    Address::new([n; 32])
}

const GOV: u8 = 1;
const POOL: u8 = 40;
const RESTRICTED: u8 = 41;
const BAD: u8 = 42;
const BAD2: u8 = 43;
const USER: u8 = 44;
const USER2: u8 = 45;
const T0: i64 = 1_700_000_000;

fn token() -> NCTokenState {
    let mut t = NCTokenState::initialize(addr(GOV), addr(4), addr(5), addr(6));
    t.set_liquidity_pool(&addr(GOV), addr(POOL), true).unwrap();
    t.set_restricted(&addr(GOV), addr(RESTRICTED), true).unwrap();
    t.set_blacklist(&addr(GOV), addr(BAD), true).unwrap();
    t.set_blacklist(&addr(GOV), addr(BAD2), true).unwrap();
    t
}

fn go(t: &NCTokenState, from: u8, to: u8) -> Result<(), ErrorCode> {
    let mut w = SellWindow::new();
    t.transfer(&mut w, &addr(from), &addr(to), 1, 1_000_000, T0)
}

#[test]
fn blacklist_matrix() {
    let t = token();
    assert_eq!(go(&t, USER, USER2), Ok(()));
    assert_eq!(go(&t, BAD, USER), Ok(()));
    assert_eq!(go(&t, USER, BAD), Ok(()));
    assert_eq!(go(&t, BAD, RESTRICTED), Err(ErrorCode::Blacklisted));
    assert_eq!(go(&t, RESTRICTED, BAD), Err(ErrorCode::Blacklisted));
    assert_eq!(go(&t, BAD, BAD2), Err(ErrorCode::Blacklisted));
    assert_eq!(go(&t, USER, RESTRICTED), Ok(()));
}

#[test]
fn pause_blocks_protocol_paths_only() {
    let mut t = token();
    t.set_emergency_pause(&addr(GOV), true).unwrap();
    assert_eq!(go(&t, USER, USER2), Ok(()));
    assert_eq!(go(&t, USER, RESTRICTED), Err(ErrorCode::Paused));
    assert_eq!(go(&t, RESTRICTED, USER), Err(ErrorCode::Paused));
    assert_eq!(go(&t, BAD, USER), Err(ErrorCode::Paused));
    assert_eq!(go(&t, USER, BAD), Err(ErrorCode::Paused));
    assert_eq!(go(&t, BAD, RESTRICTED), Err(ErrorCode::Paused));
}

#[test]
fn sale_over_limit_in_next_hour_is_refused() {
    let t = token();
    let mut w = SellWindow::new();
    assert_eq!(t.transfer(&mut w, &addr(USER), &addr(POOL), 30_000, 1_000_000, T0), Ok(()));
    assert_eq!(w.start_time, T0);
    assert_eq!(w.start_balance, 1_000_000);
    let before = w;
    assert_eq!(
        t.transfer(&mut w, &addr(USER), &addr(POOL), 25_000, 970_000, T0 + 3600),
        Err(ErrorCode::SellLimitExceeded)
    );
    assert_eq!(w.start_time, before.start_time);
    assert_eq!(w.start_balance, before.start_balance);
    assert_eq!(w.buckets, before.buckets);
    assert_eq!(t.transfer(&mut w, &addr(USER), &addr(POOL), 20_000, 970_000, T0 + 3600), Ok(()));
    assert_eq!(t.transfer(&mut w, &addr(USER), &addr(POOL), 1, 950_000, T0 + 7200), Err(ErrorCode::SellLimitExceeded));
}

#[test]
fn exempt_and_restricted_sellers_are_not_limited() {
    let t = token();
    let mut w = SellWindow::new();
    assert_eq!(t.transfer(&mut w, &addr(5), &addr(POOL), 900_000, 1_000_000, T0), Ok(()));
    assert_eq!(t.transfer(&mut w, &addr(RESTRICTED), &addr(POOL), 900_000, 1_000_000, T0), Ok(()));
    assert_eq!(t.transfer(&mut w, &addr(USER), &addr(USER2), 900_000, 1_000_000, T0), Ok(()));
    assert_eq!(w.start_time, 0);
}

#[test]
fn limit_is_five_percent_rounded_down() {
    let mut w = SellWindow::new();
    assert_eq!(enforce_sell_limit(&mut w, T0, 1_999, 100), Err(ErrorCode::SellLimitExceeded));
    assert_eq!(w.start_time, 0);
    assert_eq!(enforce_sell_limit(&mut w, T0, 1_999, 99), Ok(()));
    assert_eq!(w.start_balance, 1_999);
}

#[test]
fn single_request_over_limit_fails() {
    let mut w = SellWindow::new();
    assert_eq!(enforce_sell_limit(&mut w, T0, 1_000_000, 50_001), Err(ErrorCode::SellLimitExceeded));
    assert_eq!(enforce_sell_limit(&mut w, T0, 1_000_000, 50_000), Ok(()));
}

#[test]
fn reset_after_a_day_resnapshots_balance() {
    let mut w = SellWindow::new();
    assert_eq!(enforce_sell_limit(&mut w, T0, 1_000_000, 50_000), Ok(()));
    assert_eq!(enforce_sell_limit(&mut w, T0 + 80_000, 1_000_000, 1), Err(ErrorCode::SellLimitExceeded));
    assert_eq!(enforce_sell_limit(&mut w, T0 + 86_400, 2_000_000, 100_000), Ok(()));
    assert_eq!(w.start_time, T0 + 86_400);
    assert_eq!(w.start_balance, 2_000_000);
    let used = w.buckets.iter().filter(|b| b.timestamp != 0).count();
    assert_eq!(used, 1);
}

#[test]
fn buckets_expire_after_a_day_without_reset() {
    let start = 1_700_005_800; // 50 minutes into an hour
    let mut w = SellWindow::new();
    assert_eq!(enforce_sell_limit(&mut w, start, 1_000_000, 40_000), Ok(()));
    let hour = (start / 3600) * 3600;
    assert_eq!(w.buckets[((hour / 3600) % 24) as usize].timestamp, hour);
    assert_eq!(w.buckets[((hour / 3600) % 24) as usize].amount, 40_000);
    // One hour later the first sale still counts.
    assert_eq!(enforce_sell_limit(&mut w, start + 3600, 1_000_000, 10_001), Err(ErrorCode::SellLimitExceeded));
    // A day after its hour began the bucket no longer counts, though the window is not yet a day old.
    assert_eq!(enforce_sell_limit(&mut w, hour + 86_400, 1_000_000, 50_000), Ok(()));
    assert_eq!(w.start_time, start);
}

#[test]
fn overflowing_reference_balance_is_an_error() {
    let mut w = SellWindow::new();
    assert_eq!(enforce_sell_limit(&mut w, T0, u64::MAX, 1), Err(ErrorCode::MathOverflow));
    assert_eq!(w.start_time, 0);
}
