use nc_governance::address::Address;
use nc_governance::governance::{ErrorCode, Governance, TransactionStatus, TransactionType, DEFAULT_COOLDOWN};
use nc_governance::token::NCTokenState;

fn addr(n: u8) -> Address {
    Address::new([n; 32])
}

fn admin() -> Address {
    addr(1)
}

fn authority() -> Address {
    addr(2)
}

/// Governance linked to a token, needing `required` approvals.
fn setup(required: u8) -> (Governance, NCTokenState) {
    let mut gov = Governance::initialize(admin(), authority());
    assert_eq!(gov.set_token(&admin(), addr(3)), Ok(()));
    assert_eq!(gov.set_required_approvals(&admin(), required), Ok(()));
    let token = NCTokenState::initialize(authority(), addr(4), addr(5), addr(6));
    (gov, token)
}

fn status(gov: &Governance, id: u64) -> TransactionStatus {
    gov.proposals[(id - 1) as usize].status
}

#[test]
fn initialize_defaults() {
    let gov = Governance::initialize(admin(), authority());
    assert_eq!(gov.cooldown_period, 5400);
    assert_eq!(gov.cooldown_period, DEFAULT_COOLDOWN);
    assert_eq!(gov.required_approvals, 1);
    assert!(!gov.token_set);
    assert_eq!(gov.next_transaction_id, 1);
    assert!(gov.proposals.is_empty());
}

#[test]
fn unpause_auto_executes_when_threshold_and_cooldown_met() {
    let (mut gov, mut token) = setup(2);
    assert_eq!(gov.set_emergency_pause(&admin(), &mut token), Ok(()));
    assert!(token.emergency_paused);
    let id = gov.set_unpause(addr(7), 0).unwrap();
    assert_eq!(id, 1);
    assert_eq!(gov.proposals[0].execute_after, 5400);
    assert_eq!(gov.approve_transaction(&mut token, id, addr(10), 0), Ok(false));
    assert_eq!(gov.proposals[0].approval_count, 1);
    assert_eq!(status(&gov, id), TransactionStatus::Pending);
    assert!(token.emergency_paused);
    assert_eq!(gov.approve_transaction(&mut token, id, addr(11), 5401), Ok(true));
    assert_eq!(gov.proposals[0].approval_count, 2);
    assert_eq!(status(&gov, id), TransactionStatus::Executed);
    assert!(!token.emergency_paused);
}

#[test]
fn blacklist_add_then_remove_through_full_cycle() {
    let (mut gov, mut token) = setup(2);
    let a = addr(20);
    let id = gov.set_blacklist(addr(7), a, true, 100).unwrap();
    assert_eq!(gov.approve_transaction(&mut token, id, addr(10), 200), Ok(false));
    assert_eq!(gov.approve_transaction(&mut token, id, addr(11), 100 + 5400), Ok(true));
    assert!(token.is_blacklisted(&a));
    let id2 = gov.set_blacklist(addr(7), a, false, 6000).unwrap();
    assert_eq!(id2, 2);
    assert_eq!(gov.approve_transaction(&mut token, id2, addr(10), 6000), Ok(false));
    assert_eq!(gov.approve_transaction(&mut token, id2, addr(11), 6001), Ok(false));
    assert_eq!(gov.execute_transaction(&mut token, id2, 11400), Ok(()));
    assert!(!token.is_blacklisted(&a));
    assert_eq!(status(&gov, id2), TransactionStatus::Executed);
}

#[test]
fn other_kinds_reach_their_lists() {
    let (mut gov, mut token) = setup(1);
    let a = addr(30);
    let r = gov.set_restricted(addr(7), a, true, 0).unwrap();
    let e = gov.set_no_sell_limit(addr(7), a, true, 0).unwrap();
    let p = gov.set_liquidity_pool(addr(7), addr(31), true, 0).unwrap();
    assert_eq!((r, e, p), (1, 2, 3));
    for id in [r, e, p] {
        assert_eq!(gov.proposals[(id - 1) as usize].tx_type, [TransactionType::Restrict, TransactionType::NoSellLimit, TransactionType::Pair][(id - 1) as usize]);
        assert_eq!(gov.approve_transaction(&mut token, id, addr(10), 5400), Ok(true));
    }
    assert!(token.is_restricted(&a));
    assert!(token.is_sell_limit(&a));
    assert!(token.is_liquidity_pool(&addr(31)));
}

#[test]
fn repeat_approval_fails_and_does_not_count() {
    let (mut gov, mut token) = setup(3);
    let id = gov.set_unpause(addr(7), 0).unwrap();
    assert_eq!(gov.approve_transaction(&mut token, id, addr(10), 10), Ok(false));
    assert_eq!(gov.approve_transaction(&mut token, id, addr(10), 20), Err(ErrorCode::AlreadyApproved));
    assert_eq!(gov.proposals[0].approval_count, 1);
    assert_eq!(gov.proposals[0].approvals.len(), 1);
}

#[test]
fn terminal_proposals_refuse_everything() {
    let (mut gov, mut token) = setup(1);
    let rejected = gov.set_blacklist(addr(7), addr(20), true, 0).unwrap();
    assert_eq!(gov.reject_transaction(rejected, addr(10), String::from("not now")), Ok(()));
    assert_eq!(status(&gov, rejected), TransactionStatus::Rejected);
    assert_eq!(gov.proposals[0].rejection_reason, "not now");
    assert_eq!(gov.proposals[0].rejector, addr(10));
    assert_eq!(gov.approve_transaction(&mut token, rejected, addr(11), 9000), Err(ErrorCode::TransactionNotPending));
    assert_eq!(gov.execute_transaction(&mut token, rejected, 9000), Err(ErrorCode::TransactionNotPending));
    assert_eq!(gov.reject_transaction(rejected, addr(11), String::from("again")), Err(ErrorCode::TransactionNotPending));
    assert_eq!(gov.proposals[0].rejection_reason, "not now");
    assert!(!token.is_blacklisted(&addr(20)));

    let executed = gov.set_blacklist(addr(7), addr(21), true, 0).unwrap();
    assert_eq!(gov.approve_transaction(&mut token, executed, addr(10), 5400), Ok(true));
    assert_eq!(gov.execute_transaction(&mut token, executed, 9000), Err(ErrorCode::TransactionNotPending));
    assert_eq!(gov.approve_transaction(&mut token, executed, addr(11), 9000), Err(ErrorCode::TransactionNotPending));
    assert_eq!(gov.reject_transaction(executed, addr(11), String::from("late")), Err(ErrorCode::TransactionNotPending));
    assert_eq!(status(&gov, executed), TransactionStatus::Executed);
    assert_eq!(gov.proposals[1].approval_count, 1);
}

#[test]
fn execute_requires_cooldown_and_threshold() {
    let (mut gov, mut token) = setup(2);
    let id = gov.set_blacklist(addr(7), addr(20), true, 1000).unwrap();
    assert_eq!(gov.execute_transaction(&mut token, id, 1000), Err(ErrorCode::CooldownNotExpired));
    assert_eq!(gov.execute_transaction(&mut token, id, 6400), Err(ErrorCode::InsufficientApprovals));
    assert_eq!(gov.approve_transaction(&mut token, id, addr(10), 1000), Ok(false));
    assert_eq!(gov.approve_transaction(&mut token, id, addr(11), 6399), Ok(false));
    assert_eq!(gov.execute_transaction(&mut token, id, 6399), Err(ErrorCode::CooldownNotExpired));
    assert_eq!(status(&gov, id), TransactionStatus::Pending);
    assert_eq!(gov.execute_transaction(&mut token, id, 6400), Ok(()));
    assert!(token.is_blacklisted(&addr(20)));
}

#[test]
fn lowered_threshold_applies_at_execute_time() {
    let (mut gov, mut token) = setup(3);
    let id = gov.set_blacklist(addr(7), addr(20), true, 0).unwrap();
    assert_eq!(gov.approve_transaction(&mut token, id, addr(10), 6000), Ok(false));
    assert_eq!(gov.execute_transaction(&mut token, id, 6000), Err(ErrorCode::InsufficientApprovals));
    assert_eq!(gov.set_required_approvals(&admin(), 1), Ok(()));
    assert_eq!(gov.execute_transaction(&mut token, id, 6000), Ok(()));
    assert!(token.is_blacklisted(&addr(20)));
}

#[test]
fn unknown_ids_are_not_found() {
    let (mut gov, mut token) = setup(1);
    assert_eq!(gov.approve_transaction(&mut token, 0, addr(10), 0), Err(ErrorCode::TransactionNotFound));
    assert_eq!(gov.approve_transaction(&mut token, 1, addr(10), 0), Err(ErrorCode::TransactionNotFound));
    assert_eq!(gov.execute_transaction(&mut token, 1, 0), Err(ErrorCode::TransactionNotFound));
    assert_eq!(gov.reject_transaction(1, addr(10), String::from("x")), Err(ErrorCode::TransactionNotFound));
}

#[test]
fn reject_needs_a_reason() {
    let (mut gov, _token) = setup(1);
    let id = gov.set_unpause(addr(7), 0).unwrap();
    assert_eq!(gov.reject_transaction(id, addr(10), String::new()), Err(ErrorCode::RejectionReasonRequired));
    assert_eq!(status(&gov, id), TransactionStatus::Pending);
}

#[test]
fn queue_validation() {
    let mut gov = Governance::initialize(admin(), authority());
    assert_eq!(gov.set_unpause(addr(7), 0), Err(ErrorCode::TokenNotSet));
    assert_eq!(gov.set_blacklist(addr(7), Address::zero(), true, 0), Err(ErrorCode::ZeroAddress));
    assert_eq!(gov.set_blacklist(addr(7), addr(20), true, 0), Err(ErrorCode::TokenNotSet));
    assert_eq!(gov.set_token(&admin(), addr(3)), Ok(()));
    assert_eq!(gov.set_unpause(addr(7), i64::MAX - 100), Err(ErrorCode::MathOverflow));
    assert_eq!(gov.next_transaction_id, 1);
    assert_eq!(gov.set_unpause(addr(7), 0), Ok(1));
    assert!(gov.proposals[0].target.is_zero());
}

#[test]
fn admin_settings() {
    let mut gov = Governance::initialize(admin(), authority());
    assert_eq!(gov.set_required_approvals(&addr(9), 2), Err(ErrorCode::Unauthorized));
    assert_eq!(gov.set_required_approvals(&admin(), 0), Err(ErrorCode::InvalidApprovalRequirement));
    assert_eq!(gov.required_approvals, 1);
    assert_eq!(gov.set_cooldown_period(&admin(), 0), Err(ErrorCode::InvalidCooldownPeriod));
    assert_eq!(gov.set_cooldown_period(&addr(9), 60), Err(ErrorCode::Unauthorized));
    assert_eq!(gov.set_cooldown_period(&admin(), 60), Ok(()));
    assert_eq!(gov.cooldown_period, 60);
    assert_eq!(gov.set_token(&admin(), Address::zero()), Err(ErrorCode::ZeroAddress));
    assert_eq!(gov.set_token(&addr(9), addr(3)), Err(ErrorCode::Unauthorized));
    assert_eq!(gov.set_token(&admin(), addr(3)), Ok(()));
    assert_eq!(gov.set_token(&admin(), addr(8)), Err(ErrorCode::TokenAlreadySet));
    assert_eq!(gov.nc_token, addr(3));
    let id = gov.set_unpause(addr(7), 10).unwrap();
    assert_eq!(gov.proposals[(id - 1) as usize].execute_after, 70);
}

#[test]
fn emergency_pause_rules() {
    let mut gov = Governance::initialize(admin(), authority());
    let mut token = NCTokenState::initialize(authority(), addr(4), addr(5), addr(6));
    assert_eq!(gov.set_emergency_pause(&admin(), &mut token), Err(ErrorCode::TokenNotSet));
    assert_eq!(gov.set_token(&admin(), addr(3)), Ok(()));
    assert_eq!(gov.set_emergency_pause(&addr(9), &mut token), Err(ErrorCode::Unauthorized));
    assert!(!token.emergency_paused);
    let mut foreign = NCTokenState::initialize(addr(50), addr(4), addr(5), addr(6));
    assert_eq!(gov.set_emergency_pause(&admin(), &mut foreign), Err(ErrorCode::Unauthorized));
    assert!(!foreign.emergency_paused);
    assert_eq!(gov.set_emergency_pause(&admin(), &mut token), Ok(()));
    assert!(token.emergency_paused);
}

#[test]
fn refused_change_rolls_back_the_approval() {
    let (mut gov, _token) = setup(1);
    let mut foreign = NCTokenState::initialize(addr(50), addr(4), addr(5), addr(6));
    let id = gov.set_blacklist(addr(7), addr(20), true, 0).unwrap();
    assert_eq!(gov.approve_transaction(&mut foreign, id, addr(10), 5400), Err(ErrorCode::Unauthorized));
    assert_eq!(gov.proposals[0].approval_count, 0);
    assert!(gov.proposals[0].approvals.is_empty());
    assert_eq!(status(&gov, id), TransactionStatus::Pending);
    assert!(!foreign.is_blacklisted(&addr(20)));
}

#[test]
fn approvals_are_capped() {
    let (mut gov, mut token) = setup(20);
    let id = gov.set_unpause(addr(7), 0).unwrap();
    for n in 0..10u8 {
        assert_eq!(gov.approve_transaction(&mut token, id, addr(100 + n), 0), Ok(false));
    }
    assert_eq!(gov.approve_transaction(&mut token, id, addr(120), 0), Err(ErrorCode::TooManyApprovals));
    assert_eq!(gov.proposals[0].approval_count, 10);
}
