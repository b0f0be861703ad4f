use tear_bridge::bridge::{claim, initialize, nonce_consumed, swap, Bridge, TokenSwap};
use tear_bridge::errors::ErrorCode;
use tear_bridge::identity::Identity;

fn ident(id: u64) -> Identity {
    Identity { id }
}

fn fresh_bridge() -> Bridge {
    initialize(ident(1), ident(2), 30, ident(3)).unwrap()
}

#[test]
fn initialize_sets_state() {
    let b = fresh_bridge();
    assert_eq!(b.state.owner, ident(1));
    assert_eq!(b.state.oracle_address, ident(2));
    assert_eq!(b.state.fee_percent, 30);
    assert!(!b.state.paused);
    assert_eq!(b.custody_account, ident(3));
    assert_eq!(b.custody_balance, 0);
    assert!(!nonce_consumed(&b, 0));
}

#[test]
fn initialize_rejects_fee_out_of_range() {
    assert_eq!(
        initialize(ident(1), ident(2), 10001, ident(3)).unwrap_err(),
        ErrorCode::InvalidAmount
    );
    // The full basis-point range itself is accepted.
    assert!(initialize(ident(1), ident(2), 10000, ident(3)).is_ok());
}

#[test]
fn swap_locks_funds_and_emits_record() {
    let mut b = fresh_bridge();
    let (user_balance, record) = swap(&mut b, ident(4), true, 1000, 100, 7).unwrap();
    assert_eq!(b.custody_balance, 100);
    assert_eq!(user_balance, 900);
    assert_eq!(
        record,
        TokenSwap { from: ident(4), to: ident(3), amount: 100 }
    );
}

#[test]
fn swap_while_paused_fails() {
    let mut b = fresh_bridge();
    b.state.pause(ident(1)).unwrap();
    let r = swap(&mut b, ident(4), true, 1000, 100, 7);
    assert_eq!(r.unwrap_err(), ErrorCode::ContractPaused);
    assert_eq!(b.custody_balance, 0);
}

#[test]
fn swap_without_signer_fails() {
    let mut b = fresh_bridge();
    let r = swap(&mut b, ident(4), false, 1000, 100, 7);
    assert_eq!(r.unwrap_err(), ErrorCode::Unauthorized);
    assert_eq!(b.custody_balance, 0);
}

#[test]
fn swap_rejects_zero_amount() {
    let mut b = fresh_bridge();
    let r = swap(&mut b, ident(4), true, 1000, 0, 7);
    assert_eq!(r.unwrap_err(), ErrorCode::InvalidAmount);
}

#[test]
fn swap_rejects_insufficient_user_balance() {
    let mut b = fresh_bridge();
    let r = swap(&mut b, ident(4), true, 99, 100, 7);
    assert_eq!(r.unwrap_err(), ErrorCode::InvalidAmount);
    assert_eq!(b.custody_balance, 0);
}

#[test]
fn swap_rejects_custody_overflow() {
    let mut b = fresh_bridge();
    swap(&mut b, ident(4), true, u64::MAX, u64::MAX, 1).unwrap();
    assert_eq!(b.custody_balance, u64::MAX);
    let r = swap(&mut b, ident(4), true, 1, 1, 2);
    assert_eq!(r.unwrap_err(), ErrorCode::BalanceMismatch);
    assert_eq!(b.custody_balance, u64::MAX);
}

#[test]
fn claim_fee_above_amount_fails() {
    let mut b = fresh_bridge();
    swap(&mut b, ident(4), true, 1000, 100, 7).unwrap();
    let r = claim(&mut b, ident(2), true, 0, 100, 7, 101);
    assert_eq!(r.unwrap_err(), ErrorCode::InvalidAmount);
    assert_eq!(b.custody_balance, 100);
    assert!(!nonce_consumed(&b, 7));
}

#[test]
fn claim_by_wrong_signer_fails() {
    let mut b = fresh_bridge();
    swap(&mut b, ident(4), true, 1000, 100, 7).unwrap();
    // A valid signer that is not the oracle is still unauthorized.
    let r = claim(&mut b, ident(5), true, 0, 100, 7, 5);
    assert_eq!(r.unwrap_err(), ErrorCode::Unauthorized);
    // The oracle identity without signer capability is unauthorized too.
    let r = claim(&mut b, ident(2), false, 0, 100, 7, 5);
    assert_eq!(r.unwrap_err(), ErrorCode::Unauthorized);
    assert_eq!(b.custody_balance, 100);
    assert!(!nonce_consumed(&b, 7));
}

#[test]
fn claim_replay_fails() {
    let mut b = fresh_bridge();
    swap(&mut b, ident(4), true, 1000, 200, 9).unwrap();
    let first = claim(&mut b, ident(2), true, 0, 100, 9, 5);
    assert_eq!(first.unwrap(), 95);
    let second = claim(&mut b, ident(2), true, 0, 100, 9, 5);
    assert_eq!(second.unwrap_err(), ErrorCode::OperationNotAllowed);
    // Custody reflects exactly one payout.
    assert_eq!(b.custody_balance, 105);
}

#[test]
fn claim_insufficient_custody_fails() {
    let mut b = fresh_bridge();
    swap(&mut b, ident(4), true, 1000, 50, 7).unwrap();
    let r = claim(&mut b, ident(2), true, 0, 100, 7, 5);
    assert_eq!(r.unwrap_err(), ErrorCode::BalanceMismatch);
    assert_eq!(b.custody_balance, 50);
    assert!(!nonce_consumed(&b, 7));
}

#[test]
fn claim_recipient_overflow_fails() {
    let mut b = fresh_bridge();
    swap(&mut b, ident(4), true, 1000, 100, 7).unwrap();
    let r = claim(&mut b, ident(2), true, u64::MAX, 100, 7, 5);
    assert_eq!(r.unwrap_err(), ErrorCode::BalanceMismatch);
    assert_eq!(b.custody_balance, 100);
    assert!(!nonce_consumed(&b, 7));
}

#[test]
fn claim_with_fee_equal_to_amount_pays_nothing() {
    let mut b = fresh_bridge();
    swap(&mut b, ident(4), true, 1000, 100, 7).unwrap();
    let recipient_balance = claim(&mut b, ident(2), true, 40, 100, 7, 100).unwrap();
    assert_eq!(recipient_balance, 40);
    assert_eq!(b.custody_balance, 100);
    assert!(nonce_consumed(&b, 7));
}

#[test]
fn round_trip_swap_then_claim() {
    let mut b = fresh_bridge();
    let (user_balance, _) = swap(&mut b, ident(4), true, 1000, 100, 7).unwrap();
    assert_eq!(user_balance, 900);
    let recipient_balance = claim(&mut b, ident(2), true, 0, 100, 7, 5).unwrap();
    // The recipient receives 95, custody retains the fee of 5, and the
    // nonce is consumed.
    assert_eq!(recipient_balance, 95);
    assert_eq!(b.custody_balance, 5);
    assert!(nonce_consumed(&b, 7));
}

#[test]
fn custody_accounting_over_a_sequence() {
    let mut b = fresh_bridge();
    let mut locked: u64 = 0;
    let mut paid: u64 = 0;
    for (amount, nonce) in [(100u64, 1u64), (250, 2), (75, 3)] {
        swap(&mut b, ident(4), true, 1_000_000, amount, nonce).unwrap();
        locked += amount;
    }
    // One failing swap and one failing claim change nothing.
    assert!(swap(&mut b, ident(4), true, 0, 10, 4).is_err());
    assert!(claim(&mut b, ident(5), true, 0, 10, 1, 0).is_err());
    for (amount, nonce, fee) in [(100u64, 1u64, 10u64), (250, 2, 0)] {
        claim(&mut b, ident(2), true, 0, amount, nonce, fee).unwrap();
        paid += amount - fee;
    }
    assert_eq!(b.custody_balance, locked - paid);
    assert_eq!(b.custody_balance, 85);
}
