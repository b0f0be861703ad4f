use tear_bridge::errors::ErrorCode;
use tear_bridge::identity::{authorize, Identity};
use tear_bridge::nonces::ConsumedNonceSet;
use tear_bridge::state::BridgeState;

fn ident(id: u64) -> Identity {
    Identity { id }
}

fn fresh_state() -> BridgeState {
    BridgeState {
        owner: ident(1),
        oracle_address: ident(2),
        fee_percent: 30,
        paused: false,
    }
}

#[test]
fn authorize_accepts_exactly_the_required_identity() {
    assert!(authorize(ident(1), ident(1)).is_ok());
    assert_eq!(authorize(ident(1), ident(2)).unwrap_err(), ErrorCode::Unauthorized);
}

#[test]
fn update_oracle_address_by_owner_is_visible() {
    let mut s = fresh_state();
    s.update_oracle_address(ident(1), ident(9)).unwrap();
    assert_eq!(s.oracle_address, ident(9));
    assert_eq!(s.owner, ident(1));
    assert_eq!(s.fee_percent, 30);
}

#[test]
fn update_oracle_address_by_non_owner_fails() {
    let mut s = fresh_state();
    let r = s.update_oracle_address(ident(2), ident(9));
    assert_eq!(r.unwrap_err(), ErrorCode::Unauthorized);
    assert_eq!(s.oracle_address, ident(2));
}

#[test]
fn pause_and_unpause_by_owner_are_visible() {
    let mut s = fresh_state();
    s.pause(ident(1)).unwrap();
    assert!(s.paused);
    s.unpause(ident(1)).unwrap();
    assert!(!s.paused);
}

#[test]
fn pause_is_idempotent() {
    let mut s = fresh_state();
    s.pause(ident(1)).unwrap();
    s.pause(ident(1)).unwrap();
    assert!(s.paused);
    s.unpause(ident(1)).unwrap();
    s.unpause(ident(1)).unwrap();
    assert!(!s.paused);
}

#[test]
fn pause_and_unpause_by_non_owner_fail() {
    let mut s = fresh_state();
    assert_eq!(s.pause(ident(7)).unwrap_err(), ErrorCode::Unauthorized);
    assert!(!s.paused);
    s.pause(ident(1)).unwrap();
    assert_eq!(s.unpause(ident(7)).unwrap_err(), ErrorCode::Unauthorized);
    assert!(s.paused);
}

#[test]
fn consumed_nonce_set_grows_monotonically() {
    let mut set = ConsumedNonceSet::empty();
    assert!(!set.contains(7));
    set.insert(7);
    assert!(set.contains(7));
    assert!(!set.contains(8));
    set.insert(8);
    assert!(set.contains(7));
    assert!(set.contains(8));
    // Inserting again changes nothing observable.
    set.insert(7);
    assert!(set.contains(7));
}
