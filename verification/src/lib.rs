//! A custodial token-bridge controller.
//!
//! The bridge locks tokens deposited on one side of a transfer and later
//! releases an equivalent, fee-adjusted amount once a designated oracle
//! identity authorizes the claim.  This crate holds the bridge's state
//! machine — initialization, admin control (oracle rotation, pause and
//! unpause), the swap (lock) operation and the claim (release) operation —
//! together with the authorization, replay-protection and fund-custody
//! invariants that must hold across them.
//!
//! The fungible-token ledger itself, transaction atomicity and signature
//! verification are external collaborators of the host environment: the host
//! hands each operation the plain values it needs (balances, the caller's
//! identity, whether the caller signed) and applies the returned effects.

pub mod errors;
pub mod identity;
pub mod state;
pub mod nonces;
pub mod bridge;
pub mod laws;
