use vstd::prelude::*;
use crate::errors::ErrorCode;
use crate::identity::Identity;
use crate::nonces::ConsumedNonceSet;
use crate::state::{BridgeState, MAX_FEE_PERCENT};

verus! {

/// The observable record of one successful swap, emitted for the off-chain
/// oracle; it is produced once per swap and not stored by the core.
#[derive(Clone, Copy, PartialEq, Eq, Structural, Debug)]
pub struct TokenSwap {
    /// The user whose funds were locked.
    pub from: Identity,
    /// The custody account that received them.
    pub to: Identity,
    /// The locked amount.
    pub amount: u64,
}

/// One bridge deployment: its configuration record, its custody account and
/// the replay guard.
///
/// `custody_balance` is the aggregate balance escrowed under bridge control;
/// it changes only through `swap` (increase) and `claim` (decrease), and
/// always equals the sum of locked swap amounts minus the sum of claim
/// payouts (`crate::laws::lemma_custody_accounting`).
#[derive(Debug)]
pub struct Bridge {
    /// Configuration and authorization record.
    pub state: BridgeState,
    /// Identity of the account that holds the escrowed funds, fixed at
    /// initialization; reported in swap records.
    pub custody_account: Identity,
    /// Aggregate escrowed balance.
    pub custody_balance: u64,
    /// Nonces already consumed by a successful claim.
    pub consumed_nonces: ConsumedNonceSet,
}

/// The mathematical snapshot of a bridge: its plain fields, with the replay
/// guard abstracted to the set of consumed nonces.
pub ghost struct BridgeView {
    pub state: BridgeState,
    pub custody_account: Identity,
    pub custody_balance: u64,
    pub consumed: Set<u64>,
}

impl View for Bridge {
    type V = BridgeView;

    open spec fn view(&self) -> BridgeView {
        BridgeView {
            state: self.state,
            custody_account: self.custody_account,
            custody_balance: self.custody_balance,
            consumed: self.consumed_nonces@,
        }
    }
}

/// What `swap` does: the snapshot and result it leaves, for every input.
///
/// Checked in order: the caller must hold signer capability over the funds,
/// the bridge must not be paused, the amount must be positive and covered by
/// the user's balance, and the custody balance must be able to receive it.
/// On success the custody balance grows by `amount`, the user balance
/// shrinks by `amount`, and a swap record is produced.
pub open spec fn swap_spec(
    b: BridgeView,
    caller: Identity,
    caller_is_signer: bool,
    user_balance: u64,
    amount: u64,
) -> (BridgeView, Result<(u64, TokenSwap), ErrorCode>) {
    if !caller_is_signer {
        (b, Err(ErrorCode::Unauthorized))
    } else if b.state.paused {
        (b, Err(ErrorCode::ContractPaused))
    } else if amount == 0 || user_balance < amount {
        (b, Err(ErrorCode::InvalidAmount))
    } else if b.custody_balance + amount > u64::MAX {
        (b, Err(ErrorCode::BalanceMismatch))
    } else {
        (
            (BridgeView { custody_balance: (b.custody_balance + amount) as u64, ..b }),
            Ok((
                (user_balance - amount) as u64,
                (TokenSwap { from: caller, to: b.custody_account, amount }),
            )),
        )
    }
}

/// What `claim` does: the snapshot and result it leaves, for every input.
///
/// Checked in order: the caller must be a signer whose identity equals the
/// configured oracle, the nonce must not have been consumed before, the fee
/// must not exceed the amount, and the payout must be covered by the custody
/// balance and receivable by the recipient.  On success the payout
/// `amount - fee` moves from custody to the recipient, and the nonce is
/// consumed; the fee stays in custody.
pub open spec fn claim_spec(
    b: BridgeView,
    caller: Identity,
    caller_is_signer: bool,
    recipient_balance: u64,
    amount: u64,
    nonce: u64,
    fee: u64,
) -> (BridgeView, Result<u64, ErrorCode>) {
    if !caller_is_signer || caller != b.state.oracle_address {
        (b, Err(ErrorCode::Unauthorized))
    } else if b.consumed.contains(nonce) {
        (b, Err(ErrorCode::OperationNotAllowed))
    } else if fee > amount {
        (b, Err(ErrorCode::InvalidAmount))
    } else if b.custody_balance < amount - fee {
        (b, Err(ErrorCode::BalanceMismatch))
    } else if recipient_balance + amount - fee > u64::MAX {
        (b, Err(ErrorCode::BalanceMismatch))
    } else {
        (
            (BridgeView {
                custody_balance: (b.custody_balance - (amount - fee)) as u64,
                consumed: b.consumed.insert(nonce),
                ..b
            }),
            Ok((recipient_balance + amount - fee) as u64),
        )
    }
}

/// Creates the one `Bridge` of a deployment.  The initializing signer
/// becomes the owner; the bridge starts unpaused, with an empty custody
/// balance and no consumed nonce.  A fee parameter outside the basis-point
/// range is rejected with `InvalidAmount`.
pub fn initialize(
    owner: Identity,
    oracle_address: Identity,
    fee_percent: u64,
    custody_account: Identity,
) -> (r: Result<Bridge, ErrorCode>)
    ensures
        r is Ok <==> fee_percent <= MAX_FEE_PERCENT,
        r matches Ok(b) ==> {
            &&& b.state == (BridgeState { owner, oracle_address, fee_percent, paused: false })
            &&& b.state.wf()
            &&& b.custody_account == custody_account
            &&& b.custody_balance == 0
            &&& b.consumed_nonces@ == Set::<u64>::empty()
        },
        r is Err ==> r == Err::<Bridge, ErrorCode>(ErrorCode::InvalidAmount),
{
    if fee_percent > MAX_FEE_PERCENT {
        return Err(ErrorCode::InvalidAmount);
    }
    Ok(Bridge {
        state: BridgeState { owner, oracle_address, fee_percent, paused: false },
        custody_account,
        custody_balance: 0,
        consumed_nonces: ConsumedNonceSet::empty(),
    })
}

/// The swap (lock) operation.
///
/// The host verifies the caller's signature over the funds and hands in
/// `caller_is_signer` together with the caller's ledger balance; on success
/// it must move `amount` from the caller to the custody account, leaving the
/// caller with the returned balance, and deliver the returned `TokenSwap`
/// record to the oracle.  `nonce` is a caller-supplied correlation id for
/// that record; the swap itself neither checks nor consumes it — replay
/// protection happens at claim time.
pub fn swap(
    bridge: &mut Bridge,
    caller: Identity,
    caller_is_signer: bool,
    user_balance: u64,
    amount: u64,
    nonce: u64,
) -> (r: Result<(u64, TokenSwap), ErrorCode>)
    ensures
        (final(bridge)@, r) == swap_spec(old(bridge)@, caller, caller_is_signer, user_balance, amount),
        r matches Ok((new_user_balance, record)) ==> {
            &&& !old(bridge).state.paused
            &&& final(bridge).custody_balance == old(bridge).custody_balance + amount
            &&& new_user_balance == user_balance - amount
            &&& record == (TokenSwap { from: caller, to: old(bridge).custody_account, amount })
        },
        !caller_is_signer ==> r == Err::<(u64, TokenSwap), ErrorCode>(ErrorCode::Unauthorized),
        caller_is_signer && old(bridge).state.paused ==> r == Err::<(u64, TokenSwap), ErrorCode>(ErrorCode::ContractPaused),
        r is Err ==> *final(bridge) == *old(bridge),
        final(bridge).state == old(bridge).state,
        final(bridge).consumed_nonces@ == old(bridge).consumed_nonces@,
{
    if !caller_is_signer {
        return Err(ErrorCode::Unauthorized);
    }
    if bridge.state.paused {
        return Err(ErrorCode::ContractPaused);
    }
    if amount == 0 || user_balance < amount {
        return Err(ErrorCode::InvalidAmount);
    }
    if bridge.custody_balance > u64::MAX - amount {
        return Err(ErrorCode::BalanceMismatch);
    }
    bridge.custody_balance = bridge.custody_balance + amount;
    let record = TokenSwap { from: caller, to: bridge.custody_account, amount };
    let _ = nonce;
    Ok((user_balance - amount, record))
}

/// The claim (release) operation.
///
/// The host verifies the claimer's signature and hands in `caller` and
/// `caller_is_signer` together with the recipient's ledger balance; on
/// success it must move `amount - fee` from the custody account to the
/// recipient, authorized by the bridge's custody authority, leaving the
/// recipient with the returned balance.  The retained fee stays in custody.
/// A failing claim consumes nothing and moves nothing.
///
/// The fee is an explicit input of the oracle-signed claim; it is not
/// derived from the configured `fee_percent`.
pub fn claim(
    bridge: &mut Bridge,
    caller: Identity,
    caller_is_signer: bool,
    recipient_balance: u64,
    amount: u64,
    nonce: u64,
    fee: u64,
) -> (r: Result<u64, ErrorCode>)
    ensures
        (final(bridge)@, r) == claim_spec(old(bridge)@, caller, caller_is_signer, recipient_balance, amount, nonce, fee),
        !(caller_is_signer && caller == old(bridge).state.oracle_address) ==> r == Err::<u64, ErrorCode>(ErrorCode::Unauthorized),
        caller_is_signer && caller == old(bridge).state.oracle_address && old(bridge).consumed_nonces@.contains(nonce)
            ==> r == Err::<u64, ErrorCode>(ErrorCode::OperationNotAllowed),
        caller_is_signer && caller == old(bridge).state.oracle_address && !old(bridge).consumed_nonces@.contains(nonce) && fee > amount
            ==> r == Err::<u64, ErrorCode>(ErrorCode::InvalidAmount),
        r matches Ok(new_recipient_balance) ==> {
            &&& fee <= amount
            &&& final(bridge).custody_balance == old(bridge).custody_balance - (amount - fee)
            &&& new_recipient_balance == recipient_balance + amount - fee
            &&& final(bridge).consumed_nonces@ == old(bridge).consumed_nonces@.insert(nonce)
            &&& final(bridge).consumed_nonces@.contains(nonce)
        },
        r is Err ==> *final(bridge) == *old(bridge),
        final(bridge).state == old(bridge).state,
        final(bridge).custody_account == old(bridge).custody_account,
{
    if !caller_is_signer || !(caller == bridge.state.oracle_address) {
        return Err(ErrorCode::Unauthorized);
    }
    if bridge.consumed_nonces.contains(nonce) {
        return Err(ErrorCode::OperationNotAllowed);
    }
    if fee > amount {
        return Err(ErrorCode::InvalidAmount);
    }
    let payout = amount - fee;
    if bridge.custody_balance < payout {
        return Err(ErrorCode::BalanceMismatch);
    }
    if recipient_balance > u64::MAX - payout {
        return Err(ErrorCode::BalanceMismatch);
    }
    bridge.custody_balance = bridge.custody_balance - payout;
    bridge.consumed_nonces.insert(nonce);
    Ok(recipient_balance + payout)
}

/// Whether `nonce` has already been consumed by a successful claim.
pub fn nonce_consumed(bridge: &Bridge, nonce: u64) -> (r: bool)
    ensures
        r == bridge.consumed_nonces@.contains(nonce),
{
    bridge.consumed_nonces.contains(nonce)
}

} // verus!
