use vstd::prelude::*;
use crate::bridge::{claim_spec, swap_spec, BridgeView};
use crate::errors::ErrorCode;
use crate::identity::Identity;

verus! {

/// One invocation of a bridge operation, together with the host-supplied
/// facts it receives.  A sequence of these describes everything that can
/// happen to a bridge after initialization.
pub enum Op {
    UpdateOracleAddress { caller: Identity, new_oracle_address: Identity },
    Pause { caller: Identity },
    Unpause { caller: Identity },
    Swap { caller: Identity, caller_is_signer: bool, user_balance: u64, amount: u64, nonce: u64 },
    Claim {
        caller: Identity,
        caller_is_signer: bool,
        recipient_balance: u64,
        amount: u64,
        nonce: u64,
        fee: u64,
    },
}

/// The snapshot a bridge is left in after one operation, successful or not.
pub open spec fn step(b: BridgeView, op: Op) -> BridgeView {
    match op {
        Op::UpdateOracleAddress { caller, new_oracle_address } => (BridgeView {
            state: b.state.update_oracle_spec(caller, new_oracle_address).0,
            ..b
        }),
        Op::Pause { caller } => (BridgeView { state: b.state.pause_spec(caller).0, ..b }),
        Op::Unpause { caller } => (BridgeView { state: b.state.unpause_spec(caller).0, ..b }),
        Op::Swap { caller, caller_is_signer, user_balance, amount, nonce } => swap_spec(
            b,
            caller,
            caller_is_signer,
            user_balance,
            amount,
        ).0,
        Op::Claim { caller, caller_is_signer, recipient_balance, amount, nonce, fee } => claim_spec(
            b,
            caller,
            caller_is_signer,
            recipient_balance,
            amount,
            nonce,
            fee,
        ).0,
    }
}

/// The snapshot a bridge is left in after a whole sequence of operations.
pub open spec fn run(b: BridgeView, ops: Seq<Op>) -> BridgeView
    decreases ops.len(),
{
    if ops.len() == 0 {
        b
    } else {
        run(step(b, ops[0]), ops.subrange(1, ops.len() as int))
    }
}

/// The amount `op` locks into custody: the swap amount when `op` is a
/// successful swap, zero otherwise.
pub open spec fn locked(b: BridgeView, op: Op) -> int {
    match op {
        Op::Swap { caller, caller_is_signer, user_balance, amount, nonce } => {
            if swap_spec(b, caller, caller_is_signer, user_balance, amount).1 is Ok {
                amount as int
            } else {
                0
            }
        },
        _ => 0,
    }
}

/// The payout `op` releases from custody: `amount - fee` when `op` is a
/// successful claim, zero otherwise.
pub open spec fn paid(b: BridgeView, op: Op) -> int {
    match op {
        Op::Claim { caller, caller_is_signer, recipient_balance, amount, nonce, fee } => {
            if claim_spec(b, caller, caller_is_signer, recipient_balance, amount, nonce, fee).1 is Ok {
                amount - fee
            } else {
                0
            }
        },
        _ => 0,
    }
}

/// The sum of all amounts locked by the swaps of `ops` that succeed.
pub open spec fn total_locked(b: BridgeView, ops: Seq<Op>) -> int
    decreases ops.len(),
{
    if ops.len() == 0 {
        0
    } else {
        locked(b, ops[0]) + total_locked(step(b, ops[0]), ops.subrange(1, ops.len() as int))
    }
}

/// The sum of all payouts released by the claims of `ops` that succeed.
pub open spec fn total_paid(b: BridgeView, ops: Seq<Op>) -> int
    decreases ops.len(),
{
    if ops.len() == 0 {
        0
    } else {
        paid(b, ops[0]) + total_paid(step(b, ops[0]), ops.subrange(1, ops.len() as int))
    }
}

/// Fund-custody invariant: after any sequence of operations, the custody
/// balance equals its starting value plus the sum of locked swap amounts
/// minus the sum of claim payouts, exactly.
pub proof fn lemma_custody_accounting(b: BridgeView, ops: Seq<Op>)
    ensures
        run(b, ops).custody_balance == b.custody_balance + total_locked(b, ops) - total_paid(b, ops),
    decreases ops.len(),
{
    if ops.len() > 0 {
        lemma_custody_accounting(step(b, ops[0]), ops.subrange(1, ops.len() as int));
    }
}

/// The owner fixed at initialization never changes: no operation, by anyone,
/// touches it.  The custody account identity is likewise fixed.
pub proof fn lemma_owner_immutable(b: BridgeView, ops: Seq<Op>)
    ensures
        run(b, ops).state.owner == b.state.owner,
        run(b, ops).custody_account == b.custody_account,
    decreases ops.len(),
{
    if ops.len() > 0 {
        lemma_owner_immutable(step(b, ops[0]), ops.subrange(1, ops.len() as int));
    }
}

/// Well-formedness of the configuration record is preserved: the fee
/// parameter, once accepted at initialization, is never modified.
pub proof fn lemma_wf_preserved(b: BridgeView, ops: Seq<Op>)
    requires
        b.state.wf(),
    ensures
        run(b, ops).state.wf(),
        run(b, ops).state.fee_percent == b.state.fee_percent,
    decreases ops.len(),
{
    if ops.len() > 0 {
        lemma_wf_preserved(step(b, ops[0]), ops.subrange(1, ops.len() as int));
    }
}

/// The set of consumed nonces grows monotonically: a nonce once consumed
/// stays consumed through any sequence of operations.
pub proof fn lemma_consumed_monotone(b: BridgeView, ops: Seq<Op>, nonce: u64)
    requires
        b.consumed.contains(nonce),
    ensures
        run(b, ops).consumed.contains(nonce),
    decreases ops.len(),
{
    if ops.len() > 0 {
        lemma_consumed_monotone(step(b, ops[0]), ops.subrange(1, ops.len() as int), nonce);
    }
}

/// A consumed nonce never authorizes another claim: the claim fails and
/// changes nothing, and when the caller is the authorized oracle the error
/// is `OperationNotAllowed`.
pub proof fn lemma_consumed_nonce_never_claims(
    b: BridgeView,
    caller: Identity,
    caller_is_signer: bool,
    recipient_balance: u64,
    amount: u64,
    nonce: u64,
    fee: u64,
)
    requires
        b.consumed.contains(nonce),
    ensures
        claim_spec(b, caller, caller_is_signer, recipient_balance, amount, nonce, fee).1 is Err,
        claim_spec(b, caller, caller_is_signer, recipient_balance, amount, nonce, fee).0 == b,
        caller_is_signer && caller == b.state.oracle_address ==> claim_spec(
            b,
            caller,
            caller_is_signer,
            recipient_balance,
            amount,
            nonce,
            fee,
        ).1 == Err::<u64, ErrorCode>(ErrorCode::OperationNotAllowed),
{
}

/// Replay protection: once a claim with `nonce` has succeeded, no later
/// claim with the same nonce can succeed, whatever operations happen in
/// between.
pub proof fn lemma_no_replay(
    b: BridgeView,
    first_caller: Identity,
    first_is_signer: bool,
    first_recipient_balance: u64,
    first_amount: u64,
    nonce: u64,
    first_fee: u64,
    ops: Seq<Op>,
    second_caller: Identity,
    second_is_signer: bool,
    second_recipient_balance: u64,
    second_amount: u64,
    second_fee: u64,
)
    requires
        claim_spec(
            b,
            first_caller,
            first_is_signer,
            first_recipient_balance,
            first_amount,
            nonce,
            first_fee,
        ).1 is Ok,
    ensures
        ({
            let after_first = claim_spec(
                b,
                first_caller,
                first_is_signer,
                first_recipient_balance,
                first_amount,
                nonce,
                first_fee,
            ).0;
            claim_spec(
                run(after_first, ops),
                second_caller,
                second_is_signer,
                second_recipient_balance,
                second_amount,
                nonce,
                second_fee,
            ).1 is Err
        }),
{
    let after_first = claim_spec(
        b,
        first_caller,
        first_is_signer,
        first_recipient_balance,
        first_amount,
        nonce,
        first_fee,
    ).0;
    assert(after_first.consumed.contains(nonce));
    lemma_consumed_monotone(after_first, ops, nonce);
    lemma_consumed_nonce_never_claims(
        run(after_first, ops),
        second_caller,
        second_is_signer,
        second_recipient_balance,
        second_amount,
        nonce,
        second_fee,
    );
}

} // verus!
