use vstd::prelude::*;
use crate::errors::ErrorCode;
use crate::identity::{authorize, Identity};

verus! {

/// Upper bound of the `fee_percent` field: a fee is expressed in basis
/// points, so it can never exceed the whole.
pub const MAX_FEE_PERCENT: u64 = 10000;

/// The persistent configuration and authorization record of one bridge
/// deployment.
///
/// Exactly one `BridgeState` exists per deployment; the host passes it by
/// explicit reference into every operation.  Its `owner` is fixed at
/// initialization and never changes afterwards (see
/// `crate::laws::lemma_owner_immutable`).
#[derive(Clone, Copy, PartialEq, Eq, Structural, Debug)]
pub struct BridgeState {
    /// The identity that created the bridge; immutable after initialization.
    pub owner: Identity,
    /// The identity whose signature authorizes claims; mutable only by the
    /// owner.
    pub oracle_address: Identity,
    /// Basis-point fee parameter, between 0 and `MAX_FEE_PERCENT`, recorded
    /// at initialization.  The claim operation takes its fee as an explicit
    /// input of the oracle-signed claim and does not derive it from this
    /// parameter; whether it should instead be the sole source of the fee is
    /// an open policy choice left to the integrator.
    pub fee_percent: u64,
    /// When true, swaps are rejected.
    pub paused: bool,
}

impl BridgeState {
    /// Well-formedness: the fee parameter stays inside the basis-point range.
    pub open spec fn wf(self) -> bool {
        self.fee_percent <= MAX_FEE_PERCENT
    }

    /// What `update_oracle_address` does: the state and result it leaves for
    /// every caller identity.
    pub open spec fn update_oracle_spec(self, caller: Identity, new_oracle_address: Identity) -> (BridgeState, Result<(), ErrorCode>) {
        if caller == self.owner {
            ((BridgeState { oracle_address: new_oracle_address, ..self }), Ok(()))
        } else {
            (self, Err(ErrorCode::Unauthorized))
        }
    }

    /// What `pause` does.
    pub open spec fn pause_spec(self, caller: Identity) -> (BridgeState, Result<(), ErrorCode>) {
        if caller == self.owner {
            ((BridgeState { paused: true, ..self }), Ok(()))
        } else {
            (self, Err(ErrorCode::Unauthorized))
        }
    }

    /// What `unpause` does.
    pub open spec fn unpause_spec(self, caller: Identity) -> (BridgeState, Result<(), ErrorCode>) {
        if caller == self.owner {
            ((BridgeState { paused: false, ..self }), Ok(()))
        } else {
            (self, Err(ErrorCode::Unauthorized))
        }
    }

    /// Replaces the oracle identity.  Owner-gated: any other caller is
    /// rejected with `Unauthorized` and the state is left unchanged.
    pub fn update_oracle_address(&mut self, caller: Identity, new_oracle_address: Identity) -> (r: Result<(), ErrorCode>)
        ensures
            (*final(self), r) == old(self).update_oracle_spec(caller, new_oracle_address),
            caller == old(self).owner ==> r is Ok && final(self).oracle_address == new_oracle_address,
            caller != old(self).owner ==> r == Err::<(), ErrorCode>(ErrorCode::Unauthorized) && *final(self) == *old(self),
            final(self).owner == old(self).owner,
            final(self).fee_percent == old(self).fee_percent,
            final(self).paused == old(self).paused,
    {
        authorize(caller, self.owner)?;
        self.oracle_address = new_oracle_address;
        Ok(())
    }

    /// Sets the pause gate.  Owner-gated and idempotent: pausing an already
    /// paused bridge succeeds and leaves `paused` true.
    pub fn pause(&mut self, caller: Identity) -> (r: Result<(), ErrorCode>)
        ensures
            (*final(self), r) == old(self).pause_spec(caller),
            caller == old(self).owner ==> r is Ok && final(self).paused,
            caller != old(self).owner ==> r == Err::<(), ErrorCode>(ErrorCode::Unauthorized) && *final(self) == *old(self),
            final(self).owner == old(self).owner,
            final(self).oracle_address == old(self).oracle_address,
            final(self).fee_percent == old(self).fee_percent,
    {
        authorize(caller, self.owner)?;
        self.paused = true;
        Ok(())
    }

    /// Clears the pause gate.  Owner-gated and idempotent.
    pub fn unpause(&mut self, caller: Identity) -> (r: Result<(), ErrorCode>)
        ensures
            (*final(self), r) == old(self).unpause_spec(caller),
            caller == old(self).owner ==> r is Ok && !final(self).paused,
            caller != old(self).owner ==> r == Err::<(), ErrorCode>(ErrorCode::Unauthorized) && *final(self) == *old(self),
            final(self).owner == old(self).owner,
            final(self).oracle_address == old(self).oracle_address,
            final(self).fee_percent == old(self).fee_percent,
    {
        authorize(caller, self.owner)?;
        self.paused = false;
        Ok(())
    }
}

} // verus!
