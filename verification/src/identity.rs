use vstd::prelude::*;
use crate::errors::ErrorCode;

verus! {

/// An account identity known to the host environment.
///
/// The bridge core never inspects an identity beyond comparing it for
/// equality, so an identity is an opaque numeric handle; the host keeps the
/// mapping between handles and its own account addresses.
#[derive(Clone, Copy, PartialEq, Eq, Structural, Debug, Hash)]
pub struct Identity {
    pub id: u64,
}

/// The guard predicate behind every owner- or oracle-gated operation:
/// succeeds exactly when the caller is the required identity.
pub fn authorize(caller: Identity, required: Identity) -> (r: Result<(), ErrorCode>)
    ensures
        r is Ok <==> caller == required,
        r is Err ==> r == Err::<(), ErrorCode>(ErrorCode::Unauthorized),
{
    if caller == required {
        Ok(())
    } else {
        Err(ErrorCode::Unauthorized)
    }
}

} // verus!
