use vstd::prelude::*;

verus! {

/// The error kinds reported by the bridge core.
///
/// Every failing operation returns exactly one of these and leaves all bridge
/// state unchanged: there is no partial commit and no local recovery path.
#[derive(Clone, Copy, PartialEq, Eq, Structural, Debug)]
pub enum ErrorCode {
    /// The contract is currently paused.
    ContractPaused,
    /// Unauthorized access attempt.
    Unauthorized,
    /// Invalid operation amount.
    InvalidAmount,
    /// State consistency check failed.
    BalanceMismatch,
    /// The operation is currently not allowed.
    OperationNotAllowed,
}

} // verus!
