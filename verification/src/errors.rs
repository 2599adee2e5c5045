use vstd::prelude::*;

verus! {

/// Stable failure code for every operation of the settlement engine.
///
/// Every failure aborts the enclosing operation with no state change; the
/// contracts of the engine's functions say exactly which code comes back on
/// which inputs.
#[derive(Clone, Copy, Debug, PartialEq, Eq, Structural)]
pub enum ErrorCode {
    /// An escrow balance is too small for the requested movement.
    InsufficientBalance,
    /// Exercise was attempted before the expiration timestamp.
    ContractNotExpired,
    /// The contract is not in the Active state.
    ContractNotActive,
    /// Someone other than the buyer attempted to exercise.
    UnauthorizedExercise,
    /// Settlement was attempted on a contract that was never exercised.
    NotExercised,
    /// Settlement was attempted with no pending payoff to move.
    NoPendingBalance,
    /// The seller's escrow cannot cover the frozen payoff.
    InsufficientSellerEscrow,
    /// Overflow or division by zero in margin or payoff arithmetic.
    CalculationError,
    /// An owner's registry already holds the maximum number of entries.
    MaxContractsReached,
    /// The underlying asset ticker exceeds the maximum length.
    AssetTickerTooLong,
    /// A deposit of zero units was requested.
    InvalidDepositAmount,
}

} // verus!
