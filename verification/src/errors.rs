use vstd::prelude::*;

verus! {

/// Every failure the pricing core can report. All of these are
/// validation or checked-arithmetic failures surfaced before any state
/// is mutated; none is retryable.
#[derive(Clone, Copy, Debug, PartialEq, Eq, Structural)]
pub enum ZeroglazeError {
    /// Token name is too long (max 32 characters).
    NameTooLong,
    /// Token symbol is too long (max 10 characters).
    SymbolTooLong,
    /// Token URI is too long (max 200 characters).
    UriTooLong,
    /// Zero-amount trade requested.
    InvalidAmount,
    /// A buy would exceed the curve-tradeable supply cap.
    InsufficientCurveSupply,
    /// A sell would require more real reserve currency than is custodied.
    InsufficientLiquidity,
    /// A checked arithmetic step over- or underflowed.
    MathOverflow,
    /// The computed cost or output violates the caller-supplied bound.
    SlippageExceeded,
    /// A trade was attempted after the terminal graduation transition.
    TokenGraduated,
    /// Caller is not allowed to perform the operation.
    Unauthorized,
    /// No fees available to withdraw.
    NoFeesToWithdraw,
    /// Invalid fee calculation.
    InvalidFee,
}

} // verus!
