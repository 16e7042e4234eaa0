use vstd::prelude::*;

verus! {

/// The single tagged failure reason a caller observes when a settlement is
/// refused.  Every check in the engine is a hard fail-fast: the first failing
/// gate aborts the whole operation and no partial effect remains observable.
#[derive(Clone, Copy, Debug, PartialEq, Eq, Structural)]
pub enum MMMErrorCode {
    /// The pool requires a cosigner and the supplied identity does not match
    /// or did not sign.
    AuthorizationError,
    /// The offered asset satisfies no allowlist rule, or its metadata record
    /// is missing or not authentic for the asset.
    IneligibleAssetError,
    /// The pool's recorded owner does not match the supplied owner account.
    OwnerMismatchError,
    /// The pool is configured for a currency incompatible with this
    /// instruction variant (only native currency is accepted here).
    PaymentMintMismatchError,
    /// The computed total price exceeds the caller's slippage ceiling.
    PriceExceededError,
    /// The payer's currency balance cannot cover a transfer leg.
    InsufficientFundsError,
    /// The requested amount exceeds the inventory escrow balance.
    InsufficientInventoryError,
    /// Overflow or underflow in price, fee, a balance, or a counter update.
    ArithmeticError,
}

} // verus!
