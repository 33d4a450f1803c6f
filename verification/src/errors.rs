use vstd::prelude::*;

verus! {

/// A fault reported by the transfer/issuance collaborator (the token layer).
/// Every variant aborts the surrounding operation before any ledger field is
/// written.
#[derive(Clone, Copy, Debug, PartialEq, Eq, Structural)]
pub enum TokenError {
    /// The supplied authority does not control the source balance or mint.
    AuthorityMismatch,
    /// Source and destination balances hold different assets, or the
    /// destination is not denominated in the issuing mint's asset.
    MintMismatch,
    /// The source balance holds less than the requested amount.
    InsufficientFunds,
    /// The destination balance would exceed the representable range.
    AmountOverflow,
    /// The mint's total supply would exceed the representable range.
    SupplyOverflow,
}

/// Every failure an operation of the lending ledger can surface. The first
/// failing check aborts the whole operation with its specific error and no
/// ledger field mutates.
#[derive(Clone, Copy, Debug, PartialEq, Eq, Structural)]
pub enum LendingError {
    /// The user's collateral total would exceed the representable range.
    UserCollateralOverflow,
    /// The user's borrow computation or total would exceed the representable
    /// range.
    UserBorrowOverflow,
    /// The market's borrow total would exceed the representable range.
    MarketBorrowOverflow,
    /// The requested borrow would push the user past the maximum the
    /// collateralization ratio allows.
    UserMaxBorrowExceeded,
    /// The market's collateral total would exceed the representable range.
    MarketCollateralOverflow,
    /// The supplied collateral custody is not the one the market
    /// registered.
    MismatchedCollateralVault,
    /// The market does not own the supplied collateral vault.
    MismatchedCollateralVaultOwner,
    /// A supplied account is not denominated in the market's collateral
    /// asset.
    MismatchedCollateralMint,
    /// The supplied loan custody is not the one the market registered.
    MismatchedLoanVault,
    /// The market does not own the supplied loan vault.
    MismatchedLoanVaultOwner,
    /// A supplied account is not denominated in the market's loan asset.
    MismatchedLoanMint,
    /// The acting principal does not own the supplied collateral token
    /// account.
    MismatchedCollateralTokenAccountOwner,
    /// Collateral and loan assets of a new market must differ.
    IdenticalCollateralAndLoanMints,
    /// The loan vault holds fewer tokens than the market would have out on
    /// loan after this borrow.
    InsufficientLoanVaultLiquidity,
    /// A market record already occupies the requested address.
    MarketAlreadyInitialized,
    /// A user position for this principal already exists in the market.
    UserAccountAlreadyExists,
    /// No market record exists yet.
    MarketNotInitialized,
    /// The acting principal does not own the supplied user position.
    MismatchedUserAccountOwner,
    /// The supplied user position is bound to a different market.
    MismatchedUserAccountMarket,
    /// The acting principal is not the market's administrator.
    MismatchedMarketAuthority,
    /// The transfer/issuance collaborator reported a fault; it is propagated
    /// unchanged.
    TransferFault(TokenError),
}

} // verus!
