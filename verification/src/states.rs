use vstd::prelude::*;

verus! {

/// Fixed annual interest rate in basis points (500 = 5%). Stored at market
/// creation; never applied to any balance by this core.
pub const INTEREST_RATE_BPS: u16 = 500;

/// Required collateralization ratio in basis points (12000 = 120%), fixed at
/// market creation.
pub const COLLATERAL_RATIO_BPS: u16 = 12000;

/// Basis-point denominator: 10000 bps = 100%.
pub const BPS_DENOMINATOR: u64 = 10000;

/// The single lending pool record: configuration, asset and custody links,
/// and the aggregate totals across all user positions.
///
/// Principals, assets and custodial balances are identified by plain
/// addresses; the surrounding account layer derives and authenticates them.
#[derive(Clone, Copy, Debug, PartialEq, Eq, Structural)]
pub struct LendingMarket {
    /// The address the market record itself is stored at; custody ownership
    /// and position bindings refer to it.
    pub address: u64,
    /// The administrator authorized to fund the loan pool.
    pub authority: u64,
    /// Asset accepted as collateral.
    pub collateral_mint: u64,
    /// Asset lent out.
    pub loan_mint: u64,
    /// Custodial balance holding the deposited collateral.
    pub collateral_vault: u64,
    /// Custodial balance holding the available loan liquidity.
    pub loan_vault: u64,
    /// Fixed annual interest rate in basis points.
    pub interest_rate_bps: u16,
    /// Required collateralization ratio in basis points.
    pub collateral_ratio_bps: u16,
    /// Total collateral deposited into the market.
    pub collateral_amount: u64,
    /// Total amount borrowed from the market.
    pub borrowed_amount: u64,
    /// Derivation seed byte of the market's address.
    pub bump: u8,
}

/// One principal's ledger entry within one market: its share of the market
/// totals.
#[derive(Clone, Copy, Debug, PartialEq, Eq, Structural)]
pub struct UserAccount {
    /// The principal that exclusively controls this position.
    pub user: u64,
    /// The market this position is bound to; immutable after creation.
    pub lending_market: u64,
    /// Collateral deposited by this user.
    pub deposited_collateral_amount: u64,
    /// Amount borrowed by this user.
    pub borrowed_amount: u64,
    /// Derivation seed byte of the position's address.
    pub bump: u8,
}

/// The largest borrowed total a deposit of `deposited` can justify under a
/// collateralization ratio of `ratio_bps`:
/// `floor(deposited * 10000 / ratio_bps)`.
pub open spec fn max_allowable_borrow(deposited: u64, ratio_bps: u16) -> int
    recommends
        ratio_bps > 0,
{
    deposited * BPS_DENOMINATOR / (ratio_bps as int)
}

/// Solvency of one position: its borrowed total never exceeds what its
/// deposited collateral justifies.
pub open spec fn position_solvent(position: UserAccount, ratio_bps: u16) -> bool {
    position.borrowed_amount <= max_allowable_borrow(
        position.deposited_collateral_amount,
        ratio_bps,
    )
}

} // verus!
