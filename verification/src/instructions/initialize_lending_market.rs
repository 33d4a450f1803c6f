use vstd::prelude::*;

use crate::errors::LendingError;
use crate::states::{LendingMarket, COLLATERAL_RATIO_BPS, INTEREST_RATE_BPS};
use crate::token::{Mint, TokenAccount};

verus! {

/// Inputs of market initialization: the administrator and the derived
/// addresses of the five records to create.
#[derive(Clone, Copy, Debug, PartialEq, Eq, Structural)]
pub struct InitializeLendingMarket {
    /// The administrator-to-be; pays for and controls the new market.
    pub payer: u64,
    /// Address for the new market record.
    pub lending_market: u64,
    /// Address for the new collateral asset registry.
    pub collateral_mint: u64,
    /// Address for the new loan asset registry.
    pub loan_mint: u64,
    /// Address for the new collateral custody.
    pub collateral_vault: u64,
    /// Address for the new loan custody.
    pub loan_vault: u64,
    /// Derivation seed byte of the market's address.
    pub bump: u8,
}

/// A market record together with the four accounts it exclusively controls:
/// its two asset registries and its two custodial balances.
#[derive(Clone, Copy, Debug, PartialEq, Eq, Structural)]
pub struct MarketAccounts {
    pub market: LendingMarket,
    pub collateral_mint: Mint,
    pub loan_mint: Mint,
    pub collateral_vault: TokenAccount,
    pub loan_vault: TokenAccount,
}

impl MarketAccounts {
    /// Structural consistency of a market and its custody accounts: the
    /// configured ratio and rate are the protocol constants, the two assets
    /// differ, and each linked registry and custody is the one the market
    /// registered, owned by the market and denominated in the registered
    /// asset.
    pub open spec fn wf(self) -> bool {
        &&& self.market.collateral_mint != self.market.loan_mint
        &&& self.market.interest_rate_bps == INTEREST_RATE_BPS
        &&& self.market.collateral_ratio_bps == COLLATERAL_RATIO_BPS
        &&& self.collateral_mint.address == self.market.collateral_mint
        &&& self.loan_mint.address == self.market.loan_mint
        &&& self.collateral_mint.authority == self.market.address
        &&& self.loan_mint.authority == self.market.address
        &&& self.collateral_vault.address == self.market.collateral_vault
        &&& self.loan_vault.address == self.market.loan_vault
        &&& self.collateral_vault.owner == self.market.address
        &&& self.loan_vault.owner == self.market.address
        &&& self.collateral_vault.mint == self.market.collateral_mint
        &&& self.loan_vault.mint == self.market.loan_mint
    }
}

/// The accounts a successful initialization creates: a zeroed market record
/// configured with the protocol constants, two fresh asset registries and
/// two empty custodial balances, all controlled by the market.
pub open spec fn initialized_market(ctx: InitializeLendingMarket) -> MarketAccounts {
    MarketAccounts {
        market: LendingMarket {
            address: ctx.lending_market,
            authority: ctx.payer,
            collateral_mint: ctx.collateral_mint,
            loan_mint: ctx.loan_mint,
            collateral_vault: ctx.collateral_vault,
            loan_vault: ctx.loan_vault,
            interest_rate_bps: INTEREST_RATE_BPS,
            collateral_ratio_bps: COLLATERAL_RATIO_BPS,
            collateral_amount: 0,
            borrowed_amount: 0,
            bump: ctx.bump,
        },
        collateral_mint: Mint {
            address: ctx.collateral_mint,
            authority: ctx.lending_market,
            supply: 0,
        },
        loan_mint: Mint { address: ctx.loan_mint, authority: ctx.lending_market, supply: 0 },
        collateral_vault: TokenAccount {
            address: ctx.collateral_vault,
            owner: ctx.lending_market,
            mint: ctx.collateral_mint,
            amount: 0,
        },
        loan_vault: TokenAccount {
            address: ctx.loan_vault,
            owner: ctx.lending_market,
            mint: ctx.loan_mint,
            amount: 0,
        },
    }
}

/// Creates a market: the record starts with zero totals and the protocol
/// constants, and the two custodial balances start at zero, owned by the
/// market alone. Fails — creating nothing — exactly when the requested
/// collateral and loan assets are identical.
pub fn initialize_lending_market(ctx: &InitializeLendingMarket) -> (r: Result<
    MarketAccounts,
    LendingError,
>)
    ensures
        ctx.collateral_mint == ctx.loan_mint ==> r == Err::<MarketAccounts, LendingError>(
            LendingError::IdenticalCollateralAndLoanMints,
        ),
        ctx.collateral_mint != ctx.loan_mint ==> r == Ok::<MarketAccounts, LendingError>(
            initialized_market(*ctx),
        ),
        r is Ok ==> r.unwrap().wf(),
{
    if ctx.collateral_mint == ctx.loan_mint {
        return Err(LendingError::IdenticalCollateralAndLoanMints);
    }
    let market = LendingMarket {
        address: ctx.lending_market,
        authority: ctx.payer,
        collateral_mint: ctx.collateral_mint,
        loan_mint: ctx.loan_mint,
        collateral_vault: ctx.collateral_vault,
        loan_vault: ctx.loan_vault,
        interest_rate_bps: INTEREST_RATE_BPS,
        collateral_ratio_bps: COLLATERAL_RATIO_BPS,
        collateral_amount: 0,
        borrowed_amount: 0,
        bump: ctx.bump,
    };
    let collateral_mint = Mint {
        address: ctx.collateral_mint,
        authority: ctx.lending_market,
        supply: 0,
    };
    let loan_mint = Mint { address: ctx.loan_mint, authority: ctx.lending_market, supply: 0 };
    let collateral_vault = TokenAccount {
        address: ctx.collateral_vault,
        owner: ctx.lending_market,
        mint: ctx.collateral_mint,
        amount: 0,
    };
    let loan_vault = TokenAccount {
        address: ctx.loan_vault,
        owner: ctx.lending_market,
        mint: ctx.loan_mint,
        amount: 0,
    };
    Ok(MarketAccounts { market, collateral_mint, loan_mint, collateral_vault, loan_vault })
}

} // verus!
