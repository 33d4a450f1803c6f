use vstd::prelude::*;

use crate::errors::LendingError;
use crate::states::{LendingMarket, UserAccount};
use crate::token::{mint_to, mint_to_fault, transfer, transfer_fault, Mint, TokenAccount};

verus! {

/// Accounts a collateral deposit works on. The market issues the collateral
/// asset itself: a deposit mints the requested amount into the user's
/// holding account and transfers it onward into the market's collateral
/// custody.
#[derive(Clone, Copy, Debug, PartialEq, Eq, Structural)]
pub struct DepositCollateral {
    /// The acting principal; must own the user position and the holding
    /// account.
    pub user: u64,
    /// The acting principal's position in the market.
    pub user_account: UserAccount,
    /// The market deposited into.
    pub lending_market: LendingMarket,
    /// The market's collateral asset registry.
    pub collateral_mint: Mint,
    /// The user's holding account for the collateral asset.
    pub user_collateral_token_account: TokenAccount,
    /// The market's collateral custody.
    pub collateral_vault: TokenAccount,
}

/// The authorization/ownership error, if any, that rejects a deposit before
/// any arithmetic or transfer: the position must belong to the acting
/// principal and the market, the destination must be the market's
/// registered collateral custody, and every supplied account must be owned
/// by the right principal and denominated in the market's collateral asset.
/// Checks run in this order.
pub open spec fn deposit_guard_error(ctx: DepositCollateral) -> Option<LendingError> {
    if ctx.user_account.user != ctx.user {
        Some(LendingError::MismatchedUserAccountOwner)
    } else if ctx.user_account.lending_market != ctx.lending_market.address {
        Some(LendingError::MismatchedUserAccountMarket)
    } else if ctx.collateral_mint.address != ctx.lending_market.collateral_mint {
        Some(LendingError::MismatchedCollateralMint)
    } else if ctx.user_collateral_token_account.owner != ctx.user {
        Some(LendingError::MismatchedCollateralTokenAccountOwner)
    } else if ctx.user_collateral_token_account.mint != ctx.lending_market.collateral_mint {
        Some(LendingError::MismatchedCollateralMint)
    } else if ctx.collateral_vault.address != ctx.lending_market.collateral_vault {
        Some(LendingError::MismatchedCollateralVault)
    } else if ctx.collateral_vault.owner != ctx.lending_market.address {
        Some(LendingError::MismatchedCollateralVaultOwner)
    } else if ctx.collateral_vault.mint != ctx.lending_market.collateral_mint {
        Some(LendingError::MismatchedCollateralMint)
    } else {
        None
    }
}

/// The full transition a deposit makes: the accounts after the call paired
/// with its result. Guards and both overflow checks precede the issuance,
/// so a doomed deposit never moves funds; the onward transfer into custody
/// precedes the commit of the two ledger totals, so a failed transfer never
/// corrupts them. A fault in the onward transfer leaves the freshly issued
/// tokens in the user's holding account but no ledger field written.
pub open spec fn deposit_transition(ctx: DepositCollateral, amount: u64) -> (
    DepositCollateral,
    Result<(), LendingError>,
) {
    if deposit_guard_error(ctx) is Some {
        (ctx, Err(deposit_guard_error(ctx).unwrap()))
    } else if ctx.user_account.deposited_collateral_amount + amount > u64::MAX {
        (ctx, Err(LendingError::UserCollateralOverflow))
    } else if ctx.lending_market.collateral_amount + amount > u64::MAX {
        (ctx, Err(LendingError::MarketCollateralOverflow))
    } else if mint_to_fault(
        ctx.collateral_mint,
        ctx.user_collateral_token_account,
        amount,
        ctx.lending_market.address,
    ) is Some {
        (
            ctx,
            Err(
                LendingError::TransferFault(
                    mint_to_fault(
                        ctx.collateral_mint,
                        ctx.user_collateral_token_account,
                        amount,
                        ctx.lending_market.address,
                    ).unwrap(),
                ),
            ),
        )
    } else {
        let minted = DepositCollateral {
            collateral_mint: Mint {
                supply: (ctx.collateral_mint.supply + amount) as u64,
                ..ctx.collateral_mint
            },
            user_collateral_token_account: TokenAccount {
                amount: (ctx.user_collateral_token_account.amount + amount) as u64,
                ..ctx.user_collateral_token_account
            },
            ..ctx
        };
        if transfer_fault(
            minted.user_collateral_token_account,
            minted.collateral_vault,
            amount,
            minted.user,
        ) is Some {
            (
                minted,
                Err(
                    LendingError::TransferFault(
                        transfer_fault(
                            minted.user_collateral_token_account,
                            minted.collateral_vault,
                            amount,
                            minted.user,
                        ).unwrap(),
                    ),
                ),
            )
        } else {
            (
                DepositCollateral {
                    user_collateral_token_account: TokenAccount {
                        amount: (minted.user_collateral_token_account.amount - amount) as u64,
                        ..minted.user_collateral_token_account
                    },
                    collateral_vault: TokenAccount {
                        amount: (minted.collateral_vault.amount + amount) as u64,
                        ..minted.collateral_vault
                    },
                    user_account: UserAccount {
                        deposited_collateral_amount: (ctx.user_account.deposited_collateral_amount
                            + amount) as u64,
                        ..ctx.user_account
                    },
                    lending_market: LendingMarket {
                        collateral_amount: (ctx.lending_market.collateral_amount + amount) as u64,
                        ..ctx.lending_market
                    },
                    ..minted
                },
                Ok(()),
            )
        }
    }
}

/// Deposits `amount` of collateral: issues it to the user's holding
/// account, moves it into the market's collateral custody, and only then
/// credits the precomputed user and market totals. A zero deposit succeeds
/// trivially. Any failing check aborts with its specific error and leaves
/// every ledger field unchanged.
pub fn deposit_collateral(ctx: &mut DepositCollateral, collateral_amount: u64) -> (r: Result<
    (),
    LendingError,
>)
    ensures
        (*final(ctx), r) == deposit_transition(*old(ctx), collateral_amount),
        r is Err ==> final(ctx).user_account == old(ctx).user_account && final(ctx).lending_market
            == old(ctx).lending_market,
        r is Ok ==> final(ctx).user_account.deposited_collateral_amount
            == old(ctx).user_account.deposited_collateral_amount + collateral_amount,
        r is Ok ==> final(ctx).lending_market.collateral_amount
            == old(ctx).lending_market.collateral_amount + collateral_amount,
{
    if ctx.user_account.user != ctx.user {
        return Err(LendingError::MismatchedUserAccountOwner);
    }
    if ctx.user_account.lending_market != ctx.lending_market.address {
        return Err(LendingError::MismatchedUserAccountMarket);
    }
    if ctx.collateral_mint.address != ctx.lending_market.collateral_mint {
        return Err(LendingError::MismatchedCollateralMint);
    }
    if ctx.user_collateral_token_account.owner != ctx.user {
        return Err(LendingError::MismatchedCollateralTokenAccountOwner);
    }
    if ctx.user_collateral_token_account.mint != ctx.lending_market.collateral_mint {
        return Err(LendingError::MismatchedCollateralMint);
    }
    if ctx.collateral_vault.address != ctx.lending_market.collateral_vault {
        return Err(LendingError::MismatchedCollateralVault);
    }
    if ctx.collateral_vault.owner != ctx.lending_market.address {
        return Err(LendingError::MismatchedCollateralVaultOwner);
    }
    if ctx.collateral_vault.mint != ctx.lending_market.collateral_mint {
        return Err(LendingError::MismatchedCollateralMint);
    }

    // Both totals are computed and checked before any funds move, so a
    // doomed deposit never reaches the token layer.
    if ctx.user_account.deposited_collateral_amount > u64::MAX - collateral_amount {
        return Err(LendingError::UserCollateralOverflow);
    }
    let user_total_collateral = ctx.user_account.deposited_collateral_amount + collateral_amount;
    if ctx.lending_market.collateral_amount > u64::MAX - collateral_amount {
        return Err(LendingError::MarketCollateralOverflow);
    }
    let lending_market_total_collateral = ctx.lending_market.collateral_amount + collateral_amount;

    // Issue the requested amount to the user's holding account, authorized
    // by the market, which controls the collateral asset.
    match mint_to(
        &mut ctx.collateral_mint,
        &mut ctx.user_collateral_token_account,
        collateral_amount,
        ctx.lending_market.address,
    ) {
        Ok(()) => (),
        Err(fault) => {
            return Err(LendingError::TransferFault(fault));
        },
    }

    // Move it onward from the user's holding account into the collateral
    // custody, authorized by the user.
    match transfer(
        &mut ctx.user_collateral_token_account,
        &mut ctx.collateral_vault,
        collateral_amount,
        ctx.user,
    ) {
        Ok(()) => (),
        Err(fault) => {
            return Err(LendingError::TransferFault(fault));
        },
    }

    // Commit the precomputed totals only now that the transfer succeeded.
    ctx.user_account.deposited_collateral_amount = user_total_collateral;
    ctx.lending_market.collateral_amount = lending_market_total_collateral;
    Ok(())
}

} // verus!
