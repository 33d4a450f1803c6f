use vstd::prelude::*;

use crate::errors::LendingError;
use crate::states::{max_allowable_borrow, LendingMarket, UserAccount, BPS_DENOMINATOR};
use crate::token::{transfer, transfer_fault, TokenAccount};

verus! {

/// Accounts a borrow works on. The loan custody is the source; the market,
/// not the user, authorizes the outbound transfer, since it owns the
/// custody.
#[derive(Clone, Copy, Debug, PartialEq, Eq, Structural)]
pub struct BorrowToken {
    /// The acting principal; must own the user position.
    pub user: u64,
    /// The acting principal's position in the market.
    pub user_account: UserAccount,
    /// The market borrowed from.
    pub lending_market: LendingMarket,
    /// The caller-controlled destination for the borrowed tokens.
    pub user_loan_token_account: TokenAccount,
    /// The market's loan custody.
    pub loan_vault: TokenAccount,
}

/// The authorization/ownership error, if any, that rejects a borrow before
/// any arithmetic or transfer: the position must belong to the acting
/// principal and the market, and the supplied loan custody must be the one
/// the market registered, owned by the market and denominated in the
/// market's loan asset. Checks run in this order.
pub open spec fn borrow_guard_error(ctx: BorrowToken) -> Option<LendingError> {
    if ctx.user_account.user != ctx.user {
        Some(LendingError::MismatchedUserAccountOwner)
    } else if ctx.user_account.lending_market != ctx.lending_market.address {
        Some(LendingError::MismatchedUserAccountMarket)
    } else if ctx.loan_vault.address != ctx.lending_market.loan_vault {
        Some(LendingError::MismatchedLoanVault)
    } else if ctx.loan_vault.owner != ctx.lending_market.address {
        Some(LendingError::MismatchedLoanVaultOwner)
    } else if ctx.loan_vault.mint != ctx.lending_market.loan_mint {
        Some(LendingError::MismatchedLoanMint)
    } else {
        None
    }
}

/// The arithmetic or solvency error, if any, that rejects a borrow whose
/// guards passed, before any transfer: the solvency bound must be
/// computable, both new totals must be representable, the new market total
/// must be covered by the funds actually held in the loan custody, and the
/// new user total must stay within the solvency bound. Checks run in this
/// order.
pub open spec fn borrow_check_error(ctx: BorrowToken, amount: u64) -> Option<LendingError> {
    if ctx.user_account.deposited_collateral_amount * BPS_DENOMINATOR > u64::MAX {
        Some(LendingError::UserBorrowOverflow)
    } else if ctx.lending_market.collateral_ratio_bps == 0 {
        Some(LendingError::UserBorrowOverflow)
    } else if ctx.user_account.borrowed_amount + amount > u64::MAX {
        Some(LendingError::UserBorrowOverflow)
    } else if ctx.lending_market.borrowed_amount + amount > u64::MAX {
        Some(LendingError::MarketBorrowOverflow)
    } else if ctx.lending_market.borrowed_amount + amount > ctx.loan_vault.amount {
        Some(LendingError::InsufficientLoanVaultLiquidity)
    } else if ctx.user_account.borrowed_amount + amount > max_allowable_borrow(
        ctx.user_account.deposited_collateral_amount,
        ctx.lending_market.collateral_ratio_bps,
    ) {
        Some(LendingError::UserMaxBorrowExceeded)
    } else {
        None
    }
}

/// The full transition a borrow makes: the accounts after the call paired
/// with its result. All checks precede the outbound transfer, and the
/// transfer precedes the commit of the two borrowed totals, so any failure
/// leaves every ledger field unchanged.
pub open spec fn borrow_transition(ctx: BorrowToken, amount: u64) -> (
    BorrowToken,
    Result<(), LendingError>,
) {
    if borrow_guard_error(ctx) is Some {
        (ctx, Err(borrow_guard_error(ctx).unwrap()))
    } else if borrow_check_error(ctx, amount) is Some {
        (ctx, Err(borrow_check_error(ctx, amount).unwrap()))
    } else if transfer_fault(
        ctx.loan_vault,
        ctx.user_loan_token_account,
        amount,
        ctx.lending_market.address,
    ) is Some {
        (
            ctx,
            Err(
                LendingError::TransferFault(
                    transfer_fault(
                        ctx.loan_vault,
                        ctx.user_loan_token_account,
                        amount,
                        ctx.lending_market.address,
                    ).unwrap(),
                ),
            ),
        )
    } else {
        (
            BorrowToken {
                loan_vault: TokenAccount {
                    amount: (ctx.loan_vault.amount - amount) as u64,
                    ..ctx.loan_vault
                },
                user_loan_token_account: TokenAccount {
                    amount: (ctx.user_loan_token_account.amount + amount) as u64,
                    ..ctx.user_loan_token_account
                },
                user_account: UserAccount {
                    borrowed_amount: (ctx.user_account.borrowed_amount + amount) as u64,
                    ..ctx.user_account
                },
                lending_market: LendingMarket {
                    borrowed_amount: (ctx.lending_market.borrowed_amount + amount) as u64,
                    ..ctx.lending_market
                },
                ..ctx
            },
            Ok(()),
        )
    }
}

/// Borrows `amount` of the loan asset against the position's collateral:
/// validates solvency and liquidity, moves the funds out of the loan
/// custody under the market's authority, and only then credits the
/// precomputed borrowed totals. Any failing check aborts with its specific
/// error and leaves every ledger field unchanged.
///
/// On success the new market borrowed total is covered by the loan custody
/// balance the check observed before the funds moved.
pub fn borrow_token(ctx: &mut BorrowToken, borrow_amount: u64) -> (r: Result<(), LendingError>)
    ensures
        (*final(ctx), r) == borrow_transition(*old(ctx), borrow_amount),
        r is Err ==> final(ctx).user_account == old(ctx).user_account && final(ctx).lending_market
            == old(ctx).lending_market,
        r is Ok ==> final(ctx).user_account.borrowed_amount
            == old(ctx).user_account.borrowed_amount + borrow_amount,
        r is Ok ==> final(ctx).lending_market.borrowed_amount
            == old(ctx).lending_market.borrowed_amount + borrow_amount,
        r is Ok ==> final(ctx).lending_market.borrowed_amount <= old(ctx).loan_vault.amount,
        r is Ok ==> final(ctx).user_account.borrowed_amount <= max_allowable_borrow(
            final(ctx).user_account.deposited_collateral_amount,
            final(ctx).lending_market.collateral_ratio_bps,
        ),
{
    if ctx.user_account.user != ctx.user {
        return Err(LendingError::MismatchedUserAccountOwner);
    }
    if ctx.user_account.lending_market != ctx.lending_market.address {
        return Err(LendingError::MismatchedUserAccountMarket);
    }
    if ctx.loan_vault.address != ctx.lending_market.loan_vault {
        return Err(LendingError::MismatchedLoanVault);
    }
    if ctx.loan_vault.owner != ctx.lending_market.address {
        return Err(LendingError::MismatchedLoanVaultOwner);
    }
    if ctx.loan_vault.mint != ctx.lending_market.loan_mint {
        return Err(LendingError::MismatchedLoanMint);
    }

    // Maximum allowable borrow: deposited collateral scaled by the
    // collateralization ratio, in integer arithmetic.
    if ctx.user_account.deposited_collateral_amount > u64::MAX / BPS_DENOMINATOR {
        return Err(LendingError::UserBorrowOverflow);
    }
    let scaled_collateral = ctx.user_account.deposited_collateral_amount * BPS_DENOMINATOR;
    if ctx.lending_market.collateral_ratio_bps == 0 {
        return Err(LendingError::UserBorrowOverflow);
    }
    let max_allowable = scaled_collateral / (ctx.lending_market.collateral_ratio_bps as u64);

    // The user's and the market's borrowed totals after this borrow.
    if ctx.user_account.borrowed_amount > u64::MAX - borrow_amount {
        return Err(LendingError::UserBorrowOverflow);
    }
    let user_total_borrowed = ctx.user_account.borrowed_amount + borrow_amount;
    if ctx.lending_market.borrowed_amount > u64::MAX - borrow_amount {
        return Err(LendingError::MarketBorrowOverflow);
    }
    let lending_market_total_borrowed = ctx.lending_market.borrowed_amount + borrow_amount;

    // Liquidity: the new market total must be covered by the funds actually
    // held in the loan custody, not just by the ledger total.
    if lending_market_total_borrowed > ctx.loan_vault.amount {
        return Err(LendingError::InsufficientLoanVaultLiquidity);
    }
    // Solvency: the new user total must stay within the collateral bound.
    if user_total_borrowed > max_allowable {
        return Err(LendingError::UserMaxBorrowExceeded);
    }

    // Move the funds out of the loan custody under the market's authority.
    match transfer(
        &mut ctx.loan_vault,
        &mut ctx.user_loan_token_account,
        borrow_amount,
        ctx.lending_market.address,
    ) {
        Ok(()) => (),
        Err(fault) => {
            return Err(LendingError::TransferFault(fault));
        },
    }

    // Commit the precomputed totals only now that the transfer succeeded.
    ctx.user_account.borrowed_amount = user_total_borrowed;
    ctx.lending_market.borrowed_amount = lending_market_total_borrowed;
    Ok(())
}

} // verus!
