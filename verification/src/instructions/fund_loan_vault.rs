use vstd::prelude::*;

use crate::errors::LendingError;
use crate::states::LendingMarket;
use crate::token::{mint_to, mint_to_fault, Mint, TokenAccount};

verus! {

/// Accounts a loan-vault funding works on: only the market's administrator
/// may top up the loan custody.
#[derive(Clone, Copy, Debug, PartialEq, Eq, Structural)]
pub struct FundLoanVault {
    /// The acting principal; must be the market's administrator.
    pub authority: u64,
    /// The market whose loan custody is funded.
    pub lending_market: LendingMarket,
    /// The market's loan asset registry.
    pub loan_mint: Mint,
    /// The market's loan custody.
    pub loan_vault: TokenAccount,
}

/// The authorization error, if any, that rejects a funding before any
/// issuance: the acting principal must be the administrator, and the
/// supplied registry and custody must be the ones the market registered,
/// the custody owned by the market and denominated in the loan asset.
/// Checks run in this order.
pub open spec fn fund_guard_error(ctx: FundLoanVault) -> Option<LendingError> {
    if ctx.lending_market.authority != ctx.authority {
        Some(LendingError::MismatchedMarketAuthority)
    } else if ctx.loan_mint.address != ctx.lending_market.loan_mint {
        Some(LendingError::MismatchedLoanMint)
    } else if ctx.loan_vault.address != ctx.lending_market.loan_vault {
        Some(LendingError::MismatchedLoanVault)
    } else if ctx.loan_vault.owner != ctx.lending_market.address {
        Some(LendingError::MismatchedLoanVaultOwner)
    } else if ctx.loan_vault.mint != ctx.lending_market.loan_mint {
        Some(LendingError::MismatchedLoanMint)
    } else {
        None
    }
}

/// The full transition a funding makes: the accounts after the call paired
/// with its result. No market or user-position ledger field ever changes —
/// only the real custodial balance, which later borrows observe through
/// their liquidity check.
pub open spec fn fund_transition(ctx: FundLoanVault, amount: u64) -> (
    FundLoanVault,
    Result<(), LendingError>,
) {
    if fund_guard_error(ctx) is Some {
        (ctx, Err(fund_guard_error(ctx).unwrap()))
    } else if mint_to_fault(ctx.loan_mint, ctx.loan_vault, amount, ctx.lending_market.address)
        is Some {
        (
            ctx,
            Err(
                LendingError::TransferFault(
                    mint_to_fault(
                        ctx.loan_mint,
                        ctx.loan_vault,
                        amount,
                        ctx.lending_market.address,
                    ).unwrap(),
                ),
            ),
        )
    } else {
        (
            FundLoanVault {
                loan_mint: Mint { supply: (ctx.loan_mint.supply + amount) as u64, ..ctx.loan_mint },
                loan_vault: TokenAccount {
                    amount: (ctx.loan_vault.amount + amount) as u64,
                    ..ctx.loan_vault
                },
                ..ctx
            },
            Ok(()),
        )
    }
}

/// Issues `amount` of the loan asset directly into the market's loan
/// custody, authorized by the market itself. The market record is never
/// written: the topped-up liquidity reaches the ledger only through the
/// liquidity check of later borrows.
pub fn fund_loan_vault(ctx: &mut FundLoanVault, amount: u64) -> (r: Result<(), LendingError>)
    ensures
        (*final(ctx), r) == fund_transition(*old(ctx), amount),
        final(ctx).lending_market == old(ctx).lending_market,
        r is Err ==> *final(ctx) == *old(ctx),
        r is Ok ==> final(ctx).loan_vault.amount == old(ctx).loan_vault.amount + amount,
{
    if ctx.lending_market.authority != ctx.authority {
        return Err(LendingError::MismatchedMarketAuthority);
    }
    if ctx.loan_mint.address != ctx.lending_market.loan_mint {
        return Err(LendingError::MismatchedLoanMint);
    }
    if ctx.loan_vault.address != ctx.lending_market.loan_vault {
        return Err(LendingError::MismatchedLoanVault);
    }
    if ctx.loan_vault.owner != ctx.lending_market.address {
        return Err(LendingError::MismatchedLoanVaultOwner);
    }
    if ctx.loan_vault.mint != ctx.lending_market.loan_mint {
        return Err(LendingError::MismatchedLoanMint);
    }

    match mint_to(&mut ctx.loan_mint, &mut ctx.loan_vault, amount, ctx.lending_market.address) {
        Ok(()) => (),
        Err(fault) => {
            return Err(LendingError::TransferFault(fault));
        },
    }
    Ok(())
}

} // verus!
