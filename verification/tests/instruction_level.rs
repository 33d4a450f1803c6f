use lending_solana::errors::{LendingError, TokenError};
use lending_solana::instructions::borrow_token::{borrow_token, BorrowToken};
use lending_solana::instructions::create_user_account::{create_user_account, CreateUserAccount};
use lending_solana::instructions::deposit_collateral::{deposit_collateral, DepositCollateral};
use lending_solana::instructions::fund_loan_vault::{fund_loan_vault, FundLoanVault};
use lending_solana::states::{LendingMarket, UserAccount};
use lending_solana::token::{mint_to, transfer, Mint, TokenAccount};

const ADMIN: u64 = 1;
const MARKET: u64 = 10;
const COLLATERAL_MINT: u64 = 11;
const LOAN_MINT: u64 = 12;
const COLLATERAL_VAULT: u64 = 13;
const LOAN_VAULT: u64 = 14;
const USER: u64 = 7;

fn market() -> LendingMarket {
    LendingMarket {
        address: MARKET,
        authority: ADMIN,
        collateral_mint: COLLATERAL_MINT,
        loan_mint: LOAN_MINT,
        collateral_vault: COLLATERAL_VAULT,
        loan_vault: LOAN_VAULT,
        interest_rate_bps: 500,
        collateral_ratio_bps: 12000,
        collateral_amount: 0,
        borrowed_amount: 0,
        bump: 255,
    }
}

fn position(deposited: u64, borrowed: u64) -> UserAccount {
    UserAccount {
        user: USER,
        lending_market: MARKET,
        deposited_collateral_amount: deposited,
        borrowed_amount: borrowed,
        bump: 254,
    }
}

fn deposit_ctx() -> DepositCollateral {
    DepositCollateral {
        user: USER,
        user_account: position(0, 0),
        lending_market: market(),
        collateral_mint: Mint { address: COLLATERAL_MINT, authority: MARKET, supply: 0 },
        user_collateral_token_account: TokenAccount {
            address: 20,
            owner: USER,
            mint: COLLATERAL_MINT,
            amount: 0,
        },
        collateral_vault: TokenAccount {
            address: COLLATERAL_VAULT,
            owner: MARKET,
            mint: COLLATERAL_MINT,
            amount: 0,
        },
    }
}

fn borrow_ctx() -> BorrowToken {
    BorrowToken {
        user: USER,
        user_account: position(1_000_000, 0),
        lending_market: market(),
        user_loan_token_account: TokenAccount {
            address: 21,
            owner: USER,
            mint: LOAN_MINT,
            amount: 0,
        },
        loan_vault: TokenAccount {
            address: LOAN_VAULT,
            owner: MARKET,
            mint: LOAN_MINT,
            amount: 1_000_000,
        },
    }
}

fn fund_ctx() -> FundLoanVault {
    FundLoanVault {
        authority: ADMIN,
        lending_market: market(),
        loan_mint: Mint { address: LOAN_MINT, authority: MARKET, supply: 0 },
        loan_vault: TokenAccount {
            address: LOAN_VAULT,
            owner: MARKET,
            mint: LOAN_MINT,
            amount: 0,
        },
    }
}

#[test]
fn created_position_copies_the_market_binding() {
    let ctx = CreateUserAccount { user: USER, lending_market: market(), bump: 7 };
    let created = create_user_account(&ctx);
    assert_eq!(created.user, USER);
    assert_eq!(created.lending_market, MARKET);
    assert_eq!(created.deposited_collateral_amount, 0);
    assert_eq!(created.borrowed_amount, 0);
    assert_eq!(created.bump, 7);
}

#[test]
fn deposit_rejects_position_of_another_market() {
    let mut ctx = deposit_ctx();
    ctx.user_account.lending_market = 999;
    let before = ctx;
    assert_eq!(
        deposit_collateral(&mut ctx, 1),
        Err(LendingError::MismatchedUserAccountMarket)
    );
    assert_eq!(ctx, before);
}

#[test]
fn deposit_rejects_foreign_position() {
    let mut ctx = deposit_ctx();
    ctx.user_account.user = 99;
    assert_eq!(
        deposit_collateral(&mut ctx, 1),
        Err(LendingError::MismatchedUserAccountOwner)
    );
}

#[test]
fn deposit_rejects_unregistered_mint() {
    let mut ctx = deposit_ctx();
    ctx.collateral_mint.address = 999;
    assert_eq!(
        deposit_collateral(&mut ctx, 1),
        Err(LendingError::MismatchedCollateralMint)
    );
}

#[test]
fn deposit_rejects_unregistered_vault() {
    // Owned by the market and holding the collateral asset, but not the
    // registered collateral custody.
    let mut ctx = deposit_ctx();
    ctx.collateral_vault.address = 999;
    let before = ctx;
    assert_eq!(
        deposit_collateral(&mut ctx, 1),
        Err(LendingError::MismatchedCollateralVault)
    );
    assert_eq!(ctx, before);
}

#[test]
fn deposit_rejects_vault_not_owned_by_market() {
    let mut ctx = deposit_ctx();
    ctx.collateral_vault.owner = 999;
    assert_eq!(
        deposit_collateral(&mut ctx, 1),
        Err(LendingError::MismatchedCollateralVaultOwner)
    );
}

#[test]
fn deposit_rejects_vault_of_wrong_asset() {
    let mut ctx = deposit_ctx();
    ctx.collateral_vault.mint = LOAN_MINT;
    assert_eq!(
        deposit_collateral(&mut ctx, 1),
        Err(LendingError::MismatchedCollateralMint)
    );
}

#[test]
fn deposit_moves_issued_collateral_into_custody() {
    let mut ctx = deposit_ctx();
    assert_eq!(deposit_collateral(&mut ctx, 500), Ok(()));
    assert_eq!(ctx.user_account.deposited_collateral_amount, 500);
    assert_eq!(ctx.lending_market.collateral_amount, 500);
    assert_eq!(ctx.collateral_vault.amount, 500);
    assert_eq!(ctx.collateral_mint.supply, 500);
    assert_eq!(ctx.user_collateral_token_account.amount, 0);
}

#[test]
fn deposit_transfer_fault_after_issuance_writes_no_ledger_field() {
    // Nothing ties a caller-supplied vault balance to the market total at
    // this level: an overfull vault makes the onward transfer fail after
    // the issuance went through. The ledger fields stay untouched; the
    // issued tokens remain in the holding account.
    let mut ctx = deposit_ctx();
    ctx.collateral_vault.amount = u64::MAX;
    assert_eq!(
        deposit_collateral(&mut ctx, 1),
        Err(LendingError::TransferFault(TokenError::AmountOverflow))
    );
    assert_eq!(ctx.user_account.deposited_collateral_amount, 0);
    assert_eq!(ctx.lending_market.collateral_amount, 0);
    assert_eq!(ctx.collateral_mint.supply, 1);
    assert_eq!(ctx.user_collateral_token_account.amount, 1);
    assert_eq!(ctx.collateral_vault.amount, u64::MAX);
}

#[test]
fn deposit_rejects_unauthorized_issuance() {
    let mut ctx = deposit_ctx();
    ctx.collateral_mint.authority = 999;
    let before = ctx;
    assert_eq!(
        deposit_collateral(&mut ctx, 1),
        Err(LendingError::TransferFault(TokenError::AuthorityMismatch))
    );
    assert_eq!(ctx, before);
}

#[test]
fn borrow_rejects_unregistered_vault() {
    // Owned by the market and holding the loan asset, but not the
    // registered loan custody.
    let mut ctx = borrow_ctx();
    ctx.loan_vault.address = 999;
    let before = ctx;
    assert_eq!(borrow_token(&mut ctx, 1), Err(LendingError::MismatchedLoanVault));
    assert_eq!(ctx, before);
}

#[test]
fn borrow_rejects_vault_not_owned_by_market() {
    let mut ctx = borrow_ctx();
    ctx.loan_vault.owner = 999;
    assert_eq!(
        borrow_token(&mut ctx, 1),
        Err(LendingError::MismatchedLoanVaultOwner)
    );
}

#[test]
fn borrow_rejects_vault_of_wrong_asset() {
    let mut ctx = borrow_ctx();
    ctx.loan_vault.mint = COLLATERAL_MINT;
    assert_eq!(borrow_token(&mut ctx, 1), Err(LendingError::MismatchedLoanMint));
}

#[test]
fn borrow_detects_user_total_overflow() {
    let mut ctx = borrow_ctx();
    ctx.user_account.borrowed_amount = u64::MAX;
    assert_eq!(borrow_token(&mut ctx, 1), Err(LendingError::UserBorrowOverflow));
}

#[test]
fn borrow_detects_market_total_overflow() {
    let mut ctx = borrow_ctx();
    ctx.lending_market.borrowed_amount = u64::MAX;
    let before = ctx;
    assert_eq!(borrow_token(&mut ctx, 1), Err(LendingError::MarketBorrowOverflow));
    assert_eq!(ctx, before);
}

#[test]
fn borrow_rejects_zero_collateralization_ratio() {
    let mut ctx = borrow_ctx();
    ctx.lending_market.collateral_ratio_bps = 0;
    assert_eq!(borrow_token(&mut ctx, 1), Err(LendingError::UserBorrowOverflow));
}

#[test]
fn borrow_pays_out_of_custody_and_commits_totals() {
    let mut ctx = borrow_ctx();
    assert_eq!(borrow_token(&mut ctx, 800_000), Ok(()));
    assert_eq!(ctx.user_account.borrowed_amount, 800_000);
    assert_eq!(ctx.lending_market.borrowed_amount, 800_000);
    assert_eq!(ctx.loan_vault.amount, 200_000);
    assert_eq!(ctx.user_loan_token_account.amount, 800_000);
}

#[test]
fn fund_rejects_unregistered_mint() {
    let mut ctx = fund_ctx();
    ctx.loan_mint.address = 999;
    assert_eq!(fund_loan_vault(&mut ctx, 1), Err(LendingError::MismatchedLoanMint));
}

#[test]
fn fund_rejects_unregistered_vault() {
    let mut ctx = fund_ctx();
    ctx.loan_vault.address = 999;
    assert_eq!(fund_loan_vault(&mut ctx, 1), Err(LendingError::MismatchedLoanVault));
    assert_eq!(ctx.loan_vault.amount, 0);
}

#[test]
fn fund_rejects_vault_not_owned_by_market() {
    let mut ctx = fund_ctx();
    ctx.loan_vault.owner = 999;
    assert_eq!(
        fund_loan_vault(&mut ctx, 1),
        Err(LendingError::MismatchedLoanVaultOwner)
    );
}

#[test]
fn fund_issues_into_custody() {
    let mut ctx = fund_ctx();
    ctx.loan_vault.amount = 3;
    ctx.loan_mint.supply = 3;
    assert_eq!(fund_loan_vault(&mut ctx, 1_000), Ok(()));
    assert_eq!(ctx.loan_vault.amount, 1_003);
    assert_eq!(ctx.loan_mint.supply, 1_003);
    assert_eq!(ctx.lending_market, market());
}

#[test]
fn transfer_rejects_wrong_authority() {
    let mut from = TokenAccount { address: 20, owner: USER, mint: LOAN_MINT, amount: 10 };
    let mut to = TokenAccount { address: 21, owner: ADMIN, mint: LOAN_MINT, amount: 0 };
    assert_eq!(
        transfer(&mut from, &mut to, 5, ADMIN),
        Err(TokenError::AuthorityMismatch)
    );
    assert_eq!(from.amount, 10);
    assert_eq!(to.amount, 0);
}

#[test]
fn transfer_rejects_insufficient_funds() {
    let mut from = TokenAccount { address: 20, owner: USER, mint: LOAN_MINT, amount: 4 };
    let mut to = TokenAccount { address: 21, owner: ADMIN, mint: LOAN_MINT, amount: 0 };
    assert_eq!(
        transfer(&mut from, &mut to, 5, USER),
        Err(TokenError::InsufficientFunds)
    );
    assert_eq!(from.amount, 4);
}

#[test]
fn transfer_moves_the_amount() {
    let mut from = TokenAccount { address: 20, owner: USER, mint: LOAN_MINT, amount: 9 };
    let mut to = TokenAccount { address: 21, owner: ADMIN, mint: LOAN_MINT, amount: 1 };
    assert_eq!(transfer(&mut from, &mut to, 5, USER), Ok(()));
    assert_eq!(from.amount, 4);
    assert_eq!(to.amount, 6);
}

#[test]
fn mint_to_rejects_destination_of_other_asset() {
    let mut mint = Mint { address: LOAN_MINT, authority: MARKET, supply: 0 };
    let mut to = TokenAccount { address: 21, owner: USER, mint: COLLATERAL_MINT, amount: 0 };
    assert_eq!(
        mint_to(&mut mint, &mut to, 5, MARKET),
        Err(TokenError::MintMismatch)
    );
    assert_eq!(mint.supply, 0);
}

#[test]
fn mint_to_raises_supply_and_balance_together() {
    let mut mint = Mint { address: LOAN_MINT, authority: MARKET, supply: 2 };
    let mut to = TokenAccount { address: 21, owner: USER, mint: LOAN_MINT, amount: 3 };
    assert_eq!(mint_to(&mut mint, &mut to, 5, MARKET), Ok(()));
    assert_eq!(mint.supply, 7);
    assert_eq!(to.amount, 8);
}
