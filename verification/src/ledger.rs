//! The stored ledger and its global invariants.
//!
//! A `LedgerState` holds what the storage layer keeps for one deployed
//! lending pool: at most one market with its four custody accounts, and the
//! user positions bound to it. Every operation is an atomic transition: it
//! either commits a new state satisfying all invariants or rejects with a
//! specific error and changes nothing.
//!
//! The invariants, part of `LedgerState::wf` and preserved by every
//! operation:
//! - the market's collateral and borrowed totals each equal the sum of the
//!   corresponding field over all user positions (`aggregates_consistent`);
//! - every position's borrowed total stays within what its collateral
//!   justifies under the collateralization ratio (`positions_solvent`);
//! - the collateral custody's real balance equals the market's collateral
//!   total, and every linked account is the one the market registered.

use vstd::prelude::*;

use crate::errors::{LendingError, TokenError};
use crate::instructions::borrow_token::{borrow_token, BorrowToken};
use crate::instructions::create_user_account::{create_user_account, CreateUserAccount};
use crate::instructions::deposit_collateral::{deposit_collateral, DepositCollateral};
use crate::instructions::fund_loan_vault::{fund_loan_vault, FundLoanVault};
use crate::instructions::initialize_lending_market::{
    initialize_lending_market, initialized_market, InitializeLendingMarket, MarketAccounts,
};
use crate::states::{
    max_allowable_borrow, position_solvent, UserAccount, BPS_DENOMINATOR,
};
use crate::token::TokenAccount;

verus! {

/// Sum of `deposited_collateral_amount` over a sequence of positions.
pub open spec fn sum_deposited(positions: Seq<UserAccount>) -> int
    decreases positions.len(),
{
    if positions.len() == 0 {
        0
    } else {
        sum_deposited(positions.drop_last()) + positions.last().deposited_collateral_amount
    }
}

/// Sum of `borrowed_amount` over a sequence of positions.
pub open spec fn sum_borrowed(positions: Seq<UserAccount>) -> int
    decreases positions.len(),
{
    if positions.len() == 0 {
        0
    } else {
        sum_borrowed(positions.drop_last()) + positions.last().borrowed_amount
    }
}

proof fn lemma_sum_push(positions: Seq<UserAccount>, position: UserAccount)
    ensures
        sum_deposited(positions.push(position)) == sum_deposited(positions)
            + position.deposited_collateral_amount,
        sum_borrowed(positions.push(position)) == sum_borrowed(positions)
            + position.borrowed_amount,
{
    assert(positions.push(position).drop_last() =~= positions);
}

proof fn lemma_sum_update(positions: Seq<UserAccount>, i: int, position: UserAccount)
    requires
        0 <= i < positions.len(),
    ensures
        sum_deposited(positions.update(i, position)) == sum_deposited(positions) - positions[
            i
        ].deposited_collateral_amount + position.deposited_collateral_amount,
        sum_borrowed(positions.update(i, position)) == sum_borrowed(positions) - positions[
            i
        ].borrowed_amount + position.borrowed_amount,
    decreases positions.len(),
{
    if i == positions.len() - 1 {
        assert(positions.update(i, position).drop_last() =~= positions.drop_last());
    } else {
        lemma_sum_update(positions.drop_last(), i, position);
        assert(positions.update(i, position).drop_last() =~= positions.drop_last().update(
            i,
            position,
        ));
    }
}

/// Raising a position's collateral never lowers its borrowing bound.
proof fn lemma_max_borrow_monotonic(a: u64, b: u64, ratio_bps: u16)
    requires
        a <= b,
        ratio_bps > 0,
    ensures
        max_allowable_borrow(a, ratio_bps) <= max_allowable_borrow(b, ratio_bps),
{
    vstd::arithmetic::mul::lemma_mul_inequality(
        a as int,
        b as int,
        BPS_DENOMINATOR as int,
    );
    vstd::arithmetic::div_mod::lemma_div_is_ordered(
        a * BPS_DENOMINATOR,
        b * BPS_DENOMINATOR,
        ratio_bps as int,
    );
}

/// The stored state of one deployed lending pool.
pub struct LedgerState {
    /// The market and its custody accounts, once initialized.
    pub market: Option<MarketAccounts>,
    /// All user positions bound to the market.
    pub users: Vec<UserAccount>,
}

impl LedgerState {
    /// Whether a position owned by `owner` exists.
    pub open spec fn has_position(self, owner: u64) -> bool {
        exists|i: int| 0 <= i < self.users@.len() && self.users@[i].user == owner
    }

    /// The index of the position owned by `owner`; positions are unique per
    /// owner in a well-formed state.
    pub open spec fn position_index(self, owner: u64) -> int {
        choose|i: int| 0 <= i < self.users@.len() && self.users@[i].user == owner
    }

    /// The position owned by `owner`.
    pub open spec fn position_of(self, owner: u64) -> UserAccount {
        self.users@[self.position_index(owner)]
    }

    /// The market's running totals each reconcile with the sum of the
    /// corresponding field over all user positions bound to it.
    pub open spec fn aggregates_consistent(self) -> bool {
        self.market matches Some(m) ==> {
            &&& m.market.collateral_amount == sum_deposited(self.users@)
            &&& m.market.borrowed_amount == sum_borrowed(self.users@)
        }
    }

    /// Every position's borrowed total stays within what its deposited
    /// collateral justifies under the market's collateralization ratio.
    pub open spec fn positions_solvent(self) -> bool {
        self.market matches Some(m) ==> forall|i: int|
            #![trigger self.users@[i]]
            0 <= i < self.users@.len() ==> position_solvent(
                self.users@[i],
                m.market.collateral_ratio_bps,
            )
    }

    /// Well-formedness of a stored state: before initialization nothing
    /// else exists; afterwards the market's linked accounts are consistent,
    /// the collateral custody's real balance equals the collateral total,
    /// every position is bound to this market and owned by a distinct
    /// principal, and the aggregate and solvency invariants hold.
    pub open spec fn wf(self) -> bool {
        &&& (self.market is None ==> self.users@.len() == 0)
        &&& (self.market matches Some(m) ==> {
            &&& m.wf()
            &&& m.collateral_vault.amount == m.market.collateral_amount
            &&& forall|i: int|
                #![trigger self.users@[i]]
                0 <= i < self.users@.len() ==> self.users@[i].lending_market == m.market.address
            &&& forall|i: int, j: int|
                #![trigger self.users@[i], self.users@[j]]
                0 <= i < j < self.users@.len() ==> self.users@[i].user != self.users@[j].user
        })
        &&& self.aggregates_consistent()
        &&& self.positions_solvent()
    }

    /// An empty ledger: no market, no positions.
    pub fn new() -> (s: LedgerState)
        ensures
            s.wf(),
            s.market is None,
            s.users@.len() == 0,
    {
        LedgerState { market: None, users: Vec::new() }
    }

    /// Creates the market and its four custody accounts. Fails with
    /// `MarketAlreadyInitialized` if a market record already occupies this
    /// ledger — a second initialization never silently succeeds or
    /// overwrites — and with `IdenticalCollateralAndLoanMints` if the two
    /// requested assets coincide; in both cases nothing changes.
    pub fn initialize_lending_market(&mut self, ctx: &InitializeLendingMarket) -> (r: Result<
        (),
        LendingError,
    >)
        requires
            old(self).wf(),
        ensures
            final(self).wf(),
            old(self).market is Some ==> r == Err::<(), LendingError>(
                LendingError::MarketAlreadyInitialized,
            ) && *final(self) == *old(self),
            old(self).market is None && ctx.collateral_mint == ctx.loan_mint ==> r == Err::<
                (),
                LendingError,
            >(LendingError::IdenticalCollateralAndLoanMints) && *final(self) == *old(self),
            old(self).market is None && ctx.collateral_mint != ctx.loan_mint ==> r == Ok::<
                (),
                LendingError,
            >(()) && final(self).market == Some(initialized_market(*ctx)) && final(self).users@
                =~= old(self).users@,
    {
        if self.market.is_some() {
            return Err(LendingError::MarketAlreadyInitialized);
        }
        match initialize_lending_market(ctx) {
            Ok(accounts) => {
                self.market = Some(accounts);
                Ok(())
            },
            Err(e) => Err(e),
        }
    }

    /// Creates a zeroed position bound to the acting principal and this
    /// market. Fails with `UserAccountAlreadyExists` if the principal
    /// already has one — a duplicate creation never silently succeeds or
    /// overwrites — and with `MarketNotInitialized` before the market
    /// exists; in both cases nothing changes.
    pub fn create_user_account(&mut self, acting: u64, bump: u8) -> (r: Result<(), LendingError>)
        requires
            old(self).wf(),
        ensures
            final(self).wf(),
            old(self).market is None ==> r == Err::<(), LendingError>(
                LendingError::MarketNotInitialized,
            ) && *final(self) == *old(self),
            old(self).market is Some && old(self).has_position(acting) ==> r == Err::<
                (),
                LendingError,
            >(LendingError::UserAccountAlreadyExists) && *final(self) == *old(self),
            old(self).market is Some && !old(self).has_position(acting) ==> {
                &&& r == Ok::<(), LendingError>(())
                &&& final(self).market == old(self).market
                &&& final(self).users@ =~= old(self).users@.push(
                    UserAccount {
                        user: acting,
                        lending_market: old(self).market.unwrap().market.address,
                        deposited_collateral_amount: 0,
                        borrowed_amount: 0,
                        bump,
                    },
                )
            },
    {
        let market_accounts = match self.market {
            Some(m) => m,
            None => {
                return Err(LendingError::MarketNotInitialized);
            },
        };
        match self.find_position(acting) {
            Some(_) => Err(LendingError::UserAccountAlreadyExists),
            None => {
                let ctx = CreateUserAccount {
                    user: acting,
                    lending_market: market_accounts.market,
                    bump,
                };
                let position = create_user_account(&ctx);
                proof {
                    lemma_sum_push(self.users@, position);
                }
                self.users.push(position);
                Ok(())
            },
        }
    }

    /// The error, if any, that rejects a deposit of `amount` by `acting`
    /// from `wallet` against this state; `None` means the deposit is owed
    /// success. Checks run in this order, and all of them precede any
    /// write, so a rejected deposit changes nothing at all.
    pub open spec fn deposit_error(
        self,
        acting: u64,
        wallet: TokenAccount,
        amount: u64,
    ) -> Option<LendingError> {
        if self.market is None {
            Some(LendingError::MarketNotInitialized)
        } else if !self.has_position(acting) {
            Some(LendingError::MismatchedUserAccountOwner)
        } else {
            let m = self.market.unwrap();
            let position = self.position_of(acting);
            if wallet.owner != acting {
                Some(LendingError::MismatchedCollateralTokenAccountOwner)
            } else if wallet.mint != m.market.collateral_mint {
                Some(LendingError::MismatchedCollateralMint)
            } else if position.deposited_collateral_amount + amount > u64::MAX {
                Some(LendingError::UserCollateralOverflow)
            } else if m.market.collateral_amount + amount > u64::MAX {
                Some(LendingError::MarketCollateralOverflow)
            } else if m.collateral_mint.supply + amount > u64::MAX {
                Some(LendingError::TransferFault(TokenError::SupplyOverflow))
            } else if wallet.amount + amount > u64::MAX {
                Some(LendingError::TransferFault(TokenError::AmountOverflow))
            } else {
                None
            }
        }
    }

    /// Deposits `amount` of collateral for `acting`: the market issues the
    /// collateral to the principal's holding account and moves it into the
    /// collateral custody, then credits the user's and the market's
    /// collateral totals together, keeping them reconciled. A rejected
    /// deposit reports exactly `deposit_error` and leaves the state and the
    /// holding account untouched; a zero deposit succeeds trivially. The
    /// holding account ends as it began: what is issued into it moves on
    /// into custody whole.
    pub fn deposit_collateral(
        &mut self,
        acting: u64,
        wallet: &mut TokenAccount,
        amount: u64,
    ) -> (r: Result<(), LendingError>)
        requires
            old(self).wf(),
        ensures
            final(self).wf(),
            match old(self).deposit_error(acting, *old(wallet), amount) {
                Some(e) => {
                    &&& r == Err::<(), LendingError>(e)
                    &&& *final(self) == *old(self)
                    &&& *final(wallet) == *old(wallet)
                },
                None => {
                    &&& r == Ok::<(), LendingError>(())
                    &&& *final(wallet) == *old(wallet)
                    &&& final(self).users@ =~= old(self).users@.update(
                        old(self).position_index(acting),
                        UserAccount {
                            deposited_collateral_amount: (old(self).position_of(
                                acting,
                            ).deposited_collateral_amount + amount) as u64,
                            ..old(self).position_of(acting)
                        },
                    )
                    &&& final(self).market matches Some(m)
                    &&& m.market == (crate::states::LendingMarket {
                        collateral_amount: (old(self).market.unwrap().market.collateral_amount
                            + amount) as u64,
                        ..old(self).market.unwrap().market
                    })
                    &&& m.collateral_vault.amount == old(
                        self,
                    ).market.unwrap().collateral_vault.amount + amount
                    &&& m.collateral_mint.supply == old(self).market.unwrap().collateral_mint.supply
                        + amount
                    &&& m.loan_mint == old(self).market.unwrap().loan_mint
                    &&& m.loan_vault == old(self).market.unwrap().loan_vault
                },
            },
    {
        let market_accounts = match self.market {
            Some(m) => m,
            None => {
                return Err(LendingError::MarketNotInitialized);
            },
        };
        let index = match self.find_position(acting) {
            Some(i) => i,
            None => {
                return Err(LendingError::MismatchedUserAccountOwner);
            },
        };
        proof {
            let chosen = old(self).position_index(acting);
            assert(0 <= chosen < old(self).users@.len() && old(self).users@[chosen].user
                == acting);
            assert(index as int == chosen);
        }
        let mut ctx = DepositCollateral {
            user: acting,
            user_account: self.users[index],
            lending_market: market_accounts.market,
            collateral_mint: market_accounts.collateral_mint,
            user_collateral_token_account: *wallet,
            collateral_vault: market_accounts.collateral_vault,
        };
        let r = deposit_collateral(&mut ctx, amount);
        match r {
            Err(e) => {
                // Every rejection happens before custody or ledger writes:
                // the onward transfer into the vault cannot fail once the
                // issuance succeeded, because the vault balance equals the
                // market total whose overflow check already passed.
                Err(e)
            },
            Ok(()) => {
                proof {
                    lemma_sum_update(self.users@, index as int, ctx.user_account);
                }
                self.users[index] = ctx.user_account;
                self.market = Some(
                    MarketAccounts {
                        market: ctx.lending_market,
                        collateral_mint: ctx.collateral_mint,
                        collateral_vault: ctx.collateral_vault,
                        loan_mint: market_accounts.loan_mint,
                        loan_vault: market_accounts.loan_vault,
                    },
                );
                *wallet = ctx.user_collateral_token_account;
                proof {
                    let m = self.market.unwrap();
                    assert forall|i: int| 0 <= i < self.users@.len() implies position_solvent(
                        #[trigger] self.users@[i],
                        m.market.collateral_ratio_bps,
                    ) by {
                        if i == index as int {
                            lemma_max_borrow_monotonic(
                                old(self).users@[i].deposited_collateral_amount,
                                self.users@[i].deposited_collateral_amount,
                                m.market.collateral_ratio_bps,
                            );
                        }
                    }
                }
                Ok(())
            },
        }
    }

    /// The error, if any, that rejects a borrow of `amount` by `acting`
    /// into `wallet` against this state; `None` means the borrow is owed
    /// success. Checks run in this order, and all of them precede any
    /// write, so a rejected borrow changes nothing at all.
    pub open spec fn borrow_error(
        self,
        acting: u64,
        wallet: TokenAccount,
        amount: u64,
    ) -> Option<LendingError> {
        if self.market is None {
            Some(LendingError::MarketNotInitialized)
        } else if !self.has_position(acting) {
            Some(LendingError::MismatchedUserAccountOwner)
        } else {
            let m = self.market.unwrap();
            let position = self.position_of(acting);
            if position.deposited_collateral_amount * BPS_DENOMINATOR > u64::MAX {
                Some(LendingError::UserBorrowOverflow)
            } else if position.borrowed_amount + amount > u64::MAX {
                Some(LendingError::UserBorrowOverflow)
            } else if m.market.borrowed_amount + amount > u64::MAX {
                Some(LendingError::MarketBorrowOverflow)
            } else if m.market.borrowed_amount + amount > m.loan_vault.amount {
                Some(LendingError::InsufficientLoanVaultLiquidity)
            } else if position.borrowed_amount + amount > max_allowable_borrow(
                position.deposited_collateral_amount,
                m.market.collateral_ratio_bps,
            ) {
                Some(LendingError::UserMaxBorrowExceeded)
            } else if wallet.mint != m.market.loan_mint {
                Some(LendingError::TransferFault(TokenError::MintMismatch))
            } else if wallet.amount + amount > u64::MAX {
                Some(LendingError::TransferFault(TokenError::AmountOverflow))
            } else {
                None
            }
        }
    }

    /// Borrows `amount` of the loan asset for `acting` against the
    /// position's collateral: validates solvency against the
    /// collateralization ratio and liquidity against the funds actually
    /// held in the loan custody, moves the funds out under the market's
    /// authority, and credits the user's and the market's borrowed totals
    /// together, keeping them reconciled. A rejected borrow reports exactly
    /// `borrow_error` and leaves the state and the destination account
    /// untouched.
    ///
    /// After a committed borrow the new market borrowed total is covered by
    /// the custody balance the liquidity check observed; it is covered by
    /// the remaining custody balance as well whenever that balance exceeded
    /// the new total by at least the amount moved out.
    pub fn borrow_token(&mut self, acting: u64, wallet: &mut TokenAccount, amount: u64) -> (r:
        Result<(), LendingError>)
        requires
            old(self).wf(),
        ensures
            final(self).wf(),
            match old(self).borrow_error(acting, *old(wallet), amount) {
                Some(e) => {
                    &&& r == Err::<(), LendingError>(e)
                    &&& *final(self) == *old(self)
                    &&& *final(wallet) == *old(wallet)
                },
                None => {
                    &&& r == Ok::<(), LendingError>(())
                    &&& *final(wallet) == (TokenAccount {
                        amount: (old(wallet).amount + amount) as u64,
                        ..*old(wallet)
                    })
                    &&& final(self).users@ =~= old(self).users@.update(
                        old(self).position_index(acting),
                        UserAccount {
                            borrowed_amount: (old(self).position_of(acting).borrowed_amount
                                + amount) as u64,
                            ..old(self).position_of(acting)
                        },
                    )
                    &&& final(self).market matches Some(m)
                    &&& m.market == (crate::states::LendingMarket {
                        borrowed_amount: (old(self).market.unwrap().market.borrowed_amount
                            + amount) as u64,
                        ..old(self).market.unwrap().market
                    })
                    &&& m.loan_vault.amount == old(self).market.unwrap().loan_vault.amount - amount
                    &&& m.loan_mint == old(self).market.unwrap().loan_mint
                    &&& m.collateral_mint == old(self).market.unwrap().collateral_mint
                    &&& m.collateral_vault == old(self).market.unwrap().collateral_vault
                    &&& m.market.borrowed_amount <= old(self).market.unwrap().loan_vault.amount
                    &&& old(self).market.unwrap().market.borrowed_amount + 2 * amount <= old(
                        self,
                    ).market.unwrap().loan_vault.amount ==> m.market.borrowed_amount
                        <= m.loan_vault.amount
                },
            },
    {
        let market_accounts = match self.market {
            Some(m) => m,
            None => {
                return Err(LendingError::MarketNotInitialized);
            },
        };
        let index = match self.find_position(acting) {
            Some(i) => i,
            None => {
                return Err(LendingError::MismatchedUserAccountOwner);
            },
        };
        proof {
            let chosen = old(self).position_index(acting);
            assert(0 <= chosen < old(self).users@.len() && old(self).users@[chosen].user
                == acting);
            assert(index as int == chosen);
        }
        let mut ctx = BorrowToken {
            user: acting,
            user_account: self.users[index],
            lending_market: market_accounts.market,
            user_loan_token_account: *wallet,
            loan_vault: market_accounts.loan_vault,
        };
        let r = borrow_token(&mut ctx, amount);
        match r {
            Err(e) => Err(e),
            Ok(()) => {
                proof {
                    lemma_sum_update(self.users@, index as int, ctx.user_account);
                }
                self.users[index] = ctx.user_account;
                self.market = Some(
                    MarketAccounts {
                        market: ctx.lending_market,
                        loan_vault: ctx.loan_vault,
                        collateral_mint: market_accounts.collateral_mint,
                        collateral_vault: market_accounts.collateral_vault,
                        loan_mint: market_accounts.loan_mint,
                    },
                );
                *wallet = ctx.user_loan_token_account;
                proof {
                    let m = self.market.unwrap();
                    assert forall|i: int| 0 <= i < self.users@.len() implies position_solvent(
                        #[trigger] self.users@[i],
                        m.market.collateral_ratio_bps,
                    ) by {}
                }
                Ok(())
            },
        }
    }

    /// The error, if any, that rejects a funding of `amount` by `acting`
    /// against this state; `None` means the funding is owed success. Checks
    /// run in this order, and all of them precede any write.
    pub open spec fn fund_error(self, acting: u64, amount: u64) -> Option<LendingError> {
        if self.market is None {
            Some(LendingError::MarketNotInitialized)
        } else {
            let m = self.market.unwrap();
            if m.market.authority != acting {
                Some(LendingError::MismatchedMarketAuthority)
            } else if m.loan_mint.supply + amount > u64::MAX {
                Some(LendingError::TransferFault(TokenError::SupplyOverflow))
            } else if m.loan_vault.amount + amount > u64::MAX {
                Some(LendingError::TransferFault(TokenError::AmountOverflow))
            } else {
                None
            }
        }
    }

    /// Tops up the loan custody: issues `amount` of the loan asset directly
    /// into it, authorized by the market on behalf of its administrator —
    /// any other caller is rejected. No market or user-position ledger
    /// field changes, only the custody's real balance, which later borrows
    /// observe through their liquidity check.
    pub fn fund_loan_vault(&mut self, acting: u64, amount: u64) -> (r: Result<(), LendingError>)
        requires
            old(self).wf(),
        ensures
            final(self).wf(),
            final(self).users@ =~= old(self).users@,
            match old(self).fund_error(acting, amount) {
                Some(e) => r == Err::<(), LendingError>(e) && *final(self) == *old(self),
                None => {
                    &&& r == Ok::<(), LendingError>(())
                    &&& final(self).market matches Some(m)
                    &&& m.market == old(self).market.unwrap().market
                    &&& m.loan_vault.amount == old(self).market.unwrap().loan_vault.amount + amount
                    &&& m.loan_mint.supply == old(self).market.unwrap().loan_mint.supply + amount
                    &&& m.collateral_mint == old(self).market.unwrap().collateral_mint
                    &&& m.collateral_vault == old(self).market.unwrap().collateral_vault
                },
            },
    {
        let market_accounts = match self.market {
            Some(m) => m,
            None => {
                return Err(LendingError::MarketNotInitialized);
            },
        };
        let mut ctx = FundLoanVault {
            authority: acting,
            lending_market: market_accounts.market,
            loan_mint: market_accounts.loan_mint,
            loan_vault: market_accounts.loan_vault,
        };
        let r = fund_loan_vault(&mut ctx, amount);
        match r {
            Err(e) => Err(e),
            Ok(()) => {
                self.market = Some(
                    MarketAccounts {
                        market: market_accounts.market,
                        collateral_mint: market_accounts.collateral_mint,
                        collateral_vault: market_accounts.collateral_vault,
                        loan_mint: ctx.loan_mint,
                        loan_vault: ctx.loan_vault,
                    },
                );
                Ok(())
            },
        }
    }

    /// Looks up the position owned by `owner`.
    pub fn find_position(&self, owner: u64) -> (r: Option<usize>)
        ensures
            match r {
                Some(i) => i < self.users@.len() && self.users@[i as int].user == owner,
                None => !self.has_position(owner),
            },
    {
        let mut i: usize = 0;
        while i < self.users.len()
            invariant
                i <= self.users@.len(),
                forall|j: int| 0 <= j < i ==> self.users@[j].user != owner,
            decreases self.users@.len() - i,
        {
            if self.users[i].user == owner {
                return Some(i);
            }
            i = i + 1;
        }
        None
    }
}

} // verus!
