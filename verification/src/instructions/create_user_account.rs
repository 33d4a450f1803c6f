use vstd::prelude::*;

use crate::states::{LendingMarket, UserAccount};

verus! {

/// Inputs of position creation: the acting principal and the target market.
#[derive(Clone, Copy, Debug, PartialEq, Eq, Structural)]
pub struct CreateUserAccount {
    /// The acting principal; becomes the position's owner.
    pub user: u64,
    /// The market the new position is bound to.
    pub lending_market: LendingMarket,
    /// Derivation seed byte of the position's address.
    pub bump: u8,
}

/// Creates exactly one user position bound to the acting principal and the
/// target market, with both balances zero. Duplicate detection is the
/// storage layer's: it refuses to create a position whose address is
/// already occupied.
pub fn create_user_account(ctx: &CreateUserAccount) -> (position: UserAccount)
    ensures
        position == (UserAccount {
            user: ctx.user,
            lending_market: ctx.lending_market.address,
            deposited_collateral_amount: 0,
            borrowed_amount: 0,
            bump: ctx.bump,
        }),
{
    UserAccount {
        user: ctx.user,
        lending_market: ctx.lending_market.address,
        deposited_collateral_amount: 0,
        borrowed_amount: 0,
        bump: ctx.bump,
    }
}

} // verus!
