//! Plain-value model of the transfer/issuance collaborator.
//!
//! The lending core never moves value itself: it asks this layer to transfer
//! tokens between custodial balances or to issue new tokens into one. Both
//! operations are atomic — every fault is reported before any balance is
//! written — and every fault aborts the surrounding ledger operation.

use vstd::prelude::*;

use crate::errors::TokenError;

verus! {

/// An asset registry: the authority allowed to issue the asset, and the
/// total amount issued so far.
#[derive(Clone, Copy, Debug, PartialEq, Eq, Structural)]
pub struct Mint {
    /// The address identifying this asset.
    pub address: u64,
    /// The sole principal allowed to issue this asset.
    pub authority: u64,
    /// Total amount of the asset issued so far.
    pub supply: u64,
}

/// One balance of one asset, controlled by its owner alone.
#[derive(Clone, Copy, Debug, PartialEq, Eq, Structural)]
pub struct TokenAccount {
    /// The address identifying this balance.
    pub address: u64,
    /// The sole principal allowed to move funds out of this balance.
    pub owner: u64,
    /// The asset this balance is denominated in.
    pub mint: u64,
    /// The amount currently held.
    pub amount: u64,
}

/// The fault, if any, that `transfer` reports for these arguments; `None`
/// means the transfer goes through. Checks run in this order and all precede
/// any write.
pub open spec fn transfer_fault(
    from: TokenAccount,
    to: TokenAccount,
    amount: u64,
    authority: u64,
) -> Option<TokenError> {
    if authority != from.owner {
        Some(TokenError::AuthorityMismatch)
    } else if from.mint != to.mint {
        Some(TokenError::MintMismatch)
    } else if from.amount < amount {
        Some(TokenError::InsufficientFunds)
    } else if to.amount + amount > u64::MAX {
        Some(TokenError::AmountOverflow)
    } else {
        None
    }
}

/// Moves `amount` of one asset between two balances, authorized by the
/// source balance's owner. Atomic: on any fault neither balance changes.
pub fn transfer(
    from: &mut TokenAccount,
    to: &mut TokenAccount,
    amount: u64,
    authority: u64,
) -> (r: Result<(), TokenError>)
    ensures
        match transfer_fault(*old(from), *old(to), amount, authority) {
            Some(fault) => r == Err::<(), TokenError>(fault),
            None => r == Ok::<(), TokenError>(()),
        },
        r is Err ==> *final(from) == *old(from) && *final(to) == *old(to),
        r is Ok ==> *final(from) == (TokenAccount {
            amount: (old(from).amount - amount) as u64,
            ..*old(from)
        }),
        r is Ok ==> *final(to) == (TokenAccount {
            amount: (old(to).amount + amount) as u64,
            ..*old(to)
        }),
{
    if authority != from.owner {
        return Err(TokenError::AuthorityMismatch);
    }
    if from.mint != to.mint {
        return Err(TokenError::MintMismatch);
    }
    if from.amount < amount {
        return Err(TokenError::InsufficientFunds);
    }
    if to.amount > u64::MAX - amount {
        return Err(TokenError::AmountOverflow);
    }
    from.amount = from.amount - amount;
    to.amount = to.amount + amount;
    Ok(())
}

/// The fault, if any, that `mint_to` reports for these arguments; `None`
/// means the issuance goes through. Checks run in this order and all precede
/// any write.
pub open spec fn mint_to_fault(
    mint: Mint,
    to: TokenAccount,
    amount: u64,
    authority: u64,
) -> Option<TokenError> {
    if authority != mint.authority {
        Some(TokenError::AuthorityMismatch)
    } else if to.mint != mint.address {
        Some(TokenError::MintMismatch)
    } else if mint.supply + amount > u64::MAX {
        Some(TokenError::SupplyOverflow)
    } else if to.amount + amount > u64::MAX {
        Some(TokenError::AmountOverflow)
    } else {
        None
    }
}

/// Issues `amount` of the asset directly into `to`, authorized by the
/// mint's authority. Atomic: on any fault neither the supply nor the
/// destination balance changes.
pub fn mint_to(
    mint: &mut Mint,
    to: &mut TokenAccount,
    amount: u64,
    authority: u64,
) -> (r: Result<(), TokenError>)
    ensures
        match mint_to_fault(*old(mint), *old(to), amount, authority) {
            Some(fault) => r == Err::<(), TokenError>(fault),
            None => r == Ok::<(), TokenError>(()),
        },
        r is Err ==> *final(mint) == *old(mint) && *final(to) == *old(to),
        r is Ok ==> *final(mint) == (Mint {
            supply: (old(mint).supply + amount) as u64,
            ..*old(mint)
        }),
        r is Ok ==> *final(to) == (TokenAccount {
            amount: (old(to).amount + amount) as u64,
            ..*old(to)
        }),
{
    if authority != mint.authority {
        return Err(TokenError::AuthorityMismatch);
    }
    if to.mint != mint.address {
        return Err(TokenError::MintMismatch);
    }
    if mint.supply > u64::MAX - amount {
        return Err(TokenError::SupplyOverflow);
    }
    if to.amount > u64::MAX - amount {
        return Err(TokenError::AmountOverflow);
    }
    mint.supply = mint.supply + amount;
    to.amount = to.amount + amount;
    Ok(())
}

} // verus!
