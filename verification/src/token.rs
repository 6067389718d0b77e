//! A model of the asset's own ownership/transfer primitive: accounts that
//! hold units of one asset, moved by their owner or by a delegate the owner
//! has approved for a bounded allowance.
//!
//! The escrow core treats this primitive as an external collaborator; the
//! model here captures exactly the behaviour the custody strategies rely on —
//! who may move units, and that a delegate's allowance is consumed (and the
//! delegation cleared) when it is exercised in full.

use vstd::prelude::*;

use crate::agreement::AccountId;
use crate::agreement::PurchaseErrors;

verus! {

/// One account of the asset primitive: `amount` units held under `owner`'s
/// authority, with at most one standing delegation.
#[derive(Clone, Copy, PartialEq, Eq, Debug)]
pub struct TokenAccount {
    /// The authority that owns the units in this account.
    pub owner: AccountId,
    /// Units of the asset currently held.
    pub amount: u64,
    /// A party the owner has approved to move units out of this account,
    /// if any.
    pub delegate: Option<AccountId>,
    /// How many units the delegate may still move; zero whenever no
    /// delegate stands.
    pub delegated_amount: u64,
}

impl TokenAccount {
    /// A token account never carries an allowance without a delegate.
    pub open spec fn wf(self) -> bool {
        self.delegate is None ==> self.delegated_amount == 0
    }

    /// Whether `authority` may move `amount` units out of this account:
    /// freely as its owner, or as its delegate within the remaining
    /// allowance. Having the units on hand is a separate question.
    pub open spec fn may_withdraw(self, authority: AccountId, amount: u64) -> bool {
        ||| authority == self.owner
        ||| (self.delegate == Some(authority) && amount <= self.delegated_amount)
    }

    /// A fresh, empty account under the given authority.
    pub fn new(owner: AccountId) -> (r: TokenAccount)
        ensures
            r == (TokenAccount { owner, amount: 0, delegate: None, delegated_amount: 0 }),
    {
        TokenAccount { owner, amount: 0, delegate: None, delegated_amount: 0 }
    }
}

/// What approving a delegate does: the owner (and only the owner) replaces
/// the standing delegation with `delegate`, allowed to move up to `amount`
/// units. Anyone else is refused and the account is left unchanged.
pub open spec fn spec_approve(
    acct: TokenAccount,
    authority: AccountId,
    delegate: AccountId,
    amount: u64,
) -> (TokenAccount, Result<(), PurchaseErrors>) {
    if authority == acct.owner {
        (
            TokenAccount { delegate: Some(delegate), delegated_amount: amount, ..acct },
            Ok(()),
        )
    } else {
        (acct, Err(PurchaseErrors::Unauthorized))
    }
}

/// What a transfer does. The mover must be the owner or a delegate within
/// its allowance, and the debited account must hold the units; otherwise
/// nothing changes. A delegate's allowance is reduced by what it moves, and
/// the delegation is cleared once the allowance is spent — after that the
/// same path cannot move anything again.
pub open spec fn spec_transfer(
    from: TokenAccount,
    to: TokenAccount,
    authority: AccountId,
    amount: u64,
) -> (TokenAccount, TokenAccount, Result<(), PurchaseErrors>) {
    if !from.may_withdraw(authority, amount) {
        (from, to, Err(PurchaseErrors::Unauthorized))
    } else if from.amount < amount {
        (from, to, Err(PurchaseErrors::BuyerDoNotHaveEnoughLamports))
    } else {
        let from2 = if authority == from.owner {
            TokenAccount { amount: (from.amount - amount) as u64, ..from }
        } else {
            let left = (from.delegated_amount - amount) as u64;
            TokenAccount {
                amount: (from.amount - amount) as u64,
                delegate: if left == 0 { None } else { from.delegate },
                delegated_amount: left,
                ..from
            }
        };
        let to2 = TokenAccount { amount: (to.amount + amount) as u64, ..to };
        (from2, to2, Ok(()))
    }
}

/// Replace the standing delegation on `acct`, as its owner.
pub fn approve(
    acct: TokenAccount,
    authority: AccountId,
    delegate: AccountId,
    amount: u64,
) -> (r: (TokenAccount, Result<(), PurchaseErrors>))
    ensures
        r == spec_approve(acct, authority, delegate, amount),
        acct.wf() ==> r.0.wf(),
{
    if authority == acct.owner {
        (
            TokenAccount { delegate: Some(delegate), delegated_amount: amount, ..acct },
            Ok(()),
        )
    } else {
        (acct, Err(PurchaseErrors::Unauthorized))
    }
}

/// Move `amount` units from `from` to `to` under `authority`, owner or
/// delegate; on any refusal both accounts come back unchanged.
pub fn transfer(
    from: TokenAccount,
    to: TokenAccount,
    authority: AccountId,
    amount: u64,
) -> (r: (TokenAccount, TokenAccount, Result<(), PurchaseErrors>))
    requires
        to.amount + amount <= u64::MAX,
    ensures
        r == spec_transfer(from, to, authority, amount),
        from.wf() && to.wf() ==> r.0.wf() && r.1.wf(),
{
    let authorized: bool = if authority == from.owner {
        true
    } else {
        match from.delegate {
            Some(d) => d == authority && amount <= from.delegated_amount,
            None => false,
        }
    };
    if !authorized {
        (from, to, Err(PurchaseErrors::Unauthorized))
    } else if from.amount < amount {
        (from, to, Err(PurchaseErrors::BuyerDoNotHaveEnoughLamports))
    } else {
        let from2 = if authority == from.owner {
            TokenAccount { amount: from.amount - amount, ..from }
        } else {
            let left: u64 = from.delegated_amount - amount;
            TokenAccount {
                amount: from.amount - amount,
                delegate: if left == 0 { None } else { from.delegate },
                delegated_amount: left,
                ..from
            }
        };
        let to2 = TokenAccount { amount: to.amount + amount, ..to };
        (from2, to2, Ok(()))
    }
}

} // verus!
