use vstd::prelude::*;
use crate::types::Key;

verus! {

/// One value movement or authority change that the host ledger performs.
#[derive(Clone, Copy, Debug, PartialEq, Eq, Structural)]
pub enum Action {
    /// Native-currency transfer, debiting `from` and crediting `to`.
    NativeTransfer { from: Key, to: Key, amount: u64 },
    /// Fungible-token transfer between token accounts, authorized by `authority`.
    TokenTransfer { from: Key, to: Key, authority: Key, amount: u64 },
    /// Issue `amount` units of `mint` into token account `to`.
    MintTo { mint: Key, to: Key, authority: Key, amount: u64 },
    /// Irrevocably drop the issuance authority of `mint`.
    RevokeMintAuthority { mint: Key, authority: Key },
    /// Let `delegate` move up to `amount` units out of token account `account`.
    Approve { account: Key, delegate: Key, owner: Key, amount: u64 },
}

/// The amount that a transfer moves; `None` for other actions.
pub open spec fn transfer_amount(a: Action) -> Option<u64> {
    match a {
        Action::NativeTransfer { amount, .. } => Some(amount),
        Action::TokenTransfer { amount, .. } => Some(amount),
        _ => None,
    }
}

/// What the logic reads of a token account.
#[derive(Clone, Copy, Debug, PartialEq, Eq, Structural)]
pub struct TokenAccount {
    pub key: Key,
    pub mint: Key,
    pub owner: Key,
    pub amount: u64,
    pub delegate: Option<Key>,
    pub delegated_amount: u64,
}

/// What the logic reads of a token mint.
#[derive(Clone, Copy, Debug, PartialEq, Eq, Structural)]
pub struct Mint {
    pub key: Key,
    pub mint_authority: Option<Key>,
    pub supply: u64,
}

/// A single-leg transfer on the chosen rail, or nothing for a zero amount.
pub open spec fn transfer_seq(
    use_sol: bool,
    from: Key,
    to: Key,
    from_ata: Key,
    to_ata: Key,
    amount: u64,
) -> Seq<Action> {
    if amount == 0 {
        Seq::empty()
    } else if use_sol {
        seq![Action::NativeTransfer { from, to, amount }]
    } else {
        seq![Action::TokenTransfer { from: from_ata, to: to_ata, authority: from, amount }]
    }
}

/// `owner`'s token account after `delegate` moved one unit under its delegation.
pub open spec fn spent_one(a: TokenAccount) -> TokenAccount {
    let left = (a.delegated_amount - 1) as u64;
    TokenAccount {
        amount: (a.amount - 1) as u64,
        delegate: if left == 0 { None } else { a.delegate },
        delegated_amount: left,
        ..a
    }
}

/// Whether `authority` may move one unit out of `a` under a delegation.
pub open spec fn can_spend_one(a: TokenAccount, authority: Key) -> bool {
    a.delegate == Some(authority) && a.delegated_amount >= 1 && a.amount >= 1
}

pub fn check_spend_one(a: &TokenAccount, authority: Key) -> (r: bool)
    ensures
        r == can_spend_one(*a, authority),
{
    match a.delegate {
        Some(d) => d == authority && a.delegated_amount >= 1 && a.amount >= 1,
        None => false,
    }
}

/// Moves one unit out of `a` under the delegation of its delegate.
pub fn spend_one(a: &mut TokenAccount)
    requires
        old(a).delegated_amount >= 1,
        old(a).amount >= 1,
    ensures
        *final(a) == spent_one(*old(a)),
{
    a.amount = a.amount - 1;
    a.delegated_amount = a.delegated_amount - 1;
    if a.delegated_amount == 0 {
        a.delegate = None;
    }
}

} // verus!
