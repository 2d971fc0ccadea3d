use vstd::prelude::*;
use crate::config::MarketConfig;
use crate::error::MarketplaceError;
use crate::fee::{compute_fee, fee_of, sat_sub};
use crate::ledger::{transfer_amount, Action, TokenAccount};
use crate::types::{
    contains_key, native_mint_key, native_mint_spec, system_program_key, system_program_spec,
    token_program_key, token_program_spec, Key,
};

verus! {

/// The account whose balance measures a swap's proceeds.
#[derive(Clone, Copy, Debug, PartialEq, Eq, Structural)]
pub enum OutputAccount {
    /// A token account.
    Token(TokenAccount),
    /// Any other account, measured by its native balance.
    Native { key: Key, lamports: u64 },
}

/// The balance of the output account before the exchange, and its currency.
#[derive(Clone, Copy, Debug, PartialEq, Eq, Structural)]
pub struct SwapSnapshot {
    pub before: u64,
    pub output_mint: Key,
}

/// The accounts of `swap_token`.
#[derive(Clone, Debug)]
pub struct SwapToken {
    pub user: Key,
    /// The external exchange program.
    pub dex_program: Key,
    pub market_config: MarketConfig,
    pub treasury_pda: Key,
    pub output_mint: Key,
    pub treasury_token_account: Key,
    pub user_out_token_account: Key,
    /// The caller-supplied accounts handed to the exchange, by address.
    pub remaining_accounts: Vec<Key>,
}

/// What `swap_snapshot` decides.
pub open spec fn snapshot_of(out: OutputAccount, user: Key) -> Result<
    SwapSnapshot,
    MarketplaceError,
> {
    match out {
        OutputAccount::Token(t) => if t.owner != user {
            Err(MarketplaceError::InvalidOwner)
        } else {
            Ok(SwapSnapshot { before: t.amount, output_mint: t.mint })
        },
        OutputAccount::Native { lamports, .. } => Ok(
            SwapSnapshot { before: lamports, output_mint: native_mint_spec() },
        ),
    }
}

/// The balance that an output account shows.
pub open spec fn balance_of(out: OutputAccount) -> u64 {
    match out {
        OutputAccount::Token(t) => t.amount,
        OutputAccount::Native { lamports, .. } => lamports,
    }
}

/// Records the output account's balance before the exchange: a token account
/// must belong to the user, any other account is measured natively.
pub fn swap_snapshot(out: &OutputAccount, user: Key) -> (r: Result<SwapSnapshot, MarketplaceError>)
    ensures
        r == snapshot_of(*out, user),
{
    match out {
        OutputAccount::Token(t) => {
            if t.owner != user {
                Err(MarketplaceError::InvalidOwner)
            } else {
                Ok(SwapSnapshot { before: t.amount, output_mint: t.mint })
            }
        },
        OutputAccount::Native { lamports, .. } => Ok(
            SwapSnapshot { before: *lamports, output_mint: native_mint_key() },
        ),
    }
}

/// Reads the balance of the output account.
pub fn swap_balance(out: &OutputAccount) -> (r: u64)
    ensures
        r == balance_of(*out),
{
    match out {
        OutputAccount::Token(t) => t.amount,
        OutputAccount::Native { lamports, .. } => *lamports,
    }
}

/// The proceeds of a swap: the balance increase, or zero where it fell.
pub open spec fn out_amount(snap: SwapSnapshot, after: u64) -> u64 {
    sat_sub(after, snap.before)
}

/// What `swap_token` decides once the exchange ran.
pub open spec fn swap_outcome(ctx: SwapToken, snap: SwapSnapshot, after: u64) -> Result<
    Seq<Action>,
    MarketplaceError,
> {
    let fee = fee_of(out_amount(snap, after), ctx.market_config.trade_fee_bps);
    let present = ctx.remaining_accounts@;
    if fee > u64::MAX {
        Err(MarketplaceError::MathOverflow)
    } else if fee == 0 {
        Ok(Seq::empty())
    } else if !present.contains(ctx.user) || !present.contains(ctx.treasury_pda)
        || !present.contains(ctx.treasury_token_account) {
        Err(MarketplaceError::InvalidOwner)
    } else if snap.output_mint == native_mint_spec() {
        if !present.contains(system_program_spec()) {
            Err(MarketplaceError::InvalidOwner)
        } else {
            Ok(
                seq![
                    Action::NativeTransfer {
                        from: ctx.user,
                        to: ctx.treasury_pda,
                        amount: fee as u64,
                    },
                ],
            )
        }
    } else if !present.contains(token_program_spec()) || !present.contains(
        ctx.user_out_token_account,
    ) {
        Err(MarketplaceError::InvalidOwner)
    } else {
        Ok(
            seq![
                Action::TokenTransfer {
                    from: ctx.user_out_token_account,
                    to: ctx.treasury_token_account,
                    authority: ctx.user,
                    amount: fee as u64,
                },
            ],
        )
    }
}

/// Skims the trade fee off a swap's observed proceeds, `after - before` of the
/// output account (zero where the balance fell): with a fee above zero, one
/// transfer of it from the user to the treasury on the output's rail, once the
/// accounts it needs are found among the supplied ones; with none, nothing.
pub fn swap_token(ctx: &SwapToken, snap: SwapSnapshot, after: u64) -> (r: Result<
    Vec<Action>,
    MarketplaceError,
>)
    ensures
        r matches Ok(v) ==> swap_outcome(*ctx, snap, after) == Ok::<Seq<Action>, MarketplaceError>(
            v@,
        ),
        r matches Err(e) ==> swap_outcome(*ctx, snap, after) == Err::<Seq<Action>, MarketplaceError>(
            e,
        ),
        after <= snap.before ==> (r matches Ok(v) && v@.len() == 0),
        r matches Ok(v) ==> v@.len() <= 1 && (v@.len() == 1 ==> transfer_amount(v@[0]) == Some(
            fee_of(out_amount(snap, after), ctx.market_config.trade_fee_bps) as u64,
        )),
{
    let out = if after >= snap.before {
        after - snap.before
    } else {
        0
    };
    let trade_fee = match compute_fee(out, ctx.market_config.trade_fee_bps) {
        Ok(f) => f,
        Err(e) => return Err(e),
    };
    let mut actions: Vec<Action> = Vec::new();
    if trade_fee > 0 {
        let present = &ctx.remaining_accounts;
        if !contains_key(present, ctx.user) || !contains_key(present, ctx.treasury_pda)
            || !contains_key(present, ctx.treasury_token_account) {
            return Err(MarketplaceError::InvalidOwner);
        }
        if snap.output_mint == native_mint_key() {
            if !contains_key(present, system_program_key()) {
                return Err(MarketplaceError::InvalidOwner);
            }
            actions.push(
                Action::NativeTransfer { from: ctx.user, to: ctx.treasury_pda, amount: trade_fee },
            );
        } else {
            if !contains_key(present, token_program_key()) || !contains_key(
                present,
                ctx.user_out_token_account,
            ) {
                return Err(MarketplaceError::InvalidOwner);
            }
            actions.push(
                Action::TokenTransfer {
                    from: ctx.user_out_token_account,
                    to: ctx.treasury_token_account,
                    authority: ctx.user,
                    amount: trade_fee,
                },
            );
        }
        assert(swap_outcome(*ctx, snap, after)->Ok_0 =~= actions@);
    } else {
        assert(swap_outcome(*ctx, snap, after)->Ok_0 =~= actions@);
    }
    Ok(actions)
}

} // verus!
