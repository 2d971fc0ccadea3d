use vstd::prelude::*;
use crate::config::MarketConfig;
use crate::error::MarketplaceError;
use crate::fee::{fee_of, push_leg, sat_sub, split_fee};
use crate::ledger::{transfer_seq, Action};
use crate::types::{native_mint_key, native_mint_spec, Key};

verus! {

/// The accounts of `send_token`.
#[derive(Clone, Debug)]
pub struct SendToken {
    pub sender: Key,
    pub recipient: Key,
    pub treasury_pda: Key,
    /// The currency sent: the native mint, or a token mint.
    pub mint: Key,
    pub sender_token_account: Key,
    pub recipient_token_account: Key,
    pub treasury_token_account: Key,
    pub market_config: MarketConfig,
}

/// The actions of a taxed transfer: the recipient leg, then the treasury leg.
pub open spec fn send_actions(ctx: SendToken, amount: u64) -> Seq<Action> {
    let fee = fee_of(amount, ctx.market_config.trade_fee_bps) as u64;
    let use_sol = ctx.mint == native_mint_spec();
    transfer_seq(
        use_sol,
        ctx.sender,
        ctx.recipient,
        ctx.sender_token_account,
        ctx.recipient_token_account,
        sat_sub(amount, fee),
    ) + transfer_seq(
        use_sol,
        ctx.sender,
        ctx.treasury_pda,
        ctx.sender_token_account,
        ctx.treasury_token_account,
        fee,
    )
}

/// Sends `amount` from sender to recipient, less the trade fee, which goes to
/// the treasury; on the native rail where the mint is the native mint.
pub fn send_token(ctx: &SendToken, amount: u64) -> (r: Result<Vec<Action>, MarketplaceError>)
    ensures
        r is Err <==> fee_of(amount, ctx.market_config.trade_fee_bps) > u64::MAX,
        r matches Err(e) ==> e == MarketplaceError::MathOverflow,
        r matches Ok(v) ==> v@ == send_actions(*ctx, amount),
{
    let split = match split_fee(amount, ctx.market_config.trade_fee_bps) {
        Ok(s) => s,
        Err(e) => return Err(e),
    };
    let use_sol = ctx.mint == native_mint_key();
    let mut actions: Vec<Action> = Vec::new();
    push_leg(
        &mut actions,
        use_sol,
        ctx.sender,
        ctx.recipient,
        ctx.sender_token_account,
        ctx.recipient_token_account,
        split.residual,
    );
    push_leg(
        &mut actions,
        use_sol,
        ctx.sender,
        ctx.treasury_pda,
        ctx.sender_token_account,
        ctx.treasury_token_account,
        split.fee,
    );
    Ok(actions)
}

} // verus!
