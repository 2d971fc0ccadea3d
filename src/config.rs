use vstd::prelude::*;
use crate::error::MarketplaceError;
use crate::types::Key;

verus! {

/// The market's singleton configuration, written once at initialization.
#[derive(Clone, Debug)]
pub struct MarketConfig {
    pub admin: Key,
    pub mint_fee_bps: u16,
    pub trade_fee_bps: u16,
    pub relist_fee_bps: u16,
    /// Derivation parameter of the treasury authority.
    pub treasury_bump: u8,
    pub multisig_admins: Vec<Key>,
    pub multisig_threshold: u8,
}

impl MarketConfig {
    /// The threshold is at least one and at most the roster size plus one
    /// (the primary admin counts as one implicit signer slot).
    pub open spec fn wf(&self) -> bool {
        1 <= self.multisig_threshold && self.multisig_threshold <= self.multisig_admins@.len() + 1
    }
}

/// The accounts of `initialize_market`.
#[derive(Clone, Copy, Debug, PartialEq, Eq, Structural)]
pub struct InitializeMarket {
    pub market_config: Key,
    pub treasury_pda: Key,
    /// Derivation parameter found for `treasury_pda`.
    pub treasury_bump: u8,
    pub admin: Key,
}

/// The accounts of `initialize_treasury`.
#[derive(Clone, Copy, Debug, PartialEq, Eq, Structural)]
pub struct InitializeTreasury {
    pub treasury_pda: Key,
    pub admin: Key,
}

/// Creates the market configuration, refusing a threshold of zero or one above
/// the roster size plus one.
pub fn initialize_market(
    ctx: &InitializeMarket,
    mint_fee_bps: u16,
    trade_fee_bps: u16,
    relist_fee_bps: u16,
    multisig_admins: Vec<Key>,
    multisig_threshold: u8,
) -> (r: Result<MarketConfig, MarketplaceError>)
    ensures
        r is Err <==> (multisig_threshold == 0 || multisig_threshold > multisig_admins@.len() + 1),
        r matches Err(e) ==> e == MarketplaceError::InvalidThreshold,
        r matches Ok(cfg) ==> {
            &&& cfg.wf()
            &&& cfg.admin == ctx.admin
            &&& cfg.mint_fee_bps == mint_fee_bps
            &&& cfg.trade_fee_bps == trade_fee_bps
            &&& cfg.relist_fee_bps == relist_fee_bps
            &&& cfg.treasury_bump == ctx.treasury_bump
            &&& cfg.multisig_admins@ == multisig_admins@
            &&& cfg.multisig_threshold == multisig_threshold
        },
{
    if multisig_threshold == 0 {
        return Err(MarketplaceError::InvalidThreshold);
    }
    if multisig_threshold as usize > multisig_admins.len() {
        if multisig_threshold as usize - multisig_admins.len() > 1 {
            return Err(MarketplaceError::InvalidThreshold);
        }
    }
    Ok(
        MarketConfig {
            admin: ctx.admin,
            mint_fee_bps,
            trade_fee_bps,
            relist_fee_bps,
            treasury_bump: ctx.treasury_bump,
            multisig_admins,
            multisig_threshold,
        },
    )
}

/// Creates the treasury account; it carries no state of its own.
pub fn initialize_treasury(ctx: &InitializeTreasury) -> (r: Result<(), MarketplaceError>)
    ensures
        r is Ok,
{
    Ok(())
}

} // verus!
