use vstd::prelude::*;
use crate::config::MarketConfig;
use crate::error::MarketplaceError;
use crate::fee::{compute_fee, fee_of, push_leg, sat_sub};
use crate::ledger::{can_spend_one, check_spend_one, spend_one, spent_one, transfer_seq, Action, TokenAccount};
use crate::listing::Listing;
use crate::types::Key;

verus! {

/// The accounts of `buy_nft`.
#[derive(Clone, Debug)]
pub struct BuyNft {
    pub listing: Listing,
    pub buyer: Key,
    /// The party presented as seller.
    pub seller: Key,
    /// The buyer's token account, or the buyer itself to pay natively.
    pub buyer_payment_ata: Key,
    pub seller_payment_ata: Key,
    pub treasury_token_account: Key,
    pub treasury_pda: Key,
    /// The seller's token account holding the asset.
    pub seller_nft_ata: TokenAccount,
    pub buyer_nft_ata: Key,
    pub market_config: MarketConfig,
    /// The asset-scoped escrow authority.
    pub escrow_signer: Key,
}

/// Why `buy_nft` refuses, if it does.
pub open spec fn buy_refusal(ctx: BuyNft) -> Option<MarketplaceError> {
    if ctx.listing.seller != ctx.seller {
        Some(MarketplaceError::InvalidOwner)
    } else if fee_of(ctx.listing.price, ctx.market_config.trade_fee_bps) > u64::MAX {
        Some(MarketplaceError::MathOverflow)
    } else if !can_spend_one(ctx.seller_nft_ata, ctx.escrow_signer) {
        Some(MarketplaceError::NotDelegated)
    } else {
        None
    }
}

/// The actions of a purchase: the seller leg and the treasury leg of the
/// payment, on the native rail where the buyer pays from its own account,
/// then the escrow authority's transfer of the asset to the buyer.
pub open spec fn buy_actions(ctx: BuyNft) -> Seq<Action> {
    let fee = fee_of(ctx.listing.price, ctx.market_config.trade_fee_bps) as u64;
    let seller_amount = sat_sub(ctx.listing.price, fee);
    let native = ctx.buyer_payment_ata == ctx.buyer;
    transfer_seq(
        native,
        ctx.buyer,
        ctx.seller,
        ctx.buyer_payment_ata,
        ctx.seller_payment_ata,
        seller_amount,
    ) + transfer_seq(
        native,
        ctx.buyer,
        ctx.treasury_pda,
        ctx.buyer_payment_ata,
        ctx.treasury_token_account,
        fee,
    ) + seq![
        Action::TokenTransfer {
            from: ctx.seller_nft_ata.key,
            to: ctx.buyer_nft_ata,
            authority: ctx.escrow_signer,
            amount: 1,
        },
    ]
}

/// Buys a listed asset at its price: the seller gets the price less the trade
/// fee, the treasury gets the fee, and the escrow authority moves the asset to
/// the buyer. A presented seller other than the listing's refuses with
/// `InvalidOwner`, and a refusal changes nothing.
pub fn buy_nft(ctx: &mut BuyNft) -> (r: Result<Vec<Action>, MarketplaceError>)
    ensures
        r matches Err(e) ==> buy_refusal(*old(ctx)) == Some(e) && *final(ctx) == *old(ctx),
        r matches Ok(v) ==> {
            &&& buy_refusal(*old(ctx)) is None
            &&& v@ == buy_actions(*old(ctx))
            &&& *final(ctx) == (BuyNft {
                seller_nft_ata: spent_one(old(ctx).seller_nft_ata),
                ..*old(ctx)
            })
        },
        old(ctx).listing.seller != old(ctx).seller ==> r == Err::<Vec<Action>, MarketplaceError>(
            MarketplaceError::InvalidOwner,
        ),
{
    if ctx.listing.seller != ctx.seller {
        return Err(MarketplaceError::InvalidOwner);
    }
    let trade_fee = match compute_fee(ctx.listing.price, ctx.market_config.trade_fee_bps) {
        Ok(f) => f,
        Err(e) => return Err(e),
    };
    if !check_spend_one(&ctx.seller_nft_ata, ctx.escrow_signer) {
        return Err(MarketplaceError::NotDelegated);
    }
    let seller_amount = if trade_fee <= ctx.listing.price {
        ctx.listing.price - trade_fee
    } else {
        0
    };
    let native = ctx.buyer_payment_ata == ctx.buyer;
    let mut actions: Vec<Action> = Vec::new();
    push_leg(
        &mut actions,
        native,
        ctx.buyer,
        ctx.seller,
        ctx.buyer_payment_ata,
        ctx.seller_payment_ata,
        seller_amount,
    );
    push_leg(
        &mut actions,
        native,
        ctx.buyer,
        ctx.treasury_pda,
        ctx.buyer_payment_ata,
        ctx.treasury_token_account,
        trade_fee,
    );
    actions.push(
        Action::TokenTransfer {
            from: ctx.seller_nft_ata.key,
            to: ctx.buyer_nft_ata,
            authority: ctx.escrow_signer,
            amount: 1,
        },
    );
    spend_one(&mut ctx.seller_nft_ata);
    assert(actions@ =~= buy_actions(*old(ctx)));
    Ok(actions)
}

/// Two buy attempts on the same listing, run one after the other as the
/// ledger serializes them: where the first succeeds, the second, presented
/// against the seller's asset account as the first left it, fails (and, by
/// the contract of `buy_nft`, changes nothing). It takes that the account held
/// the asset's single unit, or that the escrow was delegated a single unit, as
/// every approval of this market grants.
pub proof fn lemma_one_buy_per_listing(first: BuyNft, second: BuyNft)
    requires
        buy_refusal(first) is None,
        first.seller_nft_ata.amount <= 1 || first.seller_nft_ata.delegated_amount <= 1,
        second.listing == first.listing,
        second.escrow_signer == first.escrow_signer,
        second.seller_nft_ata == spent_one(first.seller_nft_ata),
    ensures
        buy_refusal(second) is Some,
{
}

} // verus!
