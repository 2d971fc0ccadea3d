use vstd::prelude::*;
use crate::config::MarketConfig;
use crate::error::MarketplaceError;
use crate::fee::{compute_fee, fee_of, push_leg};
use crate::ledger::{transfer_amount, transfer_seq, Action, Mint, TokenAccount};
use crate::types::Key;

verus! {

/// The escrow record of one listed asset.
#[derive(Clone, Copy, Debug, PartialEq, Eq, Structural)]
pub struct Listing {
    pub seller: Key,
    pub nft_mint: Key,
    /// Price in the smallest currency unit.
    pub price: u64,
    /// Native rail where true, fungible-token rail otherwise.
    pub use_sol: bool,
    /// Derivation parameter of the listing record.
    pub bump: u8,
}

/// The accounts of `mint_and_list`.
#[derive(Clone, Debug)]
pub struct MintAndList {
    /// Derivation parameter found for the new listing record.
    pub listing_bump: u8,
    /// The asset-scoped escrow authority.
    pub escrow_signer: Key,
    pub seller: Key,
    /// The asset's mint, as the ledger holds it.
    pub mint: Mint,
    pub seller_nft_ata: Key,
    /// The program's asset-scoped issuance authority.
    pub mint_authority: Key,
    pub treasury_pda: Key,
    pub treasury_token_account: Key,
    pub seller_payment_ata: Key,
    pub market_config: MarketConfig,
    pub admin: Key,
    pub admin_token_account: Key,
}

/// The listing record that `mint_and_list` creates, and its ledger actions.
#[derive(Clone, Debug)]
pub struct MintOutcome {
    pub listing: Listing,
    pub actions: Vec<Action>,
}

/// The mint after one unit was issued and the issuance authority dropped.
pub open spec fn minted_once(m: Mint) -> Mint {
    Mint { mint_authority: None, supply: (m.supply + 1) as u64, ..m }
}

/// The actions of `mint_and_list`: issue one unit, relinquish issuance,
/// delegate custody to the escrow authority, then the mint fee leg.
pub open spec fn mint_actions(
    ctx: MintAndList,
    price: u64,
    use_sol: bool,
    mint_fee_spl: u64,
) -> Seq<Action> {
    seq![
        Action::MintTo {
            mint: ctx.mint.key,
            to: ctx.seller_nft_ata,
            authority: ctx.mint_authority,
            amount: 1,
        },
        Action::RevokeMintAuthority { mint: ctx.mint.key, authority: ctx.mint_authority },
        Action::Approve {
            account: ctx.seller_nft_ata,
            delegate: ctx.escrow_signer,
            owner: ctx.seller,
            amount: 1,
        },
    ] + if use_sol {
        transfer_seq(
            true,
            ctx.seller,
            ctx.treasury_pda,
            ctx.seller_payment_ata,
            ctx.admin_token_account,
            fee_of(price, ctx.market_config.mint_fee_bps) as u64,
        )
    } else {
        transfer_seq(
            false,
            ctx.seller,
            ctx.treasury_pda,
            ctx.seller_payment_ata,
            ctx.admin_token_account,
            mint_fee_spl,
        )
    }
}

/// Why `mint_and_list` refuses, if it does.
pub open spec fn mint_refusal(ctx: MintAndList, price: u64) -> Option<MarketplaceError> {
    if ctx.mint.mint_authority != Some(ctx.mint_authority) {
        Some(MarketplaceError::InvalidMintAuthority)
    } else if ctx.mint.supply == u64::MAX || fee_of(price, ctx.market_config.mint_fee_bps)
        > u64::MAX {
        Some(MarketplaceError::MathOverflow)
    } else {
        None
    }
}

/// Issues the single unit of a new asset to the seller, relinquishes the
/// issuance authority, delegates custody to the escrow authority, charges the
/// mint fee (the computed fee to the treasury on the native rail, the supplied
/// `mint_fee_spl` to the admin's token account otherwise) and creates the
/// listing. A mint whose issuance authority is not the program's refuses.
pub fn mint_and_list(ctx: &mut MintAndList, price: u64, use_sol: bool, mint_fee_spl: u64) -> (r:
    Result<MintOutcome, MarketplaceError>)
    ensures
        r matches Err(e) ==> mint_refusal(*old(ctx), price) == Some(e) && *final(ctx) == *old(ctx),
        r is Ok ==> mint_refusal(*old(ctx), price) is None,
        r matches Ok(o) ==> {
            &&& o.listing == (Listing {
                seller: old(ctx).seller,
                nft_mint: old(ctx).mint.key,
                price,
                use_sol,
                bump: old(ctx).listing_bump,
            })
            &&& o.actions@ == mint_actions(*old(ctx), price, use_sol, mint_fee_spl)
            &&& *final(ctx) == (MintAndList { mint: minted_once(old(ctx).mint), ..*old(ctx) })
        },
{
    match ctx.mint.mint_authority {
        Some(a) => {
            if a != ctx.mint_authority {
                return Err(MarketplaceError::InvalidMintAuthority);
            }
        },
        None => return Err(MarketplaceError::InvalidMintAuthority),
    }
    if ctx.mint.supply == u64::MAX {
        return Err(MarketplaceError::MathOverflow);
    }
    let expected_fee = match compute_fee(price, ctx.market_config.mint_fee_bps) {
        Ok(f) => f,
        Err(e) => return Err(e),
    };
    let mut actions: Vec<Action> = Vec::new();
    actions.push(
        Action::MintTo {
            mint: ctx.mint.key,
            to: ctx.seller_nft_ata,
            authority: ctx.mint_authority,
            amount: 1,
        },
    );
    actions.push(Action::RevokeMintAuthority { mint: ctx.mint.key, authority: ctx.mint_authority });
    actions.push(
        Action::Approve {
            account: ctx.seller_nft_ata,
            delegate: ctx.escrow_signer,
            owner: ctx.seller,
            amount: 1,
        },
    );
    let fee = if use_sol { expected_fee } else { mint_fee_spl };
    push_leg(
        &mut actions,
        use_sol,
        ctx.seller,
        ctx.treasury_pda,
        ctx.seller_payment_ata,
        ctx.admin_token_account,
        fee,
    );
    ctx.mint.supply = ctx.mint.supply + 1;
    ctx.mint.mint_authority = None;
    let listing = Listing {
        seller: ctx.seller,
        nft_mint: ctx.mint.key,
        price,
        use_sol,
        bump: ctx.listing_bump,
    };
    assert(actions@ =~= mint_actions(*old(ctx), price, use_sol, mint_fee_spl));
    Ok(MintOutcome { listing, actions })
}

/// Once an asset was minted and listed, minting it again is refused: its
/// issuance authority was relinquished.
pub proof fn lemma_mint_only_once(ctx: MintAndList, again: MintAndList, price: u64, price2: u64)
    requires
        mint_refusal(ctx, price) is None,
        again.mint == minted_once(ctx.mint),
    ensures
        mint_refusal(again, price2) == Some(MarketplaceError::InvalidMintAuthority),
{
}

/// The accounts of `relist_nft`.
#[derive(Clone, Copy, Debug, PartialEq, Eq, Structural)]
pub struct RelistNft {
    pub listing: Listing,
    pub new_owner: Key,
    /// The presented asset.
    pub mint: Key,
    /// The new owner's token account holding the asset.
    pub seller_nft_ata: TokenAccount,
    pub seller_payment_ata: Key,
    pub treasury_token_account: Key,
    /// The asset-scoped escrow authority.
    pub escrow_signer: Key,
}

/// Why `relist_nft` refuses, if it does.
pub open spec fn relist_refusal(ctx: RelistNft) -> Option<MarketplaceError> {
    if ctx.listing.nft_mint != ctx.mint || ctx.seller_nft_ata.mint != ctx.mint {
        Some(MarketplaceError::InvalidNFT)
    } else if ctx.seller_nft_ata.owner != ctx.new_owner {
        Some(MarketplaceError::InvalidOwner)
    } else {
        None
    }
}

/// The accounts after a relist by `ctx.new_owner`.
pub open spec fn relisted(ctx: RelistNft, new_price: u64, use_sol: bool) -> RelistNft {
    RelistNft {
        listing: Listing { seller: ctx.new_owner, price: new_price, use_sol, ..ctx.listing },
        seller_nft_ata: TokenAccount {
            delegate: Some(ctx.escrow_signer),
            delegated_amount: 1,
            ..ctx.seller_nft_ata
        },
        ..ctx
    }
}

/// The actions of a relist: the relist fee on the token rail (a native-rail
/// relist pays none), then the renewed delegation.
pub open spec fn relist_actions(ctx: RelistNft, use_sol: bool, relist_fee_spl: u64) -> Seq<Action> {
    (if use_sol {
        Seq::empty()
    } else {
        transfer_seq(
            false,
            ctx.new_owner,
            ctx.treasury_token_account,
            ctx.seller_payment_ata,
            ctx.treasury_token_account,
            relist_fee_spl,
        )
    }) + seq![
        Action::Approve {
            account: ctx.seller_nft_ata.key,
            delegate: ctx.escrow_signer,
            owner: ctx.new_owner,
            amount: 1,
        },
    ]
}

/// Hands the listing of an asset to the new owner who holds it: seller, price
/// and rail are overwritten, the relist fee is charged on the token rail only
/// (a native-rail relist pays no relist fee), and
/// custody is delegated to the escrow authority again. A listing of another
/// asset refuses with `InvalidNFT`, a holder other than the new owner with
/// `InvalidOwner`, and a refusal changes nothing.
pub fn relist_nft(ctx: &mut RelistNft, new_price: u64, use_sol: bool, relist_fee_spl: u64) -> (r:
    Result<Vec<Action>, MarketplaceError>)
    ensures
        r matches Err(e) ==> relist_refusal(*old(ctx)) == Some(e) && *final(ctx) == *old(ctx),
        r matches Ok(v) ==> {
            &&& relist_refusal(*old(ctx)) is None
            &&& *final(ctx) == relisted(*old(ctx), new_price, use_sol)
            &&& v@ == relist_actions(*old(ctx), use_sol, relist_fee_spl)
        },
        old(ctx).listing.nft_mint != old(ctx).mint ==> r
            == Err::<Vec<Action>, MarketplaceError>(MarketplaceError::InvalidNFT),
        use_sol ==> (r matches Ok(v) ==> forall|i: int|
            0 <= i < v@.len() ==> transfer_amount(#[trigger] v@[i]) is None),
{
    if ctx.listing.nft_mint != ctx.mint {
        return Err(MarketplaceError::InvalidNFT);
    }
    if ctx.seller_nft_ata.mint != ctx.mint {
        return Err(MarketplaceError::InvalidNFT);
    }
    if ctx.seller_nft_ata.owner != ctx.new_owner {
        return Err(MarketplaceError::InvalidOwner);
    }
    ctx.listing.seller = ctx.new_owner;
    ctx.listing.price = new_price;
    ctx.listing.use_sol = use_sol;
    let mut actions: Vec<Action> = Vec::new();
    if !use_sol {
        push_leg(
            &mut actions,
            false,
            ctx.new_owner,
            ctx.treasury_token_account,
            ctx.seller_payment_ata,
            ctx.treasury_token_account,
            relist_fee_spl,
        );
    }
    actions.push(
        Action::Approve {
            account: ctx.seller_nft_ata.key,
            delegate: ctx.escrow_signer,
            owner: ctx.new_owner,
            amount: 1,
        },
    );
    ctx.seller_nft_ata.delegate = Some(ctx.escrow_signer);
    ctx.seller_nft_ata.delegated_amount = 1;
    assert(actions@ =~= relist_actions(*old(ctx), use_sol, relist_fee_spl));
    Ok(actions)
}

} // verus!
