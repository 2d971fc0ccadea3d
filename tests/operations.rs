use uog_market::config::MarketConfig;
use uog_market::error::MarketplaceError;
use uog_market::ledger::{Action, Mint, TokenAccount};
use uog_market::listing::{mint_and_list, relist_nft, Listing, MintAndList, RelistNft};
use uog_market::purchase::{buy_nft, BuyNft};
use uog_market::swap::{swap_balance, swap_snapshot, swap_token, OutputAccount, SwapSnapshot, SwapToken};
use uog_market::transfer::{send_token, SendToken};
use uog_market::treasury::{withdraw_treasury, WithdrawTreasury};
use uog_market::types::Key;

fn k(n: u128) -> Key {
    Key { hi: 7, lo: n }
}

fn native() -> Key {
    Key { hi: 8782939367155159336158223281524621365, lo: 290790566801258635813148551384743804929 }
}

fn token_program() -> Key {
    Key { hi: 9127872946206897811467604813039761836, lo: 38155713683577065559022659888220143785 }
}

fn system_program() -> Key {
    Key { hi: 0, lo: 0 }
}

fn config(admins: Vec<Key>, trade_fee_bps: u16) -> MarketConfig {
    MarketConfig {
        admin: k(1),
        mint_fee_bps: 500,
        trade_fee_bps,
        relist_fee_bps: 100,
        treasury_bump: 254,
        multisig_admins: admins,
        multisig_threshold: 2,
    }
}

// ---- mint and list ----

fn mint_ctx() -> MintAndList {
    MintAndList {
        listing_bump: 250,
        escrow_signer: k(50),
        seller: k(10),
        mint: Mint { key: k(30), mint_authority: Some(k(31)), supply: 0 },
        seller_nft_ata: k(40),
        mint_authority: k(31),
        treasury_pda: k(91),
        treasury_token_account: k(92),
        seller_payment_ata: k(11),
        market_config: config(vec![k(1), k(2), k(3)], 250),
        admin: k(1),
        admin_token_account: k(93),
    }
}

#[test]
fn mint_and_list_native_rail() {
    let mut ctx = mint_ctx();
    let out = mint_and_list(&mut ctx, 1_000, true, 7).unwrap();
    assert_eq!(out.listing, Listing { seller: k(10), nft_mint: k(30), price: 1_000, use_sol: true, bump: 250 });
    assert_eq!(
        out.actions,
        vec![
            Action::MintTo { mint: k(30), to: k(40), authority: k(31), amount: 1 },
            Action::RevokeMintAuthority { mint: k(30), authority: k(31) },
            Action::Approve { account: k(40), delegate: k(50), owner: k(10), amount: 1 },
            Action::NativeTransfer { from: k(10), to: k(91), amount: 50 },
        ]
    );
    assert_eq!(ctx.mint, Mint { key: k(30), mint_authority: None, supply: 1 });
}

#[test]
fn mint_and_list_token_rail_charges_supplied_fee() {
    let mut ctx = mint_ctx();
    let out = mint_and_list(&mut ctx, 1_000, false, 7).unwrap();
    assert_eq!(out.actions[3], Action::TokenTransfer { from: k(11), to: k(93), authority: k(10), amount: 7 });
    assert_eq!(out.actions.len(), 4);
}

#[test]
fn mint_and_list_zero_fee_moves_nothing() {
    let mut ctx = mint_ctx();
    let out = mint_and_list(&mut ctx, 10, true, 0).unwrap();
    assert_eq!(out.actions.len(), 3);
}

#[test]
fn second_mint_of_same_asset_fails() {
    let mut ctx = mint_ctx();
    assert!(mint_and_list(&mut ctx, 1_000, true, 7).is_ok());
    let before = ctx.mint;
    assert_eq!(mint_and_list(&mut ctx, 1_000, true, 7).unwrap_err(), MarketplaceError::InvalidMintAuthority);
    assert_eq!(ctx.mint, before);
}

#[test]
fn mint_fee_overflow_is_refused() {
    let mut ctx = mint_ctx();
    ctx.market_config.mint_fee_bps = 65_535;
    assert_eq!(mint_and_list(&mut ctx, u64::MAX, true, 0).unwrap_err(), MarketplaceError::MathOverflow);
    assert_eq!(ctx.mint.mint_authority, Some(k(31)));
}

// ---- buy ----

fn buy_ctx(buyer_payment: Key) -> BuyNft {
    BuyNft {
        listing: Listing { seller: k(10), nft_mint: k(30), price: 1_000, use_sol: true, bump: 250 },
        buyer: k(20),
        seller: k(10),
        buyer_payment_ata: buyer_payment,
        seller_payment_ata: k(11),
        treasury_token_account: k(92),
        treasury_pda: k(91),
        seller_nft_ata: TokenAccount {
            key: k(40),
            mint: k(30),
            owner: k(10),
            amount: 1,
            delegate: Some(k(50)),
            delegated_amount: 1,
        },
        buyer_nft_ata: k(41),
        market_config: config(vec![k(1)], 250),
        escrow_signer: k(50),
    }
}

#[test]
fn buy_native_splits_price() {
    let mut ctx = buy_ctx(k(20));
    let actions = buy_nft(&mut ctx).unwrap();
    assert_eq!(
        actions,
        vec![
            Action::NativeTransfer { from: k(20), to: k(10), amount: 975 },
            Action::NativeTransfer { from: k(20), to: k(91), amount: 25 },
            Action::TokenTransfer { from: k(40), to: k(41), authority: k(50), amount: 1 },
        ]
    );
    assert_eq!(ctx.seller_nft_ata.amount, 0);
    assert_eq!(ctx.seller_nft_ata.delegate, None);
}

#[test]
fn buy_token_rail_splits_price() {
    let mut ctx = buy_ctx(k(21));
    let actions = buy_nft(&mut ctx).unwrap();
    assert_eq!(
        actions,
        vec![
            Action::TokenTransfer { from: k(21), to: k(11), authority: k(20), amount: 975 },
            Action::TokenTransfer { from: k(21), to: k(92), authority: k(20), amount: 25 },
            Action::TokenTransfer { from: k(40), to: k(41), authority: k(50), amount: 1 },
        ]
    );
}

#[test]
fn buy_with_wrong_seller_fails() {
    let mut ctx = buy_ctx(k(20));
    ctx.seller = k(12);
    assert_eq!(buy_nft(&mut ctx).unwrap_err(), MarketplaceError::InvalidOwner);
    assert_eq!(ctx.seller_nft_ata.amount, 1);
    assert_eq!(ctx.seller_nft_ata.delegate, Some(k(50)));
}

#[test]
fn second_buy_of_same_listing_fails() {
    let mut ctx = buy_ctx(k(20));
    assert!(buy_nft(&mut ctx).is_ok());
    ctx.buyer = k(22);
    ctx.buyer_payment_ata = k(22);
    assert_eq!(buy_nft(&mut ctx).unwrap_err(), MarketplaceError::NotDelegated);
}

#[test]
fn buy_without_delegation_fails() {
    let mut ctx = buy_ctx(k(20));
    ctx.seller_nft_ata.delegate = Some(k(51));
    assert_eq!(buy_nft(&mut ctx).unwrap_err(), MarketplaceError::NotDelegated);
}

// ---- relist ----

fn relist_ctx() -> RelistNft {
    RelistNft {
        listing: Listing { seller: k(10), nft_mint: k(30), price: 1_000, use_sol: true, bump: 250 },
        new_owner: k(20),
        mint: k(30),
        seller_nft_ata: TokenAccount { key: k(41), mint: k(30), owner: k(20), amount: 1, delegate: None, delegated_amount: 0 },
        seller_payment_ata: k(21),
        treasury_token_account: k(92),
        escrow_signer: k(50),
    }
}

#[test]
fn relist_hands_listing_to_new_owner() {
    let mut ctx = relist_ctx();
    let actions = relist_nft(&mut ctx, 2_000, false, 9).unwrap();
    assert_eq!(ctx.listing, Listing { seller: k(20), nft_mint: k(30), price: 2_000, use_sol: false, bump: 250 });
    assert_eq!(ctx.seller_nft_ata.delegate, Some(k(50)));
    assert_eq!(ctx.seller_nft_ata.delegated_amount, 1);
    assert_eq!(
        actions,
        vec![
            Action::TokenTransfer { from: k(21), to: k(92), authority: k(20), amount: 9 },
            Action::Approve { account: k(41), delegate: k(50), owner: k(20), amount: 1 },
        ]
    );
}

#[test]
fn relist_on_native_rail_pays_no_fee() {
    let mut ctx = relist_ctx();
    let actions = relist_nft(&mut ctx, 2_000, true, 9).unwrap();
    assert_eq!(ctx.listing.use_sol, true);
    assert_eq!(actions, vec![Action::Approve { account: k(41), delegate: k(50), owner: k(20), amount: 1 }]);
}

#[test]
fn relist_of_other_asset_fails() {
    let mut ctx = relist_ctx();
    ctx.mint = k(33);
    let before = ctx;
    assert_eq!(relist_nft(&mut ctx, 2_000, false, 9).unwrap_err(), MarketplaceError::InvalidNFT);
    assert_eq!(ctx, before);
}

#[test]
fn relist_by_non_holder_fails() {
    let mut ctx = relist_ctx();
    ctx.seller_nft_ata.owner = k(23);
    let before = ctx;
    assert_eq!(relist_nft(&mut ctx, 2_000, true, 0).unwrap_err(), MarketplaceError::InvalidOwner);
    assert_eq!(ctx, before);
}

#[test]
fn relist_then_buy() {
    let mut relist = relist_ctx();
    relist_nft(&mut relist, 400, true, 0).unwrap();
    let mut ctx = buy_ctx(k(60));
    ctx.buyer = k(60);
    ctx.listing = relist.listing;
    ctx.seller = k(20);
    ctx.seller_nft_ata = relist.seller_nft_ata;
    let actions = buy_nft(&mut ctx).unwrap();
    assert_eq!(actions[0], Action::NativeTransfer { from: k(60), to: k(20), amount: 390 });
    assert_eq!(actions[1], Action::NativeTransfer { from: k(60), to: k(91), amount: 10 });
}

// ---- treasury ----

fn withdraw_ctx(mint: Key, admins: Vec<Key>) -> WithdrawTreasury {
    WithdrawTreasury {
        market_config: config(admins, 250),
        treasury_pda: k(91),
        mint,
        treasury_token_account: Some(k(92)),
        admin_token_account: Some(k(93)),
        admin: k(1),
        signer1: k(2),
        signer2: k(3),
    }
}

#[test]
fn withdraw_with_one_signer_is_unauthorized() {
    let ctx = withdraw_ctx(native(), vec![k(2), k(8)]);
    assert_eq!(withdraw_treasury(&ctx, 500).unwrap_err(), MarketplaceError::Unauthorized);
}

#[test]
fn withdraw_with_repeated_signer_is_unauthorized() {
    let mut ctx = withdraw_ctx(native(), vec![k(1)]);
    ctx.signer1 = k(1);
    assert_eq!(withdraw_treasury(&ctx, 500).unwrap_err(), MarketplaceError::Unauthorized);
    let mut ctx = withdraw_ctx(native(), vec![k(1), k(2)]);
    ctx.signer2 = k(2);
    ctx.signer1 = k(2);
    assert_eq!(withdraw_treasury(&ctx, 500).unwrap(), vec![Action::NativeTransfer { from: k(91), to: k(1), amount: 500 }]);
}

#[test]
fn withdraw_with_two_signers_moves_amount() {
    let ctx = withdraw_ctx(native(), vec![k(2), k(3)]);
    assert_eq!(
        withdraw_treasury(&ctx, 500).unwrap(),
        vec![Action::NativeTransfer { from: k(91), to: k(1), amount: 500 }]
    );
    let ctx = withdraw_ctx(k(70), vec![k(1), k(3)]);
    assert_eq!(
        withdraw_treasury(&ctx, 500).unwrap(),
        vec![Action::TokenTransfer { from: k(92), to: k(93), authority: k(91), amount: 500 }]
    );
}

#[test]
fn withdraw_token_without_accounts_fails() {
    let mut ctx = withdraw_ctx(k(70), vec![k(1), k(2), k(3)]);
    ctx.admin_token_account = None;
    assert_eq!(withdraw_treasury(&ctx, 5).unwrap_err(), MarketplaceError::MissingAccount);
    ctx.admin_token_account = Some(k(93));
    ctx.treasury_token_account = None;
    assert_eq!(withdraw_treasury(&ctx, 5).unwrap_err(), MarketplaceError::MissingAccount);
}

#[test]
fn withdraw_by_other_admin_fails() {
    let mut ctx = withdraw_ctx(native(), vec![k(1), k(2), k(3)]);
    ctx.admin = k(4);
    assert_eq!(withdraw_treasury(&ctx, 5).unwrap_err(), MarketplaceError::InvalidOwner);
}

// ---- send ----

fn send_ctx(mint: Key) -> SendToken {
    SendToken {
        sender: k(20),
        recipient: k(21),
        treasury_pda: k(91),
        mint,
        sender_token_account: k(24),
        recipient_token_account: k(25),
        treasury_token_account: k(92),
        market_config: config(vec![k(1)], 250),
    }
}

#[test]
fn send_native_pays_fee() {
    let actions = send_token(&send_ctx(native()), 1_000).unwrap();
    assert_eq!(
        actions,
        vec![
            Action::NativeTransfer { from: k(20), to: k(21), amount: 975 },
            Action::NativeTransfer { from: k(20), to: k(91), amount: 25 },
        ]
    );
}

#[test]
fn send_token_pays_fee() {
    let actions = send_token(&send_ctx(k(70)), 1_000).unwrap();
    assert_eq!(
        actions,
        vec![
            Action::TokenTransfer { from: k(24), to: k(25), authority: k(20), amount: 975 },
            Action::TokenTransfer { from: k(24), to: k(92), authority: k(20), amount: 25 },
        ]
    );
}

#[test]
fn send_small_amount_has_no_fee_leg() {
    let actions = send_token(&send_ctx(native()), 39).unwrap();
    assert_eq!(actions, vec![Action::NativeTransfer { from: k(20), to: k(21), amount: 39 }]);
    assert_eq!(send_token(&send_ctx(native()), 0).unwrap(), vec![]);
}

// ---- swap ----

fn swap_ctx(remaining: Vec<Key>) -> SwapToken {
    SwapToken {
        user: k(20),
        dex_program: k(80),
        market_config: config(vec![k(1)], 250),
        treasury_pda: k(91),
        output_mint: k(70),
        treasury_token_account: k(92),
        user_out_token_account: k(26),
        remaining_accounts: remaining,
    }
}

#[test]
fn swap_token_account_skims_fee() {
    let out = OutputAccount::Token(TokenAccount { key: k(26), mint: k(70), owner: k(20), amount: 100, delegate: None, delegated_amount: 0 });
    let snap = swap_snapshot(&out, k(20)).unwrap();
    assert_eq!(snap, SwapSnapshot { before: 100, output_mint: k(70) });
    let ctx = swap_ctx(vec![k(20), k(91), k(92), k(26), token_program()]);
    assert_eq!(
        swap_token(&ctx, snap, 150).unwrap(),
        vec![Action::TokenTransfer { from: k(26), to: k(92), authority: k(20), amount: 1 }]
    );
}

#[test]
fn swap_native_skims_fee() {
    let out = OutputAccount::Native { key: k(20), lamports: 100 };
    let snap = swap_snapshot(&out, k(20)).unwrap();
    assert_eq!(snap, SwapSnapshot { before: 100, output_mint: native() });
    let after = OutputAccount::Native { key: k(20), lamports: 150 };
    assert_eq!(swap_balance(&after), 150);
    let ctx = swap_ctx(vec![k(20), k(91), k(92), system_program()]);
    assert_eq!(
        swap_token(&ctx, snap, swap_balance(&after)).unwrap(),
        vec![Action::NativeTransfer { from: k(20), to: k(91), amount: 1 }]
    );
}

#[test]
fn swap_balance_drop_has_no_fee() {
    let snap = SwapSnapshot { before: 150, output_mint: k(70) };
    assert_eq!(swap_token(&swap_ctx(vec![]), snap, 100).unwrap(), vec![]);
}

#[test]
fn swap_small_gain_has_no_fee() {
    let snap = SwapSnapshot { before: 100, output_mint: k(70) };
    assert_eq!(swap_token(&swap_ctx(vec![]), snap, 139).unwrap(), vec![]);
}

#[test]
fn swap_missing_accounts_fail() {
    let snap = SwapSnapshot { before: 100, output_mint: k(70) };
    assert_eq!(
        swap_token(&swap_ctx(vec![k(20), k(91), k(92), k(26)]), snap, 150).unwrap_err(),
        MarketplaceError::InvalidOwner
    );
    assert_eq!(
        swap_token(&swap_ctx(vec![k(20), k(92), k(26), token_program()]), snap, 150).unwrap_err(),
        MarketplaceError::InvalidOwner
    );
    let native_snap = SwapSnapshot { before: 100, output_mint: native() };
    assert_eq!(
        swap_token(&swap_ctx(vec![k(20), k(91), k(92)]), native_snap, 150).unwrap_err(),
        MarketplaceError::InvalidOwner
    );
}

#[test]
fn swap_snapshot_of_foreign_account_fails() {
    let out = OutputAccount::Token(TokenAccount { key: k(26), mint: k(70), owner: k(21), amount: 100, delegate: None, delegated_amount: 0 });
    assert_eq!(swap_snapshot(&out, k(20)).unwrap_err(), MarketplaceError::InvalidOwner);
}

#[test]
fn swap_fee_overflow_fails() {
    let mut ctx = swap_ctx(vec![]);
    ctx.market_config.trade_fee_bps = 65_535;
    let snap = SwapSnapshot { before: 0, output_mint: k(70) };
    assert_eq!(swap_token(&ctx, snap, u64::MAX).unwrap_err(), MarketplaceError::MathOverflow);
}
