use vstd::prelude::*;
use crate::config::MarketConfig;
use crate::error::MarketplaceError;
use crate::ledger::{transfer_amount, Action};
use crate::types::{contains_key, native_mint_key, native_mint_spec, Key};

verus! {

/// The accounts of `withdraw_treasury`.
#[derive(Clone, Debug)]
pub struct WithdrawTreasury {
    pub market_config: MarketConfig,
    pub treasury_pda: Key,
    /// The currency withdrawn: the native mint, or a token mint.
    pub mint: Key,
    pub treasury_token_account: Option<Key>,
    pub admin_token_account: Option<Key>,
    pub admin: Key,
    pub signer1: Key,
    pub signer2: Key,
}

/// 1 where `k` is on the roster, else 0.
pub open spec fn vote(roster: Seq<Key>, k: Key) -> nat {
    if roster.contains(k) { 1 } else { 0 }
}

/// How many distinct identities among the three signers are on the roster.
pub open spec fn votes(roster: Seq<Key>, a: Key, b: Key, c: Key) -> nat {
    vote(roster, a) + (if b != a {
        vote(roster, b)
    } else {
        0
    }) + (if c != a && c != b {
        vote(roster, c)
    } else {
        0
    })
}

/// How many distinct identities of `signers` are on the roster: a signer
/// that repeats an earlier one does not count again.
pub open spec fn votes_of(roster: Seq<Key>, signers: Seq<Key>) -> nat
    decreases signers.len(),
{
    if signers.len() == 0 {
        0
    } else {
        let earlier = signers.drop_last();
        votes_of(roster, earlier) + if earlier.contains(signers.last()) {
            0
        } else {
            vote(roster, signers.last())
        }
    }
}

/// Whether `k` occurs among the first `n` entries of `keys`.
fn contains_before(keys: &Vec<Key>, n: usize, k: Key) -> (r: bool)
    requires
        n <= keys@.len(),
    ensures
        r == keys@.take(n as int).contains(k),
{
    let mut i: usize = 0;
    while i < n
        invariant
            i <= n <= keys@.len(),
            forall|j: int| 0 <= j < i ==> keys@[j] != k,
        decreases n - i,
    {
        if keys[i] == k {
            assert(keys@.take(n as int)[i as int] == k);
            return true;
        }
        i = i + 1;
    }
    assert(forall|j: int| 0 <= j < n ==> keys@.take(n as int)[j] != k);
    false
}

/// Counts the distinct identities of `signers` that are on `roster`.
pub fn quorum_votes(roster: &Vec<Key>, signers: &Vec<Key>) -> (r: usize)
    ensures
        r == votes_of(roster@, signers@),
{
    let mut n: usize = 0;
    let mut i: usize = 0;
    while i < signers.len()
        invariant
            i <= signers@.len(),
            n <= i,
            n == votes_of(roster@, signers@.take(i as int)),
        decreases signers@.len() - i,
    {
        assert(signers@.take(i + 1).drop_last() =~= signers@.take(i as int));
        assert(signers@.take(i + 1).last() == signers@[i as int]);
        if !contains_before(signers, i, signers[i]) && contains_key(roster, signers[i]) {
            n = n + 1;
        }
        i = i + 1;
    }
    assert(signers@.take(i as int) =~= signers@);
    n
}

/// What `withdraw_treasury` decides.
pub open spec fn withdraw_outcome(
    ctx: WithdrawTreasury,
    amount: u64,
) -> Result<Seq<Action>, MarketplaceError> {
    if ctx.admin != ctx.market_config.admin {
        Err(MarketplaceError::InvalidOwner)
    } else if votes(ctx.market_config.multisig_admins@, ctx.admin, ctx.signer1, ctx.signer2) < 2 {
        Err(MarketplaceError::Unauthorized)
    } else if ctx.mint == native_mint_spec() {
        Ok(seq![Action::NativeTransfer { from: ctx.treasury_pda, to: ctx.admin, amount }])
    } else {
        match (ctx.treasury_token_account, ctx.admin_token_account) {
            (Some(from), Some(to)) => Ok(
                seq![Action::TokenTransfer { from, to, authority: ctx.treasury_pda, amount }],
            ),
            _ => Err(MarketplaceError::MissingAccount),
        }
    }
}

/// Releases `amount` of pooled fees to the admin once at least two distinct
/// identities among the three signers are on the multisig roster: directly on the native rail,
/// and between the two token accounts, which must be supplied, otherwise.
pub fn withdraw_treasury(ctx: &WithdrawTreasury, amount: u64) -> (r: Result<
    Vec<Action>,
    MarketplaceError,
>)
    ensures
        r matches Ok(v) ==> withdraw_outcome(*ctx, amount) == Ok::<Seq<Action>, MarketplaceError>(
            v@,
        ),
        r matches Err(e) ==> withdraw_outcome(*ctx, amount) == Err::<Seq<Action>, MarketplaceError>(
            e,
        ),
{
    if ctx.admin != ctx.market_config.admin {
        return Err(MarketplaceError::InvalidOwner);
    }
    let signers = vec![ctx.admin, ctx.signer1, ctx.signer2];
    let valid_signers = quorum_votes(&ctx.market_config.multisig_admins, &signers);
    proof {
        let r = ctx.market_config.multisig_admins@;
        let s3 = seq![ctx.admin, ctx.signer1, ctx.signer2];
        let s2 = seq![ctx.admin, ctx.signer1];
        let s1 = seq![ctx.admin];
        assert(signers@ =~= s3);
        assert(s3.drop_last() =~= s2 && s2.drop_last() =~= s1 && s1.drop_last() =~= Seq::<Key>::empty());
        assert(s1.last() == ctx.admin && s2.last() == ctx.signer1 && s3.last() == ctx.signer2);
        assert(votes_of(r, Seq::<Key>::empty()) == 0);
        assert(!Seq::<Key>::empty().contains(ctx.admin));
        assert(votes_of(r, s1) == vote(r, ctx.admin));
        assert(s1.contains(ctx.signer1) <==> ctx.signer1 == ctx.admin) by {
            if ctx.signer1 == ctx.admin {
                assert(s1[0] == ctx.signer1);
            }
        }
        assert(s2.contains(ctx.signer2) <==> (ctx.signer2 == ctx.admin || ctx.signer2 == ctx.signer1)) by {
            if ctx.signer2 == ctx.admin {
                assert(s2[0] == ctx.signer2);
            }
            if ctx.signer2 == ctx.signer1 {
                assert(s2[1] == ctx.signer2);
            }
        }
        assert(votes_of(r, s2) == vote(r, ctx.admin) + if ctx.signer1 != ctx.admin {
            vote(r, ctx.signer1)
        } else {
            0
        });
        assert(votes_of(r, s3) == votes(r, ctx.admin, ctx.signer1, ctx.signer2));
    }
    if valid_signers < 2 {
        return Err(MarketplaceError::Unauthorized);
    }
    let mut out: Vec<Action> = Vec::new();
    if ctx.mint == native_mint_key() {
        out.push(Action::NativeTransfer { from: ctx.treasury_pda, to: ctx.admin, amount });
    } else {
        match (ctx.treasury_token_account, ctx.admin_token_account) {
            (Some(from), Some(to)) => {
                out.push(Action::TokenTransfer { from, to, authority: ctx.treasury_pda, amount });
            },
            _ => return Err(MarketplaceError::MissingAccount),
        }
    }
    assert(withdraw_outcome(*ctx, amount)->Ok_0 =~= out@);
    Ok(out)
}

/// With the admin identified, fewer than two distinct roster members among the
/// signers refuse the withdrawal with `Unauthorized` (one member presented in
/// two signer slots counts once); exactly two let it through, and it moves
/// exactly `amount` in a single transfer.
pub proof fn lemma_withdraw_quorum(ctx: WithdrawTreasury, amount: u64)
    requires
        ctx.admin == ctx.market_config.admin,
        ctx.mint != native_mint_spec() ==> ctx.treasury_token_account is Some
            && ctx.admin_token_account is Some,
    ensures
        votes(ctx.market_config.multisig_admins@, ctx.admin, ctx.signer1, ctx.signer2) <= 1
            ==> withdraw_outcome(ctx, amount) == Err::<Seq<Action>, MarketplaceError>(
            MarketplaceError::Unauthorized,
        ),
        ctx.signer1 == ctx.admin && !ctx.market_config.multisig_admins@.contains(ctx.signer2)
            ==> withdraw_outcome(ctx, amount) == Err::<Seq<Action>, MarketplaceError>(
            MarketplaceError::Unauthorized,
        ),
        votes(ctx.market_config.multisig_admins@, ctx.admin, ctx.signer1, ctx.signer2) == 2
            ==> withdraw_outcome(ctx, amount) is Ok && withdraw_outcome(ctx, amount)->Ok_0.len() == 1
            && transfer_amount(withdraw_outcome(ctx, amount)->Ok_0[0]) == Some(amount),
{
}

} // verus!
