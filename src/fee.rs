use vstd::prelude::*;
use crate::error::MarketplaceError;
use crate::ledger::{transfer_seq, Action};
use crate::types::Key;

verus! {

/// Basis points in a whole: 10000 bps are 100%.
pub const BPS_DENOMINATOR: u64 = 10000;

/// `floor(amount * bps / 10000)`, exactly.
pub open spec fn fee_of(amount: u64, bps: u16) -> int {
    (amount as int * bps as int) / (BPS_DENOMINATOR as int)
}

/// `a - b`, or zero where `b` exceeds `a`.
pub open spec fn sat_sub(a: u64, b: u64) -> u64 {
    if b <= a { (a - b) as u64 } else { 0 }
}

/// The fee and the residual of an amount.
#[derive(Clone, Copy, Debug, PartialEq, Eq, Structural)]
pub struct FeeSplit {
    pub fee: u64,
    pub residual: u64,
}

/// The split of `amount` at rate `bps`, or `MathOverflow` where the fee does not fit.
pub open spec fn split_of(amount: u64, bps: u16) -> Result<FeeSplit, MarketplaceError> {
    if fee_of(amount, bps) > u64::MAX {
        Err(MarketplaceError::MathOverflow)
    } else {
        let fee = fee_of(amount, bps) as u64;
        Ok(FeeSplit { fee, residual: sat_sub(amount, fee) })
    }
}

/// The fee on `amount` at `bps` basis points, computed without loss: it fails
/// closed with `MathOverflow` only where the fee itself exceeds 64 bits (which
/// takes a rate above 100%).
pub fn compute_fee(amount: u64, bps: u16) -> (r: Result<u64, MarketplaceError>)
    ensures
        r.is_ok() <==> fee_of(amount, bps) <= u64::MAX,
        r matches Ok(f) ==> f == fee_of(amount, bps),
        r matches Err(e) ==> e == MarketplaceError::MathOverflow,
{
    let a: u128 = amount as u128;
    let b: u128 = bps as u128;
    assert(a * b <= 0xffff_ffff_ffff_ffffu128 * 0xffffu128) by (nonlinear_arith)
        requires
            a <= 0xffff_ffff_ffff_ffffu128,
            b <= 0xffffu128,
    ;
    let q: u128 = (a * b) / (BPS_DENOMINATOR as u128);
    if q > u64::MAX as u128 {
        Err(MarketplaceError::MathOverflow)
    } else {
        Ok(q as u64)
    }
}

/// Splits `amount` into a fee at `bps` basis points and the residual
/// `amount - fee` (zero where the fee exceeds the amount).
pub fn split_fee(amount: u64, bps: u16) -> (r: Result<FeeSplit, MarketplaceError>)
    ensures
        r == split_of(amount, bps),
{
    match compute_fee(amount, bps) {
        Ok(fee) => {
            let residual = if fee <= amount { amount - fee } else { 0 };
            Ok(FeeSplit { fee, residual })
        },
        Err(e) => Err(e),
    }
}

/// At a rate of at most 100%, the fee is `floor(amount * bps / 10000)`, never
/// exceeds the amount, and fee and residual add up to the amount.
pub proof fn lemma_split_conserves(amount: u64, bps: u16)
    requires
        bps <= BPS_DENOMINATOR,
    ensures
        split_of(amount, bps) is Ok,
        split_of(amount, bps)->Ok_0.fee == fee_of(amount, bps),
        split_of(amount, bps)->Ok_0.fee <= amount,
        split_of(amount, bps)->Ok_0.fee + split_of(amount, bps)->Ok_0.residual == amount,
{
    let a = amount as int;
    let b = bps as int;
    assert(a * b <= a * 10000) by (nonlinear_arith)
        requires
            0 <= a,
            b <= 10000,
    ;
    assert((a * b) / 10000 <= a) by (nonlinear_arith)
        requires
            0 <= a * b <= a * 10000,
            0 <= a,
    ;
}

/// The single transfer of one fee leg, as `pay_fee` decides it.
pub open spec fn fee_leg(
    use_sol: bool,
    payer: Key,
    treasury_pda: Key,
    payer_ata: Option<Key>,
    treasury_ata: Option<Key>,
    amount: u64,
) -> Result<Option<Action>, MarketplaceError> {
    if amount == 0 {
        Ok(None)
    } else if use_sol {
        Ok(Some(Action::NativeTransfer { from: payer, to: treasury_pda, amount }))
    } else {
        match (payer_ata, treasury_ata) {
            (Some(from), Some(to)) => Ok(
                Some(Action::TokenTransfer { from, to, authority: payer, amount }),
            ),
            _ => Err(MarketplaceError::InvalidOwner),
        }
    }
}

/// Decides one fee leg from `payer` to `treasury_pda`: nothing for a zero amount,
/// a native transfer on the native rail, and otherwise a token transfer between
/// the two token accounts, which must both be supplied.
pub fn pay_fee(
    use_sol: bool,
    payer: Key,
    treasury_pda: Key,
    payer_ata: Option<Key>,
    treasury_ata: Option<Key>,
    amount: u64,
) -> (r: Result<Option<Action>, MarketplaceError>)
    ensures
        r == fee_leg(use_sol, payer, treasury_pda, payer_ata, treasury_ata, amount),
        amount == 0 ==> r == Ok::<Option<Action>, MarketplaceError>(None),
        !use_sol && amount != 0 && (payer_ata is None || treasury_ata is None) ==> r
            == Err::<Option<Action>, MarketplaceError>(MarketplaceError::InvalidOwner),
{
    if amount == 0 {
        return Ok(None);
    }
    if use_sol {
        Ok(Some(Action::NativeTransfer { from: payer, to: treasury_pda, amount }))
    } else {
        let from = match payer_ata {
            Some(k) => k,
            None => return Err(MarketplaceError::InvalidOwner),
        };
        let to = match treasury_ata {
            Some(k) => k,
            None => return Err(MarketplaceError::InvalidOwner),
        };
        Ok(Some(Action::TokenTransfer { from, to, authority: payer, amount }))
    }
}

/// Appends one leg, which cannot fail since both token accounts are given.
pub fn push_leg(
    out: &mut Vec<Action>,
    use_sol: bool,
    from: Key,
    to: Key,
    from_ata: Key,
    to_ata: Key,
    amount: u64,
)
    ensures
        final(out)@ == old(out)@ + transfer_seq(use_sol, from, to, from_ata, to_ata, amount),
{
    match pay_fee(use_sol, from, to, Some(from_ata), Some(to_ata), amount) {
        Ok(Some(a)) => {
            out.push(a);
            assert(out@ =~= old(out)@ + transfer_seq(use_sol, from, to, from_ata, to_ata, amount));
        },
        _ => {
            assert(old(out)@ + transfer_seq(use_sol, from, to, from_ata, to_ata, amount) =~= old(out)@);
        },
    }
}

} // verus!
