//! Splitting a referral token balance between the partner and the project.

use vstd::prelude::*;
use crate::program::ProgramErrorCode;

verus! {

/// Basis points in a whole.
pub const BPS_DENOMINATOR: u128 = 10_000;

/// floor(balance * share_bps / 10000): the partner's part of `balance`.
pub open spec fn referral_part(balance: int, share_bps: int) -> int {
    balance * share_bps / 10000
}

/// How a claimed balance is paid out.
#[derive(Clone, Copy, Debug, PartialEq, Eq, Structural)]
pub struct Split {
    pub referral_amount: u64,
    pub project_amount: u64,
}

/// The outcome of splitting `balance` by `share_bps`: the partner gets
/// floor(balance * share_bps / 10000) and the project the rest; where the
/// partner's part would exceed the balance (a share above 10000) the split fails
/// with `InvalidCalculation`.
pub open spec fn split_of(balance: u64, share_bps: u16) -> Result<Split, ProgramErrorCode> {
    let part = referral_part(balance as int, share_bps as int);
    if part <= balance {
        Ok(Split { referral_amount: part as u64, project_amount: (balance - part) as u64 })
    } else {
        Err(ProgramErrorCode::InvalidCalculation)
    }
}

/// Splits `balance` by `share_bps`, with a 128-bit intermediate product.
pub fn calculate_split(balance: u64, share_bps: u16) -> (r: Result<Split, ProgramErrorCode>)
    ensures
        r == split_of(balance, share_bps),
{
    let wide: u128 = balance as u128;
    let share: u128 = share_bps as u128;
    assert(wide * share <= 0xffff_ffff_ffff_ffffu128 * 0xffffu128) by (nonlinear_arith)
        requires
            wide <= 0xffff_ffff_ffff_ffffu128,
            share <= 0xffffu128,
    ;
    let product: u128 = wide * share;
    let referral: u128 = product / BPS_DENOMINATOR;
    if referral > wide {
        return Err(ProgramErrorCode::InvalidCalculation);
    }
    let referral_amount: u64 = referral as u64;
    Ok(Split { referral_amount, project_amount: balance - referral_amount })
}

/// For every balance and every share in 0..=10000 the split succeeds, the two
/// parts add up to the balance, and the partner's part is
/// floor(balance * share / 10000).
pub proof fn split_is_exact(balance: u64, share_bps: u16)
    requires
        share_bps <= 10000,
    ensures
        split_of(balance, share_bps) matches Ok(s)
            && s.referral_amount + s.project_amount == balance
            && s.referral_amount == balance * share_bps / 10000,
{
    share_at_most_whole(balance as int, share_bps as int);
}

proof fn share_at_most_whole(balance: int, share_bps: int)
    requires
        0 <= balance,
        0 <= share_bps <= 10000,
    ensures
        referral_part(balance, share_bps) <= balance,
{
    assert(balance * share_bps <= balance * 10000) by (nonlinear_arith)
        requires
            0 <= balance,
            share_bps <= 10000,
    ;
    assert(balance * share_bps / 10000 <= balance * 10000 / 10000) by (nonlinear_arith)
        requires
            balance * share_bps <= balance * 10000,
            0 <= balance * share_bps,
    ;
    assert(balance * 10000 / 10000 == balance) by (nonlinear_arith);
}

} // verus!
