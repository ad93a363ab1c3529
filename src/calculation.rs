use vstd::arithmetic::div_mod::{lemma_div_multiples_vanish, lemma_fundamental_div_mod};
use vstd::prelude::*;

use crate::error::{ErrorCode, OrArithError};
use crate::state::{Fanout, FanoutMembershipMintVoucher, FanoutMembershipVoucher, FanoutMint};

verus! {

/// A member's proportional entitlement: `floor(shares * inflow_diff / total_shares)`.
pub open spec fn dist_amount(member_shares: int, inflow_diff: int, total_shares: int) -> int {
    member_shares * inflow_diff / total_shares
}

/// Entitlement as `calculate_dist_amount` reports it: an arithmetic error when
/// there are no shares to divide by, or when the amount does not fit in a `u64`.
pub open spec fn dist_result(member_shares: u64, inflow_diff: u64, total_shares: u64) -> Result<
    u64,
    ErrorCode,
> {
    if total_shares == 0 || dist_amount(
        member_shares as int,
        inflow_diff as int,
        total_shares as int,
    ) > u64::MAX {
        Err(ErrorCode::ArithmeticError)
    } else {
        Ok(dist_amount(member_shares as int, inflow_diff as int, total_shares as int) as u64)
    }
}

/// Logical inflow added on top of a balance delta so that the whole delta goes
/// to the staked shares: `floor(delta * (total_shares - staked) / staked)`.
pub open spec fn staking_correction(delta: int, total_shares: int, staked: int) -> int {
    delta * (total_shares - staked) / staked
}

/// The new logical inflow counter after observing balance `current`, or the
/// error that the update fails with.
pub open spec fn inflow_update(
    total_inflow: u64,
    last_snapshot: u64,
    current: u64,
    total_shares: u64,
    staked: Option<u64>,
) -> Result<u64, ErrorCode> {
    if current < last_snapshot {
        Err(ErrorCode::ArithmeticError)
    } else {
        let delta = current - last_snapshot;
        let base = total_inflow + delta;
        if base > u64::MAX {
            Err(ErrorCode::ArithmeticError)
        } else {
            match staked {
                Some(s) if s > 0 => {
                    if s > total_shares {
                        Err(ErrorCode::ArithmeticError)
                    } else {
                        let corrected = base + staking_correction(delta, total_shares as int, s as int);
                        if corrected > u64::MAX {
                            Err(ErrorCode::ArithmeticError)
                        } else {
                            Ok(corrected as u64)
                        }
                    }
                },
                _ => Ok(base as u64),
            }
        }
    }
}

/// Difference between the pool's inflow counter and a member's watermark.
pub fn calculate_inflow_change(total_inflow: u64, last_inflow: u64) -> (r: Result<u64, ErrorCode>)
    ensures
        r == if last_inflow <= total_inflow {
            Ok::<u64, ErrorCode>((total_inflow - last_inflow) as u64)
        } else {
            Err(ErrorCode::ArithmeticError)
        },
{
    let diff: u64 = total_inflow.checked_sub(last_inflow).or_arith_error()?;
    Ok(diff)
}

/// A member's entitlement to `inflow_diff`, computed with a 128-bit intermediate.
pub fn calculate_dist_amount(member_shares: u64, inflow_diff: u64, total_shares: u64) -> (r: Result<
    u64,
    ErrorCode,
>)
    ensures
        r == dist_result(member_shares, inflow_diff, total_shares),
{
    if total_shares == 0 {
        return Err(ErrorCode::ArithmeticError);
    }
    proof {
        assert(member_shares as int * inflow_diff as int <= u64::MAX as int * u64::MAX as int)
            by (nonlinear_arith)
            requires
                member_shares <= u64::MAX,
                inflow_diff <= u64::MAX,
        ;
    }
    let product: u128 = member_shares as u128 * inflow_diff as u128;
    let amount: u128 = product / total_shares as u128;
    if amount > u64::MAX as u128 {
        return Err(ErrorCode::ArithmeticError);
    }
    Ok(amount as u64)
}

/// The inflow counter after observing `current_snapshot`: the balance delta
/// plus, when staking is in effect, the staking correction.
pub(crate) fn compute_total_inflow(
    total_inflow: u64,
    last_snapshot: u64,
    current_snapshot: u64,
    total_shares: u64,
    staked: Option<u64>,
) -> (r: Result<u64, ErrorCode>)
    ensures
        r == inflow_update(total_inflow, last_snapshot, current_snapshot, total_shares, staked),
{
    let diff = current_snapshot.checked_sub(last_snapshot).or_arith_error()?;
    let base = total_inflow.checked_add(diff).or_arith_error()?;
    match staked {
        Some(tss) if tss > 0 => {
            let shares_diff = total_shares.checked_sub(tss).or_arith_error()?;
            proof {
                assert(diff as int * shares_diff as int <= u64::MAX as int * u64::MAX as int)
                    by (nonlinear_arith)
                    requires
                        diff <= u64::MAX,
                        shares_diff <= u64::MAX,
                ;
            }
            let correction: u128 = (diff as u128 * shares_diff as u128) / tss as u128;
            if correction > u64::MAX as u128 {
                return Err(ErrorCode::ArithmeticError);
            }
            base.checked_add(correction as u64).or_arith_error()
        },
        _ => Ok(base),
    }
}

/// `fanout` with a new inflow counter and snapshot.
pub open spec fn with_inflow(fanout: Fanout, total_inflow: u64, snapshot: u64) -> Fanout {
    Fanout { total_inflow, last_snapshot_amount: snapshot, ..fanout }
}

/// Watermark update: folds the balance observed since the last snapshot into
/// the logical inflow counter. Nothing changes on failure.
pub fn update_inflow(fanout: &mut Fanout, current_snapshot: u64) -> (r: Result<(), ErrorCode>)
    ensures
        match inflow_update(
            old(fanout).total_inflow,
            old(fanout).last_snapshot_amount,
            current_snapshot,
            old(fanout).total_shares,
            old(fanout).total_staked_shares,
        ) {
            Ok(t) => r is Ok && *final(fanout) == with_inflow(*old(fanout), t, current_snapshot),
            Err(e) => r == Err::<(), ErrorCode>(e) && *final(fanout) == *old(fanout),
        },
{
    let t = compute_total_inflow(
        fanout.total_inflow,
        fanout.last_snapshot_amount,
        current_snapshot,
        fanout.total_shares,
        fanout.total_staked_shares,
    )?;
    fanout.total_inflow = t;
    fanout.last_snapshot_amount = current_snapshot;
    Ok(())
}

/// Records a payout: the member's watermark moves to the pool's counter and
/// the paid amount leaves the tracked balance. Nothing changes on failure.
pub fn update_snapshot(
    fanout: &mut Fanout,
    fanout_voucher: &mut FanoutMembershipVoucher,
    distribution_amount: u64,
) -> (r: Result<(), ErrorCode>)
    ensures
        if distribution_amount <= old(fanout).last_snapshot_amount {
            &&& r is Ok
            &&& *final(fanout) == with_inflow(
                *old(fanout),
                old(fanout).total_inflow,
                (old(fanout).last_snapshot_amount - distribution_amount) as u64,
            )
            &&& *final(fanout_voucher) == (FanoutMembershipVoucher {
                last_inflow: old(fanout).total_inflow,
                ..*old(fanout_voucher)
            })
        } else {
            &&& r == Err::<(), ErrorCode>(ErrorCode::ArithmeticError)
            &&& *final(fanout) == *old(fanout)
            &&& *final(fanout_voucher) == *old(fanout_voucher)
        },
{
    let remaining = fanout.last_snapshot_amount.checked_sub(distribution_amount).or_arith_error()?;
    fanout_voucher.last_inflow = fanout.total_inflow;
    fanout.last_snapshot_amount = remaining;
    Ok(())
}

/// Admission bookkeeping: takes `shares` from the available pool and counts
/// one more member. Nothing changes on failure.
pub fn update_fanout_for_add(fanout: &mut Fanout, shares: u64) -> (r: Result<(), ErrorCode>)
    ensures
        if shares > old(fanout).total_available_shares {
            r == Err::<(), ErrorCode>(ErrorCode::InsufficientShares) && *final(fanout) == *old(fanout)
        } else if old(fanout).total_members == u32::MAX {
            r == Err::<(), ErrorCode>(ErrorCode::ArithmeticError) && *final(fanout) == *old(fanout)
        } else {
            &&& r is Ok
            &&& *final(fanout) == (Fanout {
                total_available_shares: (old(fanout).total_available_shares - shares) as u64,
                total_members: (old(fanout).total_members + 1) as u32,
                ..*old(fanout)
            })
        },
{
    if shares > fanout.total_available_shares {
        return Err(ErrorCode::InsufficientShares);
    }
    let members = fanout.total_members.checked_add(1).or_arith_error()?;
    fanout.total_available_shares = fanout.total_available_shares - shares;
    fanout.total_members = members;
    Ok(())
}

/// Distributable balance of a native holding account: its lamports less the
/// rent-exempt minimum `rent_minimum` (taken as at least 1).
pub fn current_lamports(rent_minimum: u64, holding_account_lamports: u64) -> (r: Result<
    u64,
    ErrorCode,
>)
    ensures
        ({
            let reserve = if rent_minimum > 1 { rent_minimum } else { 1 };
            r == if reserve <= holding_account_lamports {
                Ok::<u64, ErrorCode>((holding_account_lamports - reserve) as u64)
            } else {
                Err(ErrorCode::ArithmeticError)
            }
        }),
{
    let reserve = if rent_minimum > 1 {
        rent_minimum
    } else {
        1
    };
    holding_account_lamports.checked_sub(reserve).or_arith_error()
}

/// Sub-pool watermark update: the same formula as `update_inflow`, against the
/// sub-pool's own counter and the parent pool's shares and stake.
pub fn update_inflow_for_mint(
    fanout: &Fanout,
    fanout_mint: &mut FanoutMint,
    current_snapshot: u64,
) -> (r: Result<(), ErrorCode>)
    ensures
        match inflow_update(
            old(fanout_mint).total_inflow,
            old(fanout_mint).last_snapshot_amount,
            current_snapshot,
            fanout.total_shares,
            fanout.total_staked_shares,
        ) {
            Ok(t) => r is Ok && *final(fanout_mint) == (FanoutMint {
                total_inflow: t,
                last_snapshot_amount: current_snapshot,
                ..*old(fanout_mint)
            }),
            Err(e) => r == Err::<(), ErrorCode>(e) && *final(fanout_mint) == *old(fanout_mint),
        },
{
    let t = compute_total_inflow(
        fanout_mint.total_inflow,
        fanout_mint.last_snapshot_amount,
        current_snapshot,
        fanout.total_shares,
        fanout.total_staked_shares,
    )?;
    fanout_mint.total_inflow = t;
    fanout_mint.last_snapshot_amount = current_snapshot;
    Ok(())
}

/// Sub-pool payout bookkeeping, as `update_snapshot`. Nothing changes on failure.
pub fn update_snapshot_for_mint(
    fanout_mint: &mut FanoutMint,
    mint_voucher: &mut FanoutMembershipMintVoucher,
    distribution_amount: u64,
) -> (r: Result<(), ErrorCode>)
    ensures
        if distribution_amount <= old(fanout_mint).last_snapshot_amount {
            &&& r is Ok
            &&& *final(fanout_mint) == (FanoutMint {
                last_snapshot_amount: (old(fanout_mint).last_snapshot_amount
                    - distribution_amount) as u64,
                ..*old(fanout_mint)
            })
            &&& *final(mint_voucher) == (FanoutMembershipMintVoucher {
                last_inflow: old(fanout_mint).total_inflow,
                ..*old(mint_voucher)
            })
        } else {
            &&& r == Err::<(), ErrorCode>(ErrorCode::ArithmeticError)
            &&& *final(fanout_mint) == *old(fanout_mint)
            &&& *final(mint_voucher) == *old(mint_voucher)
        },
{
    let remaining = fanout_mint.last_snapshot_amount.checked_sub(distribution_amount).or_arith_error()?;
    mint_voucher.last_inflow = fanout_mint.total_inflow;
    fanout_mint.last_snapshot_amount = remaining;
    Ok(())
}

/// The staking correction is exact when the staked count divides the balance
/// delta: the inflow counter grows by `(delta / staked) * total_shares`, and a
/// member with `member_stake` staked shares is owed exactly
/// `member_stake * (delta / staked)`, whatever `total_shares` is.
pub proof fn lemma_staking_correction_exact(
    total_inflow: u64,
    last_snapshot: u64,
    current: u64,
    total_shares: u64,
    staked: u64,
    member_stake: u64,
)
    requires
        0 < staked <= total_shares,
        last_snapshot <= current,
        (current - last_snapshot) % (staked as int) == 0,
        member_stake <= staked,
        total_inflow + (current - last_snapshot) / (staked as int) * total_shares <= u64::MAX,
    ensures
        ({
            let per_share = (current - last_snapshot) / (staked as int);
            let added = per_share * total_shares;
            &&& inflow_update(total_inflow, last_snapshot, current, total_shares, Some(staked))
                == Ok::<u64, ErrorCode>((total_inflow + added) as u64)
            &&& dist_result(member_stake, added as u64, total_shares) == Ok::<u64, ErrorCode>(
                (member_stake * per_share) as u64,
            )
        }),
{
    let delta = current - last_snapshot;
    let s = staked as int;
    let t = total_shares as int;
    let q = delta / s;
    lemma_fundamental_div_mod(delta, s);
    assert(delta == s * q);
    assert(q >= 0);
    assert(delta * (t - s) == s * (q * (t - s))) by (nonlinear_arith)
        requires
            delta == s * q,
    ;
    lemma_div_multiples_vanish(q * (t - s), s);
    assert(staking_correction(delta, t, s) == q * (t - s));
    assert(delta + q * (t - s) == q * t) by (nonlinear_arith)
        requires
            delta == s * q,
    ;
    assert(q * t >= 0) by (nonlinear_arith)
        requires
            q >= 0,
            t >= 0,
    ;
    let a = member_stake as int;
    assert(a * (q * t) == t * (a * q)) by (nonlinear_arith);
    lemma_div_multiples_vanish(a * q, t);
    assert(dist_amount(a, q * t, t) == a * q);
    assert(0 <= a * q <= s * q) by (nonlinear_arith)
        requires
            0 <= a <= s,
            q >= 0,
    ;
}

} // verus!
