use vstd::prelude::*;

use crate::error::{ErrorCode, OrArithError};
use crate::state::{Address, DistributionRecord, Fanout, FanoutMembershipVoucher, MembershipModel};
use crate::validation::{
    assert_distributed, assert_membership_model, assert_membership_voucher_valid, settled_before,
    voucher_valid,
};

verus! {

/// The pool's staked-share counter, zero when absent.
pub open spec fn staked_of(fanout: Fanout) -> u64 {
    match fanout.total_staked_shares {
        Some(s) => s,
        None => 0,
    }
}

/// The amount a voucher has at stake, zero when absent.
pub open spec fn stake_of(voucher: FanoutMembershipVoucher) -> u64 {
    match voucher.amount_at_stake {
        Some(s) => s,
        None => 0,
    }
}

/// Stakes `shares` membership tokens for a token-model member: the pool's
/// staked counter and the voucher's stake both grow by `shares`. The staked
/// counter may not pass the pool's total shares. A first
/// stake starts the voucher's watermark at the pool's current inflow.
pub fn set_token_member_stake(
    fanout: &mut Fanout,
    voucher: &mut FanoutMembershipVoucher,
    shares: u64,
) -> (r: Result<(), ErrorCode>)
    ensures
        if old(fanout).membership_model != MembershipModel::Token {
            r == Err::<(), ErrorCode>(ErrorCode::InvalidMembershipModel)
        } else if old(voucher).shares is Some || old(voucher).membership_key is Some {
            r == Err::<(), ErrorCode>(ErrorCode::InvalidMembershipVoucher)
        } else if staked_of(*old(fanout)) + shares > old(fanout).total_shares {
            r == Err::<(), ErrorCode>(ErrorCode::InsufficientShares)
        } else if stake_of(*old(voucher)) + shares > u64::MAX {
            r == Err::<(), ErrorCode>(ErrorCode::ArithmeticError)
        } else {
            &&& r is Ok
            &&& *final(fanout) == (Fanout {
                total_staked_shares: Some((staked_of(*old(fanout)) + shares) as u64),
                ..*old(fanout)
            })
            &&& *final(voucher) == (FanoutMembershipVoucher {
                amount_at_stake: Some((stake_of(*old(voucher)) + shares) as u64),
                last_inflow: if old(voucher).amount_at_stake is None {
                    old(fanout).total_inflow
                } else {
                    old(voucher).last_inflow
                },
                ..*old(voucher)
            })
        },
        r is Err ==> *final(fanout) == *old(fanout) && *final(voucher) == *old(voucher),
{
    assert_membership_model(fanout, MembershipModel::Token)?;
    if voucher.shares.is_some() || voucher.membership_key.is_some() {
        return Err(ErrorCode::InvalidMembershipVoucher);
    }
    let staked = match fanout.total_staked_shares {
        Some(s) => s,
        None => 0,
    };
    let stake = match voucher.amount_at_stake {
        Some(s) => s,
        None => 0,
    };
    if shares > fanout.total_shares || staked > fanout.total_shares - shares {
        return Err(ErrorCode::InsufficientShares);
    }
    let new_staked = staked + shares;
    let new_stake = stake.checked_add(shares).or_arith_error()?;
    if voucher.amount_at_stake.is_none() {
        voucher.last_inflow = fanout.total_inflow;
    }
    voucher.amount_at_stake = Some(new_stake);
    fanout.total_staked_shares = Some(new_staked);
    Ok(())
}

/// Unstakes `shares` for `member`, who must have settled immediately before:
/// the pool's staked counter and the voucher's stake both shrink by `shares`.
/// Returns the number of tokens to hand back to the member.
pub fn unstake(
    fanout: &mut Fanout,
    voucher: &mut FanoutMembershipVoucher,
    prior: &Option<DistributionRecord>,
    member: &Address,
    shares: u64,
) -> (r: Result<u64, ErrorCode>)
    ensures
        if !settled_before(*prior, *member, old(fanout).membership_model) {
            r == Err::<u64, ErrorCode>(ErrorCode::MustDistribute)
        } else if old(fanout).membership_model != MembershipModel::Token {
            r == Err::<u64, ErrorCode>(ErrorCode::InvalidMembershipModel)
        } else if !voucher_valid(*old(voucher), MembershipModel::Token) {
            r == Err::<u64, ErrorCode>(ErrorCode::InvalidMembershipVoucher)
        } else if shares > stake_of(*old(voucher)) {
            r == Err::<u64, ErrorCode>(ErrorCode::InsufficientShares)
        } else if shares > staked_of(*old(fanout)) {
            r == Err::<u64, ErrorCode>(ErrorCode::ArithmeticError)
        } else {
            &&& r == Ok::<u64, ErrorCode>(shares)
            &&& *final(fanout) == (Fanout {
                total_staked_shares: Some((staked_of(*old(fanout)) - shares) as u64),
                ..*old(fanout)
            })
            &&& *final(voucher) == (FanoutMembershipVoucher {
                amount_at_stake: Some((stake_of(*old(voucher)) - shares) as u64),
                ..*old(voucher)
            })
        },
        r is Err ==> *final(fanout) == *old(fanout) && *final(voucher) == *old(voucher),
{
    assert_distributed(prior, member, fanout.membership_model)?;
    assert_membership_model(fanout, MembershipModel::Token)?;
    assert_membership_voucher_valid(voucher, MembershipModel::Token)?;
    let stake = voucher.amount_at_stake.unwrap();
    if shares > stake {
        return Err(ErrorCode::InsufficientShares);
    }
    let staked = match fanout.total_staked_shares {
        Some(s) => s,
        None => 0,
    };
    let new_staked = staked.checked_sub(shares).or_arith_error()?;
    voucher.amount_at_stake = Some(stake - shares);
    fanout.total_staked_shares = Some(new_staked);
    Ok(shares)
}

} // verus!
