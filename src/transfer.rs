use vstd::prelude::*;

use crate::error::{ErrorCode, OrArithError};
use crate::state::{Address, DistributionRecord, Fanout, FanoutMembershipVoucher, MembershipModel};
use crate::validation::{
    assert_distributed, assert_membership_voucher_valid, settled_before, voucher_valid,
};

verus! {

/// Moves `shares` from one member to another under the `Wallet` or `NFT`
/// model. `member`, the sender, must have settled immediately before. The
/// watermarks stay as they are.
pub fn transfer_shares(
    fanout: &Fanout,
    from_voucher: &mut FanoutMembershipVoucher,
    to_voucher: &mut FanoutMembershipVoucher,
    prior: &Option<DistributionRecord>,
    member: &Address,
    shares: u64,
) -> (r: Result<(), ErrorCode>)
    ensures
        if !settled_before(*prior, *member, fanout.membership_model) {
            r == Err::<(), ErrorCode>(ErrorCode::MustDistribute)
        } else if fanout.membership_model == MembershipModel::Token {
            r == Err::<(), ErrorCode>(ErrorCode::InvalidMembershipModel)
        } else if !voucher_valid(*old(from_voucher), fanout.membership_model) || !voucher_valid(
            *old(to_voucher),
            fanout.membership_model,
        ) {
            r == Err::<(), ErrorCode>(ErrorCode::InvalidMembershipVoucher)
        } else if old(from_voucher).membership_key == old(to_voucher).membership_key {
            r == Err::<(), ErrorCode>(ErrorCode::TransferNotSupported)
        } else if old(from_voucher).shares.unwrap() < shares {
            r == Err::<(), ErrorCode>(ErrorCode::InsufficientShares)
        } else if old(to_voucher).shares.unwrap() + shares > u64::MAX {
            r == Err::<(), ErrorCode>(ErrorCode::ArithmeticError)
        } else {
            &&& r is Ok
            &&& *final(from_voucher) == (FanoutMembershipVoucher {
                shares: Some((old(from_voucher).shares.unwrap() - shares) as u64),
                ..*old(from_voucher)
            })
            &&& *final(to_voucher) == (FanoutMembershipVoucher {
                shares: Some((old(to_voucher).shares.unwrap() + shares) as u64),
                ..*old(to_voucher)
            })
        },
        r is Err ==> *final(from_voucher) == *old(from_voucher) && *final(to_voucher)
            == *old(to_voucher),
{
    assert_distributed(prior, member, fanout.membership_model)?;
    if fanout.membership_model == MembershipModel::Token {
        return Err(ErrorCode::InvalidMembershipModel);
    }
    assert_membership_voucher_valid(from_voucher, fanout.membership_model)?;
    assert_membership_voucher_valid(to_voucher, fanout.membership_model)?;
    if from_voucher.membership_key == to_voucher.membership_key {
        return Err(ErrorCode::TransferNotSupported);
    }
    let from_shares = from_voucher.shares.unwrap();
    if from_shares < shares {
        return Err(ErrorCode::InsufficientShares);
    }
    let to_shares = to_voucher.shares.unwrap().checked_add(shares).or_arith_error()?;
    from_voucher.shares = Some(from_shares - shares);
    to_voucher.shares = Some(to_shares);
    Ok(())
}

/// Sweeps the pool record's own balance into its holding account: returns
/// the two balances afterwards, the pool record's being zero.
pub fn transfer_to_hodling(fanout_lamports: u64, holding_lamports: u64) -> (r: Result<
    (u64, u64),
    ErrorCode,
>)
    ensures
        r == if fanout_lamports + holding_lamports <= u64::MAX {
            Ok::<(u64, u64), ErrorCode>((0u64, (fanout_lamports + holding_lamports) as u64))
        } else {
            Err(ErrorCode::ArithmeticError)
        },
{
    let holding = holding_lamports.checked_add(fanout_lamports).or_arith_error()?;
    Ok((0, holding))
}

} // verus!
