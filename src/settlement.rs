use vstd::prelude::*;

use crate::calculation::{
    calculate_dist_amount, calculate_inflow_change, compute_total_inflow, current_lamports,
    dist_amount, dist_result, inflow_update, staking_correction, update_snapshot, with_inflow,
};
use crate::error::{ErrorCode, OrArithError};
use crate::state::{
    Address, DistributionRecord, Fanout, FanoutMembershipVoucher, MembershipModel,
    TokenAccountInfo,
};
use crate::validation::{
    assert_holding, assert_membership_model, assert_membership_voucher_valid,
    assert_shares_distributed, holding_result, voucher_valid,
};

verus! {

/// The share count that a valid voucher settles with under `model`.
pub open spec fn voucher_weight(voucher: FanoutMembershipVoucher, model: MembershipModel) -> u64 {
    match model {
        MembershipModel::Token => voucher.amount_at_stake.unwrap(),
        _ => voucher.shares.unwrap(),
    }
}

/// Settlement of one member against balance `current_balance`: the pool and
/// voucher afterwards and the amount paid, or the error it fails with.
pub open spec fn settle_outcome(
    fanout: Fanout,
    voucher: FanoutMembershipVoucher,
    current_balance: u64,
) -> Result<(Fanout, FanoutMembershipVoucher, u64), ErrorCode> {
    let model = fanout.membership_model;
    if fanout.total_available_shares != 0 {
        Err(ErrorCode::SharesNotFullyAllocated)
    } else if !voucher_valid(voucher, model) {
        Err(ErrorCode::InvalidMembershipVoucher)
    } else {
        match inflow_update(
            fanout.total_inflow,
            fanout.last_snapshot_amount,
            current_balance,
            fanout.total_shares,
            fanout.total_staked_shares,
        ) {
            Err(e) => Err(e),
            Ok(total_inflow) => {
                if voucher.last_inflow > total_inflow {
                    Err(ErrorCode::ArithmeticError)
                } else {
                    match dist_result(
                        voucher_weight(voucher, model),
                        (total_inflow - voucher.last_inflow) as u64,
                        fanout.total_shares,
                    ) {
                        Err(e) => Err(e),
                        Ok(amount) => {
                            if amount > current_balance || voucher.total_claimed + amount
                                > u64::MAX {
                                Err(ErrorCode::ArithmeticError)
                            } else {
                                Ok(
                                    (
                                        with_inflow(
                                            fanout,
                                            total_inflow,
                                            (current_balance - amount) as u64,
                                        ),
                                        FanoutMembershipVoucher {
                                            last_inflow: total_inflow,
                                            total_claimed: (voucher.total_claimed + amount) as u64,
                                            ..voucher
                                        },
                                        amount,
                                    ),
                                )
                            }
                        },
                    }
                }
            },
        }
    }
}

/// Settles one member: folds the newly observed balance into the pool's
/// inflow counter, pays the member's share of the inflow since their
/// watermark, and moves the watermark. All or nothing.
pub fn settle(
    fanout: &mut Fanout,
    voucher: &mut FanoutMembershipVoucher,
    current_balance: u64,
) -> (r: Result<u64, ErrorCode>)
    ensures
        match settle_outcome(*old(fanout), *old(voucher), current_balance) {
            Ok((f, v, amount)) => r == Ok::<u64, ErrorCode>(amount) && *final(fanout) == f
                && *final(voucher) == v,
            Err(e) => r == Err::<u64, ErrorCode>(e) && *final(fanout) == *old(fanout)
                && *final(voucher) == *old(voucher),
        },
{
    assert_shares_distributed(fanout)?;
    let model = fanout.membership_model;
    assert_membership_voucher_valid(voucher, model)?;
    let weight = match model {
        MembershipModel::Token => voucher.amount_at_stake.unwrap(),
        _ => voucher.shares.unwrap(),
    };
    let total_inflow = compute_total_inflow(
        fanout.total_inflow,
        fanout.last_snapshot_amount,
        current_balance,
        fanout.total_shares,
        fanout.total_staked_shares,
    )?;
    let inflow_diff = calculate_inflow_change(total_inflow, voucher.last_inflow)?;
    let amount = calculate_dist_amount(weight, inflow_diff, fanout.total_shares)?;
    if amount > current_balance {
        return Err(ErrorCode::ArithmeticError);
    }
    let claimed = voucher.total_claimed.checked_add(amount).or_arith_error()?;
    fanout.total_inflow = total_inflow;
    fanout.last_snapshot_amount = current_balance;
    let _ = update_snapshot(fanout, voucher, amount);
    voucher.total_claimed = claimed;
    Ok(amount)
}

/// Settling a member a second time with no change in the backing balance in
/// between (the balance is only lower by what the first settlement paid) pays
/// nothing and leaves the pool and the voucher as they are.
pub proof fn lemma_settle_idempotent(
    fanout: Fanout,
    voucher: FanoutMembershipVoucher,
    current_balance: u64,
)
    requires
        settle_outcome(fanout, voucher, current_balance) is Ok,
    ensures
        ({
            let (f1, v1, paid) = settle_outcome(fanout, voucher, current_balance)->Ok_0;
            settle_outcome(f1, v1, (current_balance - paid) as u64) == Ok::<
                (Fanout, FanoutMembershipVoucher, u64),
                ErrorCode,
            >((f1, v1, 0u64))
        }),
{
    let (f1, v1, paid) = settle_outcome(fanout, voucher, current_balance)->Ok_0;
    let t = f1.total_inflow;
    assert(0 * (f1.total_shares - 0) == 0);
    match f1.total_staked_shares {
        Some(s) => {
            if s > 0 {
                assert(staking_correction(0, f1.total_shares as int, s as int) == 0);
            }
        },
        None => {},
    }
    assert(inflow_update(t, f1.last_snapshot_amount, (current_balance - paid) as u64, f1.total_shares, f1.total_staked_shares) == Ok::<u64, ErrorCode>(t));
    assert(dist_amount(voucher_weight(v1, f1.membership_model) as int, 0, f1.total_shares as int) == 0);
}

/// Settlement from a native holding account of `holding_lamports`, of which
/// `rent_minimum` (at least 1) is reserved, for a pool under `model`.
pub open spec fn native_outcome(
    fanout: Fanout,
    voucher: FanoutMembershipVoucher,
    model: MembershipModel,
    holding_lamports: u64,
    rent_minimum: u64,
) -> Result<(Fanout, FanoutMembershipVoucher, u64), ErrorCode> {
    let reserve = if rent_minimum > 1 {
        rent_minimum
    } else {
        1
    };
    if fanout.membership_model != model {
        Err(ErrorCode::InvalidMembershipModel)
    } else if fanout.total_available_shares != 0 {
        Err(ErrorCode::SharesNotFullyAllocated)
    } else if !voucher_valid(voucher, model) {
        Err(ErrorCode::InvalidMembershipVoucher)
    } else if holding_lamports < reserve {
        Err(ErrorCode::ArithmeticError)
    } else {
        settle_outcome(fanout, voucher, (holding_lamports - reserve) as u64)
    }
}

/// `r`, `new_fanout` and `new_voucher` follow `outcome`: on success the paid
/// amount comes with a record that `member` was settled under `model`; on
/// failure the error is reported and nothing changed.
pub open spec fn distribution_follows(
    r: Result<(u64, DistributionRecord), ErrorCode>,
    outcome: Result<(Fanout, FanoutMembershipVoucher, u64), ErrorCode>,
    old_fanout: Fanout,
    old_voucher: FanoutMembershipVoucher,
    new_fanout: Fanout,
    new_voucher: FanoutMembershipVoucher,
    model: MembershipModel,
    member: Address,
) -> bool {
    match outcome {
        Ok((f, v, amount)) => {
            &&& r is Ok
            &&& r->Ok_0.0 == amount
            &&& r->Ok_0.1.model_of() == model
            &&& r->Ok_0.1.member_of() == member
            &&& new_fanout == f
            &&& new_voucher == v
        },
        Err(e) => r == Err::<(u64, DistributionRecord), ErrorCode>(e) && new_fanout == old_fanout
            && new_voucher == old_voucher,
    }
}

/// Settling again from the same native holding account, lower only by what
/// the first settlement paid, pays nothing and changes nothing.
pub proof fn lemma_distribute_idempotent(
    fanout: Fanout,
    voucher: FanoutMembershipVoucher,
    model: MembershipModel,
    holding_lamports: u64,
    rent_minimum: u64,
)
    requires
        native_outcome(fanout, voucher, model, holding_lamports, rent_minimum) is Ok,
    ensures
        ({
            let (f1, v1, paid) = native_outcome(
                fanout,
                voucher,
                model,
                holding_lamports,
                rent_minimum,
            )->Ok_0;
            native_outcome(f1, v1, model, (holding_lamports - paid) as u64, rent_minimum) == Ok::<
                (Fanout, FanoutMembershipVoucher, u64),
                ErrorCode,
            >((f1, v1, 0u64))
        }),
{
    let reserve: u64 = if rent_minimum > 1 {
        rent_minimum
    } else {
        1
    };
    let balance = (holding_lamports - reserve) as u64;
    lemma_settle_idempotent(fanout, voucher, balance);
}

fn distribute_native(
    fanout: &mut Fanout,
    voucher: &mut FanoutMembershipVoucher,
    model: MembershipModel,
    holding_lamports: u64,
    rent_minimum: u64,
) -> (r: Result<u64, ErrorCode>)
    ensures
        match native_outcome(*old(fanout), *old(voucher), model, holding_lamports, rent_minimum) {
            Ok((f, v, amount)) => r == Ok::<u64, ErrorCode>(amount) && *final(fanout) == f
                && *final(voucher) == v,
            Err(e) => r == Err::<u64, ErrorCode>(e) && *final(fanout) == *old(fanout)
                && *final(voucher) == *old(voucher),
        },
{
    assert_membership_model(fanout, model)?;
    assert_shares_distributed(fanout)?;
    assert_membership_voucher_valid(voucher, model)?;
    let balance = current_lamports(rent_minimum, holding_lamports)?;
    settle(fanout, voucher, balance)
}

/// Settles a wallet member from the pool's native holding account. Returns
/// the amount to move to the member and the record of the settlement.
pub fn distribute_for_wallet(
    fanout: &mut Fanout,
    voucher: &mut FanoutMembershipVoucher,
    holding_lamports: u64,
    rent_minimum: u64,
) -> (r: Result<(u64, DistributionRecord), ErrorCode>)
    ensures
        distribution_follows(
            r,
            native_outcome(
                *old(fanout),
                *old(voucher),
                MembershipModel::Wallet,
                holding_lamports,
                rent_minimum,
            ),
            *old(fanout),
            *old(voucher),
            *final(fanout),
            *final(voucher),
            MembershipModel::Wallet,
            old(voucher).membership_key.unwrap(),
        ),
{
    let amount = distribute_native(
        fanout,
        voucher,
        MembershipModel::Wallet,
        holding_lamports,
        rent_minimum,
    )?;
    Ok((amount, DistributionRecord::new(MembershipModel::Wallet, voucher.membership_key.unwrap())))
}

/// Settles a certificate member from the pool's native holding account, after
/// checking that `member` holds the certificate named on the voucher. Returns
/// the amount to move to the member and the record of the settlement.
pub fn distribute_for_nft(
    fanout: &mut Fanout,
    voucher: &mut FanoutMembershipVoucher,
    member: &Address,
    membership_token_account: &TokenAccountInfo,
    holding_lamports: u64,
    rent_minimum: u64,
) -> (r: Result<(u64, DistributionRecord), ErrorCode>)
    ensures
        distribution_follows(
            r,
            if old(fanout).membership_model == MembershipModel::NFT
                && old(fanout).total_available_shares == 0 && voucher_valid(
                *old(voucher),
                MembershipModel::NFT,
            ) && holding_result(
                *member,
                *membership_token_account,
                old(voucher).membership_key.unwrap(),
            ) is Err {
                Err(
                    holding_result(
                        *member,
                        *membership_token_account,
                        old(voucher).membership_key.unwrap(),
                    )->Err_0,
                )
            } else {
                native_outcome(
                    *old(fanout),
                    *old(voucher),
                    MembershipModel::NFT,
                    holding_lamports,
                    rent_minimum,
                )
            },
            *old(fanout),
            *old(voucher),
            *final(fanout),
            *final(voucher),
            MembershipModel::NFT,
            *member,
        ),
{
    assert_membership_model(fanout, MembershipModel::NFT)?;
    assert_shares_distributed(fanout)?;
    assert_membership_voucher_valid(voucher, MembershipModel::NFT)?;
    assert_holding(member, membership_token_account, &voucher.membership_key.unwrap())?;
    let amount = distribute_native(
        fanout,
        voucher,
        MembershipModel::NFT,
        holding_lamports,
        rent_minimum,
    )?;
    Ok((amount, DistributionRecord::new(MembershipModel::NFT, *member)))
}

/// Settles the token-staking member `member` from the pool's native holding
/// account. Returns the amount to move to the member and the record of the
/// settlement.
pub fn distribute_for_token(
    fanout: &mut Fanout,
    voucher: &mut FanoutMembershipVoucher,
    member: &Address,
    holding_lamports: u64,
    rent_minimum: u64,
) -> (r: Result<(u64, DistributionRecord), ErrorCode>)
    ensures
        distribution_follows(
            r,
            native_outcome(
                *old(fanout),
                *old(voucher),
                MembershipModel::Token,
                holding_lamports,
                rent_minimum,
            ),
            *old(fanout),
            *old(voucher),
            *final(fanout),
            *final(voucher),
            MembershipModel::Token,
            *member,
        ),
{
    let amount = distribute_native(
        fanout,
        voucher,
        MembershipModel::Token,
        holding_lamports,
        rent_minimum,
    )?;
    Ok((amount, DistributionRecord::new(MembershipModel::Token, *member)))
}

} // verus!
