use vstd::prelude::*;

use crate::calculation::{
    calculate_dist_amount, calculate_inflow_change, compute_total_inflow, dist_result,
    inflow_update, update_snapshot_for_mint,
};
use crate::error::ErrorCode;
use crate::settlement::voucher_weight;
use crate::state::{
    Address, DistributionRecord, Fanout, FanoutMembershipMintVoucher, FanoutMembershipVoucher, FanoutMint,
    MembershipModel, TokenAccountInfo,
};
use crate::validation::{
    assert_holding, assert_membership_voucher_valid, assert_shares_distributed, holding_result,
    voucher_valid,
};

verus! {

/// A member's sub-pool voucher: the stored one when there is one (its bump
/// seed must match), else a fresh one with a zero watermark.
pub fn parse_mint_membership_voucher(
    existing: Option<FanoutMembershipMintVoucher>,
    fanout_mint: Address,
    bump_seed: u8,
) -> (r: Result<FanoutMembershipMintVoucher, ErrorCode>)
    ensures
        r == match existing {
            None => Ok::<FanoutMembershipMintVoucher, ErrorCode>(
                FanoutMembershipMintVoucher {
                    fanout_mint,
                    last_inflow: 0,
                    bump_seed,
                    amount_at_stake: None,
                },
            ),
            Some(v) => if v.bump_seed == bump_seed {
                Ok(v)
            } else {
                Err(ErrorCode::InvalidMembershipVoucher)
            },
        },
{
    match existing {
        None => Ok(FanoutMembershipMintVoucher { fanout_mint, last_inflow: 0, bump_seed, amount_at_stake: None }),
        Some(v) => {
            if v.bump_seed != bump_seed {
                return Err(ErrorCode::InvalidMembershipVoucher);
            }
            Ok(v)
        },
    }
}

/// Whether `member` may settle with `voucher` under `model`: under `NFT` it
/// must hold the voucher's certificate in `membership_token_account`, under
/// `Wallet` it must be the voucher's wallet; under `Token` the stake decides.
pub open spec fn member_access(
    model: MembershipModel,
    voucher: FanoutMembershipVoucher,
    member: Address,
    membership_token_account: Option<TokenAccountInfo>,
) -> Result<(), ErrorCode> {
    match model {
        MembershipModel::NFT => match membership_token_account {
            None => Err(ErrorCode::WalletDoesNotOwnMembershipToken),
            Some(t) => holding_result(member, t, voucher.membership_key.unwrap()),
        },
        MembershipModel::Wallet => if voucher.membership_key == Some(member) {
            Ok(())
        } else {
            Err(ErrorCode::IncorrectOwner)
        },
        MembershipModel::Token => Ok(()),
    }
}

/// Settlement of one member in a sub-pool against the secondary asset's
/// balance `current_balance`: the sub-pool and sub-pool voucher afterwards and
/// the amount paid, or the error it fails with.
pub open spec fn mint_settle_outcome(
    fanout: Fanout,
    voucher: FanoutMembershipVoucher,
    fanout_mint: FanoutMint,
    mint_voucher: FanoutMembershipMintVoucher,
    member: Address,
    membership_token_account: Option<TokenAccountInfo>,
    current_balance: u64,
) -> Result<(FanoutMint, FanoutMembershipMintVoucher, u64), ErrorCode> {
    let model = fanout.membership_model;
    if fanout.total_available_shares != 0 {
        Err(ErrorCode::SharesNotFullyAllocated)
    } else if !voucher_valid(voucher, model) {
        Err(ErrorCode::InvalidMembershipVoucher)
    } else if member_access(model, voucher, member, membership_token_account) is Err {
        Err(member_access(model, voucher, member, membership_token_account)->Err_0)
    } else if mint_voucher.fanout_mint != fanout_mint.mint {
        Err(ErrorCode::InvalidFanoutForMint)
    } else {
        match inflow_update(
            fanout_mint.total_inflow,
            fanout_mint.last_snapshot_amount,
            current_balance,
            fanout.total_shares,
            fanout.total_staked_shares,
        ) {
            Err(e) => Err(e),
            Ok(total_inflow) => {
                if mint_voucher.last_inflow > total_inflow {
                    Err(ErrorCode::ArithmeticError)
                } else {
                    match dist_result(
                        voucher_weight(voucher, model),
                        (total_inflow - mint_voucher.last_inflow) as u64,
                        fanout.total_shares,
                    ) {
                        Err(e) => Err(e),
                        Ok(amount) => {
                            if amount > current_balance {
                                Err(ErrorCode::ArithmeticError)
                            } else {
                                Ok(
                                    (
                                        FanoutMint {
                                            total_inflow,
                                            last_snapshot_amount: (current_balance
                                                - amount) as u64,
                                            ..fanout_mint
                                        },
                                        FanoutMembershipMintVoucher {
                                            last_inflow: total_inflow,
                                            ..mint_voucher
                                        },
                                        amount,
                                    ),
                                )
                            }
                        },
                    }
                }
            },
        }
    }
}

/// Settles one member in the sub-pool of a secondary asset: the same formulas
/// as the parent pool's, against the sub-pool's own watermark and the parent
/// pool's shares, once `member` has shown that the voucher is theirs (see
/// `member_access`). Returns the amount of the asset to move to the member and
/// the record of the settlement. All or nothing.
pub fn distribute_for_mint(
    fanout: &Fanout,
    voucher: &FanoutMembershipVoucher,
    member: &Address,
    membership_token_account: &Option<TokenAccountInfo>,
    fanout_mint: &mut FanoutMint,
    mint_voucher: &mut FanoutMembershipMintVoucher,
    current_balance: u64,
) -> (r: Result<(u64, DistributionRecord), ErrorCode>)
    ensures
        match mint_settle_outcome(
            *fanout,
            *voucher,
            *old(fanout_mint),
            *old(mint_voucher),
            *member,
            *membership_token_account,
            current_balance,
        ) {
            Ok((m, v, amount)) => {
                &&& r is Ok
                &&& r->Ok_0.0 == amount
                &&& r->Ok_0.1.model_of() == fanout.membership_model
                &&& r->Ok_0.1.member_of() == *member
                &&& *final(fanout_mint) == m
                &&& *final(mint_voucher) == v
            },
            Err(e) => r == Err::<(u64, DistributionRecord), ErrorCode>(e) && *final(fanout_mint)
                == *old(fanout_mint) && *final(mint_voucher) == *old(mint_voucher),
        },
{
    assert_shares_distributed(fanout)?;
    let model = fanout.membership_model;
    assert_membership_voucher_valid(voucher, model)?;
    match model {
        MembershipModel::NFT => match membership_token_account {
            None => {
                return Err(ErrorCode::WalletDoesNotOwnMembershipToken);
            },
            Some(t) => {
                assert_holding(member, t, &voucher.membership_key.unwrap())?;
            },
        },
        MembershipModel::Wallet => {
            if voucher.membership_key != Some(*member) {
                return Err(ErrorCode::IncorrectOwner);
            }
        },
        MembershipModel::Token => {},
    }
    if mint_voucher.fanout_mint != fanout_mint.mint {
        return Err(ErrorCode::InvalidFanoutForMint);
    }
    let weight = match model {
        MembershipModel::Token => voucher.amount_at_stake.unwrap(),
        _ => voucher.shares.unwrap(),
    };
    let total_inflow = compute_total_inflow(
        fanout_mint.total_inflow,
        fanout_mint.last_snapshot_amount,
        current_balance,
        fanout.total_shares,
        fanout.total_staked_shares,
    )?;
    let inflow_diff = calculate_inflow_change(total_inflow, mint_voucher.last_inflow)?;
    let amount = calculate_dist_amount(weight, inflow_diff, fanout.total_shares)?;
    if amount > current_balance {
        return Err(ErrorCode::ArithmeticError);
    }
    fanout_mint.total_inflow = total_inflow;
    fanout_mint.last_snapshot_amount = current_balance;
    let _ = update_snapshot_for_mint(fanout_mint, mint_voucher, amount);
    Ok((amount, DistributionRecord::new(model, *member)))
}

} // verus!
