use vstd::prelude::*;

use crate::error::ErrorCode;
use crate::state::{
    Address, DistributionRecord, Fanout, FanoutMembershipVoucher, MembershipModel,
    TokenAccountInfo,
};

verus! {

/// Whether a voucher has the shape that `model` requires: a share count and a
/// membership key under `Wallet` and `NFT`; only a staked amount under `Token`.
pub open spec fn voucher_valid(voucher: FanoutMembershipVoucher, model: MembershipModel) -> bool {
    match model {
        MembershipModel::Wallet | MembershipModel::NFT => voucher.shares is Some
            && voucher.membership_key is Some,
        MembershipModel::Token => voucher.shares is None && voucher.membership_key is None
            && voucher.amount_at_stake is Some,
    }
}

/// Fails with `IncorrectOwner` unless `account_owner` is `owner`.
pub fn assert_owned_by(account_owner: &Address, owner: &Address) -> (r: Result<(), ErrorCode>)
    ensures
        r == if *account_owner == *owner {
            Ok::<(), ErrorCode>(())
        } else {
            Err(ErrorCode::IncorrectOwner)
        },
{
    if *account_owner != *owner {
        Err(ErrorCode::IncorrectOwner)
    } else {
        Ok(())
    }
}

/// Fails with `InvalidMembershipModel` unless the pool runs under `model`.
pub fn assert_membership_model(fanout: &Fanout, model: MembershipModel) -> (r: Result<(), ErrorCode>)
    ensures
        r == if fanout.membership_model == model {
            Ok::<(), ErrorCode>(())
        } else {
            Err(ErrorCode::InvalidMembershipModel)
        },
{
    if fanout.membership_model != model {
        return Err(ErrorCode::InvalidMembershipModel);
    }
    Ok(())
}

/// Fails with `SharesNotFullyAllocated` while any share is still unallocated.
pub fn assert_shares_distributed(fanout: &Fanout) -> (r: Result<(), ErrorCode>)
    ensures
        r == if fanout.total_available_shares == 0 {
            Ok::<(), ErrorCode>(())
        } else {
            Err(ErrorCode::SharesNotFullyAllocated)
        },
{
    if fanout.total_available_shares != 0 {
        return Err(ErrorCode::SharesNotFullyAllocated);
    }
    Ok(())
}

/// Fails with `InvalidMembershipVoucher` unless the voucher has the shape `model` requires.
pub fn assert_membership_voucher_valid(
    voucher: &FanoutMembershipVoucher,
    model: MembershipModel,
) -> (r: Result<(), ErrorCode>)
    ensures
        r == if voucher_valid(*voucher, model) {
            Ok::<(), ErrorCode>(())
        } else {
            Err(ErrorCode::InvalidMembershipVoucher)
        },
{
    match model {
        MembershipModel::Wallet | MembershipModel::NFT => {
            if voucher.shares.is_none() || voucher.membership_key.is_none() {
                return Err(ErrorCode::InvalidMembershipVoucher);
            }
        },
        MembershipModel::Token => {
            if voucher.shares.is_some() || voucher.membership_key.is_some()
                || voucher.amount_at_stake.is_none() {
                return Err(ErrorCode::InvalidMembershipVoucher);
            }
        },
    }
    Ok(())
}

/// The outcome of `assert_holding`.
pub open spec fn holding_result(owner: Address, token_account: TokenAccountInfo, mint: Address) -> Result<
    (),
    ErrorCode,
> {
    if token_account.owner != owner {
        Err(ErrorCode::IncorrectOwner)
    } else if token_account.amount < 1 {
        Err(ErrorCode::WalletDoesNotOwnMembershipToken)
    } else if token_account.mint != mint {
        Err(ErrorCode::MintDoesNotMatch)
    } else {
        Ok(())
    }
}

/// Checks that `owner` holds at least one unit of `mint` in `token_account`.
pub fn assert_holding(owner: &Address, token_account: &TokenAccountInfo, mint: &Address) -> (r:
    Result<(), ErrorCode>)
    ensures
        r == holding_result(*owner, *token_account, *mint),
{
    if token_account.owner != *owner {
        return Err(ErrorCode::IncorrectOwner);
    }
    if token_account.amount < 1 {
        return Err(ErrorCode::WalletDoesNotOwnMembershipToken);
    }
    if token_account.mint != *mint {
        return Err(ErrorCode::MintDoesNotMatch);
    }
    Ok(())
}

/// Whether `prior` is a settlement of `subject` under `model`.
pub open spec fn settled_before(
    prior: Option<DistributionRecord>,
    subject: Address,
    model: MembershipModel,
) -> bool {
    match prior {
        Some(d) => d.model_of() == model && d.member_of() == subject,
        None => false,
    }
}

/// Fails with `MustDistribute` unless the operation that immediately preceded
/// this one settled `subject` under `model`.
pub fn assert_distributed(
    prior: &Option<DistributionRecord>,
    subject: &Address,
    membership_model: MembershipModel,
) -> (r: Result<(), ErrorCode>)
    ensures
        r == if settled_before(*prior, *subject, membership_model) {
            Ok::<(), ErrorCode>(())
        } else {
            Err(ErrorCode::MustDistribute)
        },
{
    match prior {
        Some(d) => {
            if d.membership_model() != membership_model || d.member() != *subject {
                return Err(ErrorCode::MustDistribute);
            }
            Ok(())
        },
        None => Err(ErrorCode::MustDistribute),
    }
}

} // verus!
