use vstd::prelude::*;

use crate::calculation::update_fanout_for_add;
use crate::error::ErrorCode;
use crate::state::{
    AddMemberArgs, Address, Fanout, FanoutMembershipVoucher, InitializeFanoutArgs, MembershipModel,
};
use crate::validation::assert_membership_model;

verus! {

/// Creates a pool with every share available, no members and a zero inflow
/// counter. A token-model pool needs a membership mint and starts with zero
/// staked shares; the other models keep neither.
pub fn init(
    args: InitializeFanoutArgs,
    authority: Address,
    holding_account: Address,
    membership_mint: Option<Address>,
) -> (r: Result<Fanout, ErrorCode>)
    ensures
        args.membership_model == MembershipModel::Token && membership_mint is None ==> r
            == Err::<Fanout, ErrorCode>(ErrorCode::MintAccountRequired),
        !(args.membership_model == MembershipModel::Token && membership_mint is None) ==> r
            == Ok::<Fanout, ErrorCode>(
            Fanout {
                authority,
                name: args.name,
                account_key: holding_account,
                total_shares: args.total_shares,
                total_members: 0,
                total_inflow: 0,
                last_snapshot_amount: 0,
                bump_seed: args.bump_seed,
                account_owner_bump_seed: args.native_account_bump_seed,
                total_available_shares: args.total_shares,
                membership_model: args.membership_model,
                membership_mint: if args.membership_model == MembershipModel::Token {
                    membership_mint
                } else {
                    None
                },
                total_staked_shares: if args.membership_model == MembershipModel::Token {
                    Some(0u64)
                } else {
                    None
                },
            },
        ),
{
    let (mint, staked) = match args.membership_model {
        MembershipModel::Wallet | MembershipModel::NFT => (None, None),
        MembershipModel::Token => {
            if membership_mint.is_none() {
                return Err(ErrorCode::MintAccountRequired);
            }
            (membership_mint, Some(0u64))
        },
    };
    Ok(
        Fanout {
            authority,
            name: args.name,
            account_key: holding_account,
            total_shares: args.total_shares,
            total_members: 0,
            total_inflow: 0,
            last_snapshot_amount: 0,
            bump_seed: args.bump_seed,
            account_owner_bump_seed: args.native_account_bump_seed,
            total_available_shares: args.total_shares,
            membership_model: args.membership_model,
            membership_mint: mint,
            total_staked_shares: staked,
        },
    )
}

/// The pool after admitting a member with `shares` under `model`, or the
/// error that admission fails with.
pub open spec fn admit_outcome(fanout: Fanout, model: MembershipModel, shares: u64) -> Result<
    Fanout,
    ErrorCode,
> {
    if fanout.membership_model != model {
        Err(ErrorCode::InvalidMembershipModel)
    } else if shares > fanout.total_available_shares {
        Err(ErrorCode::InsufficientShares)
    } else if fanout.total_members == u32::MAX {
        Err(ErrorCode::ArithmeticError)
    } else {
        Ok(
            Fanout {
                total_available_shares: (fanout.total_available_shares - shares) as u64,
                total_members: (fanout.total_members + 1) as u32,
                ..fanout
            },
        )
    }
}

/// The voucher of a member admitted with `key` into `fanout`: watermark at the
/// pool's current inflow, so nothing accrued before admission is owed.
pub open spec fn admitted_voucher(fanout: Fanout, key: Address, args: AddMemberArgs) -> FanoutMembershipVoucher {
    FanoutMembershipVoucher {
        total_claimed: 0,
        last_inflow: fanout.total_inflow,
        bump_seed: args.voucher_bump_seed,
        amount_at_stake: None,
        shares: Some(args.shares),
        membership_key: Some(key),
    }
}

fn admit_with_key(
    fanout: &mut Fanout,
    model: MembershipModel,
    key: Address,
    args: AddMemberArgs,
) -> (r: Result<FanoutMembershipVoucher, ErrorCode>)
    ensures
        match admit_outcome(*old(fanout), model, args.shares) {
            Ok(f) => *final(fanout) == f && r == Ok::<FanoutMembershipVoucher, ErrorCode>(
                admitted_voucher(*old(fanout), key, args),
            ),
            Err(e) => *final(fanout) == *old(fanout) && r == Err::<
                FanoutMembershipVoucher,
                ErrorCode,
            >(e),
        },
{
    assert_membership_model(fanout, model)?;
    let last_inflow = fanout.total_inflow;
    update_fanout_for_add(fanout, args.shares)?;
    Ok(
        FanoutMembershipVoucher {
            total_claimed: 0,
            last_inflow,
            bump_seed: args.voucher_bump_seed,
            amount_at_stake: None,
            shares: Some(args.shares),
            membership_key: Some(key),
        },
    )
}

/// Admits the wallet `member` with `args.shares` shares and returns its voucher.
pub fn add_member_wallet(fanout: &mut Fanout, member: Address, args: AddMemberArgs) -> (r: Result<
    FanoutMembershipVoucher,
    ErrorCode,
>)
    ensures
        match admit_outcome(*old(fanout), MembershipModel::Wallet, args.shares) {
            Ok(f) => *final(fanout) == f && r == Ok::<FanoutMembershipVoucher, ErrorCode>(
                admitted_voucher(*old(fanout), member, args),
            ),
            Err(e) => *final(fanout) == *old(fanout) && r == Err::<
                FanoutMembershipVoucher,
                ErrorCode,
            >(e),
        },
{
    admit_with_key(fanout, MembershipModel::Wallet, member, args)
}

/// Admits the holder of certificate `mint` with `args.shares` shares and
/// returns its voucher.
pub fn add_member_nft(fanout: &mut Fanout, mint: Address, args: AddMemberArgs) -> (r: Result<
    FanoutMembershipVoucher,
    ErrorCode,
>)
    ensures
        match admit_outcome(*old(fanout), MembershipModel::NFT, args.shares) {
            Ok(f) => *final(fanout) == f && r == Ok::<FanoutMembershipVoucher, ErrorCode>(
                admitted_voucher(*old(fanout), mint, args),
            ),
            Err(e) => *final(fanout) == *old(fanout) && r == Err::<
                FanoutMembershipVoucher,
                ErrorCode,
            >(e),
        },
{
    admit_with_key(fanout, MembershipModel::NFT, mint, args)
}

/// Admits a token-model member: the shares are taken from the pool, and the
/// result is the number of membership tokens to mint to the member.
pub fn add_member_token(fanout: &mut Fanout, args: AddMemberArgs) -> (r: Result<u64, ErrorCode>)
    ensures
        match admit_outcome(*old(fanout), MembershipModel::Token, args.shares) {
            Ok(f) => *final(fanout) == f && r == Ok::<u64, ErrorCode>(args.shares),
            Err(e) => *final(fanout) == *old(fanout) && r == Err::<u64, ErrorCode>(e),
        },
{
    assert_membership_model(fanout, MembershipModel::Token)?;
    update_fanout_for_add(fanout, args.shares)?;
    Ok(args.shares)
}

} // verus!
