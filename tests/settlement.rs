use fanout::{
    add_member_nft, add_member_token, add_member_wallet, calculate_dist_amount,
    calculate_inflow_change, current_lamports, distribute_for_mint, distribute_for_nft,
    distribute_for_token, distribute_for_wallet, init, parse_mint_membership_voucher,
    set_token_member_stake, settle, update_fanout_for_add, update_inflow, update_inflow_for_mint,
    update_snapshot, update_snapshot_for_mint, AddMemberArgs, Address, ErrorCode, Fanout,
    FanoutMembershipMintVoucher, FanoutMembershipVoucher, FanoutMint, InitializeFanoutArgs,
    MembershipModel, OrArithError, TokenAccountInfo,
};

fn addr(n: u128) -> Address {
    Address { high: 0, low: n }
}

fn pool(total_shares: u64, model: MembershipModel) -> Fanout {
    let args = InitializeFanoutArgs {
        bump_seed: 1,
        native_account_bump_seed: 2,
        name: "vault".to_string(),
        total_shares,
        membership_model: model,
    };
    init(args, addr(1), addr(2), Some(addr(3))).unwrap()
}

fn shares(n: u64) -> AddMemberArgs {
    AddMemberArgs { voucher_bump_seed: 7, shares: n }
}

#[test]
fn two_members_split_inflow_by_shares() {
    let mut f = pool(1000, MembershipModel::Wallet);
    let mut a = add_member_wallet(&mut f, addr(10), shares(600)).unwrap();
    let mut b = add_member_wallet(&mut f, addr(11), shares(400)).unwrap();
    assert_eq!(f.total_available_shares, 0);
    assert_eq!(f.total_members, 2);
    // The backing balance rises from 0 to 1000.
    assert_eq!(settle(&mut f, &mut a, 1000), Ok(600));
    // 600 left the backing account.
    assert_eq!(settle(&mut f, &mut b, 400), Ok(400));
    // 400 more left; nothing new came in.
    assert_eq!(settle(&mut f, &mut a, 0), Ok(0));
    assert_eq!(settle(&mut f, &mut b, 0), Ok(0));
    assert_eq!(a.total_claimed, 600);
    assert_eq!(b.total_claimed, 400);
    assert_eq!(f.total_inflow, 1000);
}

#[test]
fn admission_beyond_available_shares_fails_unchanged() {
    let mut f = pool(1000, MembershipModel::Wallet);
    add_member_wallet(&mut f, addr(10), shares(600)).unwrap();
    let r = add_member_wallet(&mut f, addr(11), shares(401));
    assert_eq!(r, Err(ErrorCode::InsufficientShares));
    assert_eq!(f.total_available_shares, 400);
    assert_eq!(f.total_members, 1);
}

#[test]
fn settle_before_full_allocation_fails() {
    let mut f = pool(1000, MembershipModel::Wallet);
    let mut a = add_member_wallet(&mut f, addr(10), shares(600)).unwrap();
    assert_eq!(settle(&mut f, &mut a, 1000), Err(ErrorCode::SharesNotFullyAllocated));
    assert_eq!(f.total_inflow, 0);
    assert_eq!(a.last_inflow, 0);
}

#[test]
fn second_settle_without_new_inflow_pays_nothing() {
    let mut f = pool(3, MembershipModel::Wallet);
    let mut a = add_member_wallet(&mut f, addr(10), shares(1)).unwrap();
    let mut b = add_member_wallet(&mut f, addr(11), shares(2)).unwrap();
    let paid = settle(&mut f, &mut a, 100).unwrap();
    assert_eq!(paid, 33);
    let before = (f.total_inflow, f.last_snapshot_amount, a);
    assert_eq!(settle(&mut f, &mut a, 100 - paid), Ok(0));
    assert_eq!((f.total_inflow, f.last_snapshot_amount, a), before);
    assert_eq!(settle(&mut f, &mut b, 67), Ok(66));
}

#[test]
fn staked_shares_take_the_whole_delta() {
    let mut f = pool(100, MembershipModel::Token);
    assert_eq!(f.total_staked_shares, Some(0));
    assert_eq!(add_member_token(&mut f, shares(100)), Ok(100));
    let mut v = FanoutMembershipVoucher {
        total_claimed: 0,
        last_inflow: 0,
        bump_seed: 0,
        amount_at_stake: None,
        shares: None,
        membership_key: None,
    };
    set_token_member_stake(&mut f, &mut v, 40).unwrap();
    assert_eq!(f.total_staked_shares, Some(40));
    assert_eq!(v.amount_at_stake, Some(40));
    // 400 + 400 * 60 / 40 of logical inflow.
    let mut probe = f.clone();
    update_inflow(&mut probe, 400).unwrap();
    assert_eq!(probe.total_inflow, 1000);
    // Each staked share yields 400 / 40.
    assert_eq!(calculate_dist_amount(1, 1000, 100), Ok(10));
    assert_eq!(settle(&mut f, &mut v, 400), Ok(400));
}

#[test]
fn token_member_with_part_of_the_stake() {
    let mut f = pool(100, MembershipModel::Token);
    add_member_token(&mut f, shares(100)).unwrap();
    let blank = FanoutMembershipVoucher {
        total_claimed: 0,
        last_inflow: 0,
        bump_seed: 0,
        amount_at_stake: None,
        shares: None,
        membership_key: None,
    };
    let mut a = blank;
    let mut b = blank;
    set_token_member_stake(&mut f, &mut a, 10).unwrap();
    set_token_member_stake(&mut f, &mut b, 30).unwrap();
    let (paid_a, rec_a) = distribute_for_token(&mut f, &mut a, &addr(60), 401, 1).unwrap();
    assert_eq!(paid_a, 100);
    assert_eq!(rec_a.member(), addr(60));
    assert_eq!(rec_a.membership_model(), MembershipModel::Token);
    let (paid_b, _) = distribute_for_token(&mut f, &mut b, &addr(61), 301, 1).unwrap();
    assert_eq!(paid_b, 300);
}

#[test]
fn unstaked_pool_pays_by_total_shares() {
    let mut f = pool(100, MembershipModel::Token);
    add_member_token(&mut f, shares(100)).unwrap();
    update_inflow(&mut f, 400).unwrap();
    assert_eq!(f.total_inflow, 400);
    assert_eq!(f.last_snapshot_amount, 400);
}

#[test]
fn inflow_change_and_dist_amount() {
    assert_eq!(calculate_inflow_change(10, 4), Ok(6));
    assert_eq!(calculate_inflow_change(4, 10), Err(ErrorCode::ArithmeticError));
    assert_eq!(calculate_dist_amount(600, 1000, 1000), Ok(600));
    assert_eq!(calculate_dist_amount(1, 100, 3), Ok(33));
    assert_eq!(calculate_dist_amount(1, 100, 0), Err(ErrorCode::ArithmeticError));
    assert_eq!(
        calculate_dist_amount(u64::MAX, u64::MAX, u64::MAX),
        Ok(u64::MAX)
    );
    assert_eq!(calculate_dist_amount(u64::MAX, u64::MAX, 1), Err(ErrorCode::ArithmeticError));
}

#[test]
fn balance_decrease_is_an_arithmetic_error() {
    let mut f = pool(10, MembershipModel::Wallet);
    update_inflow(&mut f, 50).unwrap();
    assert_eq!(update_inflow(&mut f, 49), Err(ErrorCode::ArithmeticError));
    assert_eq!(f.total_inflow, 50);
    assert_eq!(f.last_snapshot_amount, 50);
}

#[test]
fn staked_above_total_is_an_arithmetic_error() {
    let mut f = pool(10, MembershipModel::Token);
    f.total_staked_shares = Some(11);
    assert_eq!(update_inflow(&mut f, 5), Err(ErrorCode::ArithmeticError));
    assert_eq!(f.total_inflow, 0);
}

#[test]
fn snapshot_update_moves_watermark() {
    let mut f = pool(10, MembershipModel::Wallet);
    let mut v = add_member_wallet(&mut f, addr(5), shares(10)).unwrap();
    update_inflow(&mut f, 70).unwrap();
    assert_eq!(update_snapshot(&mut f, &mut v, 30), Ok(()));
    assert_eq!(v.last_inflow, 70);
    assert_eq!(f.last_snapshot_amount, 40);
    assert_eq!(update_snapshot(&mut f, &mut v, 41), Err(ErrorCode::ArithmeticError));
    assert_eq!(f.last_snapshot_amount, 40);
}

#[test]
fn fanout_for_add_counts_members() {
    let mut f = pool(10, MembershipModel::Wallet);
    assert_eq!(update_fanout_for_add(&mut f, 10), Ok(()));
    assert_eq!(f.total_available_shares, 0);
    assert_eq!(f.total_members, 1);
    f.total_members = u32::MAX;
    assert_eq!(update_fanout_for_add(&mut f, 0), Err(ErrorCode::ArithmeticError));
}

#[test]
fn init_models() {
    let f = pool(5, MembershipModel::Wallet);
    assert_eq!(f.membership_mint, None);
    assert_eq!(f.total_staked_shares, None);
    assert_eq!(f.total_available_shares, 5);
    assert_eq!(f.account_key, addr(2));
    let t = pool(5, MembershipModel::Token);
    assert_eq!(t.membership_mint, Some(addr(3)));
    let args = InitializeFanoutArgs {
        bump_seed: 1,
        native_account_bump_seed: 2,
        name: "t".to_string(),
        total_shares: 5,
        membership_model: MembershipModel::Token,
    };
    assert_eq!(init(args, addr(1), addr(2), None).err(), Some(ErrorCode::MintAccountRequired));
    assert_eq!(MembershipModel::default(), MembershipModel::Wallet);
}

#[test]
fn wrong_model_and_wrong_voucher() {
    let mut f = pool(10, MembershipModel::Wallet);
    assert_eq!(
        add_member_nft(&mut f, addr(9), shares(1)),
        Err(ErrorCode::InvalidMembershipModel)
    );
    assert_eq!(add_member_token(&mut f, shares(1)), Err(ErrorCode::InvalidMembershipModel));
    add_member_wallet(&mut f, addr(9), shares(10)).unwrap();
    let mut stray = FanoutMembershipVoucher {
        total_claimed: 0,
        last_inflow: 0,
        bump_seed: 0,
        amount_at_stake: Some(3),
        shares: None,
        membership_key: None,
    };
    assert_eq!(settle(&mut f, &mut stray, 10), Err(ErrorCode::InvalidMembershipVoucher));
}

#[test]
fn native_distribution_keeps_rent_reserve() {
    assert_eq!(current_lamports(0, 10), Ok(9));
    assert_eq!(current_lamports(5, 10), Ok(5));
    assert_eq!(current_lamports(11, 10), Err(ErrorCode::ArithmeticError));
    let mut f = pool(4, MembershipModel::Wallet);
    let mut a = add_member_wallet(&mut f, addr(10), shares(1)).unwrap();
    add_member_wallet(&mut f, addr(11), shares(3)).unwrap();
    assert_eq!(
        distribute_for_wallet(&mut f, &mut a, 4, 5).err(),
        Some(ErrorCode::ArithmeticError)
    );
    let (paid, rec) = distribute_for_wallet(&mut f, &mut a, 105, 5).unwrap();
    assert_eq!(paid, 25);
    assert_eq!(rec.member(), addr(10));
    assert_eq!(rec.membership_model(), MembershipModel::Wallet);
    assert_eq!(a.total_claimed, 25);
}

#[test]
fn drained_account_settles_to_zero() {
    // Two members of one share each, no rent reserve beyond the minimum of 1.
    let mut f = pool(2, MembershipModel::Wallet);
    let mut a = add_member_wallet(&mut f, addr(10), shares(1)).unwrap();
    let mut b = add_member_wallet(&mut f, addr(11), shares(1)).unwrap();
    let (paid, _) = distribute_for_wallet(&mut f, &mut a, 3, 0).unwrap();
    assert_eq!(paid, 1);
    let before = (f.total_inflow, f.last_snapshot_amount, a);
    let (again, _) = distribute_for_wallet(&mut f, &mut a, 3 - paid, 0).unwrap();
    assert_eq!(again, 0);
    assert_eq!((f.total_inflow, f.last_snapshot_amount, a), before);
    let (paid_b, _) = distribute_for_wallet(&mut f, &mut b, 2, 0).unwrap();
    assert_eq!(paid_b, 1);
    let (zero_b, _) = distribute_for_wallet(&mut f, &mut b, 1, 0).unwrap();
    assert_eq!(zero_b, 0);
}

#[test]
fn settlement_order_does_not_change_payouts() {
    let run = |a_first: bool| {
        let mut f = pool(10, MembershipModel::Wallet);
        let mut a = add_member_wallet(&mut f, addr(10), shares(9)).unwrap();
        let mut b = add_member_wallet(&mut f, addr(11), shares(1)).unwrap();
        let mut lamports: u64 = 21;
        let (first, second) = if a_first {
            let (pa, _) = distribute_for_wallet(&mut f, &mut a, lamports, 0).unwrap();
            lamports -= pa;
            let (pb, _) = distribute_for_wallet(&mut f, &mut b, lamports, 0).unwrap();
            (pa, pb)
        } else {
            let (pb, _) = distribute_for_wallet(&mut f, &mut b, lamports, 0).unwrap();
            lamports -= pb;
            let (pa, _) = distribute_for_wallet(&mut f, &mut a, lamports, 0).unwrap();
            (pa, pb)
        };
        (first, second, f.total_inflow)
    };
    assert_eq!(run(true), (18, 2, 20));
    assert_eq!(run(false), (18, 2, 20));
}

#[test]
fn certificate_holder_is_checked() {
    let mut f = pool(2, MembershipModel::NFT);
    let mint = addr(40);
    let mut v = add_member_nft(&mut f, mint, shares(2)).unwrap();
    let holder = addr(41);
    let good = TokenAccountInfo { mint, owner: holder, amount: 1 };
    let empty = TokenAccountInfo { mint, owner: holder, amount: 0 };
    let other = TokenAccountInfo { mint: addr(42), owner: holder, amount: 1 };
    assert_eq!(
        distribute_for_nft(&mut f, &mut v, &addr(43), &good, 100, 1),
        Err(ErrorCode::IncorrectOwner)
    );
    assert_eq!(
        distribute_for_nft(&mut f, &mut v, &holder, &empty, 100, 1),
        Err(ErrorCode::WalletDoesNotOwnMembershipToken)
    );
    assert_eq!(
        distribute_for_nft(&mut f, &mut v, &holder, &other, 100, 1),
        Err(ErrorCode::MintDoesNotMatch)
    );
    let (paid, rec) = distribute_for_nft(&mut f, &mut v, &holder, &good, 100, 1).unwrap();
    assert_eq!(paid, 99);
    assert_eq!(rec.member(), holder);
}

#[test]
fn sub_pool_settles_against_its_own_watermark() {
    let mut f = pool(10, MembershipModel::Wallet);
    let v = add_member_wallet(&mut f, addr(10), shares(7)).unwrap();
    add_member_wallet(&mut f, addr(11), shares(3)).unwrap();
    let asset = addr(50);
    let mut m = FanoutMint {
        mint: asset,
        fanout: addr(1),
        token_account: addr(51),
        total_inflow: 0,
        last_snapshot_amount: 0,
        bump_seed: 3,
    };
    let mut mv = parse_mint_membership_voucher(None, asset, 4).unwrap();
    assert_eq!(mv.last_inflow, 0);
    assert_eq!(
        distribute_for_mint(&f, &v, &addr(11), &None, &mut m, &mut mv, 200).err(),
        Some(ErrorCode::IncorrectOwner)
    );
    let (paid, rec) = distribute_for_mint(&f, &v, &addr(10), &None, &mut m, &mut mv, 200).unwrap();
    assert_eq!(paid, 140);
    assert_eq!(rec.member(), addr(10));
    assert_eq!(m.total_inflow, 200);
    assert_eq!(m.last_snapshot_amount, 60);
    assert_eq!(mv.last_inflow, 200);
    assert_eq!(f.total_inflow, 0);
    assert_eq!(
        distribute_for_mint(&f, &v, &addr(10), &None, &mut m, &mut mv, 60).map(|(p, _)| p),
        Ok(0)
    );
    let mut foreign = FanoutMembershipMintVoucher { fanout_mint: addr(52), ..mv };
    assert_eq!(
        distribute_for_mint(&f, &v, &addr(10), &None, &mut m, &mut foreign, 60).err(),
        Some(ErrorCode::InvalidFanoutForMint)
    );
    assert_eq!(parse_mint_membership_voucher(Some(mv), asset, 4), Ok(mv));
    assert_eq!(
        parse_mint_membership_voucher(Some(mv), asset, 5),
        Err(ErrorCode::InvalidMembershipVoucher)
    );
}

#[test]
fn sub_pool_needs_the_certificate() {
    let mut f = pool(4, MembershipModel::NFT);
    let cert = addr(70);
    let v = add_member_nft(&mut f, cert, shares(4)).unwrap();
    let holder = addr(71);
    let mut m = FanoutMint {
        mint: addr(50),
        fanout: addr(1),
        token_account: addr(51),
        total_inflow: 0,
        last_snapshot_amount: 0,
        bump_seed: 3,
    };
    let mut mv = parse_mint_membership_voucher(None, addr(50), 4).unwrap();
    assert_eq!(
        distribute_for_mint(&f, &v, &holder, &None, &mut m, &mut mv, 8).err(),
        Some(ErrorCode::WalletDoesNotOwnMembershipToken)
    );
    let wrong = Some(TokenAccountInfo { mint: cert, owner: addr(72), amount: 1 });
    assert_eq!(
        distribute_for_mint(&f, &v, &holder, &wrong, &mut m, &mut mv, 8).err(),
        Some(ErrorCode::IncorrectOwner)
    );
    assert_eq!(m.total_inflow, 0);
    let held = Some(TokenAccountInfo { mint: cert, owner: holder, amount: 1 });
    let (paid, rec) = distribute_for_mint(&f, &v, &holder, &held, &mut m, &mut mv, 8).unwrap();
    assert_eq!(paid, 8);
    assert_eq!(rec.membership_model(), MembershipModel::NFT);
}

#[test]
fn stake_cannot_pass_total_shares() {
    let mut f = pool(10, MembershipModel::Token);
    add_member_token(&mut f, shares(10)).unwrap();
    let mut v = FanoutMembershipVoucher {
        total_claimed: 0,
        last_inflow: 0,
        bump_seed: 0,
        amount_at_stake: None,
        shares: None,
        membership_key: None,
    };
    set_token_member_stake(&mut f, &mut v, 8).unwrap();
    assert_eq!(set_token_member_stake(&mut f, &mut v, 3), Err(ErrorCode::InsufficientShares));
    assert_eq!(f.total_staked_shares, Some(8));
    assert_eq!(v.amount_at_stake, Some(8));
    assert_eq!(set_token_member_stake(&mut f, &mut v, 2), Ok(()));
    assert_eq!(f.total_staked_shares, Some(10));
}

#[test]
fn sub_pool_bookkeeping() {
    let f = pool(10, MembershipModel::Wallet);
    let mut m = FanoutMint {
        mint: addr(50),
        fanout: addr(1),
        token_account: addr(51),
        total_inflow: 5,
        last_snapshot_amount: 10,
        bump_seed: 3,
    };
    update_inflow_for_mint(&f, &mut m, 30).unwrap();
    assert_eq!(m.total_inflow, 25);
    assert_eq!(m.last_snapshot_amount, 30);
    let mut mv = parse_mint_membership_voucher(None, addr(50), 4).unwrap();
    assert_eq!(update_snapshot_for_mint(&mut m, &mut mv, 12), Ok(()));
    assert_eq!(mv.last_inflow, 25);
    assert_eq!(m.last_snapshot_amount, 18);
    assert_eq!(update_snapshot_for_mint(&mut m, &mut mv, 19), Err(ErrorCode::ArithmeticError));
}

#[test]
fn or_arith_error_maps_none() {
    assert_eq!(Some(3u64).or_arith_error(), Ok(3));
    assert_eq!(None::<u64>.or_arith_error(), Err(ErrorCode::ArithmeticError));
    assert_eq!(5u32.checked_add(u32::MAX).or_arith_error(), Err(ErrorCode::ArithmeticError));
    assert_eq!(Some(7u128).or_arith_error(), Ok(7));
}
