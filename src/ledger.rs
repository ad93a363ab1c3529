use vstd::prelude::*;

use crate::admission::{add_member_nft, add_member_wallet, admit_outcome, admitted_voucher, init};
use crate::calculation::{dist_amount, inflow_update};
use crate::error::ErrorCode;
use crate::settlement::{settle, settle_outcome};
use crate::state::{
    AddMemberArgs, Address, Fanout, FanoutMembershipVoucher, InitializeFanoutArgs, MembershipModel,
};
use crate::validation::voucher_valid;

verus! {

/// The shares a voucher owns, zero when it records none.
pub open spec fn share_count(v: FanoutMembershipVoucher) -> int {
    match v.shares {
        Some(s) => s as int,
        None => 0,
    }
}

/// Total shares owned over a sequence of vouchers.
pub open spec fn shares_sum(vouchers: Seq<FanoutMembershipVoucher>) -> int
    decreases vouchers.len(),
{
    if vouchers.len() == 0 {
        0
    } else {
        shares_sum(vouchers.drop_last()) + share_count(vouchers.last())
    }
}

/// Total amount ever paid over a sequence of vouchers.
pub open spec fn claimed_sum(vouchers: Seq<FanoutMembershipVoucher>) -> int
    decreases vouchers.len(),
{
    if vouchers.len() == 0 {
        0
    } else {
        claimed_sum(vouchers.drop_last()) + vouchers.last().total_claimed
    }
}

proof fn lemma_sums_update(s: Seq<FanoutMembershipVoucher>, i: int, v: FanoutMembershipVoucher)
    requires
        0 <= i < s.len(),
    ensures
        shares_sum(s.update(i, v)) == shares_sum(s) - share_count(s[i]) + share_count(v),
        claimed_sum(s.update(i, v)) == claimed_sum(s) - s[i].total_claimed + v.total_claimed,
    decreases s.len(),
{
    let u = s.update(i, v);
    if i == s.len() - 1 {
        assert(u.drop_last() =~= s.drop_last());
    } else {
        assert(u.drop_last() =~= s.drop_last().update(i, v));
        lemma_sums_update(s.drop_last(), i, v);
    }
}

proof fn lemma_sums_push(s: Seq<FanoutMembershipVoucher>, v: FanoutMembershipVoucher)
    ensures
        shares_sum(s.push(v)) == shares_sum(s) + share_count(v),
        claimed_sum(s.push(v)) == claimed_sum(s) + v.total_claimed,
{
    assert(s.push(v).drop_last() =~= s);
}

/// A voucher's claims stay within its share of the inflow up to its
/// watermark, and its watermark within the pool's inflow.
pub open spec fn claim_within(v: FanoutMembershipVoucher, total_shares: int, total_inflow: int) -> bool {
    &&& v.last_inflow <= total_inflow
    &&& v.total_claimed * total_shares <= share_count(v) * v.last_inflow
    &&& (total_shares == 0 ==> v.total_claimed == 0)
}

/// Every voucher's claims stay within its share of the inflow.
pub open spec fn claims_bounded(
    vouchers: Seq<FanoutMembershipVoucher>,
    total_shares: int,
    total_inflow: int,
) -> bool {
    forall|i: int|
        0 <= i < vouchers.len() ==> claim_within(#[trigger] vouchers[i], total_shares, total_inflow)
}

proof fn lemma_claims_scaled(
    vouchers: Seq<FanoutMembershipVoucher>,
    total_shares: int,
    total_inflow: int,
)
    requires
        claims_bounded(vouchers, total_shares, total_inflow),
        total_shares >= 0,
        forall|i: int| 0 <= i < vouchers.len() ==> share_count(#[trigger] vouchers[i]) >= 0,
    ensures
        claimed_sum(vouchers) * total_shares <= shares_sum(vouchers) * total_inflow,
        total_shares == 0 ==> claimed_sum(vouchers) == 0,
    decreases vouchers.len(),
{
    if vouchers.len() > 0 {
        let init = vouchers.drop_last();
        let last = vouchers.last();
        assert forall|i: int| 0 <= i < init.len() implies share_count(#[trigger] init[i]) >= 0 by {
            assert(init[i] == vouchers[i]);
        }
        assert(claims_bounded(init, total_shares, total_inflow)) by {
            assert forall|i: int| 0 <= i < init.len() implies claim_within(
                #[trigger] init[i],
                total_shares,
                total_inflow,
            ) by {
                assert(init[i] == vouchers[i]);
            }
        }
        lemma_claims_scaled(init, total_shares, total_inflow);
        assert(vouchers[vouchers.len() - 1] == last);
        assert(claim_within(vouchers[vouchers.len() - 1], total_shares, total_inflow));
        let c = last.total_claimed as int;
        let sh = share_count(last);
        let l = last.last_inflow as int;
        let cs = claimed_sum(init);
        let ss = shares_sum(init);
        assert((cs + c) * total_shares <= (ss + sh) * total_inflow) by (nonlinear_arith)
            requires
                cs * total_shares <= ss * total_inflow,
                c * total_shares <= sh * l,
                l <= total_inflow,
                sh >= 0,
        ;
    }
}

/// A pool under the `Wallet` or `NFT` model together with the vouchers of its
/// members, kept consistent by every operation.
pub struct FanoutLedger {
    fanout: Fanout,
    vouchers: Vec<FanoutMembershipVoucher>,
    observed_inflow: Ghost<int>,
}

impl FanoutLedger {
    /// The pool record.
    pub closed spec fn pool(&self) -> Fanout {
        self.fanout
    }

    /// The members' vouchers, in order of admission.
    pub closed spec fn members(&self) -> Seq<FanoutMembershipVoucher> {
        self.vouchers@
    }

    /// Total value observed flowing into the backing account so far: the sum
    /// of every balance increase that settlement folded into the pool.
    pub closed spec fn observed(&self) -> int {
        self.observed_inflow@
    }

    /// The ledger's invariant.
    pub closed spec fn wf(&self) -> bool {
        let f = self.fanout;
        let vs = self.vouchers@;
        &&& f.membership_model != MembershipModel::Token
        &&& f.total_staked_shares is None
        &&& forall|i: int| 0 <= i < vs.len() ==> voucher_valid(#[trigger] vs[i], f.membership_model)
        &&& shares_sum(vs) + f.total_available_shares == f.total_shares
        &&& claims_bounded(vs, f.total_shares as int, f.total_inflow as int)
        &&& self.observed_inflow@ == f.total_inflow
    }

    proof fn lemma_shares_nonneg(&self)
        ensures
            forall|i: int|
                0 <= i < self.vouchers@.len() ==> share_count(#[trigger] self.vouchers@[i]) >= 0,
    {
    }

    /// Every state of a ledger conserves shares, and the members have been
    /// paid no more in total than the value observed flowing in.
    pub proof fn lemma_conservation(&self)
        requires
            self.wf(),
        ensures
            shares_sum(self.members()) + self.pool().total_available_shares
                == self.pool().total_shares,
            claimed_sum(self.members()) <= self.observed(),
    {
        let f = self.fanout;
        let vs = self.vouchers@;
        self.lemma_shares_nonneg();
        lemma_claims_scaled(vs, f.total_shares as int, f.total_inflow as int);
        if f.total_shares > 0 {
            let t = f.total_shares as int;
            let ti = f.total_inflow as int;
            let cs = claimed_sum(vs);
            let ss = shares_sum(vs);
            assert(cs <= ti) by (nonlinear_arith)
                requires
                    cs * t <= ss * ti,
                    ss <= t,
                    t > 0,
                    ti >= 0,
            ;
        }
    }

    /// Creates a share-based pool with no members. A `Token`-model pool is
    /// refused with `InvalidMembershipModel`.
    pub fn new(args: InitializeFanoutArgs, authority: Address, holding_account: Address) -> (r:
        Result<FanoutLedger, ErrorCode>)
        ensures
            args.membership_model == MembershipModel::Token ==> r is Err && r->Err_0
                == ErrorCode::InvalidMembershipModel,
            args.membership_model != MembershipModel::Token ==> r is Ok && r->Ok_0.wf()
                && r->Ok_0.members().len() == 0 && r->Ok_0.observed() == 0
                && r->Ok_0.pool().total_shares == args.total_shares
                && r->Ok_0.pool().total_available_shares == args.total_shares
                && r->Ok_0.pool().total_inflow == 0 && r->Ok_0.pool().membership_model
                == args.membership_model,
    {
        if args.membership_model == MembershipModel::Token {
            return Err(ErrorCode::InvalidMembershipModel);
        }
        let fanout = init(args, authority, holding_account, None)?;
        let ledger = FanoutLedger { fanout, vouchers: Vec::new(), observed_inflow: Ghost(0) };
        assert(ledger.vouchers@ =~= Seq::<FanoutMembershipVoucher>::empty());
        Ok(ledger)
    }

    /// The pool record.
    pub fn fanout(&self) -> (r: &Fanout)
        ensures
            *r == self.pool(),
    {
        &self.fanout
    }

    /// The number of admitted members.
    pub fn member_count(&self) -> (r: usize)
        ensures
            r == self.members().len(),
    {
        self.vouchers.len()
    }

    /// The voucher of the member admitted `index`-th.
    pub fn voucher(&self, index: usize) -> (r: Option<&FanoutMembershipVoucher>)
        ensures
            index < self.members().len() ==> r == Some(&self.members()[index as int]),
            index >= self.members().len() ==> r is None,
    {
        if index < self.vouchers.len() {
            Some(&self.vouchers[index])
        } else {
            None
        }
    }

    /// Admits a member identified by `key` (a wallet under `Wallet`, a
    /// certificate under `NFT`) with `args.shares` shares. Nothing changes on
    /// failure.
    pub fn add_member(&mut self, key: Address, args: AddMemberArgs) -> (r: Result<(), ErrorCode>)
        requires
            old(self).wf(),
        ensures
            final(self).wf(),
            final(self).observed() == old(self).observed(),
            match admit_outcome(old(self).pool(), old(self).pool().membership_model, args.shares) {
                Ok(f) => r is Ok && final(self).pool() == f && final(self).members()
                    == old(self).members().push(admitted_voucher(old(self).pool(), key, args)),
                Err(e) => r == Err::<(), ErrorCode>(e) && final(self).pool() == old(self).pool()
                    && final(self).members() == old(self).members(),
            },
            shares_sum(final(self).members()) + final(self).pool().total_available_shares
                == final(self).pool().total_shares,
            claimed_sum(final(self).members()) <= final(self).observed(),
    {
        let admitted = match self.fanout.membership_model {
            MembershipModel::NFT => add_member_nft(&mut self.fanout, key, args),
            _ => add_member_wallet(&mut self.fanout, key, args),
        };
        let voucher = match admitted {
            Ok(v) => v,
            Err(e) => {
                proof {
                    self.lemma_conservation();
                }
                return Err(e);
            },
        };
        self.vouchers.push(voucher);
        proof {
            let vs = self.vouchers@;
            let old_vs = old(self).vouchers@;
            lemma_sums_push(old_vs, voucher);
            assert forall|i: int| 0 <= i < vs.len() implies voucher_valid(
                #[trigger] vs[i],
                self.fanout.membership_model,
            ) by {
                if i < old_vs.len() {
                    assert(vs[i] == old_vs[i]);
                }
            }
            let t = self.fanout.total_shares as int;
            let ti = self.fanout.total_inflow as int;
            assert forall|i: int| 0 <= i < vs.len() implies claim_within(
                #[trigger] vs[i],
                t,
                ti,
            ) by {
                if i < old_vs.len() {
                    assert(vs[i] == old_vs[i]);
                    assert(claim_within(old_vs[i], t, ti));
                } else {
                    assert(vs[i] == voucher);
                    assert(share_count(voucher) * voucher.last_inflow >= 0) by (nonlinear_arith)
                        requires
                            share_count(voucher) >= 0,
                            voucher.last_inflow >= 0,
                    ;
                }
            }
            self.lemma_conservation();
        }
        Ok(())
    }

    /// Settles the member admitted `index`-th against backing balance
    /// `current_balance` and returns the amount to pay them. An index past the
    /// last member fails with `InvalidMembershipVoucher`. Nothing changes on
    /// failure.
    pub fn settle(&mut self, index: usize, current_balance: u64) -> (r: Result<u64, ErrorCode>)
        requires
            old(self).wf(),
        ensures
            final(self).wf(),
            index >= old(self).members().len() ==> r == Err::<u64, ErrorCode>(
                ErrorCode::InvalidMembershipVoucher,
            ) && *final(self) == *old(self),
            index < old(self).members().len() ==> match settle_outcome(
                old(self).pool(),
                old(self).members()[index as int],
                current_balance,
            ) {
                Ok((f, v, amount)) => {
                    &&& r == Ok::<u64, ErrorCode>(amount)
                    &&& final(self).pool() == f
                    &&& final(self).members() == old(self).members().update(index as int, v)
                    &&& final(self).observed() == old(self).observed() + (current_balance
                        - old(self).pool().last_snapshot_amount)
                },
                Err(e) => r == Err::<u64, ErrorCode>(e) && *final(self) == *old(self),
            },
            shares_sum(final(self).members()) + final(self).pool().total_available_shares
                == final(self).pool().total_shares,
            claimed_sum(final(self).members()) <= final(self).observed(),
    {
        if index >= self.vouchers.len() {
            proof {
                self.lemma_conservation();
            }
            return Err(ErrorCode::InvalidMembershipVoucher);
        }
        let mut voucher = self.vouchers[index];
        let ghost old_fanout = self.fanout;
        let amount = match settle(&mut self.fanout, &mut voucher, current_balance) {
            Ok(a) => a,
            Err(e) => {
                proof {
                    self.lemma_conservation();
                }
                return Err(e);
            },
        };
        self.vouchers.set(index, voucher);
        proof {
            let i = index as int;
            let old_vs = old(self).vouchers@;
            let vs = self.vouchers@;
            let old_v = old_vs[i];
            let t = old_fanout.total_shares as int;
            let ti = self.fanout.total_inflow as int;
            let delta = current_balance - old_fanout.last_snapshot_amount;
            self.observed_inflow = Ghost(old(self).observed_inflow@ + delta);
            assert(inflow_update(
                old_fanout.total_inflow,
                old_fanout.last_snapshot_amount,
                current_balance,
                old_fanout.total_shares,
                old_fanout.total_staked_shares,
            ) == Ok::<u64, ErrorCode>((old_fanout.total_inflow + delta) as u64));
            assert(ti == old_fanout.total_inflow + delta);
            lemma_sums_update(old_vs, i, voucher);
            assert(vs =~= old_vs.update(i, voucher));
            assert forall|j: int| 0 <= j < vs.len() implies voucher_valid(
                #[trigger] vs[j],
                self.fanout.membership_model,
            ) by {
                assert(vs[j] == old_vs[j] || j == i);
            }
            let sh = share_count(old_v);
            let l = old_v.last_inflow as int;
            let c = old_v.total_claimed as int;
            assert(amount == dist_amount(sh, ti - l, t));
            assert(amount * t <= sh * (ti - l)) by (nonlinear_arith)
                requires
                    amount == sh * (ti - l) / t,
                    t > 0,
            ;
            assert((c + amount) * t <= sh * ti) by (nonlinear_arith)
                requires
                    c * t <= sh * l,
                    amount * t <= sh * (ti - l),
            ;
            assert(claim_within(old_v, t, old_fanout.total_inflow as int));
            assert forall|j: int| 0 <= j < vs.len() implies claim_within(
                #[trigger] vs[j],
                t,
                ti,
            ) by {
                if j != i {
                    assert(vs[j] == old_vs[j]);
                    assert(claim_within(old_vs[j], t, old_fanout.total_inflow as int));
                } else {
                    assert(vs[j] == voucher);
                }
            }
            self.lemma_conservation();
        }
        Ok(amount)
    }
}

} // verus!
