use vstd::prelude::*;

verus! {

/// A 32-byte account address, held as its high and low 16-byte halves.
#[derive(Clone, Copy, Debug, PartialEq, Eq, Structural)]
pub struct Address {
    pub high: u128,
    pub low: u128,
}


/// How members of a pool are identified; fixed when the pool is created.
#[derive(Clone, Copy, Debug, PartialEq, Eq, Structural)]
pub enum MembershipModel {
    /// A member is a wallet address holding a fixed number of shares.
    Wallet,
    /// A member stakes units of the pool's fungible membership token.
    Token,
    /// A member holds a non-fungible certificate carrying a fixed number of shares.
    NFT,
}

impl Default for MembershipModel {
    fn default() -> (r: Self)
        ensures
            r == MembershipModel::Wallet,
    {
        MembershipModel::Wallet
    }
}

/// The pool record: share allocation and the inflow watermark.
#[derive(Clone, Debug)]
pub struct Fanout {
    pub authority: Address,
    pub name: String,
    /// Address of the pool's backing (holding) account.
    pub account_key: Address,
    pub total_shares: u64,
    pub total_members: u32,
    /// Logical cumulative inflow; never decreases.
    pub total_inflow: u64,
    /// Last raw balance of the backing account, net of what was paid out since.
    pub last_snapshot_amount: u64,
    pub bump_seed: u8,
    pub account_owner_bump_seed: u8,
    pub total_available_shares: u64,
    pub membership_model: MembershipModel,
    pub membership_mint: Option<Address>,
    /// Present only under `MembershipModel::Token`.
    pub total_staked_shares: Option<u64>,
}

/// Sub-pool record: an independent watermark over a secondary asset.
#[derive(Clone, Copy, Debug, PartialEq, Eq, Structural)]
pub struct FanoutMint {
    pub mint: Address,
    pub fanout: Address,
    pub token_account: Address,
    pub total_inflow: u64,
    pub last_snapshot_amount: u64,
    pub bump_seed: u8,
}

/// A member's share record and settlement watermark.
#[derive(Clone, Copy, Debug, PartialEq, Eq, Structural)]
pub struct FanoutMembershipVoucher {
    /// Cumulative amount ever paid to this member.
    pub total_claimed: u64,
    /// The pool's `total_inflow` as of this member's last settlement.
    pub last_inflow: u64,
    pub bump_seed: u8,
    /// Staked amount; present only under `MembershipModel::Token`.
    pub amount_at_stake: Option<u64>,
    /// Shares owned; present only under `Wallet` and `NFT`.
    pub shares: Option<u64>,
    /// The admitted wallet or certificate; present only under `Wallet` and `NFT`.
    pub membership_key: Option<Address>,
}

/// A member's settlement watermark in a sub-pool.
#[derive(Clone, Copy, Debug, PartialEq, Eq, Structural)]
pub struct FanoutMembershipMintVoucher {
    pub fanout_mint: Address,
    pub last_inflow: u64,
    pub bump_seed: u8,
    pub amount_at_stake: Option<u64>,
}

/// Parameters of pool creation.
#[derive(Clone, Debug)]
pub struct InitializeFanoutArgs {
    pub bump_seed: u8,
    pub native_account_bump_seed: u8,
    pub name: String,
    pub total_shares: u64,
    pub membership_model: MembershipModel,
}

/// Parameters of member admission.
#[derive(Clone, Copy, Debug, PartialEq, Eq, Structural)]
pub struct AddMemberArgs {
    pub voucher_bump_seed: u8,
    pub shares: u64,
}

/// Parameters of a settlement request; `mint` selects a sub-pool.
#[derive(Clone, Copy, Debug, PartialEq, Eq, Structural)]
pub struct DistributeMemberArgs {
    pub mint: Option<Address>,
    pub mint_fanout_membership_bump: u8,
}

/// The fields of a token account that the vault reads.
#[derive(Clone, Copy, Debug, PartialEq, Eq, Structural)]
pub struct TokenAccountInfo {
    pub mint: Address,
    pub owner: Address,
    pub amount: u64,
}

/// Evidence that a member was just settled: handed out by the distribution
/// entry points and asked for by operations that must follow a settlement.
/// Only the library creates one.
#[derive(Clone, Copy, Debug, PartialEq, Eq, Structural)]
pub struct DistributionRecord {
    membership_model: MembershipModel,
    member: Address,
}

impl DistributionRecord {
    /// The membership model the settlement ran under.
    pub closed spec fn model_of(&self) -> MembershipModel {
        self.membership_model
    }

    /// The member that was settled.
    pub closed spec fn member_of(&self) -> Address {
        self.member
    }

    pub(crate) fn new(membership_model: MembershipModel, member: Address) -> (r: Self)
        ensures
            r.model_of() == membership_model,
            r.member_of() == member,
    {
        DistributionRecord { membership_model, member }
    }

    /// The membership model the settlement ran under.
    pub fn membership_model(&self) -> (r: MembershipModel)
        ensures
            r == self.model_of(),
    {
        self.membership_model
    }

    /// The member that was settled.
    pub fn member(&self) -> (r: Address)
        ensures
            r == self.member_of(),
    {
        self.member
    }
}

} // verus!
