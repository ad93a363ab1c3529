//! Share-weighted revenue distribution vault: share ledger, inflow
//! watermark tracking with staking correction, and settlement.

pub mod error;
pub mod state;
pub mod calculation;
pub mod validation;
pub mod settlement;
pub mod admission;
pub mod staking;
pub mod transfer;
pub mod subpool;
pub mod ledger;

pub use error::{ErrorCode, OrArithError};
pub use state::{
    AddMemberArgs, Address, DistributeMemberArgs, DistributionRecord, Fanout, FanoutMembershipMintVoucher,
    FanoutMembershipVoucher, FanoutMint, InitializeFanoutArgs, MembershipModel, TokenAccountInfo,
};
pub use calculation::{
    calculate_dist_amount, calculate_inflow_change, current_lamports, update_fanout_for_add,
    update_inflow, update_inflow_for_mint, update_snapshot, update_snapshot_for_mint,
};
pub use validation::{
    assert_distributed, assert_holding, assert_membership_model, assert_membership_voucher_valid,
    assert_owned_by, assert_shares_distributed,
};
pub use settlement::{distribute_for_nft, distribute_for_token, distribute_for_wallet, settle};
pub use admission::{add_member_nft, add_member_token, add_member_wallet, init};
pub use staking::{set_token_member_stake, unstake};
pub use transfer::{transfer_shares, transfer_to_hodling};
pub use subpool::{distribute_for_mint, parse_mint_membership_voucher};
pub use ledger::FanoutLedger;
