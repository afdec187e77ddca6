//! Allocation and settlement engine of a tiered token sale.
//!
//! Buyers commit payment tokens to price/capacity tiers ("bins"). At
//! settlement an oversubscribed bin is pro-rated with a fixed-point ratio;
//! buyers then claim sale tokens and refunds, and the operator withdraws
//! unsold inventory, raised funds and fees.
//!
//! Every operation is a function from the records it touches and the facts
//! of the call (who signed, what time it is, which signature instruction is
//! in the batch) to the updated records and the token movements to perform.
//! Moving tokens, reading the clock and storing records are left to the host.
//!
//! * `allocation`: the fixed-point ratio, entitlements and the operator's
//!   settlement amounts.
//! * `state`: the auction and commitment records.
//! * `extensions`: whitelist and custody signatures, the commit cap and the
//!   claim fee.
//! * `instructions` and `claim`: the operations on the records.
//! * `ledger` and `replay`: what holds of the records across operations.
pub mod address;
pub mod allocation;
pub mod claim;
pub mod errors;
pub mod extensions;
pub mod instructions;
pub mod ledger;
pub mod replay;
pub mod state;
pub mod testing;

pub use address::Address;
pub use allocation::{
    calculate_bin_withdraw_amounts, calculate_claimable_amounts, calculate_total_withdraw_amounts,
    calculate_withdrawable_fees, check_all_bins_fully_claimed, AllocationRatio, ClaimableAmounts,
    TotalWithdrawAmounts, WithdrawAmounts, PRECISION_FACTOR,
};
pub use claim::{claim, ClaimReceipt};
pub use errors::ResetError;
pub use extensions::{AuctionExtensions, SignatureInstruction, WhitelistPayload};
pub use instructions::{
    commit, decrease_commit, emergency_control, init_auction, set_price, withdraw_fees,
    withdraw_funds, CommitReceipt, EmergencyControlEvent, InitializedAuction,
    SignatureIntrospection,
};
pub use state::{
    check_emergency_state, Auction, AuctionBin, AuctionBinParams, AuctionExtensionParams,
    Committed, CommittedAccountClosedEvent, CommittedAccountSnapshot, CommittedBin,
    EmergencyControlParams, EmergencyState,
};
