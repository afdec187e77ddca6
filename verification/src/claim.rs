use crate::address::Address;
use crate::allocation::{
    all_settled_outcome, bin_entitlement, calculate_bin_claimable_amounts,
    check_all_bins_fully_claimed, entry_settled,
};
use crate::errors::ResetError;
use crate::state::{
    check_emergency_state, entry_position, lemma_entry_position, total_claimed, total_committed,
    wide_total_claimed, wide_total_committed, Auction, AuctionBin, AuctionData, Committed,
    CommittedAccountClosedEvent, CommittedAccountSnapshot, CommittedBin, CommittedData,
    EmergencyState,
};
use vstd::prelude::*;

verus! {

/// What is left to take of an entitlement of which `taken` was taken.
pub open spec fn remaining(entitled: int, taken: u64) -> int {
    if entitled > taken {
        entitled - taken
    } else {
        0
    }
}

/// Why a claim is not admitted, or `None` when it is.
///
/// Claims must not be paused, the claim period must have begun, something
/// must be asked for, the record must be the caller's and hold an entry for
/// the bin, and the bin must exist. The entitlement is then computed from
/// the bin's current totals, and neither request may exceed what is left of
/// it.
pub open spec fn claim_rejection(
    auction: AuctionData,
    committed: CommittedData,
    user: Address,
    bin_id: u8,
    sale_token_to_claim: u64,
    payment_token_to_refund: u64,
    current_time: i64,
) -> Option<ResetError> {
    if auction.emergency_state.spec_is_paused(EmergencyState::PAUSE_AUCTION_CLAIM) {
        Some(ResetError::OperationPaused)
    } else if !(auction.claim_start_time <= current_time) {
        Some(ResetError::OutOfClaimPeriod)
    } else if sale_token_to_claim == 0 && payment_token_to_refund == 0 {
        Some(ResetError::InvalidClaimAmount)
    } else if committed.user != user {
        Some(ResetError::Unauthorized)
    } else {
        match entry_position(committed.bins, bin_id) {
            None => Some(ResetError::InvalidBinId),
            Some(i) => if bin_id >= auction.bins.len() {
                Some(ResetError::InvalidBinId)
            } else {
                match bin_entitlement(
                    auction.bins[bin_id as int],
                    committed.bins[i].payment_token_committed,
                ) {
                    Err(e) => Some(e),
                    Ok(entitled) => if sale_token_to_claim > remaining(
                        entitled.sale_tokens,
                        committed.bins[i].sale_token_claimed,
                    ) || payment_token_to_refund > remaining(
                        entitled.refund_payment_tokens,
                        committed.bins[i].payment_token_refunded,
                    ) {
                        Some(ResetError::InvalidClaimAmount)
                    } else {
                        None
                    },
                }
            },
        }
    }
}

/// The record after an admitted claim: the entry for the bin has the claim
/// and the refund added to what it had taken.
pub open spec fn committed_after_claim(
    committed: CommittedData,
    bin_id: u8,
    sale_token_to_claim: u64,
    payment_token_to_refund: u64,
) -> CommittedData
    recommends
        entry_position(committed.bins, bin_id) is Some,
{
    let i = entry_position(committed.bins, bin_id).unwrap();
    CommittedData {
        bins: committed.bins.update(
            i,
            (CommittedBin {
                sale_token_claimed: (committed.bins[i].sale_token_claimed
                    + sale_token_to_claim) as u64,
                payment_token_refunded: (committed.bins[i].payment_token_refunded
                    + payment_token_to_refund) as u64,
                ..committed.bins[i]
            }),
        ),
        ..committed
    }
}

/// The auction after an admitted claim: the bin counts the claimed sale
/// tokens, and the fee on them is collected.
pub open spec fn auction_after_claim(
    auction: AuctionData,
    bin_id: u8,
    sale_token_to_claim: u64,
) -> AuctionData
    recommends
        bin_id < auction.bins.len(),
{
    AuctionData {
        bins: auction.bins.update(
            bin_id as int,
            (AuctionBin {
                sale_token_claimed: (auction.bins[bin_id as int].sale_token_claimed
                    + sale_token_to_claim) as u64,
                ..auction.bins[bin_id as int]
            }),
        ),
        total_fees_collected: (auction.total_fees_collected + auction.extensions.claim_fee(
            sale_token_to_claim,
        )) as u64,
        ..auction
    }
}

/// Whether an admitted claim settles the whole record, so that the record
/// is closed: the entry it was made on must now be fully settled, and then
/// every entry of the record is examined.
pub open spec fn claim_closes_record(
    auction: AuctionData,
    committed: CommittedData,
    bin_id: u8,
    sale_token_to_claim: u64,
    payment_token_to_refund: u64,
) -> Result<bool, ResetError>
    recommends
        entry_position(committed.bins, bin_id) is Some,
        bin_id < auction.bins.len(),
{
    let i = entry_position(committed.bins, bin_id).unwrap();
    let after = committed_after_claim(committed, bin_id, sale_token_to_claim, payment_token_to_refund);
    let bins = auction_after_claim(auction, bin_id, sale_token_to_claim).bins;
    if entry_settled(after.bins[i], bins) == Ok::<bool, ResetError>(true) {
        all_settled_outcome(after.bins, bins)
    } else {
        Ok(false)
    }
}

/// The first reason a claim fails, if it does: a rejection; else a count
/// that leaves 64 bits; else a failure in examining the record; else totals
/// of a record to close that leave 64 bits.
pub open spec fn claim_failure(
    auction: AuctionData,
    committed: CommittedData,
    user: Address,
    bin_id: u8,
    sale_token_to_claim: u64,
    payment_token_to_refund: u64,
    current_time: i64,
) -> Option<ResetError> {
    match claim_rejection(
        auction,
        committed,
        user,
        bin_id,
        sale_token_to_claim,
        payment_token_to_refund,
        current_time,
    ) {
        Some(e) => Some(e),
        None => if auction.bins[bin_id as int].sale_token_claimed + sale_token_to_claim > u64::MAX
            || auction.total_fees_collected + auction.extensions.claim_fee(sale_token_to_claim)
            > u64::MAX {
            Some(ResetError::MathOverflow)
        } else {
            match claim_closes_record(
                auction,
                committed,
                bin_id,
                sale_token_to_claim,
                payment_token_to_refund,
            ) {
                Err(e) => Some(e),
                Ok(false) => None,
                Ok(true) => {
                    let after = committed_after_claim(
                        committed,
                        bin_id,
                        sale_token_to_claim,
                        payment_token_to_refund,
                    );
                    if total_committed(after.bins) > u64::MAX || total_claimed(after.bins)
                        > u64::MAX {
                        Some(ResetError::MathOverflow)
                    } else {
                        None
                    }
                },
            }
        },
    }
}

/// What a successful claim asks of the host.
#[derive(Debug)]
pub struct ClaimReceipt {
    /// Sale tokens to move from the sale vault to the user: the claim less
    /// the fee
    pub sale_tokens_to_user: u64,
    /// The fee collected on the claim, which stays in the sale vault
    pub claim_fee: u64,
    /// Payment tokens to move from the payment vault to the user
    pub payment_tokens_to_user: u64,
    /// Set when the claim settled the whole record: the record is to be
    /// destroyed, its rent returned to the user and this event emitted
    pub closed: Option<CommittedAccountClosedEvent>,
}

/// claims tokens with flexible amounts
///
/// The entitlement is recomputed from the bin at every claim; what the
/// entry has already taken is subtracted from it. The fee is a share of the
/// sale tokens claimed and is taken out of what the user receives. On
/// failure nothing changes.
///
/// `committed_account_key` and `rent_lamports` are the address of the record
/// and the rent it holds; they only go into the closing event.
pub fn claim(
    auction: &mut Auction,
    committed: &mut Committed,
    user_key: &Address,
    auction_key: &Address,
    committed_account_key: &Address,
    rent_lamports: u64,
    bin_id: u8,
    sale_token_to_claim: u64,
    payment_token_to_refund: u64,
    current_time: i64,
) -> (r: Result<ClaimReceipt, ResetError>)
    ensures
        match claim_failure(
            old(auction)@,
            old(committed)@,
            *user_key,
            bin_id,
            sale_token_to_claim,
            payment_token_to_refund,
            current_time,
        ) {
            Some(e) => r matches Err(err) && err == e && final(auction)@ == old(auction)@ && final(committed)@ == old(committed)@,
            None => {
                &&& r matches Ok(receipt)
                &&& receipt.claim_fee == old(auction).extensions.claim_fee(sale_token_to_claim)
                &&& receipt.sale_tokens_to_user == remaining(
                    sale_token_to_claim as int,
                    receipt.claim_fee,
                )
                &&& receipt.payment_tokens_to_user == payment_token_to_refund
                &&& final(committed)@ == committed_after_claim(
                    old(committed)@,
                    bin_id,
                    sale_token_to_claim,
                    payment_token_to_refund,
                )
                &&& final(auction)@ == auction_after_claim(
                    old(auction)@,
                    bin_id,
                    sale_token_to_claim,
                )
                &&& Ok::<bool, ResetError>(receipt.closed is Some) == claim_closes_record(
                    old(auction)@,
                    old(committed)@,
                    bin_id,
                    sale_token_to_claim,
                    payment_token_to_refund,
                )
                &&& receipt.closed matches Some(event) ==> {
                    &&& event.user_key == *user_key
                    &&& event.auction_key == *auction_key
                    &&& event.committed_account_key == *committed_account_key
                    &&& event.rent_returned == rent_lamports
                    &&& event.committed_data.is_snapshot_of(final(committed)@)
                }
            },
        },
{
    // CHECK: emergency state validation
    match check_emergency_state(auction, EmergencyState::PAUSE_AUCTION_CLAIM) {
        Ok(_) => {},
        Err(e) => {
            return Err(e);
        },
    }
    // CHECK: Timing validation
    if !(auction.claim_start_time <= current_time) {
        return Err(ResetError::OutOfClaimPeriod);
    }
    // CHECK: Claim amount validation
    if !(sale_token_to_claim != 0 || payment_token_to_refund != 0) {
        return Err(ResetError::InvalidClaimAmount);
    }
    // CHECK: Validate authority
    proof {
        crate::address::lemma_address_equality(committed.user, *user_key);
    }
    if !(committed.user == *user_key) {
        return Err(ResetError::Unauthorized);
    }
    // Calculate claim fee
    let fee = auction.extensions.checked_claim_fee(sale_token_to_claim);
    // Find the specific bin commitment
    let position = match committed.find_bin_index(bin_id) {
        Some(i) => i,
        None => {
            return Err(ResetError::InvalidBinId);
        },
    };
    proof {
        lemma_entry_position(committed.bins@, bin_id);
    }
    // Get the auction bin for calculations
    let index = bin_id as usize;
    if index >= auction.bins.len() {
        return Err(ResetError::InvalidBinId);
    }
    let entry_before = committed.bins[position];
    let bin_before = auction.bins[index];
    // Calculate what user is entitled to based on allocation algorithm
    let claimable_amounts = match calculate_bin_claimable_amounts(
        &bin_before,
        entry_before.payment_token_committed,
    ) {
        Ok(v) => v,
        Err(e) => {
            return Err(e);
        },
    };
    // Validate the calculation consistency
    match claimable_amounts.validate(entry_before.payment_token_committed) {
        Ok(_) => {},
        Err(e) => {
            return Err(e);
        },
    }
    let total_sale_tokens_entitled = claimable_amounts.sale_tokens;
    let total_payment_refund_entitled = claimable_amounts.refund_payment_tokens;
    // CHECK: Validate requested amounts don't exceed entitlements
    let remaining_sale_tokens = total_sale_tokens_entitled.saturating_sub(
        entry_before.sale_token_claimed,
    );
    let remaining_payment_refund = total_payment_refund_entitled.saturating_sub(
        entry_before.payment_token_refunded,
    );
    if !(sale_token_to_claim <= remaining_sale_tokens && payment_token_to_refund
        <= remaining_payment_refund) {
        return Err(ResetError::InvalidClaimAmount);
    }
    // What the counts will be, before any record is touched
    let bin_claimed: u64 = match bin_before.sale_token_claimed.checked_add(sale_token_to_claim) {
        Some(v) => v,
        None => {
            return Err(ResetError::MathOverflow);
        },
    };
    let claim_fee: u64 = match fee {
        Some(v) => v,
        None => {
            return Err(ResetError::MathOverflow);
        },
    };
    proof {
        crate::extensions::lemma_claim_fee_within_claim(auction.extensions, sale_token_to_claim);
    }
    let fees_collected: u64 = match auction.total_fees_collected.checked_add(claim_fee) {
        Some(v) => v,
        None => {
            return Err(ResetError::MathOverflow);
        },
    };
    // Actual tokens to transfer to user (after deducting fee)
    let actual_tokens_to_user = sale_token_to_claim.saturating_sub(claim_fee);
    // Update state
    committed.bins[position].sale_token_claimed = entry_before.sale_token_claimed
        + sale_token_to_claim;
    committed.bins[position].payment_token_refunded = entry_before.payment_token_refunded
        + payment_token_to_refund;
    auction.bins[index].sale_token_claimed = bin_claimed;
    proof {
        assert(committed.bins@ =~= committed_after_claim(
            old(committed)@,
            bin_id,
            sale_token_to_claim,
            payment_token_to_refund,
        ).bins);
        assert(auction.bins@ =~= auction_after_claim(
            old(auction)@,
            bin_id,
            sale_token_to_claim,
        ).bins);
    }
    // Check if this bin is fully claimed
    let current_bin_fully_claimed = committed.bins[position].sale_token_claimed
        >= total_sale_tokens_entitled && payment_token_to_refund >= remaining_payment_refund;
    let all_bins_fully_claimed = if current_bin_fully_claimed {
        // Check if all bins are fully claimed
        match check_all_bins_fully_claimed(committed.bins.as_slice(), auction.bins.as_slice()) {
            Ok(v) => v,
            Err(e) => {
                committed.bins[position] = entry_before;
                auction.bins[index] = bin_before;
                assert(committed.bins@ =~= old(committed).bins@);
                assert(auction.bins@ =~= old(auction).bins@);
                return Err(e);
            },
        }
    } else {
        false
    };
    // Handle account closure if all bins are fully claimed
    let closed = if all_bins_fully_claimed {
        if wide_total_committed(&committed.bins) > u64::MAX as u128 || wide_total_claimed(
            &committed.bins,
        ) > u64::MAX as u128 {
            committed.bins[position] = entry_before;
            auction.bins[index] = bin_before;
            assert(committed.bins@ =~= old(committed).bins@);
            assert(auction.bins@ =~= old(auction).bins@);
            return Err(ResetError::MathOverflow);
        }
        // Snapshot of the committed data for the closing event
        let committed_data_snapshot = CommittedAccountSnapshot::from_committed(committed);
        Some(
            CommittedAccountClosedEvent {
                user_key: *user_key,
                auction_key: *auction_key,
                committed_account_key: *committed_account_key,
                rent_returned: rent_lamports,
                committed_data: committed_data_snapshot,
            },
        )
    } else {
        None
    };
    // Update fee collection state
    auction.total_fees_collected = fees_collected;
    Ok(
        ClaimReceipt {
            sale_tokens_to_user: actual_tokens_to_user,
            claim_fee,
            payment_tokens_to_user: payment_token_to_refund,
            closed,
        },
    )
}

} // verus!
