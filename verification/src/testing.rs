use crate::state::{Auction, AuctionData};
use vstd::prelude::*;

verus! {

/// Set auction times (testing only)
///
/// Replaces the three times of the auction without any check, so that a
/// test can move an auction from one period into the next.
pub fn set_times(
    auction: &mut Auction,
    commit_start_time: i64,
    commit_end_time: i64,
    claim_start_time: i64,
)
    ensures
        final(auction)@ == (AuctionData {
            commit_start_time,
            commit_end_time,
            claim_start_time,
            ..old(auction)@
        }),
{
    auction.commit_start_time = commit_start_time;
    auction.commit_end_time = commit_end_time;
    auction.claim_start_time = claim_start_time;
}

} // verus!
