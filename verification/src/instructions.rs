use crate::address::Address;
use crate::allocation::{
    calculate_total_withdraw_amounts, calculate_withdrawable_fees, total_withdraw_outcome,
    TotalWithdrawAmounts,
};
use crate::errors::ResetError;
use crate::extensions::{
    signature_rejection, verify_signature_authorization, AuctionExtensions, SignatureInstruction,
    WhitelistPayload,
};
use crate::state::{
    check_emergency_state, entry_position, lemma_entry_position, Auction, AuctionBin,
    AuctionBinParams, AuctionData, Committed, CommittedBin, CommittedData, EmergencyControlParams,
    EmergencyState,
};
use vstd::prelude::*;

verus! {

/// Most bins an auction can be created with.
pub const MAX_AUCTION_BINS: usize = 100;

/// A freshly created auction and the sale tokens its seller has to deposit
/// in the sale vault: the sum of the capacities of its bins.
pub struct InitializedAuction {
    pub auction: Auction,
    pub sale_tokens_to_deposit: u64,
}

/// The bin a set of parameters creates: nothing raised, nothing claimed.
pub open spec fn new_bin(params: AuctionBinParams) -> AuctionBin {
    AuctionBin {
        sale_token_price: params.sale_token_price,
        sale_token_cap: params.sale_token_cap,
        payment_token_raised: 0,
        sale_token_claimed: 0,
    }
}

/// Sum of the capacities of the bins.
pub open spec fn total_capacity(bins: Seq<AuctionBinParams>) -> int
    decreases bins.len(),
{
    if bins.len() == 0 {
        0
    } else {
        total_capacity(bins.drop_last()) + bins.last().sale_token_cap
    }
}

/// Why an auction cannot be created, or `None` when it can.
///
/// Only the launchpad admin creates auctions. The times must be in order
/// and not in the past, there must be one to a hundred bins, each with a price
/// and a capacity above zero, a claim fee rate must be above zero if there
/// is one, and the capacities must add up within 64 bits.
pub open spec fn init_rejection(
    launchpad_admin: Address,
    authority: Address,
    current_time: i64,
    commit_start_time: i64,
    commit_end_time: i64,
    claim_start_time: i64,
    bins: Seq<AuctionBinParams>,
    extensions: AuctionExtensions,
) -> Option<ResetError> {
    if launchpad_admin != authority {
        Some(ResetError::OnlyLaunchpadAdmin)
    } else if !(current_time <= commit_start_time && commit_start_time <= commit_end_time
        && commit_end_time <= claim_start_time) {
        Some(ResetError::InvalidAuctionTimeRange)
    } else if !(1 <= bins.len() <= MAX_AUCTION_BINS) {
        Some(ResetError::InvalidAuctionBinsLength)
    } else if exists|i: int|
        0 <= i < bins.len() && !((#[trigger] bins[i]).sale_token_price > 0 && bins[i].sale_token_cap
            > 0) {
        Some(ResetError::InvalidAuctionBinsPriceOrCap)
    } else if extensions.claim_fee_rate == Some(0u64) {
        Some(ResetError::NoClaimFeesConfigured)
    } else if total_capacity(bins) > u64::MAX {
        Some(ResetError::MathOverflow)
    } else {
        None
    }
}

/// Create a new auction
///
/// `launchpad_admin` is the configured administrator and `authority` the
/// signer of the call. The host supplies the current time, the addresses of
/// the two mints and the bump seeds of the addresses it derived.
#[verifier::loop_isolation(false)]
pub fn init_auction(
    launchpad_admin: &Address,
    authority: &Address,
    current_time: i64,
    commit_start_time: i64,
    commit_end_time: i64,
    claim_start_time: i64,
    bins: Vec<AuctionBinParams>,
    custody: Address,
    extensions: AuctionExtensions,
    sale_token_mint: Address,
    payment_token_mint: Address,
    vault_sale_bump: u8,
    vault_payment_bump: u8,
    bump: u8,
) -> (r: Result<InitializedAuction, ResetError>)
    ensures
        match init_rejection(
            *launchpad_admin,
            *authority,
            current_time,
            commit_start_time,
            commit_end_time,
            claim_start_time,
            bins@,
            extensions,
        ) {
            Some(e) => r matches Err(err) && err == e,
            None => r matches Ok(init) && init.sale_tokens_to_deposit == total_capacity(bins@)
                && init.auction@ == (AuctionData {
                authority: *launchpad_admin,
                custody,
                sale_token_mint,
                payment_token_mint,
                commit_start_time,
                commit_end_time,
                claim_start_time,
                bins: bins@.map_values(|p: AuctionBinParams| new_bin(p)),
                extensions,
                total_participants: 0,
                funds_withdrawn: false,
                total_fees_collected: 0,
                total_fees_withdrawn: 0,
                emergency_state: (EmergencyState { paused_operations: 0 }),
                vault_sale_bump,
                vault_payment_bump,
                bump,
            }),
        },
{
    // CHECK: authority validation, verify signer is LaunchpadAdmin
    if !(*launchpad_admin == *authority) {
        return Err(ResetError::OnlyLaunchpadAdmin);
    }
    proof {
        crate::address::lemma_address_equality(*launchpad_admin, *authority);
    }
    // CHECK: timing validation
    if !(current_time <= commit_start_time && commit_start_time <= commit_end_time
        && commit_end_time <= claim_start_time) {
        return Err(ResetError::InvalidAuctionTimeRange);
    }
    // CHECK: bins length validation, require 1-100 bins
    if !(bins.len() >= 1 && bins.len() <= MAX_AUCTION_BINS) {
        return Err(ResetError::InvalidAuctionBinsLength);
    }
    // CHECK: bins price and cap validation
    let mut i: usize = 0;
    while i < bins.len()
        invariant
            0 <= i <= bins@.len(),
            forall|j: int|
                0 <= j < i ==> (#[trigger] bins@[j]).sale_token_price > 0 && bins@[j].sale_token_cap
                    > 0,
        decreases bins@.len() - i,
    {
        if !(bins[i].sale_token_price > 0 && bins[i].sale_token_cap > 0) {
            assert(!(bins@[i as int].sale_token_price > 0 && bins@[i as int].sale_token_cap > 0));
            return Err(ResetError::InvalidAuctionBinsPriceOrCap);
        }
        i += 1;
    }
    // CHECK: extensions configuration validation
    if let Some(rate) = extensions.claim_fee_rate {
        if rate == 0 {
            return Err(ResetError::NoClaimFeesConfigured);
        }
    }
    // The bins of the auction, and the sale tokens the vault has to hold
    let mut auction_bins: Vec<AuctionBin> = Vec::new();
    let mut total_sale_tokens_needed: u64 = 0;
    let mut k: usize = 0;
    assert(bins@.take(0) =~= Seq::<AuctionBinParams>::empty());
    while k < bins.len()
        invariant
            0 <= k <= bins@.len(),
            auction_bins@ == bins@.take(k as int).map_values(|p: AuctionBinParams| new_bin(p)),
            total_sale_tokens_needed == total_capacity(bins@.take(k as int)),
            forall|j: int|
                0 <= j < bins@.len() ==> (#[trigger] bins@[j]).sale_token_price > 0
                    && bins@[j].sale_token_cap > 0,
        decreases bins@.len() - k,
    {
        proof {
            assert(bins@.take(k + 1).drop_last() =~= bins@.take(k as int));
            lemma_total_capacity_grows(bins@, k + 1);
        }
        total_sale_tokens_needed =
        match total_sale_tokens_needed.checked_add(bins[k].sale_token_cap) {
            Some(v) => v,
            None => {
                return Err(ResetError::MathOverflow);
            },
        };
        auction_bins.push(
            AuctionBin {
                sale_token_price: bins[k].sale_token_price,
                sale_token_cap: bins[k].sale_token_cap,
                payment_token_raised: 0,
                sale_token_claimed: 0,
            },
        );
        assert(auction_bins@ =~= bins@.take(k + 1).map_values(|p: AuctionBinParams| new_bin(p)));
        k += 1;
    }
    assert(bins@.take(bins@.len() as int) =~= bins@);
    // Initialize auction
    let auction = Auction {
        authority: *launchpad_admin,
        custody,
        sale_token_mint,
        payment_token_mint,
        commit_start_time,
        commit_end_time,
        claim_start_time,
        bins: auction_bins,
        extensions,
        total_participants: 0,
        unsold_sale_tokens_and_effective_payment_tokens_withdrawn: false,
        total_fees_collected: 0,
        total_fees_withdrawn: 0,
        emergency_state: EmergencyState::default(),
        vault_sale_bump,
        vault_payment_bump,
        bump,
    };
    Ok(InitializedAuction { auction, sale_tokens_to_deposit: total_sale_tokens_needed })
}

/// The sum of the capacities over a prefix is at most the sum over all.
pub proof fn lemma_total_capacity_grows(bins: Seq<AuctionBinParams>, n: int)
    requires
        0 <= n <= bins.len(),
    ensures
        0 <= total_capacity(bins.take(n)) <= total_capacity(bins),
    decreases bins.len() - n,
{
    if n < bins.len() {
        assert(bins.take(n + 1).drop_last() =~= bins.take(n));
        lemma_total_capacity_grows(bins, n + 1);
    } else {
        assert(bins.take(n) =~= bins);
    }
    lemma_total_capacity_nonnegative(bins.take(n));
}

/// A sum of capacities is not negative.
pub proof fn lemma_total_capacity_nonnegative(bins: Seq<AuctionBinParams>)
    ensures
        0 <= total_capacity(bins),
    decreases bins.len(),
{
    if bins.len() > 0 {
        lemma_total_capacity_nonnegative(bins.drop_last());
    }
}

/// Emergency control event
#[derive(Clone, Copy, Debug)]
pub struct EmergencyControlEvent {
    pub auction: Address,
    pub authority: Address,
    pub paused_operations: u64,
}

/// The mask that pauses exactly the operations `params` names.
pub open spec fn emergency_mask(params: EmergencyControlParams) -> u64 {
    let commit = if params.pause_auction_commit {
        0u64 | EmergencyState::PAUSE_AUCTION_COMMIT
    } else {
        0u64
    };
    let claim = if params.pause_auction_claim {
        commit | EmergencyState::PAUSE_AUCTION_CLAIM
    } else {
        commit
    };
    let fees = if params.pause_auction_withdraw_fees {
        claim | EmergencyState::PAUSE_AUCTION_WITHDRAW_FEES
    } else {
        claim
    };
    let funds = if params.pause_auction_withdraw_funds {
        fees | EmergencyState::PAUSE_AUCTION_WITHDRAW_FUNDS
    } else {
        fees
    };
    if params.pause_auction_updation {
        funds | EmergencyState::PAUSE_AUCTION_UPDATION
    } else {
        funds
    }
}

/// The mask built from a set of flags pauses an operation exactly when the
/// set names it, whatever was paused before.
pub proof fn lemma_emergency_mask_pauses(params: EmergencyControlParams)
    ensures
        (EmergencyState { paused_operations: emergency_mask(params) }).spec_is_paused(
            EmergencyState::PAUSE_AUCTION_COMMIT,
        ) == params.pause_auction_commit,
        (EmergencyState { paused_operations: emergency_mask(params) }).spec_is_paused(
            EmergencyState::PAUSE_AUCTION_CLAIM,
        ) == params.pause_auction_claim,
        (EmergencyState { paused_operations: emergency_mask(params) }).spec_is_paused(
            EmergencyState::PAUSE_AUCTION_WITHDRAW_FEES,
        ) == params.pause_auction_withdraw_fees,
        (EmergencyState { paused_operations: emergency_mask(params) }).spec_is_paused(
            EmergencyState::PAUSE_AUCTION_WITHDRAW_FUNDS,
        ) == params.pause_auction_withdraw_funds,
        (EmergencyState { paused_operations: emergency_mask(params) }).spec_is_paused(
            EmergencyState::PAUSE_AUCTION_UPDATION,
        ) == params.pause_auction_updation,
{
    let a: u64 = if params.pause_auction_commit { 1 } else { 0 };
    let b: u64 = if params.pause_auction_claim { 2 } else { 0 };
    let c: u64 = if params.pause_auction_withdraw_fees { 4 } else { 0 };
    let d: u64 = if params.pause_auction_withdraw_funds { 8 } else { 0 };
    let e: u64 = if params.pause_auction_updation { 16 } else { 0 };
    assert(forall|x: u64| #![auto] x | 0 == x) by (bit_vector);
    assert(emergency_mask(params) == ((((0u64 | a) | b) | c) | d) | e);
    assert(((((((0u64 | a) | b) | c) | d) | e) & 1 != 0) == (a == 1)) by (bit_vector)
        requires
            a == 0 || a == 1,
            b == 0 || b == 2,
            c == 0 || c == 4,
            d == 0 || d == 8,
            e == 0 || e == 16,
    ;
    assert(((((((0u64 | a) | b) | c) | d) | e) & 2 != 0) == (b == 2)) by (bit_vector)
        requires
            a == 0 || a == 1,
            b == 0 || b == 2,
            c == 0 || c == 4,
            d == 0 || d == 8,
            e == 0 || e == 16,
    ;
    assert(((((((0u64 | a) | b) | c) | d) | e) & 4 != 0) == (c == 4)) by (bit_vector)
        requires
            a == 0 || a == 1,
            b == 0 || b == 2,
            c == 0 || c == 4,
            d == 0 || d == 8,
            e == 0 || e == 16,
    ;
    assert(((((((0u64 | a) | b) | c) | d) | e) & 8 != 0) == (d == 8)) by (bit_vector)
        requires
            a == 0 || a == 1,
            b == 0 || b == 2,
            c == 0 || c == 4,
            d == 0 || d == 8,
            e == 0 || e == 16,
    ;
    assert(((((((0u64 | a) | b) | c) | d) | e) & 16 != 0) == (e == 16)) by (bit_vector)
        requires
            a == 0 || a == 1,
            b == 0 || b == 2,
            c == 0 || c == 4,
            d == 0 || d == 8,
            e == 0 || e == 16,
    ;
}

/// Emergency control for pausing/resuming auction operations
///
/// Only the auction's authority may call it. The mask is replaced by the
/// one `params` describes; what was paused before plays no part.
pub fn emergency_control(
    auction: &mut Auction,
    auction_key: &Address,
    authority: &Address,
    params: EmergencyControlParams,
) -> (r: Result<EmergencyControlEvent, ResetError>)
    ensures
        old(auction).authority != *authority ==> r == Err::<EmergencyControlEvent, ResetError>(
            ResetError::OnlyLaunchpadAdmin,
        ) && final(auction)@ == old(auction)@,
        old(auction).authority == *authority ==> r == Ok::<EmergencyControlEvent, ResetError>(
            (EmergencyControlEvent {
                auction: *auction_key,
                authority: *authority,
                paused_operations: emergency_mask(params),
            }),
        ) && final(auction)@ == (AuctionData {
            emergency_state: (EmergencyState { paused_operations: emergency_mask(params) }),
            ..old(auction)@
        }),
{
    if !(auction.authority == *authority) {
        return Err(ResetError::OnlyLaunchpadAdmin);
    }
    proof {
        crate::address::lemma_address_equality(auction.authority, *authority);
    }
    // Construct new paused operations bitmask
    let mut new_paused_operations: u64 = 0;
    if params.pause_auction_commit {
        new_paused_operations |= EmergencyState::PAUSE_AUCTION_COMMIT;
    }
    if params.pause_auction_claim {
        new_paused_operations |= EmergencyState::PAUSE_AUCTION_CLAIM;
    }
    if params.pause_auction_withdraw_fees {
        new_paused_operations |= EmergencyState::PAUSE_AUCTION_WITHDRAW_FEES;
    }
    if params.pause_auction_withdraw_funds {
        new_paused_operations |= EmergencyState::PAUSE_AUCTION_WITHDRAW_FUNDS;
    }
    if params.pause_auction_updation {
        new_paused_operations |= EmergencyState::PAUSE_AUCTION_UPDATION;
    }
    // Update emergency state
    auction.emergency_state.paused_operations = new_paused_operations;
    Ok(
        EmergencyControlEvent {
            auction: *auction_key,
            authority: *authority,
            paused_operations: new_paused_operations,
        },
    )
}

/// Whether `now` lies in the commitment period of the auction, both ends
/// included.
pub open spec fn in_commit_period(auction: AuctionData, now: i64) -> bool {
    auction.commit_start_time <= now && now <= auction.commit_end_time
}

/// Why the operator cannot withdraw the funds, or `None` when they can.
pub open spec fn withdraw_funds_rejection(
    auction: AuctionData,
    authority: Address,
    current_time: i64,
) -> Option<ResetError> {
    if auction.emergency_state.spec_is_paused(EmergencyState::PAUSE_AUCTION_WITHDRAW_FUNDS) {
        Some(ResetError::OperationPaused)
    } else if auction.funds_withdrawn {
        Some(ResetError::DoubleFundsWithdrawal)
    } else if !(current_time > auction.commit_end_time) {
        Some(ResetError::InCommitmentPeriod)
    } else if auction.authority != authority {
        Some(ResetError::Unauthorized)
    } else {
        match total_withdraw_outcome(auction.bins) {
            Err(e) => Some(e),
            Ok(_) => None,
        }
    }
}

/// Admin withdraws funds from all auction bins
///
/// Once, after the commitment period: the payment due for what every bin
/// sold, and the sale tokens no bin sold. The call marks the auction, and
/// every later call is rejected.
pub fn withdraw_funds(auction: &mut Auction, authority: &Address, current_time: i64) -> (r: Result<
    TotalWithdrawAmounts,
    ResetError,
>)
    ensures
        match withdraw_funds_rejection(old(auction)@, *authority, current_time) {
            Some(e) => r == Err::<TotalWithdrawAmounts, ResetError>(e) && final(auction)@ == old(auction)@,
            None => r == total_withdraw_outcome(old(auction).bins@) && final(auction)@ == (
            AuctionData { funds_withdrawn: true, ..old(auction)@ }),
        },
{
    // Check emergency state - withdraw funds operations
    match check_emergency_state(auction, EmergencyState::PAUSE_AUCTION_WITHDRAW_FUNDS) {
        Ok(_) => {},
        Err(e) => {
            return Err(e);
        },
    }
    // CHECK: Prevent double withdrawal
    if auction.unsold_sale_tokens_and_effective_payment_tokens_withdrawn {
        return Err(ResetError::DoubleFundsWithdrawal);
    }
    // CHECK: Timing validation - can withdraw after commit period ends
    if !(current_time > auction.commit_end_time) {
        return Err(ResetError::InCommitmentPeriod);
    }
    // CHECK: Validate authority
    if !(auction.authority == *authority) {
        return Err(ResetError::Unauthorized);
    }
    proof {
        crate::address::lemma_address_equality(auction.authority, *authority);
    }
    // Calculate withdrawal amounts
    let total_amounts = match calculate_total_withdraw_amounts(auction.bins.as_slice()) {
        Ok(v) => v,
        Err(e) => {
            return Err(e);
        },
    };
    // Set the flag to true to prevent double withdrawal
    auction.unsold_sale_tokens_and_effective_payment_tokens_withdrawn = true;
    Ok(total_amounts)
}

/// The funds of an auction are withdrawn at most once: in the state a
/// successful withdrawal leaves, every further withdrawal is rejected, by
/// whom and whenever it is asked.
pub proof fn lemma_no_double_withdrawal(
    auction: AuctionData,
    authority: Address,
    current_time: i64,
    again_by: Address,
    again_at: i64,
)
    requires
        withdraw_funds_rejection(auction, authority, current_time) is None,
    ensures
        withdraw_funds_rejection(
            (AuctionData { funds_withdrawn: true, ..auction }),
            again_by,
            again_at,
        ) == Some(ResetError::DoubleFundsWithdrawal),
{
}

/// Why the operator cannot withdraw fees, or `None` when they can.
pub open spec fn withdraw_fees_rejection(
    auction: AuctionData,
    authority: Address,
    current_time: i64,
) -> Option<ResetError> {
    if auction.authority != authority {
        Some(ResetError::Unauthorized)
    } else if auction.emergency_state.spec_is_paused(EmergencyState::PAUSE_AUCTION_WITHDRAW_FEES) {
        Some(ResetError::OperationPaused)
    } else if !(current_time > auction.commit_end_time) {
        Some(ResetError::InCommitmentPeriod)
    } else if auction.total_fees_withdrawn > auction.total_fees_collected {
        Some(ResetError::MathUnderflow)
    } else {
        None
    }
}

/// Admin withdraws collected fees from all bins
///
/// After the commitment period, as often as wanted: the fees collected and
/// not yet withdrawn. Returns the sale tokens to move to the operator.
pub fn withdraw_fees(auction: &mut Auction, authority: &Address, current_time: i64) -> (r: Result<
    u64,
    ResetError,
>)
    ensures
        match withdraw_fees_rejection(old(auction)@, *authority, current_time) {
            Some(e) => r == Err::<u64, ResetError>(e) && final(auction)@ == old(auction)@,
            None => r == Ok::<u64, ResetError>(
                (old(auction).total_fees_collected - old(auction).total_fees_withdrawn) as u64,
            ) && final(auction)@ == (AuctionData {
                total_fees_withdrawn: old(auction).total_fees_collected,
                ..old(auction)@
            }),
        },
{
    if !(auction.authority == *authority) {
        return Err(ResetError::Unauthorized);
    }
    proof {
        crate::address::lemma_address_equality(auction.authority, *authority);
    }
    // Check emergency state - withdraw fees operations
    match check_emergency_state(auction, EmergencyState::PAUSE_AUCTION_WITHDRAW_FEES) {
        Ok(_) => {},
        Err(e) => {
            return Err(e);
        },
    }
    if !(current_time > auction.commit_end_time) {
        return Err(ResetError::InCommitmentPeriod);
    }
    // Calculate fees to withdraw
    let fees_to_withdraw = match calculate_withdrawable_fees(
        auction.total_fees_collected,
        auction.total_fees_withdrawn,
    ) {
        Ok(v) => v,
        Err(e) => {
            return Err(e);
        },
    };
    if fees_to_withdraw > 0 {
        // Update state
        auction.total_fees_withdrawn = auction.total_fees_withdrawn + fees_to_withdraw;
    }
    Ok(fees_to_withdraw)
}

/// Why the price of a bin cannot be set, or `None` when it can.
///
/// The caller must be the auction's authority, updates must not be paused,
/// the new price must be above zero and the bin must exist. A bin that has
/// raised anything keeps its price: entitlements in it are computed from
/// the price, so the bin can no longer be named for a new one, and the call
/// is rejected with `InvalidBinId`.
pub open spec fn set_price_rejection(
    auction: AuctionData,
    authority: Address,
    bin_id: u8,
    new_price: u64,
) -> Option<ResetError> {
    if auction.authority != authority {
        Some(ResetError::Unauthorized)
    } else if auction.emergency_state.spec_is_paused(EmergencyState::PAUSE_AUCTION_UPDATION) {
        Some(ResetError::OperationPaused)
    } else if new_price == 0 {
        Some(ResetError::InvalidAuctionBinsPriceOrCap)
    } else if bin_id >= auction.bins.len() {
        Some(ResetError::InvalidBinId)
    } else if auction.bins[bin_id as int].payment_token_raised > 0 {
        Some(ResetError::InvalidBinId)
    } else {
        None
    }
}

/// The auction after a successful change of price: the bin has the new
/// price, and nothing else has changed.
pub open spec fn auction_after_set_price(
    auction: AuctionData,
    bin_id: u8,
    new_price: u64,
) -> AuctionData
    recommends
        bin_id < auction.bins.len(),
{
    AuctionData {
        bins: auction.bins.update(
            bin_id as int,
            (AuctionBin { sale_token_price: new_price, ..auction.bins[bin_id as int] }),
        ),
        ..auction
    }
}

/// Admin sets new price for a bin
///
/// For configuration before commitments begin: once the bin has raised
/// anything its price stands, and the call is rejected with `InvalidBinId`.
/// On every rejection the auction is left as it was.
pub fn set_price(auction: &mut Auction, authority: &Address, bin_id: u8, new_price: u64) -> (r:
    Result<(), ResetError>)
    ensures
        match set_price_rejection(old(auction)@, *authority, bin_id, new_price) {
            Some(e) => r == Err::<(), ResetError>(e) && final(auction)@ == old(auction)@,
            None => r == Ok::<(), ResetError>(()) && final(auction)@ == auction_after_set_price(
                old(auction)@,
                bin_id,
                new_price,
            ),
        },
{
    if !(auction.authority == *authority) {
        return Err(ResetError::Unauthorized);
    }
    proof {
        crate::address::lemma_address_equality(auction.authority, *authority);
    }
    // CHECK: emergency control
    match check_emergency_state(auction, EmergencyState::PAUSE_AUCTION_UPDATION) {
        Ok(_) => {},
        Err(e) => {
            return Err(e);
        },
    }
    // CHECK: Validate new price
    if !(new_price > 0) {
        return Err(ResetError::InvalidAuctionBinsPriceOrCap);
    }
    let index = bin_id as usize;
    if index >= auction.bins.len() {
        return Err(ResetError::InvalidBinId);
    }
    // CHECK: a bin that has raised anything keeps its price
    if auction.bins[index].payment_token_raised > 0 {
        return Err(ResetError::InvalidBinId);
    }
    auction.bins[index].sale_token_price = new_price;
    Ok(())
}

/// Why a commitment cannot be decreased, or `None` when it can.
///
/// The record must be the caller's, commits must not be paused, the time
/// must lie in the commitment period, the amount must be above zero and at
/// most what the user has committed to the bin, and the bin must have raised
/// at least that much.
pub open spec fn decrease_commit_rejection(
    auction: AuctionData,
    committed: CommittedData,
    user: Address,
    bin_id: u8,
    payment_token_reverted: u64,
    current_time: i64,
) -> Option<ResetError> {
    if committed.user != user {
        Some(ResetError::Unauthorized)
    } else if auction.emergency_state.spec_is_paused(EmergencyState::PAUSE_AUCTION_COMMIT) {
        Some(ResetError::OperationPaused)
    } else if !in_commit_period(auction, current_time) {
        Some(ResetError::OutOfCommitmentPeriod)
    } else if payment_token_reverted == 0 {
        Some(ResetError::InvalidCommitmentAmount)
    } else {
        match entry_position(committed.bins, bin_id) {
            None => Some(ResetError::InvalidBinId),
            Some(i) => if committed.bins[i].payment_token_committed < payment_token_reverted {
                Some(ResetError::InvalidCommitmentAmount)
            } else if bin_id >= auction.bins.len() {
                Some(ResetError::InvalidBinId)
            } else if auction.bins[bin_id as int].payment_token_raised < payment_token_reverted {
                Some(ResetError::MathUnderflow)
            } else {
                None
            },
        }
    }
}

/// The record after a successful decrease: the entry for the bin holds the
/// payment less.
pub open spec fn committed_after_decrease(
    committed: CommittedData,
    bin_id: u8,
    payment_token_reverted: u64,
) -> CommittedData
    recommends
        entry_position(committed.bins, bin_id) is Some,
{
    let i = entry_position(committed.bins, bin_id).unwrap();
    CommittedData {
        bins: committed.bins.update(
            i,
            (CommittedBin {
                payment_token_committed: (committed.bins[i].payment_token_committed
                    - payment_token_reverted) as u64,
                ..committed.bins[i]
            }),
        ),
        ..committed
    }
}

/// The auction after a successful decrease: the bin has raised the payment
/// less.
pub open spec fn auction_after_decrease(
    auction: AuctionData,
    bin_id: u8,
    payment_token_reverted: u64,
) -> AuctionData
    recommends
        bin_id < auction.bins.len(),
{
    AuctionData {
        bins: auction.bins.update(
            bin_id as int,
            (AuctionBin {
                payment_token_raised: (auction.bins[bin_id as int].payment_token_raised
                    - payment_token_reverted) as u64,
                ..auction.bins[bin_id as int]
            }),
        ),
        ..auction
    }
}

/// User decreases a commitment
///
/// Takes `payment_token_reverted` off the user's entry for the bin and off
/// what the bin raised. Returns the payment tokens to move from the payment
/// vault back to the user: the amount itself.
pub fn decrease_commit(
    auction: &mut Auction,
    committed: &mut Committed,
    user: &Address,
    bin_id: u8,
    payment_token_reverted: u64,
    current_time: i64,
) -> (r: Result<u64, ResetError>)
    ensures
        match decrease_commit_rejection(
            old(auction)@,
            old(committed)@,
            *user,
            bin_id,
            payment_token_reverted,
            current_time,
        ) {
            Some(e) => r == Err::<u64, ResetError>(e) && final(auction)@ == old(auction)@ && final(committed)@ == old(committed)@,
            None => {
                &&& r == Ok::<u64, ResetError>(payment_token_reverted)
                &&& final(committed)@ == committed_after_decrease(
                    old(committed)@,
                    bin_id,
                    payment_token_reverted,
                )
                &&& final(auction)@ == auction_after_decrease(
                    old(auction)@,
                    bin_id,
                    payment_token_reverted,
                )
            },
        },
{
    if !(committed.user == *user) {
        return Err(ResetError::Unauthorized);
    }
    proof {
        crate::address::lemma_address_equality(committed.user, *user);
    }
    // CHECK: emergency state validation
    match check_emergency_state(auction, EmergencyState::PAUSE_AUCTION_COMMIT) {
        Ok(_) => {},
        Err(e) => {
            return Err(e);
        },
    }
    // CHECK: Timing validation
    if !(auction.commit_start_time <= current_time && current_time <= auction.commit_end_time) {
        return Err(ResetError::OutOfCommitmentPeriod);
    }
    // CHECK: commitment amount validation
    if payment_token_reverted == 0 {
        return Err(ResetError::InvalidCommitmentAmount);
    }
    // CHECK: Validate sufficient committed amount
    let position = match committed.find_bin_index(bin_id) {
        Some(i) => i,
        None => {
            return Err(ResetError::InvalidBinId);
        },
    };
    proof {
        lemma_entry_position(committed.bins@, bin_id);
    }
    if !(committed.bins[position].payment_token_committed >= payment_token_reverted) {
        return Err(ResetError::InvalidCommitmentAmount);
    }
    let index = bin_id as usize;
    if index >= auction.bins.len() {
        return Err(ResetError::InvalidBinId);
    }
    if auction.bins[index].payment_token_raised < payment_token_reverted {
        return Err(ResetError::MathUnderflow);
    }
    // Update committed account
    committed.bins[position].payment_token_committed -= payment_token_reverted;
    // Update Auction state
    auction.bins[index].payment_token_raised -= payment_token_reverted;
    Ok(payment_token_reverted)
}

/// What the host found when it looked for the signature instruction at the
/// head of the batch a call arrived in.
#[derive(Debug)]
pub enum SignatureIntrospection {
    /// The call came without the means to look
    NotProvided,
    /// The means were there, but no instruction could be read
    Unreadable,
    /// The first instruction of the batch
    Instruction(SignatureInstruction),
}

impl SignatureIntrospection {
    /// The instruction that was read, if one was.
    pub open spec fn loaded(self) -> Option<(Address, Seq<u8>)> {
        match self {
            SignatureIntrospection::Instruction(ix) => Some((ix.program_id, ix.data@)),
            _ => None,
        }
    }

    /// The instruction that was read, if one was.
    pub fn instruction(&self) -> (r: Option<&SignatureInstruction>)
        ensures
            crate::extensions::instruction_view(r) == self.loaded(),
    {
        match self {
            SignatureIntrospection::Instruction(ix) => Some(ix),
            _ => None,
        }
    }

    /// Whether the call came with the means to look for the instruction.
    pub fn is_provided(&self) -> (b: bool)
        ensures
            b == !(self is NotProvided),
    {
        match self {
            SignatureIntrospection::NotProvided => false,
            _ => true,
        }
    }
}

/// Whether custody stands behind a commit.
///
/// It does when the user is the custody account itself. It also does when
/// the call names a custody authority, which must then be the custody
/// account, and the batch carries that authority's signature over the
/// payload of this commit; a named authority without the means to look for
/// the signature authorizes nothing.
pub open spec fn custody_authorization(
    custody: Address,
    custody_authority: Option<Address>,
    introspection: SignatureIntrospection,
    payload: WhitelistPayload,
    current_time: i64,
) -> Result<bool, ResetError> {
    if payload.user == custody {
        Ok(true)
    } else {
        match custody_authority {
            None => Ok(false),
            Some(authority) => if authority != custody {
                Err(ResetError::InvalidCustodyAuthority)
            } else if introspection is NotProvided {
                Ok(false)
            } else {
                match signature_rejection(introspection.loaded(), custody, payload, current_time) {
                    Some(e) => Err(e),
                    None => Ok(true),
                }
            },
        }
    }
}

/// Check if the current transaction is authorized by custody account
/// Returns true if user is custody or has valid custody signature authorization
pub fn check_custody_authorization(
    custody_authority: Option<&Address>,
    introspection: &SignatureIntrospection,
    user: &Address,
    auction: &Address,
    bin_id: u8,
    payment_token_committed: u64,
    current_nonce: u64,
    expiry: u64,
    custody: Address,
    current_time: i64,
) -> (r: Result<bool, ResetError>)
    ensures
        r == custody_authorization(
            custody,
            match custody_authority {
                Some(a) => Some(*a),
                None => None,
            },
            *introspection,
            (WhitelistPayload {
                user: *user,
                auction: *auction,
                bin_id,
                payment_token_committed,
                nonce: current_nonce,
                expiry,
            }),
            current_time,
        ),
{
    // The user is the custody account itself
    if *user == custody {
        proof {
            crate::address::lemma_address_equality(*user, custody);
        }
        return Ok(true);
    }
    proof {
        crate::address::lemma_address_equality(*user, custody);
    }
    // The call names a custody authority: look for its signature
    if let Some(custody_authority) = custody_authority {
        proof {
            crate::address::lemma_address_equality(*custody_authority, custody);
        }
        // Verify the custody_authority matches the stored custody account
        if !(*custody_authority == custody) {
            return Err(ResetError::InvalidCustodyAuthority);
        }
        // Verify custody signature using the same mechanism as whitelist
        if introspection.is_provided() {
            match verify_signature_authorization(
                introspection.instruction(),
                user,
                auction,
                bin_id,
                payment_token_committed,
                current_nonce,
                expiry,
                custody_authority,
                current_time,
            ) {
                Ok(_) => {},
                Err(e) => {
                    return Err(e);
                },
            }
            return Ok(true);
        }
    }
    Ok(false)
}

/// Why a commit is not admitted, or `None` when it is.
///
/// Commits must not be paused, the time must lie in the commitment period,
/// the amount must be above zero and the bin must exist. Then custody is
/// asked. Without custody's authorization the user's total must stay within
/// the cap, if there is one, and the batch must carry the whitelist
/// authority's signature over the payload of this commit, if there is a
/// whitelist. The payload holds the nonce the record has now.
pub open spec fn commit_rejection(
    auction: AuctionData,
    committed: CommittedData,
    user: Address,
    auction_key: Address,
    custody_authority: Option<Address>,
    introspection: SignatureIntrospection,
    bin_id: u8,
    payment_token_committed: u64,
    expiry: u64,
    current_time: i64,
) -> Option<ResetError> {
    let payload = WhitelistPayload {
        user,
        auction: auction_key,
        bin_id,
        payment_token_committed,
        nonce: committed.nonce,
        expiry,
    };
    if auction.emergency_state.spec_is_paused(EmergencyState::PAUSE_AUCTION_COMMIT) {
        Some(ResetError::OperationPaused)
    } else if !in_commit_period(auction, current_time) {
        Some(ResetError::OutOfCommitmentPeriod)
    } else if payment_token_committed == 0 {
        Some(ResetError::InvalidCommitmentAmount)
    } else if bin_id >= auction.bins.len() {
        Some(ResetError::InvalidBinId)
    } else {
        match custody_authorization(
            auction.custody,
            custody_authority,
            introspection,
            payload,
            current_time,
        ) {
            Err(e) => Some(e),
            Ok(true) => None,
            Ok(false) => if auction.extensions.commit_cap_exceeded(
                committed.bins,
                payment_token_committed,
            ) {
                Some(ResetError::CommitCapExceeded)
            } else {
                match auction.extensions.whitelist_authority {
                    None => None,
                    Some(whitelist_authority) => if introspection is NotProvided {
                        Some(ResetError::MissingSysvarInstructions)
                    } else {
                        signature_rejection(
                            introspection.loaded(),
                            whitelist_authority,
                            payload,
                            current_time,
                        )
                    },
                }
            },
        }
    }
}

/// The entries of a record after a commit: the entry for the bin grows by
/// the payment, or a new entry for it is added at the end.
pub open spec fn committed_bins_after_commit(
    bins: Seq<CommittedBin>,
    bin_id: u8,
    payment_token_committed: u64,
) -> Seq<CommittedBin> {
    match entry_position(bins, bin_id) {
        Some(i) => bins.update(
            i,
            (CommittedBin {
                payment_token_committed: (bins[i].payment_token_committed
                    + payment_token_committed) as u64,
                ..bins[i]
            }),
        ),
        None => bins.push(
            (CommittedBin {
                bin_id,
                payment_token_committed,
                sale_token_claimed: 0,
                payment_token_refunded: 0,
            }),
        ),
    }
}

/// The nonce a record carries after a commit: one more than before, counted
/// from zero for a record that held nothing.
pub open spec fn nonce_after_commit(committed: CommittedData) -> int {
    if committed.bins.len() == 0 {
        1
    } else {
        committed.nonce + 1
    }
}

/// The arithmetic failure that stops an admitted commit, or `None`: the
/// user's entry, the number of participants and the bin's raised total must
/// stay within 64 bits, and so must the nonce.
pub open spec fn commit_overflow(
    auction: AuctionData,
    committed: CommittedData,
    bin_id: u8,
    payment_token_committed: u64,
) -> Option<ResetError>
    recommends
        bin_id < auction.bins.len(),
{
    if entry_position(committed.bins, bin_id) matches Some(i)
        && committed.bins[i].payment_token_committed + payment_token_committed > u64::MAX {
        Some(ResetError::MathOverflow)
    } else if committed.bins.len() == 0 && auction.total_participants + 1 > u64::MAX {
        Some(ResetError::MathOverflow)
    } else if auction.bins[bin_id as int].payment_token_raised + payment_token_committed
        > u64::MAX {
        Some(ResetError::MathOverflow)
    } else if nonce_after_commit(committed) > u64::MAX {
        Some(ResetError::NonceOverflow)
    } else {
        None
    }
}

/// The first reason a commit fails, if it does: a rejection, or else an
/// arithmetic failure.
pub open spec fn commit_failure(
    auction: AuctionData,
    committed: CommittedData,
    user: Address,
    auction_key: Address,
    custody_authority: Option<Address>,
    introspection: SignatureIntrospection,
    bin_id: u8,
    payment_token_committed: u64,
    expiry: u64,
    current_time: i64,
) -> Option<ResetError> {
    match commit_rejection(
        auction,
        committed,
        user,
        auction_key,
        custody_authority,
        introspection,
        bin_id,
        payment_token_committed,
        expiry,
        current_time,
    ) {
        Some(e) => Some(e),
        None => commit_overflow(auction, committed, bin_id, payment_token_committed),
    }
}

/// The record after a successful commit. A record that held nothing is
/// first made the user's record for the auction.
pub open spec fn committed_after_commit(
    committed: CommittedData,
    user: Address,
    auction_key: Address,
    bin_id: u8,
    payment_token_committed: u64,
    committed_bump: u8,
) -> CommittedData {
    CommittedData {
        auction: if committed.bins.len() == 0 {
            auction_key
        } else {
            committed.auction
        },
        user: if committed.bins.len() == 0 {
            user
        } else {
            committed.user
        },
        bins: committed_bins_after_commit(committed.bins, bin_id, payment_token_committed),
        nonce: nonce_after_commit(committed) as u64,
        bump: if committed.bins.len() == 0 {
            committed_bump
        } else {
            committed.bump
        },
    }
}

/// The auction after a successful commit: the bin has raised the payment,
/// and a user who committed for the first time counts as a participant.
pub open spec fn auction_after_commit(
    auction: AuctionData,
    committed: CommittedData,
    bin_id: u8,
    payment_token_committed: u64,
) -> AuctionData
    recommends
        bin_id < auction.bins.len(),
{
    AuctionData {
        bins: auction.bins.update(
            bin_id as int,
            (AuctionBin {
                payment_token_raised: (auction.bins[bin_id as int].payment_token_raised
                    + payment_token_committed) as u64,
                ..auction.bins[bin_id as int]
            }),
        ),
        total_participants: if committed.bins.len() == 0 {
            (auction.total_participants + 1) as u64
        } else {
            auction.total_participants
        },
        ..auction
    }
}

/// What a successful commit asks of the host, and what it found.
#[derive(Clone, Copy, Debug)]
pub struct CommitReceipt {
    /// Payment tokens to move from the user to the payment vault
    pub payment_tokens_to_vault: u64,
    /// Whether this was the user's first commit in the auction
    pub is_new_participant: bool,
    /// Whether custody stood behind the commit
    pub custody_authorized: bool,
    /// The nonce the record carries now
    pub nonce: u64,
}

/// User commits to an auction bin
///
/// `committed` is the user's record for the auction, empty if this is the
/// first commit. `custody_authority` is the custody authority the call
/// names, if it names one, and `introspection` what the host found at the
/// head of the batch. On success the record and the auction are updated
/// and the nonce moves on by one, so that the signed payload that admitted
/// this commit admits no other. On failure nothing changes.
pub fn commit(
    auction: &mut Auction,
    committed: &mut Committed,
    user_key: &Address,
    auction_key: &Address,
    custody_authority: Option<&Address>,
    introspection: &SignatureIntrospection,
    bin_id: u8,
    payment_token_committed: u64,
    expiry: u64,
    current_time: i64,
    committed_bump: u8,
) -> (r: Result<CommitReceipt, ResetError>)
    ensures
        match commit_failure(
            old(auction)@,
            old(committed)@,
            *user_key,
            *auction_key,
            match custody_authority {
                Some(a) => Some(*a),
                None => None,
            },
            *introspection,
            bin_id,
            payment_token_committed,
            expiry,
            current_time,
        ) {
            Some(e) => r == Err::<CommitReceipt, ResetError>(e) && final(auction)@ == old(auction)@
                && final(committed)@ == old(committed)@,
            None => {
                &&& r matches Ok(receipt)
                &&& receipt.payment_tokens_to_vault == payment_token_committed
                &&& receipt.is_new_participant == (old(committed).bins@.len() == 0)
                &&& Ok::<bool, ResetError>(receipt.custody_authorized) == custody_authorization(
                    old(auction).custody,
                    match custody_authority {
                        Some(a) => Some(*a),
                        None => None,
                    },
                    *introspection,
                    (WhitelistPayload {
                        user: *user_key,
                        auction: *auction_key,
                        bin_id,
                        payment_token_committed,
                        nonce: old(committed).nonce,
                        expiry,
                    }),
                    current_time,
                )
                &&& receipt.nonce == final(committed).nonce
                &&& final(committed)@ == committed_after_commit(
                    old(committed)@,
                    *user_key,
                    *auction_key,
                    bin_id,
                    payment_token_committed,
                    committed_bump,
                )
                &&& final(auction)@ == auction_after_commit(
                    old(auction)@,
                    old(committed)@,
                    bin_id,
                    payment_token_committed,
                )
            },
        },
{
    // CHECK: emergency state validation
    match check_emergency_state(auction, EmergencyState::PAUSE_AUCTION_COMMIT) {
        Ok(_) => {},
        Err(e) => {
            return Err(e);
        },
    }
    // CHECK: Timing validation
    if !(auction.commit_start_time <= current_time && current_time <= auction.commit_end_time) {
        return Err(ResetError::OutOfCommitmentPeriod);
    }
    // CHECK: commitment amount validation
    if payment_token_committed == 0 {
        return Err(ResetError::InvalidCommitmentAmount);
    }
    // CHECK: commitment bin validation
    let index = bin_id as usize;
    if index >= auction.bins.len() {
        return Err(ResetError::InvalidBinId);
    }
    // CHECK: Custody authorization - skip restrictions if authorized by custody
    let is_custody_authorized = match check_custody_authorization(
        custody_authority,
        introspection,
        user_key,
        auction_key,
        bin_id,
        payment_token_committed,
        committed.nonce,
        expiry,
        auction.custody,
        current_time,
    ) {
        Ok(v) => v,
        Err(e) => {
            return Err(e);
        },
    };
    // CHECK: Extension validations (skip if custody authorized)
    if !is_custody_authorized {
        match auction.extensions.check_commit_cap_exceeded(committed, payment_token_committed) {
            Ok(_) => {},
            Err(e) => {
                return Err(e);
            },
        }
        if auction.extensions.is_whitelist_enabled() {
            if !introspection.is_provided() {
                return Err(ResetError::MissingSysvarInstructions);
            }
            match auction.extensions.verify_whitelist_signature(
                introspection.instruction(),
                user_key,
                auction_key,
                bin_id,
                payment_token_committed,
                committed.nonce,
                expiry,
                current_time,
            ) {
                Ok(_) => {},
                Err(e) => {
                    return Err(e);
                },
            }
        }
    }
    // What the records will hold, before any of them is touched
    let is_new_participant = committed.bins.len() == 0;
    let position = committed.find_bin_index(bin_id);
    proof {
        lemma_entry_position(committed.bins@, bin_id);
    }
    let entry_committed: u64 = match position {
        Some(i) => match committed.bins[i].payment_token_committed.checked_add(
            payment_token_committed,
        ) {
            Some(v) => v,
            None => {
                return Err(ResetError::MathOverflow);
            },
        },
        None => payment_token_committed,
    };
    let total_participants: u64 = if is_new_participant {
        match auction.total_participants.checked_add(1) {
            Some(v) => v,
            None => {
                return Err(ResetError::MathOverflow);
            },
        }
    } else {
        auction.total_participants
    };
    let raised: u64 = match auction.bins[index].payment_token_raised.checked_add(
        payment_token_committed,
    ) {
        Some(v) => v,
        None => {
            return Err(ResetError::MathOverflow);
        },
    };
    let base_nonce: u64 = if is_new_participant {
        0
    } else {
        committed.nonce
    };
    // Increment nonce to prevent replay attacks (only after successful commit)
    let nonce: u64 = match base_nonce.checked_add(1) {
        Some(v) => v,
        None => {
            return Err(ResetError::NonceOverflow);
        },
    };
    // Initialize committed account if it's newly created
    if is_new_participant {
        committed.auction = *auction_key;
        committed.user = *user_key;
        committed.bump = committed_bump;
    }
    // Update committed account
    match position {
        Some(i) => {
            committed.bins[i].payment_token_committed = entry_committed;
        },
        None => {
            committed.bins.push(
                CommittedBin {
                    bin_id,
                    payment_token_committed,
                    sale_token_claimed: 0,
                    payment_token_refunded: 0,
                },
            );
        },
    }
    committed.nonce = nonce;
    // Update Auction state
    auction.total_participants = total_participants;
    auction.bins[index].payment_token_raised = raised;
    Ok(
        CommitReceipt {
            payment_tokens_to_vault: payment_token_committed,
            is_new_participant,
            custody_authorized: is_custody_authorized,
            nonce,
        },
    )
}

} // verus!
