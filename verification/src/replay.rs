use crate::address::Address;
use crate::extensions::{
    lemma_signature_is_bound_to_nonce, signature_rejection, WhitelistPayload,
};
use crate::instructions::{
    auction_after_commit, commit_failure, commit_rejection, committed_after_commit,
    custody_authorization, SignatureIntrospection,
};
use crate::state::{AuctionData, CommittedData};
use vstd::prelude::*;

verus! {

/// A record that holds no entry has not been committed to, and its nonce
/// is still zero.
pub open spec fn nonce_is_consistent(committed: CommittedData) -> bool {
    committed.bins.len() == 0 ==> committed.nonce == 0
}

/// Every successful commit moves the nonce of the record on by exactly one,
/// and leaves a record whose nonce is consistent.
pub proof fn lemma_commit_advances_nonce(
    auction: AuctionData,
    committed: CommittedData,
    user: Address,
    auction_key: Address,
    custody_authority: Option<Address>,
    introspection: SignatureIntrospection,
    bin_id: u8,
    payment_token_committed: u64,
    expiry: u64,
    current_time: i64,
    committed_bump: u8,
)
    requires
        nonce_is_consistent(committed),
        commit_failure(
            auction,
            committed,
            user,
            auction_key,
            custody_authority,
            introspection,
            bin_id,
            payment_token_committed,
            expiry,
            current_time,
        ) is None,
    ensures
        committed_after_commit(
            committed,
            user,
            auction_key,
            bin_id,
            payment_token_committed,
            committed_bump,
        ).nonce == committed.nonce + 1,
        nonce_is_consistent(
            committed_after_commit(
                committed,
                user,
                auction_key,
                bin_id,
                payment_token_committed,
                committed_bump,
            ),
        ),
{
    crate::state::lemma_entry_position(committed.bins, bin_id);
}

/// A signed payload that has been consumed is rejected on resubmission.
///
/// Let a signature instruction have passed the check for a commit on a
/// record with some nonce, for whichever signer. Then on every record with
/// another nonce, and so on the record as that commit left it and as any
/// later commit leaves it, a commit that presents the same instruction is
/// rejected, unless the user is the custody account itself or the auction
/// asks for no signature at all.
pub proof fn lemma_consumed_payload_is_rejected(
    introspection: SignatureIntrospection,
    signer: Address,
    payload: WhitelistPayload,
    current_time: i64,
    auction: AuctionData,
    committed: CommittedData,
    user: Address,
    auction_key: Address,
    custody_authority: Option<Address>,
    bin_id: u8,
    payment_token_committed: u64,
    expiry: u64,
    later_time: i64,
)
    requires
        signature_rejection(introspection.loaded(), signer, payload, current_time) is None,
        committed.nonce != payload.nonce,
        user != auction.custody,
        auction.extensions.whitelist_authority is Some,
    ensures
        commit_rejection(
            auction,
            committed,
            user,
            auction_key,
            custody_authority,
            introspection,
            bin_id,
            payment_token_committed,
            expiry,
            later_time,
        ) is Some,
{
    let later_payload = WhitelistPayload {
        user,
        auction: auction_key,
        bin_id,
        payment_token_committed,
        nonce: committed.nonce,
        expiry,
    };
    lemma_signature_is_bound_to_nonce(
        introspection.loaded(),
        signer,
        payload,
        current_time,
        auction.custody,
        later_payload,
        later_time,
    );
    lemma_signature_is_bound_to_nonce(
        introspection.loaded(),
        signer,
        payload,
        current_time,
        auction.extensions.whitelist_authority.unwrap(),
        later_payload,
        later_time,
    );
}

/// A commit that was admitted on a signature cannot be repeated with it.
///
/// Let a user who is not the custody account have committed to an auction
/// with a whitelist, so that the commit was admitted on the signature
/// instruction in its batch. Then a further commit that presents the same
/// instruction on the record as the first commit left it is rejected,
/// whatever else it asks for, as long as the auction still has a whitelist
/// and the user is not its custody account.
pub proof fn lemma_signed_commit_cannot_be_replayed(
    auction: AuctionData,
    committed: CommittedData,
    user: Address,
    auction_key: Address,
    custody_authority: Option<Address>,
    introspection: SignatureIntrospection,
    bin_id: u8,
    payment_token_committed: u64,
    expiry: u64,
    current_time: i64,
    committed_bump: u8,
    later_user: Address,
    later_auction_key: Address,
    later_custody_authority: Option<Address>,
    later_bin_id: u8,
    later_payment: u64,
    later_expiry: u64,
    later_time: i64,
)
    requires
        nonce_is_consistent(committed),
        user != auction.custody,
        auction.extensions.whitelist_authority is Some,
        later_user != auction.custody,
        commit_failure(
            auction,
            committed,
            user,
            auction_key,
            custody_authority,
            introspection,
            bin_id,
            payment_token_committed,
            expiry,
            current_time,
        ) is None,
    ensures
        commit_rejection(
            auction_after_commit(auction, committed, bin_id, payment_token_committed),
            committed_after_commit(
                committed,
                user,
                auction_key,
                bin_id,
                payment_token_committed,
                committed_bump,
            ),
            later_user,
            later_auction_key,
            later_custody_authority,
            introspection,
            later_bin_id,
            later_payment,
            later_expiry,
            later_time,
        ) is Some,
{
    let payload = WhitelistPayload {
        user,
        auction: auction_key,
        bin_id,
        payment_token_committed,
        nonce: committed.nonce,
        expiry,
    };
    let after = committed_after_commit(
        committed,
        user,
        auction_key,
        bin_id,
        payment_token_committed,
        committed_bump,
    );
    let auction_after = auction_after_commit(auction, committed, bin_id, payment_token_committed);
    lemma_commit_advances_nonce(
        auction,
        committed,
        user,
        auction_key,
        custody_authority,
        introspection,
        bin_id,
        payment_token_committed,
        expiry,
        current_time,
        committed_bump,
    );
    let signer = if custody_authorization(
        auction.custody,
        custody_authority,
        introspection,
        payload,
        current_time,
    ) == Ok::<bool, crate::errors::ResetError>(true) {
        auction.custody
    } else {
        auction.extensions.whitelist_authority.unwrap()
    };
    assert(signature_rejection(introspection.loaded(), signer, payload, current_time) is None);
    lemma_consumed_payload_is_rejected(
        introspection,
        signer,
        payload,
        current_time,
        auction_after,
        after,
        later_user,
        later_auction_key,
        later_custody_authority,
        later_bin_id,
        later_payment,
        later_expiry,
        later_time,
    );
}

} // verus!
