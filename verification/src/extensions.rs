use crate::address::Address;
use crate::errors::ResetError;
use crate::state::{total_committed, wide_total_committed, Committed, CommittedBin};
use vstd::bytes::{
    lemma_auto_spec_u64_to_from_le_bytes, spec_u64_from_le_bytes, spec_u64_to_le_bytes,
    u64_to_le_bytes,
};
use vstd::prelude::*;

verus! {

/// The address of the program that verifies ed25519 signatures.
pub const ED25519_PROGRAM_ID: [u8; 32] = [
    3, 125, 70, 214, 124, 147, 251, 190, 18, 249, 66, 143, 131, 141, 64, 255,
    5, 112, 116, 73, 39, 244, 138, 100, 252, 202, 112, 68, 128, 0, 0, 0,
];

/// Where the signer's public key starts in the data of a signature
/// instruction: after the signature count and the signature.
pub const PUBLIC_KEY_OFFSET: usize = 1 + 64;

/// Where the signed message starts in the data of a signature instruction:
/// after the signature count, the signature, the public key and the two
/// message offsets.
pub const MESSAGE_OFFSET: usize = 1 + 64 + 32 + 2 + 2;

/// Basis of the claim fee rate: a rate of 10000 takes the whole claim.
pub const FEE_RATE_BASIS: u64 = 10000;

/// Extension configuration data (embedded in Auction)
///
/// Each feature is switched on by holding a value; a feature that holds
/// none takes no part in any check.
#[derive(Clone, Copy, Debug)]
pub struct AuctionExtensions {
    /// Whitelist authority for access control
    pub whitelist_authority: Option<Address>,
    /// Per-user commitment cap (if enabled)
    pub commit_cap_per_user: Option<u64>,
    /// Claim fee rate (if enabled)
    pub claim_fee_rate: Option<u64>,
}

/// Whitelist payload for off-chain signature verification
#[derive(Clone, Copy, Debug)]
pub struct WhitelistPayload {
    /// User public key
    pub user: Address,
    /// Auction address
    pub auction: Address,
    /// Bin ID parameter
    pub bin_id: u8,
    /// Payment token committed parameter
    pub payment_token_committed: u64,
    /// Current user's nonce (from Committed account)
    pub nonce: u64,
    /// Signature expiration timestamp
    pub expiry: u64,
}

impl WhitelistPayload {
    /// The canonical encoding of the payload, which is what an authority
    /// signs: the fields in order, addresses as their 32 bytes, the bin as
    /// one byte, the three numbers as eight little-endian bytes each.
    pub open spec fn spec_to_bytes(self) -> Seq<u8> {
        self.user@ + self.auction@ + seq![self.bin_id] + spec_u64_to_le_bytes(
            self.payment_token_committed,
        ) + spec_u64_to_le_bytes(self.nonce) + spec_u64_to_le_bytes(self.expiry)
    }

    /// Encode the payload.
    pub fn to_bytes(&self) -> (v: Vec<u8>)
        ensures
            v@ == self.spec_to_bytes(),
    {
        let mut v = self.user.to_vec();
        let mut auction = self.auction.to_vec();
        v.append(&mut auction);
        v.push(self.bin_id);
        let mut committed = u64_to_le_bytes(self.payment_token_committed);
        v.append(&mut committed);
        let mut nonce = u64_to_le_bytes(self.nonce);
        v.append(&mut nonce);
        let mut expiry = u64_to_le_bytes(self.expiry);
        v.append(&mut expiry);
        assert(v@ =~= self.spec_to_bytes());
        v
    }
}

/// The first instruction of the batch a call arrived in, as far as the
/// engine reads it: the program it is addressed to and its data.
#[derive(Debug)]
pub struct SignatureInstruction {
    /// The program the instruction is addressed to
    pub program_id: Address,
    /// The instruction data
    pub data: Vec<u8>,
}

/// A timestamp read as an unsigned number, as a comparison with an expiry
/// reads it: a time before the epoch becomes a time in the far future.
pub open spec fn timestamp_as_unsigned(t: i64) -> int {
    if t < 0 {
        t + 0x1_0000_0000_0000_0000
    } else {
        t as int
    }
}

/// A timestamp read as an unsigned number.
pub fn timestamp_to_unsigned(t: i64) -> (u: u64)
    ensures
        u == timestamp_as_unsigned(t),
{
    if t >= 0 {
        t as u64
    } else {
        u64::MAX - ((-(t + 1)) as u64)
    }
}

/// Whether a signature instruction authorizes a commit: the reason it does
/// not, or `None` when it does.
///
/// The instruction must be there, be addressed to the ed25519 program, hold
/// exactly one signature and be long enough, carry the expected signer's
/// key, cover exactly the encoding of `payload`, and not have expired.
/// The checks are made in this order and the first that fails decides.
pub open spec fn signature_rejection(
    instruction: Option<(Address, Seq<u8>)>,
    expected_signer: Address,
    payload: WhitelistPayload,
    current_time: i64,
) -> Option<ResetError> {
    match instruction {
        None => Some(ResetError::MissingSysvarInstructions),
        Some((program_id, data)) => {
            if program_id@ != ED25519_PROGRAM_ID@ {
                Some(ResetError::WrongProgram)
            } else if data.len() < MESSAGE_OFFSET || data[0] != 1 {
                Some(ResetError::MalformedEd25519Ix)
            } else if data.subrange(PUBLIC_KEY_OFFSET as int, PUBLIC_KEY_OFFSET + 32)
                != expected_signer@ {
                Some(ResetError::WrongWhitelistAuthority)
            } else if data.subrange(MESSAGE_OFFSET as int, data.len() as int)
                != payload.spec_to_bytes() {
                Some(ResetError::PayloadMismatch)
            } else if timestamp_as_unsigned(current_time) > payload.expiry {
                Some(ResetError::SignatureExpired)
            } else {
                None
            }
        },
    }
}

/// The instruction as `signature_rejection` reads it.
pub open spec fn instruction_view(instruction: Option<&SignatureInstruction>) -> Option<
    (Address, Seq<u8>),
> {
    match instruction {
        Some(ix) => Some((ix.program_id, ix.data@)),
        None => None,
    }
}

/// Whether `program_id` is the ed25519 signature verification program.
///
/// Calls `check_id` of `anchor_lang::solana_program::ed25519_program`, which
/// compares its argument with the program's declared address. The contract
/// states that address by its bytes.
#[verifier::external_body]
fn is_ed25519_program(program_id: &Address) -> (r: bool)
    ensures
        r == (program_id@ == ED25519_PROGRAM_ID@),
{
    anchor_lang::solana_program::ed25519_program::check_id(
        &anchor_lang::prelude::Pubkey::new_from_array(program_id.bytes),
    )
}

/// Whether `data` holds exactly `expected` from `start` on, for the length
/// of `expected`.
fn range_equals(data: &Vec<u8>, start: usize, expected: &Vec<u8>) -> (r: bool)
    requires
        start + expected@.len() <= data@.len(),
    ensures
        r == (data@.subrange(start as int, start + expected@.len()) == expected@),
{
    let mut i: usize = 0;
    let size = data.len();
    while i < expected.len()
        invariant
            0 <= i <= expected@.len(),
            start + expected@.len() <= data@.len(),
            size == data@.len(),
            forall|j: int| 0 <= j < i ==> data@[start + j] == expected@[j],
        decreases expected@.len() - i,
    {
        if data[start + i] != expected[i] {
            assert(data@.subrange(start as int, start + expected@.len())[i as int]
                != expected@[i as int]);
            return false;
        }
        i += 1;
    }
    assert(data@.subrange(start as int, start + expected@.len()) =~= expected@);
    true
}

/// Verify that the first instruction of the batch is an ed25519 signature
/// check by `expected_signer` over the canonical payload of this commit.
///
/// `instruction` is the instruction the host found at the head of the batch,
/// or `None` if it could not read one. The payload is rebuilt here from the
/// arguments of the call and the record's current nonce, never taken from
/// the instruction.
pub fn verify_signature_authorization(
    instruction: Option<&SignatureInstruction>,
    user: &Address,
    auction: &Address,
    bin_id: u8,
    payment_token_committed: u64,
    current_nonce: u64,
    expiry: u64,
    expected_signer: &Address,
    current_time: i64,
) -> (r: Result<(), ResetError>)
    ensures
        match signature_rejection(
            instruction_view(instruction),
            *expected_signer,
            (WhitelistPayload {
                user: *user,
                auction: *auction,
                bin_id,
                payment_token_committed,
                nonce: current_nonce,
                expiry,
            }),
            current_time,
        ) {
            Some(e) => r == Err::<(), ResetError>(e),
            None => r == Ok::<(), ResetError>(()),
        },
{
    // 1. The instruction that carries the signature
    let ix = match instruction {
        Some(ix) => ix,
        None => {
            return Err(ResetError::MissingSysvarInstructions);
        },
    };
    // 2. Verify it's an Ed25519 verification instruction
    if !is_ed25519_program(&ix.program_id) {
        return Err(ResetError::WrongProgram);
    }
    // 3. Signature count, signature, public key, two offsets, message
    let data = &ix.data;
    if data.len() < MESSAGE_OFFSET {
        return Err(ResetError::MalformedEd25519Ix);
    }
    let num_signatures = data[0];
    if num_signatures != 1 {
        return Err(ResetError::MalformedEd25519Ix);
    }
    // 4. Verify public key matches the expected signer
    let signer_bytes = expected_signer.to_vec();
    if !range_equals(data, PUBLIC_KEY_OFFSET, &signer_bytes) {
        return Err(ResetError::WrongWhitelistAuthority);
    }
    // 5. Construct the expected payload and compare it with the message
    let expected_payload = WhitelistPayload {
        user: *user,
        auction: *auction,
        bin_id,
        payment_token_committed,
        nonce: current_nonce,
        expiry,
    };
    let expected_message = expected_payload.to_bytes();
    if data.len() - MESSAGE_OFFSET != expected_message.len() {
        return Err(ResetError::PayloadMismatch);
    }
    if !range_equals(data, MESSAGE_OFFSET, &expected_message) {
        return Err(ResetError::PayloadMismatch);
    }
    // 6. Check signature hasn't expired
    if timestamp_to_unsigned(current_time) > expiry {
        return Err(ResetError::SignatureExpired);
    }
    Ok(())
}

impl AuctionExtensions {
    /// Whether commits need a signature by a whitelist authority.
    pub fn is_whitelist_enabled(&self) -> (b: bool)
        ensures
            b == self.whitelist_authority is Some,
    {
        self.whitelist_authority.is_some()
    }

    /// Verify whitelist signature for commit operation
    ///
    /// The signer must be the configured whitelist authority, so the
    /// whitelist must be enabled.
    pub fn verify_whitelist_signature(
        &self,
        instruction: Option<&SignatureInstruction>,
        user: &Address,
        auction: &Address,
        bin_id: u8,
        payment_token_committed: u64,
        current_nonce: u64,
        expiry: u64,
        current_time: i64,
    ) -> (r: Result<(), ResetError>)
        requires
            self.whitelist_authority is Some,
        ensures
            match signature_rejection(
                instruction_view(instruction),
                self.whitelist_authority.unwrap(),
                (WhitelistPayload {
                    user: *user,
                    auction: *auction,
                    bin_id,
                    payment_token_committed,
                    nonce: current_nonce,
                    expiry,
                }),
                current_time,
            ) {
                Some(e) => r == Err::<(), ResetError>(e),
                None => r == Ok::<(), ResetError>(()),
            },
    {
        let whitelist_authority = match self.whitelist_authority {
            Some(a) => a,
            None => {
                return Ok(());
            },
        };
        verify_signature_authorization(
            instruction,
            user,
            auction,
            bin_id,
            payment_token_committed,
            current_nonce,
            expiry,
            &whitelist_authority,
            current_time,
        )
    }

    /// Whether a commit of `additional_payment` would take the user's total
    /// over the configured cap. Without a cap nothing is exceeded.
    pub open spec fn commit_cap_exceeded(
        self,
        bins: Seq<CommittedBin>,
        additional_payment: u64,
    ) -> bool {
        match self.commit_cap_per_user {
            Some(commit_cap) => total_committed(bins) + additional_payment > commit_cap,
            None => false,
        }
    }

    /// Check the per-user commitment cap against what the user has committed
    /// across all bins plus the additional payment.
    pub fn check_commit_cap_exceeded(&self, committed: &Committed, additional_payment: u64) -> (r:
        Result<(), ResetError>)
        ensures
            self.commit_cap_exceeded(committed.bins@, additional_payment) ==> r == Err::<
                (),
                ResetError,
            >(ResetError::CommitCapExceeded),
            !self.commit_cap_exceeded(committed.bins@, additional_payment) ==> r == Ok::<
                (),
                ResetError,
            >(()),
    {
        if let Some(commit_cap) = self.commit_cap_per_user {
            let total_payment_committed = wide_total_committed(&committed.bins);
            if total_payment_committed + (additional_payment as u128) > commit_cap as u128 {
                return Err(ResetError::CommitCapExceeded);
            }
        }
        Ok(())
    }

    /// The fee on a claim of `sale_token_claimed` sale tokens: the configured
    /// rate in parts of 10000, rounded down. Without a rate there is no fee.
    pub open spec fn claim_fee(self, sale_token_claimed: u64) -> int {
        match self.claim_fee_rate {
            Some(fee_rate) => sale_token_claimed * fee_rate / (FEE_RATE_BASIS as int),
            None => 0,
        }
    }

    /// Calculate the fee on a claim, or `None` when the fee leaves 64 bits,
    /// which only a rate above 10000 can bring about.
    pub fn checked_claim_fee(&self, sale_token_claimed: u64) -> (fee: Option<u64>)
        ensures
            self.claim_fee(sale_token_claimed) <= u64::MAX ==> fee == Some(
                self.claim_fee(sale_token_claimed) as u64,
            ),
            self.claim_fee(sale_token_claimed) > u64::MAX ==> fee is None,
    {
        if let Some(fee_rate) = self.claim_fee_rate {
            assert(sale_token_claimed * fee_rate <= u128::MAX) by (nonlinear_arith)
                requires
                    sale_token_claimed <= u64::MAX,
                    fee_rate <= u64::MAX,
            ;
            let scaled: u128 = (sale_token_claimed as u128) * (fee_rate as u128) / 10000;
            if scaled > u64::MAX as u128 {
                None
            } else {
                Some(scaled as u64)
            }
        } else {
            Some(0)
        }
    }

    /// Calculate the fee on a claim. The fee must fit in 64 bits, as every
    /// fee at a rate of at most 10000 does.
    pub fn calculate_claim_fee(&self, sale_token_claimed: u64) -> (fee: u64)
        requires
            self.claim_fee(sale_token_claimed) <= u64::MAX,
        ensures
            fee == self.claim_fee(sale_token_claimed),
    {
        match self.checked_claim_fee(sale_token_claimed) {
            Some(fee) => fee,
            None => 0,
        }
    }
}

/// A fee is never negative, and at a rate of at most 10000 it is never more
/// than the claim itself.
pub proof fn lemma_claim_fee_within_claim(extensions: AuctionExtensions, sale_token_claimed: u64)
    ensures
        0 <= extensions.claim_fee(sale_token_claimed),
        (extensions.claim_fee_rate matches Some(fee_rate) ==> fee_rate <= FEE_RATE_BASIS)
            ==> extensions.claim_fee(sale_token_claimed) <= sale_token_claimed,
{
    if let Some(fee_rate) = extensions.claim_fee_rate {
        let c = sale_token_claimed as int;
        let f = fee_rate as int;
        assert(0 <= (c * f) / 10000) by (nonlinear_arith)
            requires
                0 <= c,
                0 <= f,
        ;
        if f <= 10000 {
            assert((c * f) / 10000 <= c) by (nonlinear_arith)
                requires
                    0 <= c,
                    0 <= f <= 10000,
            ;
        }
    }
}

/// The encoding of a payload tells its nonce: payloads with different
/// nonces have different encodings.
pub proof fn lemma_payload_bytes_tell_nonce(first: WhitelistPayload, second: WhitelistPayload)
    requires
        first.nonce != second.nonce,
    ensures
        first.spec_to_bytes() != second.spec_to_bytes(),
        first.spec_to_bytes().len() == 89,
{
    lemma_auto_spec_u64_to_from_le_bytes();
    let a = first.spec_to_bytes();
    let b = second.spec_to_bytes();
    assert(a.len() == 89);
    assert(b.len() == 89);
    assert(a.subrange(73, 81) =~= spec_u64_to_le_bytes(first.nonce));
    assert(b.subrange(73, 81) =~= spec_u64_to_le_bytes(second.nonce));
    if a == b {
        assert(spec_u64_from_le_bytes(spec_u64_to_le_bytes(first.nonce)) == first.nonce);
        assert(spec_u64_from_le_bytes(spec_u64_to_le_bytes(second.nonce)) == second.nonce);
        assert(false);
    }
}

/// A signature instruction is good for one nonce only: once it has passed
/// for a payload, it is rejected for every payload with another nonce,
/// whoever the expected signer is and whatever the time.
pub proof fn lemma_signature_is_bound_to_nonce(
    instruction: Option<(Address, Seq<u8>)>,
    signer: Address,
    payload: WhitelistPayload,
    current_time: i64,
    later_signer: Address,
    later_payload: WhitelistPayload,
    later_time: i64,
)
    requires
        signature_rejection(instruction, signer, payload, current_time) is None,
        later_payload.nonce != payload.nonce,
    ensures
        signature_rejection(instruction, later_signer, later_payload, later_time) is Some,
{
    lemma_payload_bytes_tell_nonce(payload, later_payload);
}

} // verus!
