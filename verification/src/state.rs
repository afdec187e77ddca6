use crate::address::Address;
use crate::errors::ResetError;
use crate::extensions::AuctionExtensions;
use vstd::prelude::*;

verus! {

/// The bytes of `auction`.
pub const AUCTION_SEED: [u8; 7] = [97, 117, 99, 116, 105, 111, 110];

/// The bytes of `committed`.
pub const COMMITTED_SEED: [u8; 9] = [99, 111, 109, 109, 105, 116, 116, 101, 100];

/// The bytes of `vault_sale`.
pub const VAULT_SALE_SEED: [u8; 10] = [118, 97, 117, 108, 116, 95, 115, 97, 108, 101];

/// The bytes of `vault_payment`.
pub const VAULT_PAYMENT_SEED: [u8; 13] = [118, 97, 117, 108, 116, 95, 112, 97, 121, 109, 101, 110, 116];

/// The address a program derives from a list of seeds, and the bump seed
/// that makes it one: what `try_find_program_address` of the outside
/// `Pubkey` type returns for the seeds and the program's address. `None`
/// when no bump seed gives an address, which a seed list that is too long
/// or holds a seed that is too long brings about.
pub uninterp spec fn program_derived_address(seeds: Seq<Seq<u8>>, program_id: Seq<u8>) -> Option<
    (Seq<u8>, u8),
>;

/// A derived address and its bump seed, the address as its bytes.
pub open spec fn derived_address_view(r: Option<(Address, u8)>) -> Option<(Seq<u8>, u8)> {
    match r {
        Some((address, bump)) => Some((address@, bump)),
        None => None,
    }
}

/// Derive the address of `program_id` for `seeds`, with its bump seed.
///
/// Calls `Pubkey::try_find_program_address` of `anchor_lang`, which hashes
/// the seeds, a bump seed and the program's address, and tries bump seeds
/// from 255 down until the hash is no point of the curve. The contract
/// only gives that result its name: it is a function of the seeds and of
/// the program's address.
#[verifier::external_body]
fn try_find_program_address(seeds: &Vec<Vec<u8>>, program_id: &Address) -> (r: Option<
    (Address, u8),
>)
    ensures
        derived_address_view(r) == program_derived_address(
            seeds@.map_values(|seed: Vec<u8>| seed@),
            program_id@,
        ),
{
    let seeds: Vec<&[u8]> = seeds.iter().map(|seed| seed.as_slice()).collect();
    let program_id = anchor_lang::prelude::Pubkey::new_from_array(program_id.bytes);
    anchor_lang::prelude::Pubkey::try_find_program_address(&seeds, &program_id).map(
        |(key, bump)| (Address { bytes: key.to_bytes() }, bump),
    )
}

/// The bytes of an array, as a vector.
fn array_to_vec<const N: usize>(bytes: &[u8; N]) -> (v: Vec<u8>)
    ensures
        v@ == bytes@,
{
    let mut v: Vec<u8> = Vec::new();
    let mut i: usize = 0;
    while i < N
        invariant
            0 <= i <= N,
            v@ == bytes@.take(i as int),
        decreases N - i,
    {
        v.push(bytes[i]);
        assert(bytes@.take(i + 1) =~= bytes@.take(i as int).push(bytes@[i as int]));
        i += 1;
    }
    assert(bytes@.take(N as int) =~= bytes@);
    v
}

/// Derive the address for one fixed seed followed by one address.
fn derive_with_key<const N: usize>(seed: &[u8; N], key: &Address, program_id: &Address) -> (r:
    Option<(Address, u8)>)
    ensures
        derived_address_view(r) == program_derived_address(seq![seed@, key@], program_id@),
{
    let mut seeds: Vec<Vec<u8>> = Vec::new();
    seeds.push(array_to_vec(seed));
    seeds.push(key.to_vec());
    assert(seeds@.map_values(|seed: Vec<u8>| seed@) =~= seq![seed@, key@]);
    try_find_program_address(&seeds, program_id)
}

/// One price/capacity tier of an auction.
#[derive(Clone, Copy, Debug)]
pub struct AuctionBin {
    /// Price per sale token (in payment tokens)
    pub sale_token_price: u64,
    /// Maximum sale tokens this bin can sell
    pub sale_token_cap: u64,
    /// Payment tokens actually raised in this bin
    pub payment_token_raised: u64,
    /// Sale tokens already claimed from this bin
    pub sale_token_claimed: u64,
}

/// Parameters for creating auction bins
#[derive(Clone, Copy, Debug)]
pub struct AuctionBinParams {
    pub sale_token_price: u64,
    pub sale_token_cap: u64,
}

/// Extension configuration parameters for auction initialization
#[derive(Clone, Copy, Debug)]
pub struct AuctionExtensionParams {
    /// Whitelist authority for access control (None = no whitelist)
    pub whitelist_authority: Option<Address>,
    /// Per-user commitment cap (None = no cap)
    pub commit_cap_per_user: Option<u64>,
    /// Claim fee rate (None = no fee)
    pub claim_fee_rate: Option<u64>,
}

/// Emergency control state (embedded in Auction)
#[derive(Clone, Copy, Debug)]
pub struct EmergencyState {
    /// Paused operations bitmask
    pub paused_operations: u64,
}

impl EmergencyState {
    /// Emergency control operation flags
    pub const PAUSE_AUCTION_COMMIT: u64 = 0x01;

    pub const PAUSE_AUCTION_CLAIM: u64 = 0x02;

    pub const PAUSE_AUCTION_WITHDRAW_FEES: u64 = 0x04;

    pub const PAUSE_AUCTION_WITHDRAW_FUNDS: u64 = 0x08;

    pub const PAUSE_AUCTION_UPDATION: u64 = 0x10;

    /// An operation is paused when the mask holds one of the bits of its flag.
    pub open spec fn spec_is_paused(&self, operation_flag: u64) -> bool {
        self.paused_operations & operation_flag != 0
    }

    /// Whether the operation with the given flag is paused.
    #[verifier::when_used_as_spec(spec_is_paused)]
    pub fn is_paused(&self, operation_flag: u64) -> (b: bool)
        ensures
            b == self.spec_is_paused(operation_flag),
    {
        self.paused_operations & operation_flag != 0
    }

    /// Pause the operation with the given flag, on top of what is paused.
    pub fn pause_operation(&mut self, operation_flag: u64)
        ensures
            final(self).paused_operations == old(self).paused_operations | operation_flag,
    {
        self.paused_operations |= operation_flag;
    }
}

impl Default for EmergencyState {
    fn default() -> (s: EmergencyState)
        ensures
            s.paused_operations == 0,
    {
        EmergencyState { paused_operations: 0 }
    }
}

/// Emergency control parameters for instruction
#[derive(Clone, Copy, Debug)]
pub struct EmergencyControlParams {
    pub pause_auction_commit: bool,
    pub pause_auction_claim: bool,
    pub pause_auction_withdraw_fees: bool,
    pub pause_auction_withdraw_funds: bool,
    pub pause_auction_updation: bool,
}

/// Core auction data
pub struct Auction {
    /// Launchpad admin
    pub authority: Address,
    /// Custody account for special permissions
    pub custody: Address,
    /// Sale token mint
    pub sale_token_mint: Address,
    /// Payment token mint
    pub payment_token_mint: Address,
    /// Auction timing
    pub commit_start_time: i64,
    pub commit_end_time: i64,
    pub claim_start_time: i64,
    /// Auction bins
    pub bins: Vec<AuctionBin>,
    /// Extension configuration (directly embedded)
    pub extensions: AuctionExtensions,
    /// Total number of unique participants in this auction
    pub total_participants: u64,
    /// Set once the operator has withdrawn the unsold sale tokens and the
    /// effective payment tokens
    pub unsold_sale_tokens_and_effective_payment_tokens_withdrawn: bool,
    /// Claim fees collected so far, and the part of them already withdrawn
    pub total_fees_collected: u64,
    pub total_fees_withdrawn: u64,
    /// Emergency control state
    pub emergency_state: EmergencyState,
    /// Vault bump seeds for derivation
    pub vault_sale_bump: u8,
    pub vault_payment_bump: u8,
    /// Bump seed of the auction's own address
    pub bump: u8,
}

/// The value of an auction record, with its bins as a sequence.
pub struct AuctionData {
    pub authority: Address,
    pub custody: Address,
    pub sale_token_mint: Address,
    pub payment_token_mint: Address,
    pub commit_start_time: i64,
    pub commit_end_time: i64,
    pub claim_start_time: i64,
    pub bins: Seq<AuctionBin>,
    pub extensions: AuctionExtensions,
    pub total_participants: u64,
    pub funds_withdrawn: bool,
    pub total_fees_collected: u64,
    pub total_fees_withdrawn: u64,
    pub emergency_state: EmergencyState,
    pub vault_sale_bump: u8,
    pub vault_payment_bump: u8,
    pub bump: u8,
}

impl View for Auction {
    type V = AuctionData;

    open spec fn view(&self) -> AuctionData {
        AuctionData {
            authority: self.authority,
            custody: self.custody,
            sale_token_mint: self.sale_token_mint,
            payment_token_mint: self.payment_token_mint,
            commit_start_time: self.commit_start_time,
            commit_end_time: self.commit_end_time,
            claim_start_time: self.claim_start_time,
            bins: self.bins@,
            extensions: self.extensions,
            total_participants: self.total_participants,
            funds_withdrawn: self.unsold_sale_tokens_and_effective_payment_tokens_withdrawn,
            total_fees_collected: self.total_fees_collected,
            total_fees_withdrawn: self.total_fees_withdrawn,
            emergency_state: self.emergency_state,
            vault_sale_bump: self.vault_sale_bump,
            vault_payment_bump: self.vault_payment_bump,
            bump: self.bump,
        }
    }
}

impl Auction {
    pub const BASE_SPACE: usize = 8 + 32 * 4 + 8 * 3 + 4 + (33 + 9 + 9) + 8 + 8 + 1 + 1 + 1;

    pub const SPACE_PER_BIN: usize = 8 + 8 + 8 + 8 + 1;

    /// Calculate space needed for auction with given number of bins
    pub fn space_for_bins(bin_count: usize) -> (space: usize)
        requires
            Self::BASE_SPACE + bin_count * Self::SPACE_PER_BIN <= usize::MAX,
        ensures
            space == Self::BASE_SPACE + bin_count * Self::SPACE_PER_BIN,
    {
        Self::BASE_SPACE + (bin_count * Self::SPACE_PER_BIN)
    }

    /// Find the address of the auction for a sale token. `None` when the
    /// program derives no address for these seeds.
    pub fn find_program_address(sale_token: &Address, program_id: &Address) -> (r: Option<
        (Address, u8),
    >)
        ensures
            derived_address_view(r) == program_derived_address(
                seq![AUCTION_SEED@, sale_token@],
                program_id@,
            ),
    {
        derive_with_key(&AUCTION_SEED, sale_token, program_id)
    }

    /// Find the address of the sale vault of an auction.
    pub fn derive_sale_vault_pda(auction_pda: &Address, program_id: &Address) -> (r: Option<
        (Address, u8),
    >)
        ensures
            derived_address_view(r) == program_derived_address(
                seq![VAULT_SALE_SEED@, auction_pda@],
                program_id@,
            ),
    {
        derive_with_key(&VAULT_SALE_SEED, auction_pda, program_id)
    }

    /// Find the address of the payment vault of an auction.
    pub fn derive_payment_vault_pda(auction_pda: &Address, program_id: &Address) -> (r: Option<
        (Address, u8),
    >)
        ensures
            derived_address_view(r) == program_derived_address(
                seq![VAULT_PAYMENT_SEED@, auction_pda@],
                program_id@,
            ),
    {
        derive_with_key(&VAULT_PAYMENT_SEED, auction_pda, program_id)
    }

    /// Get a specific bin by ID
    pub fn get_bin(&self, bin_id: u8) -> (r: Result<&AuctionBin, ResetError>)
        ensures
            bin_id < self.bins@.len() ==> r == Ok::<&AuctionBin, ResetError>(
                &self.bins@[bin_id as int],
            ),
            bin_id >= self.bins@.len() ==> r == Err::<&AuctionBin, ResetError>(
                ResetError::InvalidBinId,
            ),
    {
        let index = bin_id as usize;
        if index < self.bins.len() {
            Ok(&self.bins[index])
        } else {
            Err(ResetError::InvalidBinId)
        }
    }

    /// Get a mutable reference to a specific bin by ID
    ///
    /// What the caller writes through the reference becomes the bin with
    /// that ID; nothing else of the auction changes.
    pub fn get_bin_mut(&mut self, bin_id: u8) -> (r: Result<&mut AuctionBin, ResetError>)
        ensures
            bin_id >= old(self).bins@.len() ==> r == Err::<&mut AuctionBin, ResetError>(
                ResetError::InvalidBinId,
            ) && *final(self) == *old(self),
            bin_id < old(self).bins@.len() ==> r is Ok && *r.unwrap() == old(self).bins@[bin_id as int]
                && final(self)@ == (AuctionData {
                bins: old(self).bins@.update(bin_id as int, *final(r.unwrap())),
                ..old(self)@
            }),
    {
        let index = bin_id as usize;
        if index < self.bins.len() {
            Ok(&mut self.bins[index])
        } else {
            Err(ResetError::InvalidBinId)
        }
    }

    /// Get total number of bins
    ///
    /// The count is reduced to eight bits, as a bin ID is.
    pub fn total_bins(&self) -> (n: u8)
        ensures
            n as int == self.bins@.len() % 256,
    {
        (self.bins.len() % 256) as u8
    }
}

/// Check if an operation is paused by emergency control
pub fn check_emergency_state(auction: &Auction, operation_flag: u64) -> (r: Result<(), ResetError>)
    ensures
        auction.emergency_state.spec_is_paused(operation_flag) ==> r == Err::<(), ResetError>(
            ResetError::OperationPaused,
        ),
        !auction.emergency_state.spec_is_paused(operation_flag) ==> r == Ok::<(), ResetError>(()),
{
    if auction.emergency_state.is_paused(operation_flag) {
        return Err(ResetError::OperationPaused);
    }
    Ok(())
}

/// What one user holds in one bin.
#[derive(Clone, Copy, Debug)]
pub struct CommittedBin {
    /// Bin ID
    pub bin_id: u8,
    /// Amount of payment tokens committed to this bin
    pub payment_token_committed: u64,
    /// Amount of sale tokens already claimed from this bin
    pub sale_token_claimed: u64,
    /// Amount of payment tokens already refunded from this bin
    pub payment_token_refunded: u64,
}

/// User commitment data for all auction bins
pub struct Committed {
    /// Reference to the auction account
    pub auction: Address,
    /// User who made the commitment
    pub user: Address,
    /// All bins this user has committed to
    pub bins: Vec<CommittedBin>,
    /// Counter that guards signed commit payloads against replay
    pub nonce: u64,
    /// Bump seed of the record's address
    pub bump: u8,
}

/// The value of a commitment record, with its entries as a sequence.
pub struct CommittedData {
    pub auction: Address,
    pub user: Address,
    pub bins: Seq<CommittedBin>,
    pub nonce: u64,
    pub bump: u8,
}

impl View for Committed {
    type V = CommittedData;

    open spec fn view(&self) -> CommittedData {
        CommittedData {
            auction: self.auction,
            user: self.user,
            bins: self.bins@,
            nonce: self.nonce,
            bump: self.bump,
        }
    }
}

/// The position of the first entry for `bin_id`, if there is one.
pub open spec fn entry_position(bins: Seq<CommittedBin>, bin_id: u8) -> Option<int>
    decreases bins.len(),
{
    if bins.len() == 0 {
        None
    } else if bins[0].bin_id == bin_id {
        Some(0)
    } else {
        match entry_position(bins.skip(1), bin_id) {
            Some(i) => Some(i + 1),
            None => None,
        }
    }
}

/// `entry_position` names the first entry for the bin, and is `None` exactly
/// when no entry is for it.
pub proof fn lemma_entry_position(bins: Seq<CommittedBin>, bin_id: u8)
    ensures
        match entry_position(bins, bin_id) {
            Some(i) => 0 <= i < bins.len() && bins[i].bin_id == bin_id && forall|j: int|
                0 <= j < i ==> (#[trigger] bins[j]).bin_id != bin_id,
            None => forall|j: int| 0 <= j < bins.len() ==> (#[trigger] bins[j]).bin_id != bin_id,
        },
    decreases bins.len(),
{
    if bins.len() > 0 && bins[0].bin_id != bin_id {
        let rest = bins.skip(1);
        lemma_entry_position(rest, bin_id);
        assert(forall|j: int| 0 <= j < rest.len() ==> rest[j] == bins[j + 1]);
        match entry_position(rest, bin_id) {
            Some(i) => {
                assert(rest[i] == bins[i + 1]);
                assert forall|j: int| 0 <= j < i + 1 implies (#[trigger] bins[j]).bin_id
                    != bin_id by {
                    if j > 0 {
                        assert(rest[j - 1] == bins[j]);
                    }
                }
            },
            None => {
                assert forall|j: int| 0 <= j < bins.len() implies (#[trigger] bins[j]).bin_id
                    != bin_id by {
                    if j > 0 {
                        assert(rest[j - 1] == bins[j]);
                    }
                }
            },
        }
    }
}

/// An index is the entry position when it holds the bin and nothing before
/// it does.
pub proof fn lemma_entry_position_is(bins: Seq<CommittedBin>, bin_id: u8, i: int)
    requires
        0 <= i <= bins.len(),
        forall|j: int| 0 <= j < i ==> (#[trigger] bins[j]).bin_id != bin_id,
        i < bins.len() ==> bins[i].bin_id == bin_id,
    ensures
        entry_position(bins, bin_id) == if i < bins.len() {
            Some(i)
        } else {
            None::<int>
        },
{
    lemma_entry_position(bins, bin_id);
    match entry_position(bins, bin_id) {
        Some(k) => {
            if i < bins.len() {
                if k < i {
                    assert(bins[k].bin_id != bin_id);
                }
                if i < k {
                    assert(bins[i].bin_id != bin_id);
                }
            } else {
                assert(bins[k].bin_id != bin_id);
            }
        },
        None => {
            if i < bins.len() {
                assert(bins[i].bin_id != bin_id);
            }
        },
    }
}

/// Sum of the payment committed over the entries.
pub open spec fn total_committed(bins: Seq<CommittedBin>) -> int
    decreases bins.len(),
{
    if bins.len() == 0 {
        0
    } else {
        total_committed(bins.drop_last()) + bins.last().payment_token_committed
    }
}

/// Sum of the sale tokens claimed over the entries.
pub open spec fn total_claimed(bins: Seq<CommittedBin>) -> int
    decreases bins.len(),
{
    if bins.len() == 0 {
        0
    } else {
        total_claimed(bins.drop_last()) + bins.last().sale_token_claimed
    }
}

impl Committed {
    pub const BASE_SPACE: usize = 8 + 32 * 2 + 4 + 1;

    pub const SPACE_PER_BIN: usize = 1 + 8 + 8;

    /// Calculate space needed for commitment with given number of bins
    pub fn space_for_bins(bin_count: usize) -> (space: usize)
        requires
            Self::BASE_SPACE + bin_count * Self::SPACE_PER_BIN <= usize::MAX,
        ensures
            space == Self::BASE_SPACE + bin_count * Self::SPACE_PER_BIN,
    {
        Self::BASE_SPACE + (bin_count * Self::SPACE_PER_BIN)
    }

    /// Find the address of a user's commitment record in an auction.
    pub fn find_program_address(auction: &Address, user: &Address, program_id: &Address) -> (r:
        Option<(Address, u8)>)
        ensures
            derived_address_view(r) == program_derived_address(
                seq![COMMITTED_SEED@, auction@, user@],
                program_id@,
            ),
    {
        let mut seeds: Vec<Vec<u8>> = Vec::new();
        seeds.push(array_to_vec(&COMMITTED_SEED));
        seeds.push(auction.to_vec());
        seeds.push(user.to_vec());
        assert(seeds@.map_values(|seed: Vec<u8>| seed@) =~= seq![COMMITTED_SEED@, auction@, user@]);
        try_find_program_address(&seeds, program_id)
    }

    /// The index of the first entry for `bin_id`, if there is one.
    pub fn find_bin_index(&self, bin_id: u8) -> (r: Option<usize>)
        ensures
            match r {
                Some(i) => entry_position(self.bins@, bin_id) == Some(i as int),
                None => entry_position(self.bins@, bin_id) is None,
            },
    {
        let mut i: usize = 0;
        while i < self.bins.len()
            invariant
                0 <= i <= self.bins@.len(),
                forall|j: int| 0 <= j < i ==> (#[trigger] self.bins@[j]).bin_id != bin_id,
            decreases self.bins@.len() - i,
        {
            if self.bins[i].bin_id == bin_id {
                proof {
                    lemma_entry_position_is(self.bins@, bin_id, i as int);
                }
                return Some(i);
            }
            i += 1;
        }
        proof {
            lemma_entry_position_is(self.bins@, bin_id, i as int);
        }
        None
    }

    /// Find a specific bin commitment
    pub fn find_bin(&self, bin_id: u8) -> (r: Option<&CommittedBin>)
        ensures
            match entry_position(self.bins@, bin_id) {
                Some(i) => r == Some(&self.bins@[i]),
                None => r is None,
            },
    {
        match self.find_bin_index(bin_id) {
            Some(i) => {
                proof {
                    lemma_entry_position(self.bins@, bin_id);
                }
                Some(&self.bins[i])
            },
            None => None,
        }
    }

    /// Find a specific bin commitment (mutable)
    ///
    /// What the caller writes through the reference becomes the entry at
    /// that position; nothing else of the record changes.
    pub fn find_bin_mut(&mut self, bin_id: u8) -> (r: Option<&mut CommittedBin>)
        ensures
            match entry_position(old(self).bins@, bin_id) {
                Some(i) => r is Some && *r.unwrap() == old(self).bins@[i] && final(self)@
                    == (CommittedData {
                    bins: old(self).bins@.update(i, *final(r.unwrap())),
                    ..old(self)@
                }),
                None => r is None && *final(self) == *old(self),
            },
    {
        match self.find_bin_index(bin_id) {
            Some(i) => {
                proof {
                    lemma_entry_position(self.bins@, bin_id);
                }
                Some(&mut self.bins[i])
            },
            None => None,
        }
    }

    /// Calculate total payment tokens committed across all bins
    pub fn total_payment_committed(&self) -> (total: u64)
        requires
            total_committed(self.bins@) <= u64::MAX,
        ensures
            total == total_committed(self.bins@),
    {
        let mut total: u64 = 0;
        let mut i: usize = 0;
        assert(self.bins@.take(0) =~= Seq::<CommittedBin>::empty());
        while i < self.bins.len()
            invariant
                0 <= i <= self.bins@.len(),
                total == total_committed(self.bins@.take(i as int)),
                total_committed(self.bins@) <= u64::MAX,
            decreases self.bins@.len() - i,
        {
            proof {
                assert(self.bins@.take(i + 1).drop_last() =~= self.bins@.take(i as int));
                lemma_total_committed_grows(self.bins@, i + 1);
            }
            total = total + self.bins[i].payment_token_committed;
            i += 1;
        }
        assert(self.bins@.take(self.bins@.len() as int) =~= self.bins@);
        total
    }

    /// Add a new bin commitment or update existing one
    ///
    /// Fails with `MathOverflow`, and changes nothing, when the entry for
    /// the bin cannot take the additional payment.
    pub fn add_or_update_bin(&mut self, bin_id: u8, additional_payment: u64) -> (r: Result<
        (),
        ResetError,
    >)
        ensures
            match entry_position(old(self).bins@, bin_id) {
                Some(i) => if old(self).bins@[i].payment_token_committed + additional_payment
                    > u64::MAX {
                    r == Err::<(), ResetError>(ResetError::MathOverflow) && *final(self) == *old(self)
                } else {
                    r == Ok::<(), ResetError>(()) && final(self)@ == (CommittedData {
                        bins: old(self).bins@.update(
                            i,
                            (CommittedBin {
                                payment_token_committed: (old(self).bins@[i].payment_token_committed
                                    + additional_payment) as u64,
                                ..old(self).bins@[i]
                            }),
                        ),
                        ..old(self)@
                    })
                },
                None => r == Ok::<(), ResetError>(()) && final(self)@ == (CommittedData {
                    bins: old(self).bins@.push(
                        (CommittedBin {
                            bin_id,
                            payment_token_committed: additional_payment,
                            sale_token_claimed: 0,
                            payment_token_refunded: 0,
                        }),
                    ),
                    ..old(self)@
                }),
            },
    {
        match self.find_bin_index(bin_id) {
            Some(i) => {
                proof {
                    lemma_entry_position(self.bins@, bin_id);
                }
                // Update existing bin
                let updated: u64 = match self.bins[i].payment_token_committed.checked_add(
                    additional_payment,
                ) {
                    Some(v) => v,
                    None => {
                        return Err(ResetError::MathOverflow);
                    },
                };
                self.bins[i].payment_token_committed = updated;
            },
            None => {
                // Add new bin
                self.bins.push(
                    CommittedBin {
                        bin_id,
                        payment_token_committed: additional_payment,
                        sale_token_claimed: 0,
                        payment_token_refunded: 0,
                    },
                );
            },
        }
        Ok(())
    }
}

/// The sum over a prefix of the entries is at most the sum over all of them.
pub proof fn lemma_total_committed_grows(bins: Seq<CommittedBin>, n: int)
    requires
        0 <= n <= bins.len(),
    ensures
        0 <= total_committed(bins.take(n)) <= total_committed(bins),
    decreases bins.len() - n,
{
    if n < bins.len() {
        assert(bins.take(n + 1).drop_last() =~= bins.take(n));
        lemma_total_committed_grows(bins, n + 1);
        lemma_total_committed_nonnegative(bins.take(n));
    } else {
        assert(bins.take(n) =~= bins);
        lemma_total_committed_nonnegative(bins);
    }
}

/// A sum of committed payments is not negative.
pub proof fn lemma_total_committed_nonnegative(bins: Seq<CommittedBin>)
    ensures
        0 <= total_committed(bins),
    decreases bins.len(),
{
    if bins.len() > 0 {
        lemma_total_committed_nonnegative(bins.drop_last());
    }
}

/// The sum of the committed payments, in a width that always holds it.
pub(crate) fn wide_total_committed(bins: &Vec<CommittedBin>) -> (total: u128)
    ensures
        total == total_committed(bins@),
        total + u64::MAX <= u128::MAX,
{
    let mut total: u128 = 0;
    let mut i: usize = 0;
    assert(bins@.take(0) =~= Seq::<CommittedBin>::empty());
    while i < bins.len()
        invariant
            0 <= i <= bins@.len(),
            total == total_committed(bins@.take(i as int)),
            total <= i * 0x1_0000_0000_0000_0000,
        decreases bins@.len() - i,
    {
        proof {
            assert(bins@.take(i + 1).drop_last() =~= bins@.take(i as int));
            assert((i + 1) * 0x1_0000_0000_0000_0000 <= u128::MAX) by (nonlinear_arith)
                requires
                    0 <= i < u64::MAX,
            ;
        }
        total = total + bins[i].payment_token_committed as u128;
        i += 1;
    }
    assert(bins@.take(bins@.len() as int) =~= bins@);
    assert(i * 0x1_0000_0000_0000_0000 + u64::MAX <= u128::MAX) by (nonlinear_arith)
        requires
            0 <= i <= u64::MAX,
    ;
    total
}

/// The sum of the claimed sale tokens, in a width that always holds it.
pub(crate) fn wide_total_claimed(bins: &Vec<CommittedBin>) -> (total: u128)
    ensures
        total == total_claimed(bins@),
{
    let mut total: u128 = 0;
    let mut i: usize = 0;
    assert(bins@.take(0) =~= Seq::<CommittedBin>::empty());
    while i < bins.len()
        invariant
            0 <= i <= bins@.len(),
            total == total_claimed(bins@.take(i as int)),
            total <= i * 0x1_0000_0000_0000_0000,
        decreases bins@.len() - i,
    {
        proof {
            assert(bins@.take(i + 1).drop_last() =~= bins@.take(i as int));
            assert((i + 1) * 0x1_0000_0000_0000_0000 <= u128::MAX) by (nonlinear_arith)
                requires
                    0 <= i < u64::MAX,
            ;
        }
        total = total + bins[i].sale_token_claimed as u128;
        i += 1;
    }
    assert(bins@.take(bins@.len() as int) =~= bins@);
    total
}

/// Snapshot of Committed account data for the closure event
#[derive(Debug)]
pub struct CommittedAccountSnapshot {
    /// Reference to the auction account
    pub auction: Address,
    /// User who made the commitment
    pub user: Address,
    /// All bins this user committed to
    pub bins: Vec<CommittedBin>,
    /// Bump seed of the record's address
    pub bump: u8,
    /// Total payment tokens committed across all bins
    pub total_payment_committed: u64,
    /// Total sale tokens claimed across all bins
    pub total_sale_tokens_claimed: u64,
}

impl CommittedAccountSnapshot {
    /// Whether this is the snapshot of the given record: its owner, its
    /// entries, and the two totals over them.
    pub open spec fn is_snapshot_of(&self, committed: CommittedData) -> bool {
        &&& self.auction == committed.auction
        &&& self.user == committed.user
        &&& self.bins@ == committed.bins
        &&& self.bump == committed.bump
        &&& self.total_payment_committed == total_committed(committed.bins)
        &&& self.total_sale_tokens_claimed == total_claimed(committed.bins)
    }

    /// Create a snapshot from a Committed account
    ///
    /// The two totals must fit in 64 bits.
    pub fn from_committed(committed: &Committed) -> (snapshot: Self)
        requires
            total_committed(committed.bins@) <= u64::MAX,
            total_claimed(committed.bins@) <= u64::MAX,
        ensures
            snapshot.is_snapshot_of(committed@),
    {
        let total_payment_committed = committed.total_payment_committed();
        let total_sale_tokens_claimed = wide_total_claimed(&committed.bins) as u64;
        let mut bins: Vec<CommittedBin> = Vec::new();
        let mut i: usize = 0;
        while i < committed.bins.len()
            invariant
                0 <= i <= committed.bins@.len(),
                bins@ == committed.bins@.take(i as int),
            decreases committed.bins@.len() - i,
        {
            bins.push(committed.bins[i]);
            assert(bins@ =~= committed.bins@.take(i + 1));
            i += 1;
        }
        assert(committed.bins@.take(committed.bins@.len() as int) =~= committed.bins@);
        Self {
            auction: committed.auction,
            user: committed.user,
            bins,
            bump: committed.bump,
            total_payment_committed,
            total_sale_tokens_claimed,
        }
    }
}

/// Event emitted when a user's Committed account is fully claimed and closed
#[derive(Debug)]
pub struct CommittedAccountClosedEvent {
    /// User who owned the committed account
    pub user_key: Address,
    /// The auction this commitment was for
    pub auction_key: Address,
    /// The committed account that was closed
    pub committed_account_key: Address,
    /// Amount of rent returned to the user (in lamports)
    pub rent_returned: u64,
    /// Snapshot of the committed account data at time of closure
    pub committed_data: CommittedAccountSnapshot,
}

} // verus!
