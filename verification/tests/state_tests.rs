use reset_program::address::Address;
use reset_program::errors::ResetError;
use reset_program::extensions::AuctionExtensions;
use reset_program::state::{
    check_emergency_state, Auction, AuctionBin, Committed, CommittedAccountSnapshot, CommittedBin,
    EmergencyState, AUCTION_SEED, COMMITTED_SEED, VAULT_PAYMENT_SEED, VAULT_SALE_SEED,
};
use reset_program::testing::set_times;

fn key(fill: u8) -> Address {
    Address { bytes: [fill; 32] }
}

fn auction(bins: Vec<AuctionBin>) -> Auction {
    Auction {
        authority: key(100),
        custody: key(101),
        sale_token_mint: key(102),
        payment_token_mint: key(103),
        commit_start_time: 1000,
        commit_end_time: 2000,
        claim_start_time: 3000,
        bins,
        extensions: AuctionExtensions {
            whitelist_authority: None,
            commit_cap_per_user: None,
            claim_fee_rate: None,
        },
        total_participants: 0,
        unsold_sale_tokens_and_effective_payment_tokens_withdrawn: false,
        total_fees_collected: 0,
        total_fees_withdrawn: 0,
        emergency_state: EmergencyState { paused_operations: 0 },
        vault_sale_bump: 254,
        vault_payment_bump: 253,
        bump: 252,
    }
}

fn bin(price: u64, cap: u64) -> AuctionBin {
    AuctionBin {
        sale_token_price: price,
        sale_token_cap: cap,
        payment_token_raised: 0,
        sale_token_claimed: 0,
    }
}

fn empty_record() -> Committed {
    Committed { auction: key(0), user: key(0), bins: Vec::new(), nonce: 0, bump: 0 }
}

#[test]
fn seeds_are_the_bytes_of_their_names() {
    assert_eq!(&AUCTION_SEED, b"auction");
    assert_eq!(&COMMITTED_SEED, b"committed");
    assert_eq!(&VAULT_SALE_SEED, b"vault_sale");
    assert_eq!(&VAULT_PAYMENT_SEED, b"vault_payment");
}

#[test]
fn space_grows_by_the_bin() {
    assert_eq!(Auction::BASE_SPACE, 234);
    assert_eq!(Auction::SPACE_PER_BIN, 33);
    assert_eq!(Auction::space_for_bins(0), 234);
    assert_eq!(Auction::space_for_bins(10), 234 + 330);
    assert_eq!(Committed::BASE_SPACE, 77);
    assert_eq!(Committed::SPACE_PER_BIN, 17);
    assert_eq!(Committed::space_for_bins(1), 94);
}

#[test]
fn bins_are_found_by_id() {
    let mut a = auction(vec![bin(10, 200), bin(20, 100)]);
    assert_eq!(a.total_bins(), 2);
    assert_eq!(a.get_bin(1).unwrap().sale_token_price, 20);
    assert_eq!(a.get_bin(2).err(), Some(ResetError::InvalidBinId));
    a.get_bin_mut(0).unwrap().payment_token_raised = 5;
    assert_eq!(a.bins[0].payment_token_raised, 5);
    assert_eq!(a.bins[1].payment_token_raised, 0);
    assert_eq!(a.get_bin_mut(7).err(), Some(ResetError::InvalidBinId));
}

#[test]
fn emergency_state_tests_bits() {
    let mut state = EmergencyState::default();
    assert_eq!(state.paused_operations, 0);
    assert!(!state.is_paused(EmergencyState::PAUSE_AUCTION_COMMIT));
    state.pause_operation(EmergencyState::PAUSE_AUCTION_CLAIM);
    state.pause_operation(EmergencyState::PAUSE_AUCTION_UPDATION);
    assert_eq!(state.paused_operations, 0x12);
    assert!(state.is_paused(EmergencyState::PAUSE_AUCTION_CLAIM));
    assert!(state.is_paused(EmergencyState::PAUSE_AUCTION_UPDATION));
    assert!(!state.is_paused(EmergencyState::PAUSE_AUCTION_WITHDRAW_FEES));
    assert!(!state.is_paused(EmergencyState::PAUSE_AUCTION_WITHDRAW_FUNDS));
    assert_eq!(EmergencyState::PAUSE_AUCTION_COMMIT, 1 << 0);
    assert_eq!(EmergencyState::PAUSE_AUCTION_CLAIM, 1 << 1);
    assert_eq!(EmergencyState::PAUSE_AUCTION_WITHDRAW_FEES, 1 << 2);
    assert_eq!(EmergencyState::PAUSE_AUCTION_WITHDRAW_FUNDS, 1 << 3);
    assert_eq!(EmergencyState::PAUSE_AUCTION_UPDATION, 1 << 4);
}

#[test]
fn emergency_check_reports_a_paused_operation() {
    let mut a = auction(vec![bin(10, 200)]);
    assert_eq!(check_emergency_state(&a, EmergencyState::PAUSE_AUCTION_COMMIT), Ok(()));
    a.emergency_state.paused_operations = EmergencyState::PAUSE_AUCTION_COMMIT;
    assert_eq!(
        check_emergency_state(&a, EmergencyState::PAUSE_AUCTION_COMMIT),
        Err(ResetError::OperationPaused)
    );
    assert_eq!(check_emergency_state(&a, EmergencyState::PAUSE_AUCTION_CLAIM), Ok(()));
}

#[test]
fn record_entries_are_added_and_updated() {
    let mut record = empty_record();
    assert!(record.find_bin(3).is_none());
    assert_eq!(record.add_or_update_bin(3, 100), Ok(()));
    assert_eq!(record.add_or_update_bin(1, 40), Ok(()));
    assert_eq!(record.add_or_update_bin(3, 11), Ok(()));
    assert_eq!(record.bins.len(), 2);
    assert_eq!(record.find_bin_index(3), Some(0));
    assert_eq!(record.find_bin_index(1), Some(1));
    assert_eq!(record.find_bin_index(0), None);
    let entry = record.find_bin(3).unwrap();
    assert_eq!(entry.payment_token_committed, 111);
    assert_eq!(entry.sale_token_claimed, 0);
    assert_eq!(entry.payment_token_refunded, 0);
    assert_eq!(record.total_payment_committed(), 151);

    record.find_bin_mut(1).unwrap().sale_token_claimed = 4;
    assert_eq!(record.bins[1].sale_token_claimed, 4);
    assert!(record.find_bin_mut(9).is_none());

    assert_eq!(record.add_or_update_bin(3, u64::MAX), Err(ResetError::MathOverflow));
    assert_eq!(record.find_bin(3).unwrap().payment_token_committed, 111);
}

#[test]
fn snapshot_holds_the_record_and_its_totals() {
    let record = Committed {
        auction: key(2),
        user: key(1),
        bins: vec![
            CommittedBin {
                bin_id: 0,
                payment_token_committed: 1000,
                sale_token_claimed: 66,
                payment_token_refunded: 334,
            },
            CommittedBin {
                bin_id: 1,
                payment_token_committed: 500,
                sale_token_claimed: 25,
                payment_token_refunded: 0,
            },
        ],
        nonce: 2,
        bump: 250,
    };
    let snapshot = CommittedAccountSnapshot::from_committed(&record);
    assert!(snapshot.auction == key(2));
    assert!(snapshot.user == key(1));
    assert_eq!(snapshot.bump, 250);
    assert_eq!(snapshot.bins.len(), 2);
    assert_eq!(snapshot.bins[1].payment_token_committed, 500);
    assert_eq!(snapshot.total_payment_committed, 1500);
    assert_eq!(snapshot.total_sale_tokens_claimed, 91);
}

#[test]
fn times_can_be_set_for_a_test() {
    let mut a = auction(vec![bin(10, 200)]);
    set_times(&mut a, 1, 2, 3);
    assert_eq!((a.commit_start_time, a.commit_end_time, a.claim_start_time), (1, 2, 3));
    assert_eq!(a.bins.len(), 1);
}

#[test]
fn errors_carry_their_number_and_text() {
    assert_eq!(ResetError::OperationPaused.code(), 6000);
    assert_eq!(ResetError::MathOverflow.code(), 6100);
    assert_eq!(ResetError::InvalidAuctionTimeRange.code(), 6200);
    assert_eq!(ResetError::CommitCapExceeded.code(), 6306);
    assert_eq!(ResetError::DoubleFundsWithdrawal.code(), 6401);
    assert_eq!(ResetError::InvalidCustodyAuthority.code(), 6510);
    assert_eq!(ResetError::DoubleFundsWithdrawal.message(), "Double funds withdrawal");
    assert_eq!(ResetError::InvalidBinId.message(), "Invalid bin ID");
}
