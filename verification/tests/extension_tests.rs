use anchor_lang::prelude::Pubkey;
use anchor_lang::AnchorSerialize;
use reset_program::address::Address;
use reset_program::errors::ResetError;
use reset_program::extensions::{
    timestamp_to_unsigned, verify_signature_authorization, AuctionExtensions,
    SignatureInstruction, WhitelistPayload, ED25519_PROGRAM_ID, MESSAGE_OFFSET,
    PUBLIC_KEY_OFFSET,
};
use reset_program::state::{Auction, Committed, CommittedBin};

fn key(fill: u8) -> Address {
    Address { bytes: [fill; 32] }
}

fn payload() -> WhitelistPayload {
    WhitelistPayload {
        user: key(1),
        auction: key(2),
        bin_id: 3,
        payment_token_committed: 0x0102030405060708,
        nonce: 9,
        expiry: 1_700_000_000,
    }
}

fn signed_by(signer: &Address, message: &[u8]) -> SignatureInstruction {
    let mut data = vec![1u8];
    data.extend_from_slice(&[0xAA; 64]);
    data.extend_from_slice(&signer.bytes);
    data.extend_from_slice(&[0, 0, 0, 0]);
    data.extend_from_slice(message);
    SignatureInstruction { program_id: Address { bytes: ED25519_PROGRAM_ID }, data }
}

fn verify(
    instruction: Option<&SignatureInstruction>,
    p: &WhitelistPayload,
    signer: &Address,
    now: i64,
) -> Result<(), ResetError> {
    verify_signature_authorization(
        instruction,
        &p.user,
        &p.auction,
        p.bin_id,
        p.payment_token_committed,
        p.nonce,
        p.expiry,
        signer,
        now,
    )
}

#[test]
fn ed25519_program_id_is_the_declared_one() {
    assert_eq!(ED25519_PROGRAM_ID, anchor_lang::solana_program::ed25519_program::ID.to_bytes());
    assert_eq!(PUBLIC_KEY_OFFSET, 65);
    assert_eq!(MESSAGE_OFFSET, 101);
}

#[test]
fn payload_encoding_is_the_borsh_encoding() {
    let p = payload();
    let mut expected = Vec::new();
    Pubkey::new_from_array(p.user.bytes).serialize(&mut expected).unwrap();
    Pubkey::new_from_array(p.auction.bytes).serialize(&mut expected).unwrap();
    p.bin_id.serialize(&mut expected).unwrap();
    p.payment_token_committed.serialize(&mut expected).unwrap();
    p.nonce.serialize(&mut expected).unwrap();
    p.expiry.serialize(&mut expected).unwrap();
    assert_eq!(p.to_bytes(), expected);
    assert_eq!(p.to_bytes().len(), 89);
    assert_eq!(&p.to_bytes()[65..73], &[8, 7, 6, 5, 4, 3, 2, 1]);
}

#[test]
fn address_equality_is_equality_of_bytes() {
    let mut other = key(7);
    assert!(key(7) == other);
    other.bytes[31] = 8;
    assert!(key(7) != other);
    assert_eq!(key(7).to_bytes(), [7u8; 32]);
    assert_eq!(Address::new_from_array([5; 32]).to_vec(), vec![5u8; 32]);
}

#[test]
fn signature_is_accepted_for_the_payload_it_covers() {
    let p = payload();
    let signer = key(42);
    let ix = signed_by(&signer, &p.to_bytes());
    assert_eq!(verify(Some(&ix), &p, &signer, 1_600_000_000), Ok(()));
    // at the expiry itself the signature still holds
    assert_eq!(verify(Some(&ix), &p, &signer, 1_700_000_000), Ok(()));
}

#[test]
fn signature_checks_fail_in_order() {
    let p = payload();
    let signer = key(42);
    let good = signed_by(&signer, &p.to_bytes());

    assert_eq!(verify(None, &p, &signer, 0), Err(ResetError::MissingSysvarInstructions));

    let wrong_program = SignatureInstruction { program_id: key(0), data: good.data.clone() };
    assert_eq!(verify(Some(&wrong_program), &p, &signer, 0), Err(ResetError::WrongProgram));

    let short = SignatureInstruction {
        program_id: Address { bytes: ED25519_PROGRAM_ID },
        data: good.data[..100].to_vec(),
    };
    assert_eq!(verify(Some(&short), &p, &signer, 0), Err(ResetError::MalformedEd25519Ix));

    let empty = SignatureInstruction {
        program_id: Address { bytes: ED25519_PROGRAM_ID },
        data: Vec::new(),
    };
    assert_eq!(verify(Some(&empty), &p, &signer, 0), Err(ResetError::MalformedEd25519Ix));

    let mut two = signed_by(&signer, &p.to_bytes());
    two.data[0] = 2;
    assert_eq!(verify(Some(&two), &p, &signer, 0), Err(ResetError::MalformedEd25519Ix));

    assert_eq!(verify(Some(&good), &p, &key(43), 0), Err(ResetError::WrongWhitelistAuthority));

    let mut other = p;
    other.payment_token_committed += 1;
    assert_eq!(verify(Some(&good), &other, &signer, 0), Err(ResetError::PayloadMismatch));

    let mut longer = p.to_bytes();
    longer.push(0);
    let padded = signed_by(&signer, &longer);
    assert_eq!(verify(Some(&padded), &p, &signer, 0), Err(ResetError::PayloadMismatch));

    let header_only = signed_by(&signer, &[]);
    assert_eq!(verify(Some(&header_only), &p, &signer, 0), Err(ResetError::PayloadMismatch));

    assert_eq!(verify(Some(&good), &p, &signer, 1_700_000_001), Err(ResetError::SignatureExpired));
    // a time before the epoch reads as a time in the far future
    assert_eq!(verify(Some(&good), &p, &signer, -1), Err(ResetError::SignatureExpired));
}

#[test]
fn signature_for_one_nonce_is_rejected_for_the_next() {
    let p = payload();
    let signer = key(42);
    let ix = signed_by(&signer, &p.to_bytes());
    let mut next = p;
    next.nonce = p.nonce + 1;
    assert_eq!(verify(Some(&ix), &p, &signer, 0), Ok(()));
    assert_eq!(verify(Some(&ix), &next, &signer, 0), Err(ResetError::PayloadMismatch));
}

#[test]
fn timestamps_read_as_unsigned() {
    assert_eq!(timestamp_to_unsigned(0), 0);
    assert_eq!(timestamp_to_unsigned(i64::MAX), i64::MAX as u64);
    assert_eq!(timestamp_to_unsigned(-1), u64::MAX);
    assert_eq!(timestamp_to_unsigned(i64::MIN), 1u64 << 63);
    assert_eq!(timestamp_to_unsigned(-12345), (-12345i64) as u64);
}

#[test]
fn whitelist_signature_uses_the_configured_authority() {
    let p = payload();
    let authority = key(77);
    let extensions = AuctionExtensions {
        whitelist_authority: Some(authority),
        commit_cap_per_user: None,
        claim_fee_rate: None,
    };
    assert!(extensions.is_whitelist_enabled());
    let ix = signed_by(&authority, &p.to_bytes());
    let check = |ix: &SignatureInstruction| {
        extensions.verify_whitelist_signature(
            Some(ix),
            &p.user,
            &p.auction,
            p.bin_id,
            p.payment_token_committed,
            p.nonce,
            p.expiry,
            100,
        )
    };
    assert_eq!(check(&ix), Ok(()));
    assert_eq!(check(&signed_by(&key(78), &p.to_bytes())), Err(ResetError::WrongWhitelistAuthority));
}

fn record(committed: &[u64]) -> Committed {
    Committed {
        auction: key(2),
        user: key(1),
        bins: committed
            .iter()
            .enumerate()
            .map(|(i, c)| CommittedBin {
                bin_id: i as u8,
                payment_token_committed: *c,
                sale_token_claimed: 0,
                payment_token_refunded: 0,
            })
            .collect(),
        nonce: 0,
        bump: 255,
    }
}

#[test]
fn commit_cap_counts_all_bins() {
    let capped = AuctionExtensions {
        whitelist_authority: None,
        commit_cap_per_user: Some(1000),
        claim_fee_rate: None,
    };
    let committed = record(&[300, 400]);
    assert_eq!(capped.check_commit_cap_exceeded(&committed, 300), Ok(()));
    assert_eq!(
        capped.check_commit_cap_exceeded(&committed, 301),
        Err(ResetError::CommitCapExceeded)
    );
    // a total beyond 64 bits is over every cap
    let huge = record(&[u64::MAX, u64::MAX]);
    let wide = AuctionExtensions { commit_cap_per_user: Some(u64::MAX), ..capped };
    assert_eq!(wide.check_commit_cap_exceeded(&huge, 1), Err(ResetError::CommitCapExceeded));
    // without a cap nothing is exceeded
    let free = AuctionExtensions { commit_cap_per_user: None, ..capped };
    assert!(!free.is_whitelist_enabled());
    assert_eq!(free.check_commit_cap_exceeded(&huge, u64::MAX), Ok(()));
}

#[test]
fn claim_fee_is_a_share_of_ten_thousand() {
    let with_rate = |rate: Option<u64>| AuctionExtensions {
        whitelist_authority: None,
        commit_cap_per_user: None,
        claim_fee_rate: rate,
    };
    assert_eq!(with_rate(None).calculate_claim_fee(1_000_000), 0);
    assert_eq!(with_rate(Some(250)).calculate_claim_fee(1_000_000), 25_000);
    assert_eq!(with_rate(Some(250)).calculate_claim_fee(39), 0);
    assert_eq!(with_rate(Some(250)).calculate_claim_fee(40), 1);
    assert_eq!(with_rate(Some(10_000)).calculate_claim_fee(u64::MAX), u64::MAX);
    assert_eq!(with_rate(Some(20_000)).calculate_claim_fee(7), 14);
    assert_eq!(with_rate(Some(250)).checked_claim_fee(1_000_000), Some(25_000));
    assert_eq!(with_rate(None).checked_claim_fee(u64::MAX), Some(0));
    // a fee beyond 64 bits is no fee at all
    assert_eq!(with_rate(Some(20_000)).checked_claim_fee(u64::MAX), None);
    assert_eq!(with_rate(Some(20_000)).checked_claim_fee(u64::MAX / 2), Some(u64::MAX - 1));
}

#[test]
fn derived_addresses_are_those_of_the_program() {
    let program = Pubkey::new_from_array([
        68, 213, 88, 64, 16, 239, 73, 173, 111, 220, 163, 100, 234, 204, 73, 103, 172, 211, 39,
        206, 64, 175, 11, 222, 76, 134, 49, 242, 97, 17, 115, 66,
    ]);
    let program_id = Address { bytes: program.to_bytes() };
    let mint = key(11);
    let user = key(12);

    let (auction, bump) = Auction::find_program_address(&mint, &program_id).unwrap();
    let expected = Pubkey::find_program_address(&[b"auction", &mint.bytes], &program);
    assert_eq!((auction.bytes, bump), (expected.0.to_bytes(), expected.1));
    assert!(auction != mint);

    let (sale, bump) = Auction::derive_sale_vault_pda(&auction, &program_id).unwrap();
    let expected = Pubkey::find_program_address(&[b"vault_sale", &auction.bytes], &program);
    assert_eq!((sale.bytes, bump), (expected.0.to_bytes(), expected.1));

    let (payment, bump) = Auction::derive_payment_vault_pda(&auction, &program_id).unwrap();
    let expected = Pubkey::find_program_address(&[b"vault_payment", &auction.bytes], &program);
    assert_eq!((payment.bytes, bump), (expected.0.to_bytes(), expected.1));

    let (committed, bump) = Committed::find_program_address(&auction, &user, &program_id).unwrap();
    let expected =
        Pubkey::find_program_address(&[b"committed", &auction.bytes, &user.bytes], &program);
    assert_eq!((committed.bytes, bump), (expected.0.to_bytes(), expected.1));
}
