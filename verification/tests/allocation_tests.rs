use reset_program::allocation::{
    calculate_bin_claimable_amounts, calculate_bin_withdraw_amounts, calculate_claimable_amounts,
    calculate_total_withdraw_amounts, calculate_withdrawable_fees, check_all_bins_fully_claimed,
    AllocationRatio, PRECISION_FACTOR,
};
use reset_program::errors::ResetError;
use reset_program::state::{AuctionBin, CommittedBin};

#[test]
fn test_undersubscribed_allocation() {
    let target = 1000;
    let raised = 800;
    let ratio = AllocationRatio::calculate(target, raised).unwrap();

    assert!(ratio.is_full_allocation());
    assert_eq!(ratio.raw_ratio(), PRECISION_FACTOR);

    let (allocated, refund) = ratio.apply_to_commitment(500).unwrap();
    assert_eq!(allocated, 500);
    assert_eq!(refund, 0);
}

#[test]
fn test_oversubscribed_allocation() {
    let target = 1000;
    let raised = 1500; // 50% oversubscribed
    let ratio = AllocationRatio::calculate(target, raised).unwrap();

    assert!(!ratio.is_full_allocation());
    assert_eq!(ratio.raw_ratio(), 666666666); // ~66.67%

    let (allocated, refund) = ratio.apply_to_commitment(600).unwrap();
    assert_eq!(allocated, 399); // 600 * 0.666666666 = 399.999...
    assert_eq!(refund, 201); // 600 - 399 = 201
}

#[test]
fn test_claimable_amounts() {
    let user_committed = 1000;
    let bin_target = 2000;
    let bin_raised = 3000; // 50% oversubscribed
    let price = 10;

    let amounts =
        calculate_claimable_amounts(user_committed, bin_target, bin_raised, price).unwrap();

    // Validate consistency
    amounts.validate(user_committed).unwrap();

    // Check calculations
    assert_eq!(amounts.effective_payment_tokens, 666); // 1000 * (2000/3000)
    assert_eq!(amounts.refund_payment_tokens, 334); // 1000 - 666
    assert_eq!(amounts.sale_tokens, 66); // 666 / 10
}

#[test]
fn test_precision_edge_cases() {
    // Test with very large numbers near overflow
    let target = u64::MAX / 2;
    let raised = u64::MAX / 3;

    let ratio = AllocationRatio::calculate(target, raised).unwrap();
    assert!(ratio.is_full_allocation());

    // Test with very small ratios
    let target = 1;
    let raised = 1_000_000;
    let ratio = AllocationRatio::calculate(target, raised).unwrap();
    assert_eq!(ratio.raw_ratio(), 1000); // 0.000001 * 10^9
}

#[test]
fn test_allocation_calculation() {
    let user_committed = 1500;
    let bin_target = 2000;
    let bin_raised = 3000; // 50% oversubscribed
    let price = 10;

    let result =
        calculate_claimable_amounts(user_committed, bin_target, bin_raised, price).unwrap();

    // Validate consistency
    result.validate(user_committed).unwrap();

    // 1500 * 666666666 / 1000000000 = 999 (due to integer division)
    assert_eq!(result.effective_payment_tokens, 999);
    assert_eq!(result.refund_payment_tokens, 501); // 1500 - 999 = 501
    assert_eq!(result.sale_tokens, 99); // 999 / 10 = 99
}

#[test]
fn test_calculate_bin_withdraw_amounts() {
    // Test undersubscribed bin
    let result = calculate_bin_withdraw_amounts(8000, 10000, 1000).unwrap();
    assert_eq!(result.sale_tokens_sold, 8); // 8000 / 1000 = 8
    assert_eq!(result.payment_tokens_to_withdraw, 8000); // 8 * 1000 = 8000
    assert_eq!(result.unsold_sale_tokens, 9992); // 10000 - 8 = 9992

    // Test oversubscribed bin
    let result = calculate_bin_withdraw_amounts(15000, 10000, 1000).unwrap();
    assert_eq!(result.sale_tokens_sold, 15); // 15000 / 1000 = 15, min(15, 10000) = 15
    assert_eq!(result.payment_tokens_to_withdraw, 15000); // 15 * 1000 = 15000
    assert_eq!(result.unsold_sale_tokens, 9985); // 10000 - 15 = 9985

    // Test exactly subscribed bin
    let result = calculate_bin_withdraw_amounts(10000000, 10000, 1000).unwrap();
    assert_eq!(result.sale_tokens_sold, 10000); // 10000000 / 1000 = 10000
    assert_eq!(result.payment_tokens_to_withdraw, 10000000); // 10000 * 1000 = 10000000
    assert_eq!(result.unsold_sale_tokens, 0); // 10000 - 10000 = 0
}

#[test]
fn test_calculate_total_withdraw_amounts() {
    let bins = vec![
        AuctionBin {
            sale_token_price: 1000,
            sale_token_cap: 10000,
            payment_token_raised: 8000000, // 8000 tokens at price 1000
            sale_token_claimed: 0,
        },
        AuctionBin {
            sale_token_price: 2000,
            sale_token_cap: 5000,
            payment_token_raised: 15000000, // 7500 tokens at price 2000 (oversubscribed)
            sale_token_claimed: 0,
        },
    ];

    let result = calculate_total_withdraw_amounts(&bins).unwrap();

    // Bin 1: 8000 tokens sold, 8000000 payment, 2000 unsold
    // Bin 2: 5000 tokens sold (capped), 10000000 payment, 0 unsold
    assert_eq!(result.total_payment_tokens, 18000000); // 8000000 + 10000000
    assert_eq!(result.total_unsold_sale_tokens, 2000); // 2000 + 0
}

#[test]
fn test_check_all_bins_fully_claimed() {
    let auction_bins = vec![AuctionBin {
        sale_token_price: 1000,
        sale_token_cap: 10000,
        payment_token_raised: 15000000, // Oversubscribed: 15000 tokens demanded, 10000 cap
        sale_token_claimed: 0,
    }];

    // Calculate actual entitlements using the allocation algorithm
    let user_committed = 3000000;
    let bin_target = auction_bins[0].sale_token_cap * auction_bins[0].sale_token_price;
    let claimable = calculate_claimable_amounts(
        user_committed,
        bin_target,
        auction_bins[0].payment_token_raised,
        auction_bins[0].sale_token_price,
    )
    .unwrap();

    let committed_bins = vec![CommittedBin {
        bin_id: 0,
        payment_token_committed: user_committed,
        sale_token_claimed: claimable.sale_tokens,
        payment_token_refunded: claimable.refund_payment_tokens,
    }];

    // Test fully claimed
    let result = check_all_bins_fully_claimed(&committed_bins, &auction_bins).unwrap();
    assert!(result);

    // Test not fully claimed (less sale tokens claimed)
    let committed_bins_partial = vec![CommittedBin {
        bin_id: 0,
        payment_token_committed: user_committed,
        sale_token_claimed: claimable.sale_tokens - 1, // Less than entitled
        payment_token_refunded: claimable.refund_payment_tokens,
    }];

    let result = check_all_bins_fully_claimed(&committed_bins_partial, &auction_bins).unwrap();
    assert!(!result);

    // Test not fully claimed (less refund claimed)
    let committed_bins_partial2 = vec![CommittedBin {
        bin_id: 0,
        payment_token_committed: user_committed,
        sale_token_claimed: claimable.sale_tokens,
        payment_token_refunded: claimable.refund_payment_tokens - 1, // Less than entitled
    }];

    let result = check_all_bins_fully_claimed(&committed_bins_partial2, &auction_bins).unwrap();
    assert!(!result);
}

#[test]
fn test_calculate_withdrawable_fees() {
    // Test normal case
    let result = calculate_withdrawable_fees(1000, 300).unwrap();
    assert_eq!(result, 700);

    // Test no fees to withdraw
    let result = calculate_withdrawable_fees(1000, 1000).unwrap();
    assert_eq!(result, 0);

    // Test first withdrawal
    let result = calculate_withdrawable_fees(500, 0).unwrap();
    assert_eq!(result, 500);
}

#[test]
fn test_edge_cases_withdraw_amounts() {
    // Test zero payment raised
    let result = calculate_bin_withdraw_amounts(0, 1000, 1000).unwrap();
    assert_eq!(result.sale_tokens_sold, 0);
    assert_eq!(result.payment_tokens_to_withdraw, 0);
    assert_eq!(result.unsold_sale_tokens, 1000);

    // Test zero bin capacity
    let result = calculate_bin_withdraw_amounts(5000000, 0, 1000).unwrap();
    assert_eq!(result.sale_tokens_sold, 0);
    assert_eq!(result.payment_tokens_to_withdraw, 0);
    assert_eq!(result.unsold_sale_tokens, 0);
}

#[test]
fn ratio_of_a_bin_that_raised_nothing_is_a_division_by_zero() {
    assert_eq!(AllocationRatio::calculate(1000, 0).err(), Some(ResetError::DivisionByZero));
    assert_eq!(
        calculate_claimable_amounts(0, 1000, 0, 10).err(),
        Some(ResetError::DivisionByZero)
    );
}

#[test]
fn ratio_overflows_only_when_oversubscribed() {
    // target * 10^9 leaves 64 bits, and the bin raised more than the target
    let target = u64::MAX / 2;
    assert_eq!(
        AllocationRatio::calculate(target, target + 1).err(),
        Some(ResetError::MathOverflow)
    );
    // the same target, not oversubscribed: no product is formed
    assert_eq!(AllocationRatio::calculate(target, target).unwrap().raw_ratio(), PRECISION_FACTOR);
}

#[test]
fn ratio_at_the_boundary_of_the_target_is_full() {
    assert!(AllocationRatio::calculate(2000, 2000).unwrap().is_full_allocation());
    assert_eq!(AllocationRatio::calculate(2000, 2001).unwrap().raw_ratio(), 999500249);
}

#[test]
fn applying_a_ratio_overflows_on_a_large_commitment() {
    let ratio = AllocationRatio::calculate(1000, 1500).unwrap();
    assert_eq!(ratio.apply_to_commitment(u64::MAX).err(), Some(ResetError::MathOverflow));
    assert_eq!(
        calculate_claimable_amounts(u64::MAX, 1000, 1500, 10).err(),
        Some(ResetError::MathOverflow)
    );
}

#[test]
fn claimable_amounts_at_price_zero_is_a_division_by_zero() {
    assert_eq!(
        calculate_claimable_amounts(1000, 2000, 3000, 0).err(),
        Some(ResetError::DivisionByZero)
    );
}

#[test]
fn effective_and_refund_add_up_to_the_commitment() {
    let commitments: [u64; 6] = [0, 1, 7, 999, 1_000_000_007, 18_000_000_000];
    let bins: [(u64, u64); 4] = [(2000, 3000), (1, 1_000_000), (5000, 5000), (7, 13)];
    for (target, raised) in bins {
        for committed in commitments {
            let amounts = calculate_claimable_amounts(committed, target, raised, 3).unwrap();
            assert_eq!(
                amounts.effective_payment_tokens + amounts.refund_payment_tokens,
                committed
            );
            assert_eq!(amounts.validate(committed), Ok(()));
            assert_eq!(amounts.sale_tokens, amounts.effective_payment_tokens / 3);
        }
    }
}

#[test]
fn validate_tells_an_inconsistent_calculation() {
    let amounts = calculate_claimable_amounts(1000, 2000, 3000, 10).unwrap();
    assert_eq!(amounts.validate(999), Err(ResetError::InvalidCalculation));
    let mut broken = amounts;
    broken.effective_payment_tokens = u64::MAX;
    assert_eq!(broken.validate(1000), Err(ResetError::MathOverflow));
}

#[test]
fn claimable_amounts_are_the_same_when_asked_twice() {
    let first = calculate_claimable_amounts(1500, 2000, 3000, 10).unwrap();
    let second = calculate_claimable_amounts(1500, 2000, 3000, 10).unwrap();
    assert_eq!(first.sale_tokens, second.sale_tokens);
    assert_eq!(first.refund_payment_tokens, second.refund_payment_tokens);
    assert_eq!(first.effective_payment_tokens, second.effective_payment_tokens);
    assert_eq!(first.allocation_ratio.raw_ratio(), second.allocation_ratio.raw_ratio());
    assert_eq!(
        calculate_claimable_amounts(1500, 2000, 0, 10).err(),
        calculate_claimable_amounts(1500, 2000, 0, 10).err()
    );
}

#[test]
fn bin_ratio_is_full_up_to_capacity_times_price() {
    // price 10, capacity 200: target 2000
    let mut bin = AuctionBin {
        sale_token_price: 10,
        sale_token_cap: 200,
        payment_token_raised: 2000,
        sale_token_claimed: 0,
    };
    let full = calculate_bin_claimable_amounts(&bin, 700).unwrap();
    assert!(full.allocation_ratio.is_full_allocation());
    assert_eq!(full.refund_payment_tokens, 0);
    assert_eq!(full.effective_payment_tokens, 700);
    assert_eq!(full.sale_tokens, 70);

    bin.payment_token_raised = 3000;
    let scaled = calculate_bin_claimable_amounts(&bin, 700).unwrap();
    assert_eq!(scaled.allocation_ratio.raw_ratio(), 200 * 10 * PRECISION_FACTOR / 3000);
    assert_eq!(scaled.effective_payment_tokens, 466);
    assert_eq!(scaled.refund_payment_tokens, 234);
}

#[test]
fn bin_target_that_leaves_64_bits_is_an_overflow() {
    let bin = AuctionBin {
        sale_token_price: u64::MAX,
        sale_token_cap: 2,
        payment_token_raised: 10,
        sale_token_claimed: 0,
    };
    assert_eq!(calculate_bin_claimable_amounts(&bin, 5).err(), Some(ResetError::MathOverflow));
}

#[test]
fn scenario_oversubscribed_bin_with_two_users() {
    // price=10, capacity=200 (target=2000); users commit 1000 and 2000
    let bin = AuctionBin {
        sale_token_price: 10,
        sale_token_cap: 200,
        payment_token_raised: 3000,
        sale_token_claimed: 0,
    };
    let ratio = AllocationRatio::calculate(2000, 3000).unwrap();
    assert_eq!(ratio.raw_ratio(), 666666666);

    let a = calculate_bin_claimable_amounts(&bin, 1000).unwrap();
    assert_eq!(a.effective_payment_tokens, 666);
    assert_eq!(a.refund_payment_tokens, 334);
    assert_eq!(a.sale_tokens, 66);

    // 2000 * 666666666 / 10^9 = 1333, rounded down
    let b = calculate_bin_claimable_amounts(&bin, 2000).unwrap();
    assert_eq!(b.effective_payment_tokens, 1333);
    assert_eq!(b.refund_payment_tokens, 667);
    assert_eq!(b.effective_payment_tokens + b.refund_payment_tokens, 2000);
    assert_eq!(b.sale_tokens, 133);

    // together the two users get no more than the bin holds
    assert!(a.sale_tokens + b.sale_tokens <= bin.sale_token_cap);
}

#[test]
fn scenario_undersubscribed_bin() {
    let ratio = AllocationRatio::calculate(1000, 800).unwrap();
    assert!(ratio.is_full_allocation());
    assert_eq!(ratio.apply_to_commitment(500).unwrap(), (500, 0));
}

#[test]
fn bin_withdraw_at_price_zero_is_a_division_by_zero() {
    assert_eq!(
        calculate_bin_withdraw_amounts(100, 100, 0).err(),
        Some(ResetError::DivisionByZero)
    );
}

#[test]
fn total_withdraw_stops_at_the_first_failure() {
    let good = AuctionBin {
        sale_token_price: 1,
        sale_token_cap: u64::MAX,
        payment_token_raised: u64::MAX,
        sale_token_claimed: 0,
    };
    let zero_price = AuctionBin {
        sale_token_price: 0,
        sale_token_cap: 1,
        payment_token_raised: 1,
        sale_token_claimed: 0,
    };
    // the payment total leaves 64 bits at the second bin
    assert_eq!(
        calculate_total_withdraw_amounts(&[good, good, zero_price]).err(),
        Some(ResetError::MathOverflow)
    );
    // the zero price comes first
    assert_eq!(
        calculate_total_withdraw_amounts(&[good, zero_price, good]).err(),
        Some(ResetError::DivisionByZero)
    );
    let nothing = calculate_total_withdraw_amounts(&[]).unwrap();
    assert_eq!(nothing.total_payment_tokens, 0);
    assert_eq!(nothing.total_unsold_sale_tokens, 0);
}

#[test]
fn withdrawable_fees_underflow() {
    assert_eq!(calculate_withdrawable_fees(10, 11), Err(ResetError::MathUnderflow));
}

#[test]
fn fully_claimed_reports_the_first_entry_that_decides() {
    let auction_bins = vec![AuctionBin {
        sale_token_price: 10,
        sale_token_cap: 200,
        payment_token_raised: 3000,
        sale_token_claimed: 0,
    }];
    let settled = CommittedBin {
        bin_id: 0,
        payment_token_committed: 1000,
        sale_token_claimed: 66,
        payment_token_refunded: 334,
    };
    let open = CommittedBin { sale_token_claimed: 65, ..settled };
    let stray = CommittedBin { bin_id: 4, ..settled };
    assert_eq!(check_all_bins_fully_claimed(&[], &auction_bins), Ok(true));
    assert_eq!(check_all_bins_fully_claimed(&[settled, settled], &auction_bins), Ok(true));
    // an open entry before a stray one hides the stray one
    assert_eq!(check_all_bins_fully_claimed(&[settled, open, stray], &auction_bins), Ok(false));
    assert_eq!(
        check_all_bins_fully_claimed(&[settled, stray, open], &auction_bins),
        Err(ResetError::InvalidBinId)
    );
}
