use crate::errors::ResetError;
use crate::state::{AuctionBin, CommittedBin};
use vstd::prelude::*;

verus! {

/// Precision factor for fixed-point arithmetic (10^9 for 9 decimal places)
pub const PRECISION_FACTOR: u64 = 1_000_000_000;

/// The fraction of every commitment that counts toward purchase in a bin
/// with the given target and raised totals, scaled by `PRECISION_FACTOR`.
///
/// An undersubscribed bin settles at the full scale; an oversubscribed one at
/// `target / raised`, truncated to nine decimal places.
pub open spec fn allocation_ratio(target: int, raised: int) -> int
    recommends
        0 <= target,
        0 < raised,
{
    if raised <= target {
        PRECISION_FACTOR as int
    } else {
        target * PRECISION_FACTOR / raised
    }
}

/// The part of `committed` that counts toward purchase at `ratio`, truncated.
pub open spec fn effective_payment(ratio: int, committed: int) -> int {
    committed * ratio / (PRECISION_FACTOR as int)
}

/// What `AllocationRatio::calculate` yields for a bin's totals: the ratio, or
/// the arithmetic failure that stops the calculation.
pub open spec fn ratio_outcome(target: u64, raised: u64) -> Result<int, ResetError> {
    if raised == 0 {
        Err(ResetError::DivisionByZero)
    } else if raised > target && target * PRECISION_FACTOR > u64::MAX {
        Err(ResetError::MathOverflow)
    } else {
        Ok(allocation_ratio(target as int, raised as int))
    }
}

/// What applying a ratio to a commitment yields: the effective payment and
/// the refund, or the overflow of the scaled product.
pub open spec fn apply_outcome(ratio: int, committed: u64) -> Result<(int, int), ResetError> {
    if committed * ratio > u64::MAX {
        Err(ResetError::MathOverflow)
    } else {
        Ok((effective_payment(ratio, committed as int), committed - effective_payment(ratio, committed as int)))
    }
}

/// A user's entitlement in one bin, as mathematical integers.
pub struct Entitlement {
    /// Sale tokens the commitment buys.
    pub sale_tokens: int,
    /// Payment tokens handed back.
    pub refund_payment_tokens: int,
    /// Payment tokens that count toward purchase.
    pub effective_payment_tokens: int,
    /// The scaled ratio the bin settled at.
    pub ratio: int,
}

/// The entitlement of a commitment of `user_committed` in a bin with the
/// given target, raised total and price.
///
/// The ratio comes first, then its application to the commitment, then the
/// division by the price; the first step that fails decides the error. Sale
/// tokens are rounded down, in the operator's favour.
pub open spec fn claimable_outcome(
    user_committed: u64,
    bin_target: u64,
    bin_raised: u64,
    sale_token_price: u64,
) -> Result<Entitlement, ResetError> {
    match ratio_outcome(bin_target, bin_raised) {
        Err(e) => Err(e),
        Ok(ratio) => match apply_outcome(ratio, user_committed) {
            Err(e) => Err(e),
            Ok((effective, refund)) => if sale_token_price == 0 {
                Err(ResetError::DivisionByZero)
            } else {
                Ok(
                    (Entitlement {
                        sale_tokens: effective / (sale_token_price as int),
                        refund_payment_tokens: refund,
                        effective_payment_tokens: effective,
                        ratio,
                    }),
                )
            },
        },
    }
}

/// Allocation ratio using fixed-point arithmetic for precise calculations
#[derive(Debug, Clone, Copy)]
pub struct AllocationRatio {
    /// Ratio scaled by PRECISION_FACTOR (e.g., 666666666 = 66.6666666%)
    ratio: u64,
}

impl AllocationRatio {
    /// A ratio never exceeds the full scale.
    #[verifier::type_invariant]
    spec fn within_scale(self) -> bool {
        self.ratio <= PRECISION_FACTOR
    }

    /// The scaled value of the ratio.
    pub closed spec fn spec_raw_ratio(&self) -> u64 {
        self.ratio
    }

    /// Calculate allocation ratio for a bin
    ///
    /// Fails with `DivisionByZero` when nothing was raised, and with
    /// `MathOverflow` when the bin is oversubscribed and the scaled target
    /// does not fit in 64 bits.
    pub fn calculate(target_amount: u64, raised_amount: u64) -> (r: Result<Self, ResetError>)
        ensures
            match r {
                Ok(a) => ratio_outcome(target_amount, raised_amount) == Ok::<int, ResetError>(
                    a.spec_raw_ratio() as int,
                ),
                Err(e) => ratio_outcome(target_amount, raised_amount) == Err::<int, ResetError>(e),
            },
    {
        if raised_amount == 0 {
            return Err(ResetError::DivisionByZero);
        }
        let is_oversubscribed = raised_amount > target_amount;
        let ratio: u64 = if is_oversubscribed {
            // Oversubscribed: proportional allocation
            let scaled: u64 = match target_amount.checked_mul(PRECISION_FACTOR) {
                Some(v) => v,
                None => {
                    return Err(ResetError::MathOverflow);
                },
            };
            let q: u64 = match scaled.checked_div(raised_amount) {
                Some(v) => v,
                None => {
                    return Err(ResetError::DivisionByZero);
                },
            };
            assert(q < PRECISION_FACTOR) by (nonlinear_arith)
                requires
                    q == (target_amount * PRECISION_FACTOR) / (raised_amount as int),
                    target_amount < raised_amount,
                    PRECISION_FACTOR > 0,
            ;
            q
        } else {
            // Undersubscribed: 100% allocation
            PRECISION_FACTOR
        };
        Ok(AllocationRatio { ratio })
    }

    /// Apply allocation ratio to a user's commitment
    ///
    /// Returns the effective payment and the refund, which together make up
    /// the commitment. Fails with `MathOverflow` when the scaled product does
    /// not fit in 64 bits, and in no other case.
    pub fn apply_to_commitment(&self, payment_token_committed: u64) -> (r: Result<
        (u64, u64),
        ResetError,
    >)
        ensures
            match r {
                Ok((allocated, refund)) => apply_outcome(
                    self.spec_raw_ratio() as int,
                    payment_token_committed,
                ) == Ok::<(int, int), ResetError>((allocated as int, refund as int)) && allocated
                    + refund == payment_token_committed,
                Err(e) => apply_outcome(self.spec_raw_ratio() as int, payment_token_committed)
                    == Err::<(int, int), ResetError>(e),
            },
    {
        proof {
            use_type_invariant(self);
        }
        let product: u64 = match payment_token_committed.checked_mul(self.ratio) {
            Some(v) => v,
            None => {
                return Err(ResetError::MathOverflow);
            },
        };
        let allocated: u64 = match product.checked_div(PRECISION_FACTOR) {
            Some(v) => v,
            None => {
                return Err(ResetError::DivisionByZero);
            },
        };
        assert(allocated <= payment_token_committed) by (nonlinear_arith)
            requires
                allocated == (payment_token_committed * self.ratio) / (PRECISION_FACTOR as int),
                self.ratio <= PRECISION_FACTOR,
                PRECISION_FACTOR > 0,
        ;
        let refund: u64 = match payment_token_committed.checked_sub(allocated) {
            Some(v) => v,
            None => {
                return Err(ResetError::MathUnderflow);
            },
        };
        Ok((allocated, refund))
    }

    /// Get the raw ratio value (for debugging/testing)
    #[verifier::when_used_as_spec(spec_raw_ratio)]
    pub fn raw_ratio(&self) -> (v: u64)
        ensures
            v == self.spec_raw_ratio(),
    {
        self.ratio
    }

    /// Check if this represents 100% allocation (no oversubscription)
    pub fn is_full_allocation(&self) -> (b: bool)
        ensures
            b == (self.spec_raw_ratio() == PRECISION_FACTOR),
    {
        self.ratio == PRECISION_FACTOR
    }
}

/// Result of claimable amount calculation
#[derive(Debug, Clone, Copy)]
pub struct ClaimableAmounts {
    /// Sale tokens the user can claim
    pub sale_tokens: u64,
    /// Payment tokens to refund to user (oversubscription refund)
    pub refund_payment_tokens: u64,
    /// Effective payment tokens (what actually goes toward purchase)
    pub effective_payment_tokens: u64,
    /// The allocation ratio used for this calculation
    pub allocation_ratio: AllocationRatio,
}

impl View for ClaimableAmounts {
    type V = Entitlement;

    open spec fn view(&self) -> Entitlement {
        Entitlement {
            sale_tokens: self.sale_tokens as int,
            refund_payment_tokens: self.refund_payment_tokens as int,
            effective_payment_tokens: self.effective_payment_tokens as int,
            ratio: self.allocation_ratio.spec_raw_ratio() as int,
        }
    }
}

impl ClaimableAmounts {
    /// What `validate` answers: overflow of the sum first, then a sum that
    /// differs from the commitment.
    pub open spec fn validate_outcome(self, original_commitment: u64) -> Result<(), ResetError> {
        if self.effective_payment_tokens + self.refund_payment_tokens > u64::MAX {
            Err(ResetError::MathOverflow)
        } else if self.effective_payment_tokens + self.refund_payment_tokens
            != original_commitment {
            Err(ResetError::InvalidCalculation)
        } else {
            Ok(())
        }
    }

    /// Validate that the amounts are consistent
    ///
    /// The effective payment and the refund must add up to the commitment
    /// they were computed from.
    pub fn validate(&self, original_commitment: u64) -> (r: Result<(), ResetError>)
        ensures
            r == self.validate_outcome(original_commitment),
    {
        let total: u64 = match self.effective_payment_tokens.checked_add(
            self.refund_payment_tokens,
        ) {
            Some(v) => v,
            None => {
                return Err(ResetError::MathOverflow);
            },
        };
        if total != original_commitment {
            return Err(ResetError::InvalidCalculation);
        }
        Ok(())
    }
}

/// Whether `r` is what `calculate_claimable_amounts` returns for the given
/// arguments.
pub open spec fn is_claimable_result(
    r: Result<ClaimableAmounts, ResetError>,
    user_committed: u64,
    bin_target: u64,
    bin_raised: u64,
    sale_token_price: u64,
) -> bool {
    match r {
        Ok(c) => claimable_outcome(user_committed, bin_target, bin_raised, sale_token_price)
            == Ok::<Entitlement, ResetError>(c@),
        Err(e) => claimable_outcome(user_committed, bin_target, bin_raised, sale_token_price)
            == Err::<Entitlement, ResetError>(e),
    }
}

/// Calculate claimable amounts for a user in a specific bin
///
/// If the bin is not oversubscribed the whole commitment is effective and
/// nothing is refunded. If it is, the commitment is scaled by
/// `target / raised`, the rest is refunded. Sale tokens are the effective
/// payment divided by the price, rounded down.
///
/// The result depends on the four arguments alone, so an entitlement can be
/// recomputed at every claim.
pub fn calculate_claimable_amounts(
    user_committed: u64,
    bin_target: u64,
    bin_raised: u64,
    sale_token_price: u64,
) -> (r: Result<ClaimableAmounts, ResetError>)
    ensures
        is_claimable_result(r, user_committed, bin_target, bin_raised, sale_token_price),
        r matches Ok(c) ==> c.effective_payment_tokens + c.refund_payment_tokens
            == user_committed,
{
    // Calculate allocation ratio for this bin
    let ratio = match AllocationRatio::calculate(bin_target, bin_raised) {
        Ok(v) => v,
        Err(e) => {
            return Err(e);
        },
    };
    // Apply ratio to user's commitment to get effective payment amount
    let (effective_payment, refund_payment) = match ratio.apply_to_commitment(user_committed) {
        Ok(v) => v,
        Err(e) => {
            return Err(e);
        },
    };
    // Calculate sale tokens based on effective payment amount and price
    let sale_tokens: u64 = match effective_payment.checked_div(sale_token_price) {
        Some(v) => v,
        None => {
            return Err(ResetError::DivisionByZero);
        },
    };
    Ok(
        ClaimableAmounts {
            sale_tokens,
            refund_payment_tokens: refund_payment,
            effective_payment_tokens: effective_payment,
            allocation_ratio: ratio,
        },
    )
}

/// The entitlement of a commitment in `bin`, whose target is its capacity
/// times its price. The product must fit in 64 bits.
pub open spec fn bin_entitlement(bin: AuctionBin, user_committed: u64) -> Result<
    Entitlement,
    ResetError,
> {
    if bin.sale_token_cap * bin.sale_token_price > u64::MAX {
        Err(ResetError::MathOverflow)
    } else {
        claimable_outcome(
            user_committed,
            (bin.sale_token_cap * bin.sale_token_price) as u64,
            bin.payment_token_raised,
            bin.sale_token_price,
        )
    }
}

/// Calculate what a commitment of `user_committed` is entitled to in `bin`,
/// from the bin's current totals.
pub fn calculate_bin_claimable_amounts(bin: &AuctionBin, user_committed: u64) -> (r: Result<
    ClaimableAmounts,
    ResetError,
>)
    ensures
        match r {
            Ok(c) => bin_entitlement(*bin, user_committed) == Ok::<Entitlement, ResetError>(c@)
                && c.effective_payment_tokens + c.refund_payment_tokens == user_committed,
            Err(e) => bin_entitlement(*bin, user_committed) == Err::<Entitlement, ResetError>(e),
        },
{
    // Calculate bin target (sale tokens * price)
    let bin_target: u64 = match bin.sale_token_cap.checked_mul(bin.sale_token_price) {
        Some(v) => v,
        None => {
            return Err(ResetError::MathOverflow);
        },
    };
    calculate_claimable_amounts(
        user_committed,
        bin_target,
        bin.payment_token_raised,
        bin.sale_token_price,
    )
}

/// Result of bin withdraw amount calculation
#[derive(Debug, Clone, Copy)]
pub struct WithdrawAmounts {
    /// Payment tokens that should be withdrawn to admin
    pub payment_tokens_to_withdraw: u64,
    /// Sale tokens that remain unsold
    pub unsold_sale_tokens: u64,
    /// Sale tokens that were actually sold
    pub sale_tokens_sold: u64,
}

/// Result of total withdraw amount calculation across all bins
#[derive(Debug, Clone, Copy)]
pub struct TotalWithdrawAmounts {
    /// Total payment tokens to withdraw across all bins
    pub total_payment_tokens: u64,
    /// Total unsold sale tokens across all bins
    pub total_unsold_sale_tokens: u64,
}

/// Sale tokens a bin has sold: what the raised payment buys at the bin's
/// price, capped by the bin's capacity.
pub open spec fn sale_tokens_sold(raised: u64, cap: u64, price: u64) -> int
    recommends
        price > 0,
{
    if raised / price <= cap {
        (raised / price) as int
    } else {
        cap as int
    }
}

/// The operator's settlement of one bin: what was sold, the payment due for
/// it, and the unsold remainder. It fails only for a zero price.
pub open spec fn bin_withdraw_outcome(raised: u64, cap: u64, price: u64) -> Result<
    WithdrawAmounts,
    ResetError,
> {
    if price == 0 {
        Err(ResetError::DivisionByZero)
    } else {
        Ok(
            (WithdrawAmounts {
                payment_tokens_to_withdraw: (sale_tokens_sold(raised, cap, price) * price) as u64,
                unsold_sale_tokens: (cap - sale_tokens_sold(raised, cap, price)) as u64,
                sale_tokens_sold: sale_tokens_sold(raised, cap, price) as u64,
            }),
        )
    }
}

/// The payment due for a bin never exceeds what the bin raised, and the
/// sold and unsold tokens make up the bin's capacity.
pub proof fn lemma_bin_withdraw_bounds(raised: u64, cap: u64, price: u64)
    requires
        price > 0,
    ensures
        0 <= sale_tokens_sold(raised, cap, price) <= cap,
        sale_tokens_sold(raised, cap, price) * price <= raised,
        sale_tokens_sold(raised, cap, price) * price + price > raised || sale_tokens_sold(
            raised,
            cap,
            price,
        ) == cap,
{
    let d = (raised / price) as int;
    assert(d * price <= raised && d * price + price > raised) by (nonlinear_arith)
        requires
            d == (raised as int) / (price as int),
            price > 0,
            raised >= 0,
    ;
    let s = sale_tokens_sold(raised, cap, price);
    assert(s * price <= d * price) by (nonlinear_arith)
        requires
            0 <= s <= d,
            price > 0,
    ;
}

/// Calculate withdrawal amounts for a single bin for admin withdraw_funds
///
/// * `bin_payment_raised` - Total payment tokens raised in this bin
/// * `bin_sale_token_cap` - Sale token capacity of this bin
/// * `bin_sale_token_price` - Price per sale token in this bin
pub fn calculate_bin_withdraw_amounts(
    bin_payment_raised: u64,
    bin_sale_token_cap: u64,
    bin_sale_token_price: u64,
) -> (r: Result<WithdrawAmounts, ResetError>)
    ensures
        r == bin_withdraw_outcome(bin_payment_raised, bin_sale_token_cap, bin_sale_token_price),
        r matches Ok(w) ==> w.sale_tokens_sold + w.unsold_sale_tokens == bin_sale_token_cap
            && w.payment_tokens_to_withdraw == w.sale_tokens_sold * bin_sale_token_price
            && w.payment_tokens_to_withdraw <= bin_payment_raised,
{
    // Calculate total sale tokens demanded based on payment raised and price
    let total_sale_tokens_demanded: u64 = match bin_payment_raised.checked_div(
        bin_sale_token_price,
    ) {
        Some(v) => v,
        None => {
            return Err(ResetError::DivisionByZero);
        },
    };
    proof {
        lemma_bin_withdraw_bounds(bin_payment_raised, bin_sale_token_cap, bin_sale_token_price);
    }
    // Calculate actual sale tokens sold (capped by bin capacity)
    let sale_tokens_sold: u64 = if total_sale_tokens_demanded <= bin_sale_token_cap {
        total_sale_tokens_demanded
    } else {
        bin_sale_token_cap
    };
    // Calculate payment amount that should be withdrawn (effective payment)
    let payment_amount: u64 = match sale_tokens_sold.checked_mul(bin_sale_token_price) {
        Some(v) => v,
        None => {
            return Err(ResetError::MathOverflow);
        },
    };
    // Calculate unsold sale tokens
    let unsold_sale_tokens: u64 = match bin_sale_token_cap.checked_sub(sale_tokens_sold) {
        Some(v) => v,
        None => {
            return Err(ResetError::MathUnderflow);
        },
    };
    Ok(WithdrawAmounts { payment_tokens_to_withdraw: payment_amount, unsold_sale_tokens, sale_tokens_sold })
}

/// The operator's settlement of a sequence of bins, accumulated bin by bin
/// from the first. A bin with a zero price, or a running total that leaves
/// 64 bits, stops the accumulation with its error.
pub open spec fn total_withdraw_outcome(bins: Seq<AuctionBin>) -> Result<
    TotalWithdrawAmounts,
    ResetError,
>
    decreases bins.len(),
{
    if bins.len() == 0 {
        Ok((TotalWithdrawAmounts { total_payment_tokens: 0, total_unsold_sale_tokens: 0 }))
    } else {
        match total_withdraw_outcome(bins.drop_last()) {
            Err(e) => Err(e),
            Ok(acc) => match bin_withdraw_outcome(
                bins.last().payment_token_raised,
                bins.last().sale_token_cap,
                bins.last().sale_token_price,
            ) {
                Err(e) => Err(e),
                Ok(w) => if acc.total_payment_tokens + w.payment_tokens_to_withdraw > u64::MAX
                    || acc.total_unsold_sale_tokens + w.unsold_sale_tokens > u64::MAX {
                    Err(ResetError::MathOverflow)
                } else {
                    Ok(
                        (TotalWithdrawAmounts {
                            total_payment_tokens: (acc.total_payment_tokens
                                + w.payment_tokens_to_withdraw) as u64,
                            total_unsold_sale_tokens: (acc.total_unsold_sale_tokens
                                + w.unsold_sale_tokens) as u64,
                        }),
                    )
                },
            },
        }
    }
}

/// Sum of the payment due over `bins`, each with a non-zero price.
pub open spec fn total_payment_due(bins: Seq<AuctionBin>) -> int
    decreases bins.len(),
{
    if bins.len() == 0 {
        0
    } else {
        total_payment_due(bins.drop_last()) + sale_tokens_sold(
            bins.last().payment_token_raised,
            bins.last().sale_token_cap,
            bins.last().sale_token_price,
        ) * bins.last().sale_token_price
    }
}

/// Sum of the unsold sale tokens over `bins`, each with a non-zero price.
pub open spec fn total_unsold(bins: Seq<AuctionBin>) -> int
    decreases bins.len(),
{
    if bins.len() == 0 {
        0
    } else {
        total_unsold(bins.drop_last()) + bins.last().sale_token_cap - sale_tokens_sold(
            bins.last().payment_token_raised,
            bins.last().sale_token_cap,
            bins.last().sale_token_price,
        )
    }
}

/// The aggregate settlement succeeds exactly when every price is non-zero
/// and both sums fit in 64 bits; it then holds the two sums.
pub proof fn lemma_total_withdraw_is_sum(bins: Seq<AuctionBin>)
    ensures
        total_withdraw_outcome(bins) is Ok <==> (forall|i: int|
            0 <= i < bins.len() ==> (#[trigger] bins[i]).sale_token_price != 0)
            && total_payment_due(bins) <= u64::MAX && total_unsold(bins) <= u64::MAX,
        total_withdraw_outcome(bins) matches Ok(t) ==> t.total_payment_tokens == total_payment_due(
            bins,
        ) && t.total_unsold_sale_tokens == total_unsold(bins),
        (forall|i: int| 0 <= i < bins.len() ==> (#[trigger] bins[i]).sale_token_price != 0) ==> 0
            <= total_payment_due(bins) && 0 <= total_unsold(bins),
    decreases bins.len(),
{
    if bins.len() > 0 {
        let front = bins.drop_last();
        let b = bins.last();
        lemma_total_withdraw_is_sum(front);
        assert(forall|i: int| 0 <= i < front.len() ==> front[i] == bins[i]);
        assert(bins[bins.len() - 1] == b);
        if b.sale_token_price != 0 {
            lemma_bin_withdraw_bounds(b.payment_token_raised, b.sale_token_cap, b.sale_token_price);
            assert(0 <= sale_tokens_sold(b.payment_token_raised, b.sale_token_cap, b.sale_token_price) * b.sale_token_price) by (nonlinear_arith)
                requires
                    0 <= sale_tokens_sold(b.payment_token_raised, b.sale_token_cap, b.sale_token_price),
                    b.sale_token_price > 0,
            ;
        }
        if forall|i: int| 0 <= i < bins.len() ==> (#[trigger] bins[i]).sale_token_price != 0 {
            assert(forall|i: int| 0 <= i < front.len() ==> (#[trigger] front[i]).sale_token_price != 0);
        }
        if forall|i: int| 0 <= i < front.len() ==> (#[trigger] front[i]).sale_token_price != 0 {
            if b.sale_token_price != 0 {
                assert forall|i: int| 0 <= i < bins.len() implies (#[trigger] bins[i]).sale_token_price != 0 by {
                    if i < front.len() {
                        assert(front[i] == bins[i]);
                    }
                }
            }
        }
    }
}

/// Calculate all bins withdraw amounts for admin withdraw_funds
///
/// The totals are accumulated with checked addition, bin by bin.
pub fn calculate_total_withdraw_amounts(bins: &[AuctionBin]) -> (r: Result<
    TotalWithdrawAmounts,
    ResetError,
>)
    ensures
        r == total_withdraw_outcome(bins@),
{
    let mut total_payment_to_withdraw: u64 = 0;
    let mut total_unsold_sale_tokens: u64 = 0;
    let mut i: usize = 0;
    assert(bins@.take(0) =~= Seq::<AuctionBin>::empty());
    while i < bins.len()
        invariant
            0 <= i <= bins.len(),
            total_withdraw_outcome(bins@.take(i as int)) == Ok::<TotalWithdrawAmounts, ResetError>(
                (TotalWithdrawAmounts {
                    total_payment_tokens: total_payment_to_withdraw,
                    total_unsold_sale_tokens,
                }),
            ),
        decreases bins.len() - i,
    {
        let bin = &bins[i];
        proof {
            let next = bins@.take(i + 1);
            assert(next.drop_last() =~= bins@.take(i as int));
            assert(next.last() == bins@[i as int]);
            lemma_total_withdraw_stops(bins@, i + 1);
        }
        let bin_amounts = match calculate_bin_withdraw_amounts(
            bin.payment_token_raised,
            bin.sale_token_cap,
            bin.sale_token_price,
        ) {
            Ok(v) => v,
            Err(e) => {
                return Err(e);
            },
        };
        total_payment_to_withdraw =
        match total_payment_to_withdraw.checked_add(bin_amounts.payment_tokens_to_withdraw) {
            Some(v) => v,
            None => {
                return Err(ResetError::MathOverflow);
            },
        };
        total_unsold_sale_tokens =
        match total_unsold_sale_tokens.checked_add(bin_amounts.unsold_sale_tokens) {
            Some(v) => v,
            None => {
                return Err(ResetError::MathOverflow);
            },
        };
        i += 1;
    }
    assert(bins@.take(bins@.len() as int) =~= bins@);
    Ok(TotalWithdrawAmounts { total_payment_tokens: total_payment_to_withdraw, total_unsold_sale_tokens })
}

/// Once the accumulation over a prefix has failed, it fails in the same way
/// over the whole sequence.
proof fn lemma_total_withdraw_stops(bins: Seq<AuctionBin>, n: int)
    requires
        0 <= n <= bins.len(),
    ensures
        total_withdraw_outcome(bins.take(n)) matches Err(e) ==> total_withdraw_outcome(bins)
            == Err::<TotalWithdrawAmounts, ResetError>(e),
    decreases bins.len() - n,
{
    if n < bins.len() {
        let next = bins.take(n + 1);
        assert(next.drop_last() =~= bins.take(n));
        lemma_total_withdraw_stops(bins, n + 1);
    } else {
        assert(bins.take(n) =~= bins);
    }
}

/// Calculate available fees to withdraw
///
/// * `total_fees_collected` - Total fees collected so far
/// * `total_fees_withdrawn` - Total fees already withdrawn
pub fn calculate_withdrawable_fees(total_fees_collected: u64, total_fees_withdrawn: u64) -> (r:
    Result<u64, ResetError>)
    ensures
        total_fees_withdrawn <= total_fees_collected ==> r == Ok::<u64, ResetError>(
            (total_fees_collected - total_fees_withdrawn) as u64,
        ),
        total_fees_withdrawn > total_fees_collected ==> r == Err::<u64, ResetError>(
            ResetError::MathUnderflow,
        ),
{
    match total_fees_collected.checked_sub(total_fees_withdrawn) {
        Some(v) => Ok(v),
        None => Err(ResetError::MathUnderflow),
    }
}

/// Whether one entry of a commitment record is fully settled against the
/// bins of its auction: the user has claimed at least the sale tokens and
/// been refunded at least the payment the entry is entitled to.
///
/// An entry that names no bin of the auction is an error, as is an
/// entitlement that cannot be computed.
pub open spec fn entry_settled(entry: CommittedBin, auction_bins: Seq<AuctionBin>) -> Result<
    bool,
    ResetError,
> {
    if entry.bin_id >= auction_bins.len() {
        Err(ResetError::InvalidBinId)
    } else {
        match bin_entitlement(auction_bins[entry.bin_id as int], entry.payment_token_committed) {
            Err(e) => Err(e),
            Ok(entitled) => Ok(
                entry.sale_token_claimed >= entitled.sale_tokens && entry.payment_token_refunded
                    >= entitled.refund_payment_tokens,
            ),
        }
    }
}

/// Whether every entry of a commitment record is fully settled. The entries
/// are examined in order, and the first that is not settled, or that fails,
/// decides the answer.
pub open spec fn all_settled_outcome(
    committed_bins: Seq<CommittedBin>,
    auction_bins: Seq<AuctionBin>,
) -> Result<bool, ResetError>
    decreases committed_bins.len(),
{
    if committed_bins.len() == 0 {
        Ok(true)
    } else {
        match entry_settled(committed_bins[0], auction_bins) {
            Ok(true) => all_settled_outcome(committed_bins.skip(1), auction_bins),
            other => other,
        }
    }
}

/// A record is reported fully settled exactly when each of its entries is.
pub proof fn lemma_all_settled_iff_each(
    committed_bins: Seq<CommittedBin>,
    auction_bins: Seq<AuctionBin>,
)
    ensures
        all_settled_outcome(committed_bins, auction_bins) == Ok::<bool, ResetError>(true)
            <==> forall|i: int|
            0 <= i < committed_bins.len() ==> entry_settled(
                #[trigger] committed_bins[i],
                auction_bins,
            ) == Ok::<bool, ResetError>(true),
    decreases committed_bins.len(),
{
    if committed_bins.len() > 0 {
        let rest = committed_bins.skip(1);
        lemma_all_settled_iff_each(rest, auction_bins);
        assert(forall|i: int| 0 <= i < rest.len() ==> rest[i] == committed_bins[i + 1]);
        if all_settled_outcome(committed_bins, auction_bins) == Ok::<bool, ResetError>(true) {
            assert forall|i: int| 0 <= i < committed_bins.len() implies entry_settled(
                #[trigger] committed_bins[i],
                auction_bins,
            ) == Ok::<bool, ResetError>(true) by {
                if i > 0 {
                    assert(rest[i - 1] == committed_bins[i]);
                }
            }
        }
        if forall|i: int|
            0 <= i < committed_bins.len() ==> entry_settled(
                #[trigger] committed_bins[i],
                auction_bins,
            ) == Ok::<bool, ResetError>(true) {
            assert(entry_settled(committed_bins[0], auction_bins) == Ok::<bool, ResetError>(true));
            assert forall|i: int| 0 <= i < rest.len() implies entry_settled(
                #[trigger] rest[i],
                auction_bins,
            ) == Ok::<bool, ResetError>(true) by {
                assert(rest[i] == committed_bins[i + 1]);
            }
        }
    }
}

/// Check if all bins are fully claimed by a user
///
/// * `committed_bins` - User's committed bins
/// * `auction_bins` - Auction bins for reference
pub fn check_all_bins_fully_claimed(
    committed_bins: &[CommittedBin],
    auction_bins: &[AuctionBin],
) -> (r: Result<bool, ResetError>)
    ensures
        r == all_settled_outcome(committed_bins@, auction_bins@),
{
    let mut i: usize = 0;
    assert(committed_bins@.skip(0) =~= committed_bins@);
    while i < committed_bins.len()
        invariant
            0 <= i <= committed_bins.len(),
            all_settled_outcome(committed_bins@, auction_bins@) == all_settled_outcome(
                committed_bins@.skip(i as int),
                auction_bins@,
            ),
        decreases committed_bins.len() - i,
    {
        let committed_bin = &committed_bins[i];
        proof {
            let here = committed_bins@.skip(i as int);
            assert(here[0] == committed_bins@[i as int]);
            assert(here.skip(1) =~= committed_bins@.skip(i + 1));
        }
        // Find the corresponding auction bin
        let index = committed_bin.bin_id as usize;
        if index >= auction_bins.len() {
            return Err(ResetError::InvalidBinId);
        }
        let auction_bin = &auction_bins[index];
        // Calculate user's entitlements for this bin
        let claimable_amounts = match calculate_bin_claimable_amounts(
            auction_bin,
            committed_bin.payment_token_committed,
        ) {
            Ok(v) => v,
            Err(e) => {
                return Err(e);
            },
        };
        // Check if this bin is fully claimed
        let bin_fully_claimed = committed_bin.sale_token_claimed >= claimable_amounts.sale_tokens
            && committed_bin.payment_token_refunded >= claimable_amounts.refund_payment_tokens;
        if !bin_fully_claimed {
            return Ok(false);
        }
        i += 1;
    }
    Ok(true)
}

/// A ratio never exceeds the full scale, and an oversubscribed bin settles
/// strictly below it.
pub proof fn lemma_ratio_within_scale(target: int, raised: int)
    requires
        0 <= target,
        0 < raised,
    ensures
        0 <= allocation_ratio(target, raised) <= PRECISION_FACTOR,
        raised > target ==> allocation_ratio(target, raised) < PRECISION_FACTOR,
        raised <= target ==> allocation_ratio(target, raised) == PRECISION_FACTOR,
{
    if raised > target {
        let s = PRECISION_FACTOR as int;
        assert(0 <= (target * s) / raised < s) by (nonlinear_arith)
            requires
                0 <= target < raised,
                s > 0,
        ;
    }
}

/// The effective payment and the refund of a commitment add up to the
/// commitment, for every ratio up to the full scale; neither is negative.
pub proof fn lemma_effective_plus_refund(ratio: int, committed: u64)
    requires
        0 <= ratio <= PRECISION_FACTOR,
    ensures
        0 <= effective_payment(ratio, committed as int) <= committed,
        apply_outcome(ratio, committed) matches Ok((effective, refund)) ==> effective + refund
            == committed && 0 <= effective <= committed && 0 <= refund <= committed,
        ratio == PRECISION_FACTOR ==> effective_payment(ratio, committed as int) == committed,
{
    let s = PRECISION_FACTOR as int;
    let c = committed as int;
    assert(0 <= (c * ratio) / s <= c) by (nonlinear_arith)
        requires
            0 <= ratio <= s,
            0 <= c,
            s > 0,
    ;
    if ratio == s {
        assert((c * s) / s == c) by (nonlinear_arith)
            requires
                s > 0,
        ;
    }
}

/// Conservation of a commitment: whenever an entitlement can be computed,
/// its effective payment and its refund add up to the commitment exactly,
/// so the consistency check on it passes.
pub proof fn lemma_entitlement_conserves_commitment(
    user_committed: u64,
    bin_target: u64,
    bin_raised: u64,
    sale_token_price: u64,
)
    ensures
        claimable_outcome(user_committed, bin_target, bin_raised, sale_token_price) matches Ok(
            e,
        ) ==> e.effective_payment_tokens + e.refund_payment_tokens == user_committed && 0
            <= e.effective_payment_tokens <= user_committed && 0 <= e.refund_payment_tokens
            <= user_committed && 0 <= e.sale_tokens <= e.effective_payment_tokens && 0 <= e.ratio
            <= PRECISION_FACTOR,
        forall|c: ClaimableAmounts|
            claimable_outcome(user_committed, bin_target, bin_raised, sale_token_price) == Ok::<
                Entitlement,
                ResetError,
            >(#[trigger] c@) ==> c.validate_outcome(user_committed) == Ok::<(), ResetError>(()),
{
    if bin_raised != 0 {
        lemma_ratio_within_scale(bin_target as int, bin_raised as int);
        let ratio = allocation_ratio(bin_target as int, bin_raised as int);
        lemma_effective_plus_refund(ratio, user_committed);
        if sale_token_price != 0 {
            let eff = effective_payment(ratio, user_committed as int);
            let p = sale_token_price as int;
            assert(0 <= eff / p <= eff) by (nonlinear_arith)
                requires
                    0 <= eff,
                    p > 0,
            ;
        }
    }
}

/// The ratio of a bin: a bin that raised no more than its capacity times its
/// price settles at the full scale, so that every commitment is effective in
/// full and nothing is refunded; a bin that raised more settles at
/// `capacity * price * PRECISION_FACTOR / raised`, truncated.
pub proof fn lemma_bin_ratio(bin: AuctionBin, user_committed: u64)
    requires
        bin_entitlement(bin, user_committed) is Ok,
    ensures
        bin.payment_token_raised <= bin.sale_token_cap * bin.sale_token_price ==> {
            &&& bin_entitlement(bin, user_committed).unwrap().ratio == PRECISION_FACTOR
            &&& bin_entitlement(bin, user_committed).unwrap().effective_payment_tokens
                == user_committed
            &&& bin_entitlement(bin, user_committed).unwrap().refund_payment_tokens == 0
        },
        bin.payment_token_raised > bin.sale_token_cap * bin.sale_token_price ==> {
            &&& bin_entitlement(bin, user_committed).unwrap().ratio == (bin.sale_token_cap
                * bin.sale_token_price * PRECISION_FACTOR) / (bin.payment_token_raised as int)
            &&& bin_entitlement(bin, user_committed).unwrap().ratio < PRECISION_FACTOR
        },
{
    let target = bin.sale_token_cap * bin.sale_token_price;
    assert(0 <= target) by (nonlinear_arith)
        requires
            target == bin.sale_token_cap * bin.sale_token_price,
    ;
    lemma_ratio_within_scale(target, bin.payment_token_raised as int);
    lemma_effective_plus_refund(
        allocation_ratio(target, bin.payment_token_raised as int),
        user_committed,
    );
}

/// Recomputing an entitlement from unchanged totals gives the same answer:
/// two results of `calculate_claimable_amounts` for the same arguments are
/// equal, whether they are amounts or an error.
pub proof fn lemma_claimable_is_repeatable(
    first: Result<ClaimableAmounts, ResetError>,
    second: Result<ClaimableAmounts, ResetError>,
    user_committed: u64,
    bin_target: u64,
    bin_raised: u64,
    sale_token_price: u64,
)
    requires
        is_claimable_result(first, user_committed, bin_target, bin_raised, sale_token_price),
        is_claimable_result(second, user_committed, bin_target, bin_raised, sale_token_price),
    ensures
        first == second,
{
    if let Ok(a) = first {
        let b = second.unwrap();
        assert(a@ == b@);
        assert(a.allocation_ratio.ratio == b.allocation_ratio.ratio);
        assert(a.allocation_ratio == b.allocation_ratio);
        assert(a == b);
    }
}

} // verus!
