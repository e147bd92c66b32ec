//! The fee schedule of an office: what one wrong field costs, by the price
//! of the product.
use vstd::prelude::*;

verus! {

/// How an office prices one wrong field.
#[derive(Debug, PartialEq)]
pub enum Fee {
    /// The factor times the price of the product.
    Percentage(u32),
    /// The same amount, whatever the price.
    Flat(u64),
    /// A table read pair by pair, `border[i]` with `fee[i]`: the fee is that
    /// of the last pair whose border the price is under, and zero where the
    /// price is under none. What one list has beyond the other's length is
    /// not read.
    ProgressiveFlat { border: Vec<u64>, fee: Vec<u64> },
}

/// The fee that the first `n` pairs of a table give for `price`: that of the
/// last pair among them whose border the price is under, zero if there is
/// none.
pub open spec fn tier_fee(border: Seq<u64>, fee: Seq<u64>, price: u64, n: nat) -> u64
    recommends
        n <= border.len(),
        n <= fee.len(),
    decreases n,
{
    if n == 0 {
        0
    } else if price < border[n - 1] {
        fee[n - 1]
    } else {
        tier_fee(border, fee, price, (n - 1) as nat)
    }
}

/// The number of pairs in a table: the length of the shorter list.
pub open spec fn pairs(border: Seq<u64>, fee: Seq<u64>) -> nat {
    if border.len() <= fee.len() {
        border.len()
    } else {
        fee.len()
    }
}

/// The last pair that matches decides, and without a match the fee is zero.
pub proof fn tier_fee_is_last_match(border: Seq<u64>, fee: Seq<u64>, price: u64, n: nat)
    requires
        n <= border.len(),
        n <= fee.len(),
    ensures
        (forall|j: int| 0 <= j < n ==> price >= border[j]) ==> tier_fee(border, fee, price, n)
            == 0,
        forall|j: int|
            0 <= j < n && price < border[j] && (forall|k: int| j < k < n ==> price >= border[k])
                ==> tier_fee(border, fee, price, n) == #[trigger] fee[j],
    decreases n,
{
    if n > 0 {
        tier_fee_is_last_match(border, fee, price, (n - 1) as nat);
        if price < border[n - 1] {
            assert forall|j: int|
                0 <= j < n && price < border[j] && (forall|k: int|
                    j < k < n ==> price >= border[k]) implies tier_fee(border, fee, price, n)
                == #[trigger] fee[j] by {
                if j < n - 1 {
                    assert(price >= border[n - 1]);
                }
            }
        } else {
            assert forall|j: int|
                0 <= j < n && price < border[j] && (forall|k: int|
                    j < k < n ==> price >= border[k]) implies tier_fee(border, fee, price, n)
                == #[trigger] fee[j] by {
                assert(j < n - 1);
                assert(forall|k: int| j < k < n - 1 ==> price >= border[k]);
            }
        }
    }
}

/// What a fee schedule says.
pub ghost enum FeeView {
    Percentage(u32),
    Flat(u64),
    ProgressiveFlat { border: Seq<u64>, fee: Seq<u64> },
}

impl View for Fee {
    type V = FeeView;

    open spec fn view(&self) -> FeeView {
        match self {
            Fee::Percentage(factor) => FeeView::Percentage(*factor),
            Fee::Flat(amount) => FeeView::Flat(*amount),
            Fee::ProgressiveFlat { border, fee } => FeeView::ProgressiveFlat {
                border: border@,
                fee: fee@,
            },
        }
    }
}

impl Clone for Fee {
    fn clone(&self) -> (r: Self)
        ensures
            r@ == self@,
    {
        match self {
            Fee::Percentage(factor) => Fee::Percentage(*factor),
            Fee::Flat(amount) => Fee::Flat(*amount),
            Fee::ProgressiveFlat { border, fee } => {
                let b = border.clone();
                let f = fee.clone();
                assert(b@ =~= border@);
                assert(f@ =~= fee@);
                Fee::ProgressiveFlat { border: b, fee: f }
            },
        }
    }
}

impl FeeView {
    /// The fee for one wrong field on a product of this price.
    pub open spec fn fee_for(self, price: u64) -> int {
        match self {
            FeeView::Percentage(factor) => factor * price,
            FeeView::Flat(amount) => amount as int,
            FeeView::ProgressiveFlat { border, fee } => tier_fee(
                border,
                fee,
                price,
                pairs(border, fee),
            ) as int,
        }
    }

    /// The fee is a matter of the schedule and the price alone: what says the
    /// same charges the same.
    pub proof fn fee_for_same_schedule(self, other: FeeView, price: u64)
        requires
            self == other,
        ensures
            self.fee_for(price) == other.fee_for(price),
    {
    }

    /// No fee exceeds the largest factor times the largest price.
    pub proof fn fee_for_bounded(self, price: u64)
        ensures
            0 <= self.fee_for(price) <= u32::MAX * u64::MAX,
    {
        match self {
            FeeView::Percentage(factor) => {
                assert(0 <= factor * price <= u32::MAX * u64::MAX) by (nonlinear_arith)
                    requires
                        0 <= factor <= u32::MAX,
                        0 <= price <= u64::MAX,
                ;
            },
            _ => {},
        }
    }
}

impl Fee {

    /// The fee for one wrong field on a product of this price.
    pub fn calculate_fee(&self, product_price: u64) -> (r: u128)
        ensures
            r == self@.fee_for(product_price),
    {
        proof {
            self@.fee_for_bounded(product_price);
        }
        match self {
            Fee::Percentage(factor) => {
                let f: u128 = *factor as u128;
                let p: u128 = product_price as u128;
                assert(f * p == *factor * product_price);
                f * p
            },
            Fee::Flat(amount) => *amount as u128,
            Fee::ProgressiveFlat { border, fee } => {
                let n: usize = if border.len() <= fee.len() {
                    border.len()
                } else {
                    fee.len()
                };
                let mut calc_fee: u64 = 0;
                let mut i: usize = 0;
                while i < n
                    invariant
                        i <= n,
                        n <= border.len(),
                        n <= fee.len(),
                        calc_fee == tier_fee(border@, fee@, product_price, i as nat),
                    decreases n - i,
                {
                    if product_price < border[i] {
                        calc_fee = fee[i];
                    }
                    i += 1;
                }
                calc_fee as u128
            },
        }
    }
}

impl Default for Fee {
    /// No fee at all.
    fn default() -> (r: Self)
        ensures
            r@ == FeeView::Flat(0),
    {
        Fee::Flat(0)
    }
}

} // verus!
