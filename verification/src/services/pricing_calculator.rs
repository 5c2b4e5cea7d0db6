//! Taxes and discounts.
//!
//! Amounts are in cents, the tax rate is in basis points (hundredths of a
//! per cent) and discounts are in whole per cent. Results are rounded
//! towards zero to the cent.

use crate::domain::beverage::{cup_price, Beverage, MAX_BASE_PRICE};
use vstd::prelude::*;

verus! {

/// Works out prices with tax and discounts.
pub struct PricingCalculator {
    tax_rate: u16,
}

/// `amount` cents with tax at `rate` basis points added, rounded down.
pub open spec fn with_tax(amount: nat, rate: nat) -> nat {
    amount * (10_000 + rate) / 10_000
}

/// `price` cents less `percent` per cent, rounded towards zero. A discount
/// of more than a hundred per cent gives a negative price.
pub open spec fn discounted(price: nat, percent: nat) -> int {
    if percent <= 100 {
        price * (100 - percent) / 100
    } else {
        -(price * (percent - 100) / 100)
    }
}

/// The loyalty discount in per cent for a customer's `order_count`-th order:
/// ten for every tenth order, nothing otherwise.
pub open spec fn loyalty_discount(order_count: nat) -> nat {
    if order_count > 0 && order_count % 10 == 0 {
        10
    } else {
        0
    }
}

/// The sum of a list of prices.
pub open spec fn sum_of(prices: Seq<u32>) -> nat
    decreases prices.len(),
{
    if prices.len() == 0 {
        0
    } else {
        sum_of(prices.drop_last()) + prices.last() as nat
    }
}

impl PricingCalculator {
    /// The tax rate in basis points.
    pub closed spec fn rate(&self) -> nat {
        self.tax_rate as nat
    }

    /// A calculator with the given tax rate in basis points, such as `800`
    /// for 8 %.
    pub fn new(tax_rate: u16) -> (calculator: Self)
        ensures
            calculator.rate() == tax_rate,
    {
        PricingCalculator { tax_rate }
    }

    /// The price of a beverage in cents.
    pub fn calculate_beverage_price<B: Beverage + ?Sized>(&self, beverage: &B) -> (cents: u32)
        requires
            beverage.base_cents() <= MAX_BASE_PRICE,
        ensures
            cents == cup_price(beverage.base_cents(), beverage.size_view()),
    {
        beverage.price()
    }

    /// `base_price` with tax added; see [`with_tax`].
    pub fn calculate_price_with_tax(&self, base_price: u64) -> (cents: u128)
        ensures
            cents == with_tax(base_price as nat, self.rate()),
    {
        self.add_tax(base_price as u128)
    }

    /// The total for several beverages, given their prices, tax included:
    /// the tax is added to the sum of the prices, not to each price.
    pub fn calculate_total(&self, prices: &[u32]) -> (cents: u128)
        ensures
            cents == with_tax(sum_of(prices@), self.rate()),
    {
        let mut sum: u128 = 0;
        let mut i: usize = 0;
        while i < prices.len()
            invariant
                i <= prices.len(),
                sum == sum_of(prices@.take(i as int)),
                sum <= i * 0xffff_ffff,
            decreases prices.len() - i,
        {
            assert(prices@.take(i + 1).drop_last() =~= prices@.take(i as int));
            sum = sum + prices[i] as u128;
            i += 1;
        }
        assert(prices@.take(prices.len() as int) =~= prices@);
        assert(sum <= usize::MAX * 0xffff_ffff) by (nonlinear_arith)
            requires
                sum <= i * 0xffff_ffff,
                i <= usize::MAX,
        ;
        self.add_tax(sum)
    }

    /// `price` less `discount_percent` per cent; see [`discounted`].
    pub fn apply_discount(&self, price: u64, discount_percent: u8) -> (cents: i128)
        ensures
            cents == discounted(price as nat, discount_percent as nat),
    {
        if discount_percent <= 100 {
            let share: u128 = (100 - discount_percent) as u128;
            assert(price * share <= 0xffff_ffff_ffff_ffff * 100) by (nonlinear_arith)
                requires
                    price <= 0xffff_ffff_ffff_ffff,
                    share <= 100,
            ;
            (price as u128 * share / 100) as i128
        } else {
            let excess: u128 = (discount_percent - 100) as u128;
            assert(price * excess <= 0xffff_ffff_ffff_ffff * 155) by (nonlinear_arith)
                requires
                    price <= 0xffff_ffff_ffff_ffff,
                    excess <= 155,
            ;
            -((price as u128 * excess / 100) as i128)
        }
    }

    /// The loyalty discount in per cent; see [`loyalty_discount`].
    pub fn calculate_loyalty_discount(&self, order_count: u32) -> (percent: u8)
        ensures
            percent == loyalty_discount(order_count as nat),
    {
        if order_count > 0 && order_count % 10 == 0 {
            10
        } else {
            0
        }
    }

    /// Adds the tax to an amount that is small enough for the product to
    /// fit.
    fn add_tax(&self, amount: u128) -> (cents: u128)
        requires
            amount <= 0xffff_ffff_ffff_ffff * 0xffff_ffff,
        ensures
            cents == with_tax(amount as nat, self.rate()),
    {
        let factor: u128 = 10_000 + self.tax_rate as u128;
        assert(amount * factor <= 0xffff_ffff_ffff_ffff * 0xffff_ffff * 75_535)
            by (nonlinear_arith)
            requires
                amount <= 0xffff_ffff_ffff_ffff * 0xffff_ffff,
                factor <= 75_535,
        ;
        amount * factor / 10_000
    }
}

} // verus!
