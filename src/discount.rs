//! Discount strategies: pure maps from a price to a discounted price.
use vstd::prelude::*;

verus! {

/// Whether an integer fits in an `i64`.
pub open spec fn in_i64(x: int) -> bool {
    i64::MIN <= x <= i64::MAX
}

/// `price` reduced by `rate` percent, rounded down to a whole hundredth.
/// A rate above 100 gives a negative result; a negative rate raises the price.
pub open spec fn percent_off(price: int, rate: int) -> int {
    (price * (100 - rate)) / 100
}

/// `price` reduced by `amount`, never below zero.
pub open spec fn fixed_off(price: int, amount: int) -> int {
    if price - amount > 0 {
        price - amount
    } else {
        0
    }
}

/// A pricing transformation with a display name.
pub trait DiscountStrategy {
    /// What `apply_discount` returns on `price`.
    spec fn apply_spec(&self, price: int) -> int;

    /// The same strategy as a value of the runtime-dispatched `Discount`.
    spec fn dynamic(&self) -> Discount;

    /// The runtime-dispatched form of a strategy prices as the strategy does.
    proof fn lemma_dynamic_agrees(&self, price: int)
        ensures
            apply_dynamic(self.dynamic(), price) == self.apply_spec(price),
    ;

    /// The discounted price; the result must fit in an `i64`.
    fn apply_discount(&self, price: i64) -> (r: i64)
        requires
            in_i64(self.apply_spec(price as int)),
        ensures
            r == self.apply_spec(price as int),
    ;

    /// The strategy's display name, the same on every call.
    fn strategy_name(&self) -> (r: &'static str)
        ensures
            r@ == self.dynamic().name_spec(),
    ;
}

/// Leaves the price unchanged.
#[derive(Clone, Copy, Debug, PartialEq, Eq, Structural)]
pub struct NoDiscount;

/// Takes a whole number of percent off the price.
#[derive(Clone, Copy, Debug, PartialEq, Eq, Structural)]
pub struct PercentageDiscount(pub i64);

/// Takes a fixed amount off the price, flooring the result at zero.
#[derive(Clone, Copy, Debug, PartialEq, Eq, Structural)]
pub struct FixedDiscount(pub i64);

/// One of the three strategies, chosen at run time.
#[derive(Clone, Copy, Debug, PartialEq, Eq, Structural)]
pub enum Discount {
    NoDiscount(NoDiscount),
    Percentage(PercentageDiscount),
    Fixed(FixedDiscount),
}

pub const NO_DISCOUNT_NAME: &'static str = "No discount";

pub const PERCENTAGE_NAME: &'static str = "Percentage discount";

pub const FIXED_NAME: &'static str = "Fixed discount";

/// What a runtime-dispatched strategy does to `price`.
pub open spec fn apply_dynamic(d: Discount, price: int) -> int {
    match d {
        Discount::NoDiscount(_) => price,
        Discount::Percentage(PercentageDiscount(rate)) => percent_off(price, rate as int),
        Discount::Fixed(FixedDiscount(amount)) => fixed_off(price, amount as int),
    }
}

impl Discount {
    /// The display name of the strategy held.
    pub open spec fn name_spec(self) -> Seq<char> {
        match self {
            Discount::NoDiscount(_) => NO_DISCOUNT_NAME@,
            Discount::Percentage(_) => PERCENTAGE_NAME@,
            Discount::Fixed(_) => FIXED_NAME@,
        }
    }
}

impl DiscountStrategy for NoDiscount {
    open spec fn apply_spec(&self, price: int) -> int {
        price
    }

    open spec fn dynamic(&self) -> Discount {
        Discount::NoDiscount(*self)
    }

    proof fn lemma_dynamic_agrees(&self, price: int) {
    }

    fn apply_discount(&self, price: i64) -> (r: i64) {
        price
    }

    fn strategy_name(&self) -> (r: &'static str) {
        NO_DISCOUNT_NAME
    }
}

impl DiscountStrategy for PercentageDiscount {
    open spec fn apply_spec(&self, price: int) -> int {
        percent_off(price, self.0 as int)
    }

    open spec fn dynamic(&self) -> Discount {
        Discount::Percentage(*self)
    }

    proof fn lemma_dynamic_agrees(&self, price: int) {
    }

    fn apply_discount(&self, price: i64) -> (r: i64) {
        let factor: i128 = 100i128 - self.0 as i128;
        let p: i128 = price as i128;
        // Both factors are within about 2^63 in magnitude, so their product
        // stays far inside the range of an `i128`.
        assert(-0x8000_0000_0000_0000 <= p <= 0x7fff_ffff_ffff_ffff);
        assert(-0x7fff_ffff_ffff_ff9b <= factor <= 0x8000_0000_0000_0064);
        assert(-0x4000_0000_0000_0032_0000_0000_0000_0000 <= p * factor
            <= 0x4000_0000_0000_0032_0000_0000_0000_0000) by (nonlinear_arith)
            requires
                -0x8000_0000_0000_0000 <= p <= 0x7fff_ffff_ffff_ffff,
                -0x7fff_ffff_ffff_ff9b <= factor <= 0x8000_0000_0000_0064,
        ;
        let n: i128 = p * factor;
        let q: i128 = floor_div_100(n);
        q as i64
    }

    fn strategy_name(&self) -> (r: &'static str) {
        PERCENTAGE_NAME
    }
}

/// `n / 100` rounded toward negative infinity.
fn floor_div_100(n: i128) -> (q: i128)
    requires
        n > i128::MIN + 100,
    ensures
        q == n / 100,
{
    if n >= 0 {
        n / 100
    } else {
        let m: i128 = -n;
        let c: i128 = (m + 99) / 100;
        assert(-c == n / 100) by (nonlinear_arith)
            requires
                m == -n,
                m > 0,
                c == (m + 99) / 100,
        ;
        -c
    }
}

impl DiscountStrategy for FixedDiscount {
    open spec fn apply_spec(&self, price: int) -> int {
        fixed_off(price, self.0 as int)
    }

    open spec fn dynamic(&self) -> Discount {
        Discount::Fixed(*self)
    }

    proof fn lemma_dynamic_agrees(&self, price: int) {
    }

    fn apply_discount(&self, price: i64) -> (r: i64) {
        let d: i128 = price as i128 - self.0 as i128;
        if d > 0 {
            d as i64
        } else {
            0
        }
    }

    fn strategy_name(&self) -> (r: &'static str) {
        FIXED_NAME
    }
}

impl DiscountStrategy for Discount {
    open spec fn apply_spec(&self, price: int) -> int {
        apply_dynamic(*self, price)
    }

    open spec fn dynamic(&self) -> Discount {
        *self
    }

    proof fn lemma_dynamic_agrees(&self, price: int) {
    }

    fn apply_discount(&self, price: i64) -> (r: i64) {
        match self {
            Discount::NoDiscount(d) => d.apply_discount(price),
            Discount::Percentage(d) => d.apply_discount(price),
            Discount::Fixed(d) => d.apply_discount(price),
        }
    }

    fn strategy_name(&self) -> (r: &'static str) {
        match self {
            Discount::NoDiscount(d) => d.strategy_name(),
            Discount::Percentage(d) => d.strategy_name(),
            Discount::Fixed(d) => d.strategy_name(),
        }
    }
}

} // verus!
