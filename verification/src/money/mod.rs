//! Currencies: holdings of money that are read and changed in one reference unit.
//!
//! A currency has a fixed exchange rate, the worth of one of its units in
//! reference units. A holding keeps a balance in its currency's own unit;
//! what is put in and taken out is given in whole reference units, so the
//! worth of a balance is always a whole number, while the balance in the
//! currency's own unit is an exact fraction.

use vstd::prelude::*;
use crate::ratio::Ratio;

pub mod any;
pub mod dollar;
pub mod euro;
pub mod ouguiya;

pub use any::AnyMoney;
pub use dollar::Dollar;
pub use euro::Euro;
pub use ouguiya::Ouguiya;

verus! {

/// Whether `value` is a number of reference units that a holding can be worth.
pub open spec fn representable(value: int) -> bool {
    i64::MIN <= value <= i64::MAX
}

/// What a holding is: the exchange rate of its currency and its value.
pub struct Balance {
    /// The exchange rate: what one unit of the currency is worth in reference units.
    pub rate: real,
    /// The value: what the holding is worth in reference units. It is
    /// negative where more was taken out than was put in.
    pub value: int,
}

impl Balance {
    /// The amount: the balance in the currency's own unit, which is the value
    /// divided by the rate.
    pub open spec fn amount(self) -> real {
        self.value as real / self.rate
    }

    /// The balance after `amount` reference units were put in.
    pub open spec fn plus(self, amount: int) -> Balance {
        Balance { rate: self.rate, value: self.value + amount }
    }

    /// The balance after `amount` reference units were taken out.
    pub open spec fn minus(self, amount: int) -> Balance {
        Balance { rate: self.rate, value: self.value - amount }
    }

    /// The value is the amount times the rate, and the amount differs from
    /// the value unless the rate is one or the holding is worth nothing.
    pub proof fn lemma_amount(self)
        requires
            self.rate > 0real,
        ensures
            self.amount() * self.rate == self.value as real,
            self.rate != 1real && self.value != 0 ==> self.amount() != self.value as real,
    {
        let value = self.value as real;
        let rate = self.rate;
        assert((value / rate) * rate == value) by (nonlinear_arith)
            requires
                rate > 0real,
        ;
        assert(value * rate == value ==> value == 0real || rate == 1real) by (nonlinear_arith);
    }

    /// Putting money in adds it, divided by the rate, to the amount; taking
    /// money out subtracts as much; so each undoes the other.
    pub proof fn lemma_plus_minus(self, amount: int)
        requires
            self.rate > 0real,
        ensures
            self.plus(amount).amount() == self.amount() + amount as real / self.rate,
            self.minus(amount).amount() == self.amount() - amount as real / self.rate,
            self.plus(amount).minus(amount) == self,
            self.minus(amount).plus(amount) == self,
    {
        let value = self.value as real;
        let change = amount as real;
        let rate = self.rate;
        assert((value + change) / rate == value / rate + change / rate) by (nonlinear_arith)
            requires
                rate > 0real,
        ;
        assert((value - change) / rate == value / rate - change / rate) by (nonlinear_arith)
            requires
                rate > 0real,
        ;
    }
}

/// A holding of money in one currency, read and changed in reference units.
///
/// This is what an account asks of its money, whatever the currency. What
/// belongs to a currency as such, its rate and the making of a holding, is
/// in `Currency`.
pub trait Money {
    /// The rate of the holding's currency and the value of the holding.
    spec fn balance(&self) -> Balance;

    /// The balance in this currency's own unit: the value divided by the
    /// rate, which is positive.
    fn amount(&self) -> (r: Ratio)
        ensures
            self.balance().rate > 0real,
            r.denom > 0,
            r@ == self.balance().amount(),
    ;

    /// The balance in reference units.
    fn value(&self) -> (r: i64)
        ensures
            r == self.balance().value,
    ;

    /// Put `amount` reference units into the holding.
    fn add(&mut self, amount: i64)
        requires
            representable(old(self).balance().value + amount),
        ensures
            final(self).balance() == old(self).balance().plus(amount as int),
    ;

    /// Take `amount` reference units out of the holding. The balance may become negative.
    fn remove(&mut self, amount: i64)
        requires
            representable(old(self).balance().value - amount),
        ensures
            final(self).balance() == old(self).balance().minus(amount as int),
    ;
}

/// A currency: a kind of holding that has a rate of its own and can be made
/// from a number of reference units.
pub trait Currency: Money + Sized {
    /// What one unit of this currency is worth in reference units.
    spec fn rate() -> real;

    /// The rate is positive, and every holding of this currency has it.
    proof fn lemma_rate(m: Self)
        ensures
            Self::rate() > 0real,
            m.balance().rate == Self::rate(),
    ;

    /// The exchange rate of this currency.
    fn exchange_rate() -> (r: Ratio)
        ensures
            r.numer > 0,
            r.denom > 0,
            r@ == Self::rate(),
    ;

    /// A holding that is worth `value` reference units.
    fn from_value(value: i64) -> (m: Self)
        ensures
            m.balance() == (Balance { rate: Self::rate(), value: value as int }),
    ;

    /// The same holding, its currency no longer part of its type.
    fn into_any(self) -> (any: AnyMoney)
        ensures
            any.balance() == self.balance(),
    ;
}

} // verus!
