use vstd::prelude::*;
use crate::money::{AnyMoney, Balance, Currency, Money};
use crate::ratio::Ratio;

verus! {

/// A holding in dollars, the reference currency: one dollar is one reference unit.
pub struct Dollar {
    amount: i64,
}

impl Dollar {
    /// A holding without money.
    pub fn new() -> (m: Self)
        ensures
            m.balance() == (Balance { rate: Self::rate(), value: 0 }),
    {
        Self::with_amount(0)
    }

    /// A holding that is worth `amount` reference units.
    pub fn with_amount(amount: i64) -> (m: Self)
        ensures
            m.balance() == (Balance { rate: Self::rate(), value: amount as int }),
    {
        Self { amount }
    }
}

impl Money for Dollar {
    closed spec fn balance(&self) -> Balance {
        Balance { rate: 1real, value: self.amount as int }
    }

    fn amount(&self) -> (r: Ratio) {
        Ratio { numer: self.amount as i128, denom: 1 }
    }

    fn value(&self) -> (r: i64) {
        self.amount
    }

    fn add(&mut self, amount: i64) {
        self.amount = self.amount + amount;
    }

    fn remove(&mut self, amount: i64) {
        self.amount = self.amount - amount;
    }
}

impl Currency for Dollar {
    open spec fn rate() -> real {
        1real
    }

    proof fn lemma_rate(m: Self) {
    }

    fn exchange_rate() -> (r: Ratio) {
        let r = Ratio { numer: 1, denom: 1 };
        assert(r.numer as real == 1real && r.denom as real == 1real);
        r
    }

    fn from_value(value: i64) -> (m: Self) {
        Self::with_amount(value)
    }

    fn into_any(self) -> (any: AnyMoney) {
        AnyMoney { inner: Box::new(self) }
    }
}

impl From<i64> for Dollar {
    /// A holding that is worth `amount` reference units.
    fn from(amount: i64) -> (m: Self)
        ensures
            m.balance() == (Balance { rate: Self::rate(), value: amount as int }),
    {
        Self::with_amount(amount)
    }
}

impl vstd::std_specs::convert::FromSpecImpl<i64> for Dollar {
    open spec fn obeys_from_spec() -> bool {
        true
    }

    closed spec fn from_spec(amount: i64) -> Self {
        Dollar { amount }
    }
}

} // verus!
