use vstd::prelude::*;
use crate::money::{Balance, Money};
use crate::ratio::Ratio;

verus! {

/// A holding of money in a currency that is chosen when the holding is made.
///
/// Holdings of different currencies have different types. Behind `AnyMoney`
/// they share one, so that accounts of any currency can stand side by side.
pub struct AnyMoney {
    pub inner: Box<dyn Money>,
}

impl Money for AnyMoney {
    open spec fn balance(&self) -> Balance {
        self.inner.balance()
    }

    fn amount(&self) -> (r: Ratio) {
        self.inner.amount()
    }

    fn value(&self) -> (r: i64) {
        self.inner.value()
    }

    fn add(&mut self, amount: i64) {
        self.inner.add(amount)
    }

    fn remove(&mut self, amount: i64) {
        self.inner.remove(amount)
    }
}

} // verus!
