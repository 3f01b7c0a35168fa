use vstd::prelude::*;
use crate::money::{AnyMoney, Balance, Currency, Money};
use crate::ratio::Ratio;

verus! {

/// How many parts a euro has.
const PARTS_OF_A_EURO: u64 = 117;

/// How many of those parts a reference unit is worth.
const PARTS_OF_A_UNIT: i128 = 100;

/// A holding in euros. One euro is worth 1.17 reference units, that is 117/100.
///
/// The balance is kept as a whole number of parts, a part being 1/117 of a
/// euro: a reference unit is exactly 100 parts, so whatever whole number of
/// reference units is put in or taken out, the balance stays exact.
pub struct Euro {
    parts: i128,
}

impl Euro {
    /// The balance is worth a whole number of reference units that fits `i64`.
    #[verifier::type_invariant]
    spec fn whole_worth(self) -> bool {
        &&& self.parts % PARTS_OF_A_UNIT == 0
        &&& i64::MIN <= self.parts / PARTS_OF_A_UNIT <= i64::MAX
    }

    /// A holding without money.
    pub fn new() -> (m: Self)
        ensures
            m.balance() == (Balance { rate: Self::rate(), value: 0 }),
    {
        Self::with_amount(0)
    }

    /// A holding that is worth `amount` reference units.
    pub fn with_amount(amount: i64) -> (m: Self)
        ensures
            m.balance() == (Balance { rate: Self::rate(), value: amount as int }),
    {
        Self { parts: amount as i128 * PARTS_OF_A_UNIT }
    }
}

impl Money for Euro {
    closed spec fn balance(&self) -> Balance {
        Balance { rate: 117real / 100real, value: self.parts / PARTS_OF_A_UNIT }
    }

    fn amount(&self) -> (r: Ratio) {
        proof {
            use_type_invariant(self);
            let value = (self.parts / PARTS_OF_A_UNIT) as real;
            assert(value * 100real / 117real == value / (117real / 100real)) by (nonlinear_arith);
        }
        Ratio { numer: self.parts, denom: PARTS_OF_A_EURO }
    }

    fn value(&self) -> (r: i64) {
        proof {
            use_type_invariant(self);
        }
        (self.parts / PARTS_OF_A_UNIT) as i64
    }

    fn add(&mut self, amount: i64) {
        proof {
            use_type_invariant(&*self);
        }
        self.parts = self.parts + amount as i128 * PARTS_OF_A_UNIT;
    }

    fn remove(&mut self, amount: i64) {
        proof {
            use_type_invariant(&*self);
        }
        self.parts = self.parts - amount as i128 * PARTS_OF_A_UNIT;
    }
}

impl Currency for Euro {
    open spec fn rate() -> real {
        117real / 100real
    }

    proof fn lemma_rate(m: Self) {
    }

    fn exchange_rate() -> (r: Ratio) {
        Ratio { numer: PARTS_OF_A_EURO as i128, denom: PARTS_OF_A_UNIT as u64 }
    }

    fn from_value(value: i64) -> (m: Self) {
        Self::with_amount(value)
    }

    fn into_any(self) -> (any: AnyMoney) {
        AnyMoney { inner: Box::new(self) }
    }
}

impl From<i64> for Euro {
    /// A holding that is worth `amount` reference units.
    fn from(amount: i64) -> (m: Self)
        ensures
            m.balance() == (Balance { rate: Self::rate(), value: amount as int }),
    {
        Self { parts: amount as i128 * PARTS_OF_A_UNIT }
    }
}

impl vstd::std_specs::convert::FromSpecImpl<i64> for Euro {
    open spec fn obeys_from_spec() -> bool {
        true
    }

    closed spec fn from_spec(amount: i64) -> Self {
        Euro { parts: (amount * PARTS_OF_A_UNIT) as i128 }
    }
}

} // verus!
