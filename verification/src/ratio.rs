//! Exact fractions, for amounts that are not whole numbers of a unit.

use vstd::prelude::*;

verus! {

/// The fraction `numer / denom`.
#[derive(Clone, Copy, Debug)]
pub struct Ratio {
    pub numer: i128,
    pub denom: u64,
}

impl View for Ratio {
    type V = real;

    /// The number that the fraction stands for.
    open spec fn view(&self) -> real {
        self.numer as real / self.denom as real
    }
}

} // verus!
