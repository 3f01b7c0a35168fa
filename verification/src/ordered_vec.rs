//! A vector that places each pushed item before the items that are greater.

use vstd::prelude::*;
use vstd::std_specs::cmp::PartialOrdIs;
use vstd::std_specs::cmp::PartialOrdSpec;

verus! {

/// Whether `<` and `<=` on `T` compute what `partial_cmp_spec` says.
pub open spec fn has_order<T: PartialOrd>() -> bool {
    T::obeys_partial_cmp_spec()
}

/// Whether any two items of `T` can be compared: `b <= a` wherever `a < b` does not hold.
pub open spec fn is_connex<T: PartialOrd>() -> bool {
    forall|a: T, b: T| #![trigger a.partial_cmp_spec(&b)] !a.is_lt(&b) ==> b.is_le(&a)
}

/// Whether the item of `s` at index `k` is less than or equal to the one after it.
pub open spec fn in_order_at<T: PartialOrd>(s: Seq<T>, k: int) -> bool {
    s[k].is_le(&s[k + 1])
}

/// Whether each item of `s` is less than or equal to the one after it.
pub open spec fn sorted<T: PartialOrd>(s: Seq<T>) -> bool {
    forall|k: int| 0 <= k && k + 1 < s.len() ==> #[trigger] in_order_at(s, k)
}

/// `s` with `value` put in from the back: `value` passes every trailing item
/// that it is less than and rests behind the first one that it is not less than.
pub open spec fn inserted<T: PartialOrd>(s: Seq<T>, value: T) -> Seq<T>
    decreases s.len(),
{
    if s.len() > 0 && value.is_lt(&s.last()) {
        inserted(s.drop_last(), value).push(s.last())
    } else {
        s.push(value)
    }
}

/// `swap` of std's slices, which `Vec` has by dereferencing: the items at the
/// two indices change places and every other item stays where it was. It
/// panics where an index is out of bounds, so both must be in bounds.
pub assume_specification<E>[ <[E]>::swap ](s: &mut [E], a: usize, b: usize)
    requires
        a < old(s)@.len(),
        b < old(s)@.len(),
    ensures
        final(s)@ == old(s)@.update(a as int, old(s)@[b as int]).update(b as int, old(s)@[a as int]),
;

/// `inserted` is `Seq::insert` at the index where the value comes to rest.
pub proof fn lemma_inserted_at<T: PartialOrd>(s: Seq<T>, value: T, i: int)
    requires
        0 <= i <= s.len(),
        forall|k: int| i <= k < s.len() ==> value.is_lt(&#[trigger] s[k]),
        i == 0 || !value.is_lt(&s[i - 1]),
    ensures
        inserted(s, value) == s.insert(i, value),
    decreases s.len(),
{
    if i < s.len() {
        lemma_inserted_at(s.drop_last(), value, i);
    }
}

/// A sorted sequence stays sorted when an item is put between a neighbour
/// that is not greater and a neighbour that is greater.
pub proof fn lemma_insert_keeps_sorted<T: PartialOrd>(s: Seq<T>, value: T, i: int)
    requires
        sorted(s),
        0 <= i <= s.len(),
        i < s.len() ==> value.is_le(&s[i]),
        i > 0 ==> s[i - 1].is_le(&value),
    ensures
        sorted(s.insert(i, value)),
{
    let t = s.insert(i, value);
    assert forall|k: int| 0 <= k && k + 1 < t.len() implies #[trigger] in_order_at(t, k) by {
        if k + 1 < i {
            assert(in_order_at(s, k));
        } else if k > i {
            assert(in_order_at(s, k - 1));
        }
    }
}

/// A vector whose items are put in order as they are pushed, and taken from
/// the front.
pub struct OrderedVec<T: PartialOrd> {
    vec: Vec<T>,
}

impl<T: PartialOrd> View for OrderedVec<T> {
    type V = Seq<T>;

    /// The items, from the front to the back.
    closed spec fn view(&self) -> Seq<T> {
        self.vec@
    }
}

impl<T: PartialOrd> OrderedVec<T> {
    /// Create a new, empty ordered vector.
    pub fn new() -> (v: OrderedVec<T>)
        ensures
            v@ == Seq::<T>::empty(),
    {
        Self { vec: Vec::new() }
    }

    /// Add an item to the vector, in order.
    ///
    /// The item is appended and then exchanged with the item before it for as
    /// long as it is less than that item. Whatever `<` answers, the items that
    /// were there keep their order and the new one stands somewhere among
    /// them. Where `<` follows its specification the place is the one that
    /// `inserted` gives, and a sorted vector over a connex order stays sorted.
    pub fn push(&mut self, value: T)
        ensures
            exists|i: int|
                0 <= i <= old(self)@.len() && final(self)@ == #[trigger] old(self)@.insert(i, value),
            has_order::<T>() ==> final(self)@ == inserted(old(self)@, value),
            has_order::<T>() && is_connex::<T>() && sorted(old(self)@) ==> sorted(final(self)@),
    {
        let ghost before = self.vec@;
        self.vec.push(value);
        let mut i: usize = self.vec.len() - 1;
        while i > 0 && self.vec[i] < self.vec[i - 1]
            invariant
                0 <= i <= before.len(),
                self.vec@ == before.insert(i as int, value),
                has_order::<T>() ==> forall|k: int|
                    i <= k < before.len() ==> value.is_lt(&#[trigger] before[k]),
            decreases i,
        {
            self.vec.swap(i, i - 1);
            i -= 1;
        }
        proof {
            assert(self@ == old(self)@.insert(i as int, value));
            if has_order::<T>() {
                lemma_inserted_at(before, value, i as int);
                if is_connex::<T>() && sorted(before) {
                    lemma_insert_keeps_sorted(before, value, i as int);
                }
            }
        }
    }

    /// Remove the first item from the vector and return it. What is left
    /// of a sorted vector is sorted.
    pub fn pop(&mut self) -> (first: T)
        requires
            old(self)@.len() > 0,
        ensures
            first == old(self)@[0],
            final(self)@ == old(self)@.drop_first(),
            sorted(old(self)@) ==> sorted(final(self)@),
    {
        let first = self.vec.remove(0);
        assert forall|k: int| 0 <= k && k + 1 < self.vec@.len() && sorted(
            old(self).vec@,
        ) implies #[trigger] in_order_at(self.vec@, k) by {
            assert(in_order_at(old(self).vec@, k + 1));
        }
        first
    }

    /// Whether each item is less than or equal to the one after it.
    pub fn is_sorted(&self) -> (r: bool)
        ensures
            has_order::<T>() ==> r == sorted(self@),
    {
        let mut k: usize = 1;
        while k < self.vec.len()
            invariant
                1 <= k,
                has_order::<T>() ==> forall|j: int|
                    0 <= j && j + 1 < k && j + 1 < self.vec@.len() ==> #[trigger] in_order_at(
                        self.vec@,
                        j,
                    ),
            decreases self.vec.len() - k,
        {
            if !(self.vec[k - 1] <= self.vec[k]) {
                assert(has_order::<T>() ==> !in_order_at(self.vec@, k - 1));
                return false;
            }
            k += 1;
        }
        true
    }
}

} // verus!
