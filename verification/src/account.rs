//! Accounts: a named, identified holding of money in one currency.
//!
//! Whatever the currency, money is put in, taken out and read in reference
//! units; only `get_amount` speaks of the currency's own unit.

use vstd::prelude::*;
use crate::ident::{AccountId, RANDOM_VERSION, VERSION_AND_VARIANT};
use crate::money::{representable, AnyMoney, Balance, Currency, Money};
use crate::ratio::Ratio;

verus! {

/// What an account is: what names it, who it belongs to, and what it holds.
pub struct AccountView {
    /// The identifier of the account, which never changes.
    pub id: AccountId,
    /// The name of the owner of the account.
    pub name: Seq<char>,
    /// The rate of the account's currency, which never changes, and what the
    /// account is worth.
    pub balance: Balance,
}

impl AccountView {
    /// The account after `amount` reference units were put in.
    pub open spec fn credited(self, amount: int) -> AccountView {
        AccountView { id: self.id, name: self.name, balance: self.balance.plus(amount) }
    }

    /// The account after `amount` reference units were taken out.
    pub open spec fn debited(self, amount: int) -> AccountView {
        AccountView { id: self.id, name: self.name, balance: self.balance.minus(amount) }
    }

    /// The account under the name `name`.
    pub open spec fn renamed(self, name: Seq<char>) -> AccountView {
        AccountView { id: self.id, name: name, balance: self.balance }
    }

    /// Putting an amount in and taking the same amount out leaves the account
    /// as it was, whatever the amount.
    pub proof fn lemma_add_then_retrieve(self, amount: int)
        ensures
            self.credited(amount).debited(amount) == self,
            self.debited(amount).credited(amount) == self,
    {
    }

    /// Taking out more than the account is worth leaves it worth less than
    /// nothing, by the amount that was missing.
    pub proof fn lemma_overdraft(self, amount: int)
        requires
            amount > self.balance.value,
        ensures
            self.debited(amount).balance.value == -(amount - self.balance.value),
            self.debited(amount).balance.value < 0,
    {
    }
}

/// The account that is opened in the currency `T` under `name` and `id` with
/// `money` reference units in it.
pub open spec fn opened<T: Currency>(name: Seq<char>, money: int, id: AccountId) -> AccountView {
    AccountView { id: id, name: name, balance: Balance { rate: T::rate(), value: money } }
}

/// An account opened with `money` reference units is worth `money`, and
/// holds `money` divided by the rate of its currency in that currency's own
/// unit. The two numbers differ unless the rate is one or the account is empty.
pub proof fn lemma_opened<T: Currency>(name: Seq<char>, money: int, id: AccountId)
    ensures
        opened::<T>(name, money, id).balance.value == money,
        opened::<T>(name, money, id).balance.amount() == money as real / T::rate(),
        opened::<T>(name, money, id).balance.amount() * T::rate() == money as real,
        T::rate() != 1real && money != 0 ==> opened::<T>(name, money, id).balance.amount()
            != money as real,
{
    let any: T = arbitrary();
    T::lemma_rate(any);
    Balance::lemma_amount(opened::<T>(name, money, id).balance);
}

/// An account: the name of its owner, an identifier, and money in one currency.
pub struct Account {
    /// The identifier of this account.
    id: AccountId,
    /// The name of the owner of this account.
    name: String,
    /// The money in this account, in the currency of this account.
    money: AnyMoney,
}

impl View for Account {
    type V = AccountView;

    /// The identifier, the name and the balance of the account.
    closed spec fn view(&self) -> AccountView {
        AccountView { id: self.id, name: self.name@, balance: self.money.balance() }
    }
}

impl Account {
    /// Open an empty account under a fresh identifier.
    pub fn new<T: Currency>(name: &str) -> (account: Self)
        ensures
            account@ == opened::<T>(name@, 0, account@.id),
            account@.id.bits & VERSION_AND_VARIANT == RANDOM_VERSION,
    {
        Self::with_id::<T>(name, &AccountId::generate())
    }

    /// Open an empty account under the identifier `id`.
    pub fn with_id<T: Currency>(name: &str, id: &AccountId) -> (account: Self)
        ensures
            account@ == opened::<T>(name@, 0, *id),
    {
        Self::with_amount_and_id::<T>(name, 0, id)
    }

    /// Open an account under a fresh identifier and put `money` reference units in it.
    pub fn with_amount<T: Currency>(name: &str, money: i64) -> (account: Self)
        ensures
            account@ == opened::<T>(name@, money as int, account@.id),
            account@.id.bits & VERSION_AND_VARIANT == RANDOM_VERSION,
    {
        Self::with_amount_and_id::<T>(name, money, &AccountId::generate())
    }

    /// Open an account under the identifier `id` and put `money` reference
    /// units in it, converted into the currency `T`.
    pub fn with_amount_and_id<T: Currency>(name: &str, money: i64, id: &AccountId) -> (account:
        Self)
        ensures
            account@ == opened::<T>(name@, money as int, *id),
    {
        Self { id: *id, name: name.to_owned(), money: T::from_value(money).into_any() }
    }

    /// The money in the account in the unit of the account's currency: the
    /// value divided by the currency's rate, which is positive.
    ///
    /// This is not `get_value`, which reads the same money in reference units.
    pub fn get_amount(&self) -> (amount: Ratio)
        ensures
            self@.balance.rate > 0real,
            amount.denom > 0,
            amount@ == self@.balance.amount(),
    {
        self.money.amount()
    }

    /// The money in the account in reference units.
    pub fn get_value(&self) -> (value: i64)
        ensures
            value == self@.balance.value,
    {
        self.money.value()
    }

    /// The name of the owner of the account.
    pub fn get_name(&self) -> (name: &str)
        ensures
            name@ == self@.name,
    {
        self.name.as_str()
    }

    /// The identifier of the account.
    pub fn get_id(&self) -> (id: &AccountId)
        ensures
            *id == self@.id,
    {
        &self.id
    }

    /// Whether `amount` reference units can be put into the account: whether
    /// the account can hold what it would then be worth.
    pub fn can_add(&self, amount: i64) -> (possible: bool)
        ensures
            possible == representable(self@.balance.value + amount),
    {
        self.money.value().checked_add(amount).is_some()
    }

    /// Whether `amount` reference units can be taken out of the account:
    /// whether the account can hold what it would then be worth or owe.
    pub fn can_retrieve(&self, amount: i64) -> (possible: bool)
        ensures
            possible == representable(self@.balance.value - amount),
    {
        self.money.value().checked_sub(amount).is_some()
    }

    /// Put `amount` reference units into the account.
    pub fn add_money(&mut self, amount: i64)
        requires
            representable(old(self)@.balance.value + amount),
        ensures
            final(self)@ == old(self)@.credited(amount as int),
    {
        self.money.add(amount);
    }

    /// Take `amount` reference units out of the account and return them.
    ///
    /// The account may hold less than `amount`: it then owes the difference,
    /// and what is returned is still `amount`.
    pub fn retrieve_money(&mut self, amount: i64) -> (retrieved: i64)
        requires
            representable(old(self)@.balance.value - amount),
        ensures
            retrieved == amount,
            final(self)@ == old(self)@.debited(amount as int),
    {
        self.money.remove(amount);
        amount
    }

    /// Give the account another owner's name.
    pub fn rename(&mut self, new_name: &str)
        ensures
            final(self)@ == old(self)@.renamed(new_name@),
    {
        self.name = new_name.to_owned();
    }
}

} // verus!
