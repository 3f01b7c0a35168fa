//! The bank: accounts of any currency, found by their identifiers.

use std::collections::HashMap;
use vstd::prelude::*;
use vstd::string::StringExecFns;
use crate::account::{Account, AccountView};
use crate::ident::{uuid_text, AccountId};
use crate::money::representable;

verus! {

broadcast use vstd::std_specs::hash::group_hash_axioms;

/// The words that the text of a `NoSuchAccountError` begins with.
pub open spec fn no_such_account() -> Seq<char> {
    "no such account registered in this banck: "@
}

/// No account of the bank has the identifier that was asked for.
#[derive(Debug, Clone, Copy)]
pub struct NoSuchAccountError {
    /// The identifier that was asked for.
    pub id: AccountId,
}

impl NoSuchAccountError {
    pub fn new(id: AccountId) -> (error: Self)
        ensures
            error.id == id,
    {
        Self { id }
    }

    /// What is said of an identifier that is written `id_text`.
    pub fn message_for(id_text: &str) -> (text: String)
        ensures
            text@ == no_such_account() + id_text@,
    {
        String::from_str("no such account registered in this banck: ").concat(id_text)
    }

    /// The error in words: which identifier names no account.
    pub fn message(&self) -> (text: String)
        ensures
            text@ == no_such_account() + uuid_text(self.id.bits),
    {
        let id_text = self.id.to_text();
        Self::message_for(id_text.as_str())
    }
}

/// What can be done to the accounts of a bank.
pub enum Operation {
    /// The account is added to the bank.
    AddAccount { account: AccountView },
    /// `amount` reference units are put into the account `id`.
    AddMoney { id: AccountId, amount: int },
    /// `amount` reference units are taken out of the account `id`.
    RetrieveMoney { id: AccountId, amount: int },
    /// The account `id` is given the name `name`.
    Rename { id: AccountId, name: Seq<char> },
}

impl Operation {
    /// The identifier of the account that the operation is about.
    pub open spec fn id(self) -> AccountId {
        match self {
            Operation::AddAccount { account } => account.id,
            Operation::AddMoney { id, .. } => id,
            Operation::RetrieveMoney { id, .. } => id,
            Operation::Rename { id, .. } => id,
        }
    }

    /// Whether the operation can be carried out on `accounts`: an account can
    /// always be added, and otherwise the account must be there.
    pub open spec fn applies(self, accounts: Map<AccountId, AccountView>) -> bool {
        self is AddAccount || accounts.contains_key(self.id())
    }

    /// What the operation makes of the account `before`.
    pub open spec fn changed(self, before: AccountView) -> AccountView {
        match self {
            Operation::AddAccount { account } => account,
            Operation::AddMoney { amount, .. } => before.credited(amount),
            Operation::RetrieveMoney { amount, .. } => before.debited(amount),
            Operation::Rename { name, .. } => before.renamed(name),
        }
    }

    /// The accounts after the operation: where it can be carried out, the
    /// account that it is about is added or changed, and nothing else is.
    pub open spec fn apply(self, accounts: Map<AccountId, AccountView>) -> Map<
        AccountId,
        AccountView,
    > {
        if self.applies(accounts) {
            accounts.insert(self.id(), self.changed(accounts[self.id()]))
        } else {
            accounts
        }
    }

    /// An operation touches one account: every other account, whatever its
    /// currency, is there after it if it was there before, and is as it was.
    pub proof fn lemma_touches_one_account(
        self,
        accounts: Map<AccountId, AccountView>,
        other: AccountId,
    )
        requires
            other != self.id(),
        ensures
            self.apply(accounts).contains_key(other) == accounts.contains_key(other),
            self.apply(accounts)[other] == accounts[other],
    {
    }

    /// Only adding an account gives the bank an identifier that it did not
    /// have, and no operation takes one away.
    pub proof fn lemma_identifiers(self, accounts: Map<AccountId, AccountView>)
        ensures
            self is AddAccount ==> self.apply(accounts).dom() == accounts.dom().insert(self.id()),
            !(self is AddAccount) ==> self.apply(accounts).dom() == accounts.dom(),
    {
    }
}

/// The accounts of a bank that was new before the operations `done` were
/// tried on it, one after the other.
pub open spec fn accounts_after(done: Seq<Operation>) -> Map<AccountId, AccountView>
    decreases done.len(),
{
    if done.len() == 0 {
        Map::empty()
    } else {
        done.last().apply(accounts_after(done.drop_last()))
    }
}

/// An identifier under which no account was ever added names no account,
/// whatever else was done.
pub proof fn lemma_never_added_is_absent(done: Seq<Operation>, id: AccountId)
    requires
        forall|i: int| 0 <= i < done.len() && #[trigger] done[i] is AddAccount ==> done[i].id() != id,
    ensures
        !accounts_after(done).contains_key(id),
    decreases done.len(),
{
    if done.len() > 0 {
        lemma_never_added_is_absent(done.drop_last(), id);
    }
}

/// Every account of a bank bears the identifier that it is found under.
pub proof fn lemma_found_under_own_identifier(done: Seq<Operation>, id: AccountId)
    requires
        accounts_after(done).contains_key(id),
    ensures
        accounts_after(done)[id].id == id,
    decreases done.len(),
{
    if done.len() > 0 && accounts_after(done.drop_last()).contains_key(id) {
        lemma_found_under_own_identifier(done.drop_last(), id);
    }
}

/// Putting an amount into an account and taking the same amount out again
/// leaves the bank as it was, whether the account is there or not.
pub proof fn lemma_add_then_retrieve(
    accounts: Map<AccountId, AccountView>,
    id: AccountId,
    amount: int,
)
    ensures
        (Operation::RetrieveMoney { id, amount }).apply(
            (Operation::AddMoney { id, amount }).apply(accounts),
        ) == accounts,
{
    if accounts.contains_key(id) {
        accounts[id].lemma_add_then_retrieve(amount);
    }
}

/// A bank: accounts, each in a currency of its own, under their identifiers.
pub struct Bank {
    accounts: HashMap<u128, Account>,
}

impl View for Bank {
    type V = Map<AccountId, AccountView>;

    /// The accounts of the bank by their identifiers.
    closed spec fn view(&self) -> Map<AccountId, AccountView> {
        Map::new(
            |id: AccountId| self.accounts@.contains_key(id.bits),
            |id: AccountId| self.accounts@[id.bits]@,
        )
    }
}

impl Bank {
    /// Each account is kept under the bits of its own identifier.
    #[verifier::type_invariant]
    spec fn keyed_by_id(self) -> bool {
        forall|bits: u128| #[trigger]
            self.accounts@.contains_key(bits) ==> self.accounts@[bits]@.id.bits == bits
    }

    /// Take the accounts out of the bank, which is left without any.
    fn take_accounts(&mut self) -> (accounts: HashMap<u128, Account>)
        ensures
            accounts == old(self).accounts,
            final(self).accounts@ == Map::<u128, Account>::empty(),
    {
        let mut accounts = HashMap::new();
        std::mem::swap(&mut accounts, &mut self.accounts);
        accounts
    }

    /// Retrieve the account with the given identifier.
    pub fn get_account(&self, account_id: &AccountId) -> (found: Result<&Account, NoSuchAccountError>)
        ensures
            match found {
                Ok(account) => self@.contains_key(*account_id) && account@ == self@[*account_id]
                    && account@.id == *account_id,
                Err(error) => !self@.contains_key(*account_id) && error.id == *account_id,
            },
    {
        proof {
            use_type_invariant(self);
        }
        match self.accounts.get(&account_id.bits) {
            Some(account) => Ok(account),
            None => Err(NoSuchAccountError::new(*account_id)),
        }
    }

    /// Create a new bank without any account.
    pub fn new() -> (bank: Self)
        ensures
            bank@ == Map::<AccountId, AccountView>::empty(),
    {
        Self { accounts: HashMap::new() }
    }

    /// Add an account to this bank, under the account's own identifier, and
    /// return that identifier. An account that the bank had under it is replaced.
    pub fn add_account(&mut self, account: Account) -> (id: AccountId)
        ensures
            id == account@.id,
            final(self)@ == (Operation::AddAccount { account: account@ }).apply(old(self)@),
    {
        proof {
            use_type_invariant(&*self);
        }
        let id = *account.get_id();
        let mut accounts = self.take_accounts();
        accounts.insert(id.bits, account);
        self.accounts = accounts;
        id
    }

    /// Add money to the given account.
    pub fn add_account_money(&mut self, account_id: &AccountId, amount: i64) -> (done: Result<
        (),
        NoSuchAccountError,
    >)
        requires
            old(self)@.contains_key(*account_id) ==> representable(
                old(self)@[*account_id].balance.value + amount,
            ),
        ensures
            final(self)@ == (Operation::AddMoney { id: *account_id, amount: amount as int }).apply(
                old(self)@,
            ),
            match done {
                Ok(_) => old(self)@.contains_key(*account_id),
                Err(error) => !old(self)@.contains_key(*account_id) && error.id == *account_id,
            },
    {
        proof {
            use_type_invariant(&*self);
        }
        let mut accounts = self.take_accounts();
        match accounts.remove(&account_id.bits) {
            Some(mut account) => {
                account.add_money(amount);
                accounts.insert(account_id.bits, account);
                self.accounts = accounts;
                assert(self@ =~= old(self)@.insert(
                    *account_id,
                    old(self)@[*account_id].credited(amount as int),
                ));
                Ok(())
            },
            None => {
                self.accounts = accounts;
                Err(NoSuchAccountError::new(*account_id))
            },
        }
    }

    /// Retrieve money from the given account, and return what was retrieved:
    /// the amount asked for, whatever the account held.
    pub fn retrieve_account_money(&mut self, account_id: &AccountId, amount: i64) -> (retrieved:
        Result<i64, NoSuchAccountError>)
        requires
            old(self)@.contains_key(*account_id) ==> representable(
                old(self)@[*account_id].balance.value - amount,
            ),
        ensures
            final(self)@ == (Operation::RetrieveMoney {
                id: *account_id,
                amount: amount as int,
            }).apply(old(self)@),
            match retrieved {
                Ok(money) => old(self)@.contains_key(*account_id) && money == amount,
                Err(error) => !old(self)@.contains_key(*account_id) && error.id == *account_id,
            },
    {
        proof {
            use_type_invariant(&*self);
        }
        let mut accounts = self.take_accounts();
        match accounts.remove(&account_id.bits) {
            Some(mut account) => {
                let money = account.retrieve_money(amount);
                accounts.insert(account_id.bits, account);
                self.accounts = accounts;
                assert(self@ =~= old(self)@.insert(
                    *account_id,
                    old(self)@[*account_id].debited(amount as int),
                ));
                Ok(money)
            },
            None => {
                self.accounts = accounts;
                Err(NoSuchAccountError::new(*account_id))
            },
        }
    }

    /// The money in the given account, in reference units.
    pub fn get_account_money(&self, account_id: &AccountId) -> (money: Result<
        i64,
        NoSuchAccountError,
    >)
        ensures
            match money {
                Ok(value) => self@.contains_key(*account_id) && value
                    == self@[*account_id].balance.value,
                Err(error) => !self@.contains_key(*account_id) && error.id == *account_id,
            },
    {
        match self.get_account(account_id) {
            Ok(account) => Ok(account.get_value()),
            Err(error) => Err(error),
        }
    }

    /// Give the given account another owner's name.
    pub fn rename_account(&mut self, account_id: &AccountId, new_name: &str) -> (done: Result<
        (),
        NoSuchAccountError,
    >)
        ensures
            final(self)@ == (Operation::Rename { id: *account_id, name: new_name@ }).apply(
                old(self)@,
            ),
            match done {
                Ok(_) => old(self)@.contains_key(*account_id),
                Err(error) => !old(self)@.contains_key(*account_id) && error.id == *account_id,
            },
    {
        proof {
            use_type_invariant(&*self);
        }
        let mut accounts = self.take_accounts();
        match accounts.remove(&account_id.bits) {
            Some(mut account) => {
                account.rename(new_name);
                accounts.insert(account_id.bits, account);
                self.accounts = accounts;
                assert(self@ =~= old(self)@.insert(
                    *account_id,
                    old(self)@[*account_id].renamed(new_name@),
                ));
                Ok(())
            },
            None => {
                self.accounts = accounts;
                Err(NoSuchAccountError::new(*account_id))
            },
        }
    }
}

} // verus!
