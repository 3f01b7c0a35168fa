use banck::account::Account;
use banck::bank::{Bank, NoSuchAccountError};
use banck::ident::AccountId;
use banck::money::{Dollar, Euro, Ouguiya};

#[test]
fn bank_add_account() {
    let mut banck = Bank::new();
    let id = AccountId::generate();
    banck.add_account(Account::with_id::<Euro>("account", &id));

    assert!(banck.get_account(&id).is_ok());
    assert_eq!(banck.get_account(&id).unwrap().get_name(), "account");
}

#[test]
fn add_multiple_account() {
    let mut bank = Bank::new();
    let id = AccountId::generate();
    let id2 = AccountId::generate();
    bank.add_account(Account::with_id::<Euro>("account1", &id));
    bank.add_account(Account::with_id::<Dollar>("account2", &id2));

    assert!(bank.get_account(&id).is_ok());
    assert_eq!(bank.get_account(&id).unwrap().get_name(), "account1");
    assert!(bank.get_account(&id2).is_ok());
    assert_eq!(bank.get_account(&id2).unwrap().get_name(), "account2");
}

#[test]
fn add_account_inner_block() {
    let mut universal_bank = Bank::new();
    let id1 = AccountId::generate();
    let id2 = AccountId::generate();
    {
        let account1 = Account::with_id::<Euro>("account1", &id1);
        let account2 = Account::with_id::<Dollar>("account2", &id2);

        universal_bank.add_account(account1);
        universal_bank.add_account(account2);
    }

    assert!(universal_bank.get_account(&id1).is_ok());
    assert_eq!(
        universal_bank.get_account(&id1).unwrap().get_name(),
        "account1"
    );
    assert!(universal_bank.get_account(&id2).is_ok());
    assert_eq!(
        universal_bank.get_account(&id2).unwrap().get_name(),
        "account2"
    );
}

#[test]
fn bank_get_fake_account() {
    let mut banck = Bank::new();
    let id = AccountId::generate();
    banck.add_account(Account::with_id::<Euro>("account", &id));

    assert!(banck.get_account(&AccountId::generate()).is_err());
    let id = AccountId::generate();
    assert_eq!(banck.get_account(&id).err().unwrap().id, id);
}

#[test]
fn bank_add_money_real_account() {
    let mut banck = Bank::new();
    let id = AccountId::generate();
    banck.add_account(Account::with_id::<Dollar>("account", &id));

    assert!(banck.add_account_money(&id, 10).is_ok());
    assert_eq!(banck.get_account_money(&id).unwrap(), 10);
}

#[test]
fn add_money_multiple_account() {
    let mut universal_bank = Bank::new();
    let id = AccountId::generate();
    let id2 = AccountId::generate();
    universal_bank.add_account(Account::with_id::<Euro>("account1", &id));
    universal_bank.add_account(Account::with_id::<Dollar>("account2", &id2));

    assert!(universal_bank.add_account_money(&id, 100).is_ok());
    assert_eq!(universal_bank.get_account_money(&id).unwrap(), 100);

    assert!(universal_bank.add_account_money(&id2, 10).is_ok());
    assert_eq!(universal_bank.get_account_money(&id2).unwrap(), 10);
}

#[test]
fn bank_add_money_fake_account() {
    let mut banck = Bank::new();
    assert!(banck.add_account_money(&AccountId::generate(), 10).is_err());
}

#[test]
fn bank_retrieve_money_real_account() {
    let mut banck = Bank::new();
    let id = AccountId::generate();
    banck.add_account(Account::with_id::<Euro>("account", &id));

    assert!(banck.add_account_money(&id, 10).is_ok());
    assert_eq!(banck.retrieve_account_money(&id, 5).unwrap(), 5);
    assert_eq!(banck.get_account_money(&id).unwrap(), 5);
}

#[test]
fn bank_retrieve_money_fake_account() {
    let mut banck = Bank::new();
    assert!(banck.retrieve_account_money(&AccountId::generate(), 10).is_err());
}

#[test]
fn bank_rename_real_account() {
    let mut banck = Bank::new();
    let id = AccountId::generate();
    banck.add_account(Account::with_id::<Euro>("account", &id));

    assert!(banck.rename_account(&id, "hello").is_ok());
    assert_eq!(banck.get_account(&id).unwrap().get_name(), "hello");
}

#[test]
fn bank_rename_fake_account() {
    let mut banck = Bank::new();
    assert!(banck.rename_account(&AccountId::generate(), "hello").is_err());
}

#[test]
fn add_account_returns_the_accounts_own_identifier() {
    let mut bank = Bank::new();
    let id = AccountId::from_u128(0xa1a2a3a4b1b2c1c2d1d2d3d4d5d6d7d8);
    assert_eq!(bank.add_account(Account::with_id::<Ouguiya>("o", &id)), id);
    let account = Account::new::<Euro>("e");
    let own = *account.get_id();
    assert_eq!(bank.add_account(account), own);
    assert_eq!(*bank.get_account(&own).unwrap().get_id(), own);
    assert_eq!(*bank.get_account(&id).unwrap().get_id(), id);
}

#[test]
fn account_in_a_weak_currency_is_read_in_reference_units() {
    let mut bank = Bank::new();
    let id = AccountId::generate();
    bank.add_account(Account::with_id::<Ouguiya>("B", &id));

    assert!(bank.add_account_money(&id, 10).is_ok());
    assert_eq!(bank.get_account_money(&id).unwrap(), 10);
    let amount = bank.get_account(&id).unwrap().get_amount();
    assert_eq!((amount.numer, amount.denom), (1000, 3));
}

#[test]
fn every_operation_reports_the_missing_identifier() {
    let mut bank = Bank::new();
    let present = AccountId::from_u128(1);
    bank.add_account(Account::with_amount_and_id::<Dollar>("present", 9, &present));
    let missing = AccountId::from_u128(2);

    assert_eq!(bank.get_account(&missing).err().unwrap().id, missing);
    assert_eq!(bank.get_account_money(&missing).err().unwrap().id, missing);
    assert_eq!(bank.add_account_money(&missing, 10).err().unwrap().id, missing);
    assert_eq!(bank.retrieve_account_money(&missing, 10).err().unwrap().id, missing);
    assert_eq!(bank.rename_account(&missing, "x").err().unwrap().id, missing);

    // Nothing was changed by the failed operations.
    assert_eq!(bank.get_account_money(&present).unwrap(), 9);
    assert_eq!(bank.get_account(&present).unwrap().get_name(), "present");
    assert!(bank.get_account(&missing).is_err());
}

#[test]
fn empty_bank_has_no_account() {
    let bank = Bank::new();
    let id = AccountId::from_u128(0);
    assert_eq!(bank.get_account_money(&id).err().unwrap().id, id);
}

#[test]
fn accounts_of_different_currencies_do_not_touch_each_other() {
    let mut bank = Bank::new();
    let euro = AccountId::from_u128(10);
    let dollar = AccountId::from_u128(11);
    let ouguiya = AccountId::from_u128(12);
    bank.add_account(Account::with_amount_and_id::<Euro>("e", 50, &euro));
    bank.add_account(Account::with_amount_and_id::<Dollar>("d", 60, &dollar));
    bank.add_account(Account::with_amount_and_id::<Ouguiya>("o", 70, &ouguiya));

    assert!(bank.add_account_money(&euro, 5).is_ok());
    assert_eq!(bank.retrieve_account_money(&dollar, 100).unwrap(), 100);
    assert!(bank.rename_account(&ouguiya, "renamed").is_ok());

    assert_eq!(bank.get_account_money(&euro).unwrap(), 55);
    assert_eq!(bank.get_account_money(&dollar).unwrap(), -40);
    assert_eq!(bank.get_account_money(&ouguiya).unwrap(), 70);
    assert_eq!(bank.get_account(&euro).unwrap().get_name(), "e");
    assert_eq!(bank.get_account(&dollar).unwrap().get_name(), "d");
    assert_eq!(bank.get_account(&ouguiya).unwrap().get_name(), "renamed");

    let amount = bank.get_account(&euro).unwrap().get_amount();
    assert_eq!((amount.numer, amount.denom), (5500, 117));
    let amount = bank.get_account(&dollar).unwrap().get_amount();
    assert_eq!((amount.numer, amount.denom), (-40, 1));
    let amount = bank.get_account(&ouguiya).unwrap().get_amount();
    assert_eq!((amount.numer, amount.denom), (7000, 3));
}

#[test]
fn account_added_under_a_used_identifier_replaces_the_first() {
    let mut bank = Bank::new();
    let id = AccountId::from_u128(5);
    bank.add_account(Account::with_amount_and_id::<Euro>("first", 1, &id));
    bank.add_account(Account::with_amount_and_id::<Dollar>("second", 2, &id));
    assert_eq!(bank.get_account(&id).unwrap().get_name(), "second");
    assert_eq!(bank.get_account_money(&id).unwrap(), 2);
}

#[test]
fn error_names_the_identifier() {
    let id = AccountId::from_u128(0xa1a2a3a4b1b2c1c2d1d2d3d4d5d6d7d8);
    let error = NoSuchAccountError::new(id);
    assert_eq!(error.id, id);
    assert_eq!(
        error.message(),
        "no such account registered in this banck: a1a2a3a4-b1b2-c1c2-d1d2-d3d4d5d6d7d8"
    );
    assert_eq!(
        NoSuchAccountError::message_for("x"),
        "no such account registered in this banck: x"
    );
    let bank = Bank::new();
    assert_eq!(bank.get_account(&id).err().unwrap().message(), error.message());
}
