use banck::account::Account;
use banck::ident::AccountId;
use banck::money::{Dollar, Euro, Ouguiya};

#[test]
fn create_only_name() {
    let account = Account::new::<Euro>("account");
    assert_eq!(account.get_value(), 0);
    assert_eq!(account.get_name(), "account");
}

#[test]
fn create_with_id() {
    let id = AccountId::generate();
    let account = Account::with_id::<Euro>("account", &id);
    assert_eq!(*account.get_id(), id);
    assert_eq!(account.get_value(), 0);
    assert_eq!(account.get_name(), "account");
}

#[test]
fn transactions() {
    let mut account = Account::new::<Euro>("account");
    let pocket = account.retrieve_money(100);
    assert_eq!(pocket, 100);
    assert_eq!(account.get_value(), -100);
    account.add_money(200);
    assert_eq!(account.get_value(), 100);
    let pocket = account.retrieve_money(50);
    assert_eq!(pocket, 50);
    assert_eq!(account.get_value(), 50);
}

#[test]
fn rename() {
    let mut account = Account::new::<Euro>("account");
    account.rename("new_name");
    assert_eq!(account.get_name(), "new_name");
}

#[test]
fn transactions_in_the_reference_currency() {
    let mut account = Account::new::<Dollar>("A");
    assert_eq!(account.get_value(), 0);
    assert_eq!(account.retrieve_money(100), 100);
    assert_eq!(account.get_value(), -100);
    account.add_money(200);
    assert_eq!(account.get_value(), 100);
    assert_eq!(account.retrieve_money(50), 50);
    assert_eq!(account.get_value(), 50);
}

#[test]
fn opened_with_amount_is_worth_that_amount() {
    let id = AccountId::from_u128(1);
    let euro = Account::with_amount_and_id::<Euro>("e", 117, &id);
    assert_eq!(euro.get_value(), 117);
    let amount = euro.get_amount();
    assert_eq!((amount.numer, amount.denom), (11700, 117));
    assert_eq!(amount.numer as f64 / amount.denom as f64, 100.0);

    let ouguiya = Account::with_amount_and_id::<Ouguiya>("o", 3, &id);
    assert_eq!(ouguiya.get_value(), 3);
    let amount = ouguiya.get_amount();
    assert_eq!((amount.numer, amount.denom), (300, 3));
    assert_eq!(amount.numer as f64 / amount.denom as f64, 100.0);

    let dollar = Account::with_amount_and_id::<Dollar>("d", 42, &id);
    assert_eq!(dollar.get_value(), 42);
    let amount = dollar.get_amount();
    assert_eq!((amount.numer, amount.denom), (42, 1));
}

#[test]
fn amount_is_value_divided_by_rate() {
    let account = Account::with_amount::<Euro>("e", 100);
    let amount = account.get_amount();
    // 100 / 1.17 = 10000 / 117
    assert_eq!(amount.numer * 117, 10000 * amount.denom as i128);
    assert!((amount.numer as f64 / amount.denom as f64 - 100.0 / 1.17).abs() < 1e-9);
    assert_eq!(account.get_value(), 100);

    let account = Account::with_amount::<Ouguiya>("o", 10);
    let amount = account.get_amount();
    // 10 / 0.03 = 1000 / 3
    assert_eq!(amount.numer * 3, 1000 * amount.denom as i128);
    assert!((amount.numer as f64 / amount.denom as f64 - 10.0 / 0.03).abs() < 1e-9);
    assert_eq!(account.get_value(), 10);
}

#[test]
fn amount_differs_from_value_unless_rate_is_one() {
    let euro = Account::with_amount::<Euro>("e", 100);
    let amount = euro.get_amount();
    assert_ne!(amount.numer, euro.get_value() as i128 * amount.denom as i128);

    let ouguiya = Account::with_amount::<Ouguiya>("o", 100);
    let amount = ouguiya.get_amount();
    assert_ne!(amount.numer, ouguiya.get_value() as i128 * amount.denom as i128);

    let dollar = Account::with_amount::<Dollar>("d", 100);
    let amount = dollar.get_amount();
    assert_eq!(amount.numer, dollar.get_value() as i128 * amount.denom as i128);
}

#[test]
fn add_then_retrieve_leaves_value_unchanged() {
    for start in [0, 5, -40, 1_000_000] {
        for a in [0, 1, 7, -3, 250_000] {
            let mut account = Account::with_amount::<Ouguiya>("o", start);
            account.add_money(a);
            assert_eq!(account.get_value(), start + a);
            assert_eq!(account.retrieve_money(a), a);
            assert_eq!(account.get_value(), start);
            let amount = account.get_amount();
            assert_eq!((amount.numer, amount.denom), (start as i128 * 100, 3));
        }
    }
}

#[test]
fn retrieving_more_than_the_balance_goes_negative() {
    let mut account = Account::with_amount::<Euro>("e", 30);
    assert_eq!(account.retrieve_money(45), 45);
    assert_eq!(account.get_value(), -15);
    let amount = account.get_amount();
    assert_eq!((amount.numer, amount.denom), (-1500, 117));
}

#[test]
fn fresh_identifiers_differ() {
    let first = Account::new::<Dollar>("a");
    let second = Account::with_amount::<Dollar>("a", 5);
    assert_ne!(first.get_id(), second.get_id());
    assert_eq!(second.get_value(), 5);
}

#[test]
fn rename_keeps_identifier_and_money() {
    let id = AccountId::from_u128(77);
    let mut account = Account::with_amount_and_id::<Euro>("before", 12, &id);
    account.rename("after");
    assert_eq!(account.get_name(), "after");
    assert_eq!(*account.get_id(), id);
    assert_eq!(account.get_value(), 12);
    account.rename("");
    assert_eq!(account.get_name(), "");
}

#[test]
fn balance_at_the_limits() {
    let mut account = Account::with_amount::<Euro>("e", i64::MAX);
    assert_eq!(account.get_value(), i64::MAX);
    assert_eq!(account.retrieve_money(i64::MAX), i64::MAX);
    assert_eq!(account.get_value(), 0);
    account.add_money(i64::MIN);
    assert_eq!(account.get_value(), i64::MIN);
    let amount = account.get_amount();
    assert_eq!((amount.numer, amount.denom), (i64::MIN as i128 * 100, 117));
}

#[test]
fn account_tells_what_it_can_take() {
    let account = Account::with_amount::<Euro>("e", i64::MAX - 5);
    assert!(account.can_add(5));
    assert!(!account.can_add(6));
    assert!(account.can_add(i64::MIN));
    assert!(account.can_retrieve(i64::MAX));
    assert!(account.can_retrieve(-5));
    assert!(!account.can_retrieve(-6));

    let account = Account::with_amount::<Ouguiya>("o", -2);
    assert!(account.can_retrieve(i64::MAX - 1));
    assert!(!account.can_retrieve(i64::MAX));
    assert!(account.can_retrieve(i64::MIN));
    assert!(account.can_add(i64::MAX));
    assert!(account.can_add(i64::MIN + 2));
    assert!(!account.can_add(i64::MIN + 1));

    let account = Account::new::<Dollar>("d");
    assert!(account.can_retrieve(i64::MAX));
    assert!(!account.can_retrieve(i64::MIN));
    assert!(account.can_add(i64::MIN));
}
