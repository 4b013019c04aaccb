use casper_erc777::balances::BalanceStore;
use casper_erc777::operators::OperatorRegistry;
use casper_erc777::total_supply::SupplyCounter;
use casper_erc777::Address;
use casper_erc777::Amount;
use casper_erc777::Error;

#[test]
fn amount_constructors() {
    assert_eq!(Amount::zero(), Amount([0, 0, 0, 0]));
    assert_eq!(Amount::from_u64(1000), Amount([1000, 0, 0, 0]));
    assert_eq!(Amount::max_value(), Amount([u64::MAX; 4]));
    assert!(Amount::zero().is_zero());
    assert!(!Amount::from_u64(1).is_zero());
    assert!(!Amount([0, 0, 0, 1]).is_zero());
    assert!(!Amount([0, 1, 0, 0]).is_zero());
}

#[test]
fn amounts_are_equal_where_their_words_are() {
    assert!(Amount([1, 2, 3, 4]) == Amount([1, 2, 3, 4]));
    assert!(Amount([1, 2, 3, 4]) != Amount([0, 2, 3, 4]));
    assert!(Amount([1, 2, 3, 4]) != Amount([1, 0, 3, 4]));
    assert!(Amount([1, 2, 3, 4]) != Amount([1, 2, 0, 4]));
    assert!(Amount([1, 2, 3, 4]) != Amount([1, 2, 3, 0]));
}

#[test]
fn amount_words_are_those_of_u256() {
    let amount = Amount([1, 2, 3, 4]);
    let number = casper_types::U256(amount.0);
    assert_eq!(number.low_u64(), 1);
    assert_eq!(number, (casper_types::U256::from(4u64) << 192)
        + (casper_types::U256::from(3u64) << 128)
        + (casper_types::U256::from(2u64) << 64)
        + casper_types::U256::from(1u64));
    assert_eq!(casper_types::U256(Amount::max_value().0), casper_types::U256::MAX);
}

#[test]
fn balance_store_reads_what_was_written() {
    let a = Address::Account([1; 32]);
    let b = Address::Contract([1; 32]);
    let mut store = BalanceStore::new();
    assert_eq!(store.read(a), Amount::zero());
    store.write(a, Amount::from_u64(5));
    assert_eq!(store.read(a), Amount::from_u64(5));
    assert_eq!(store.read(b), Amount::zero());
    store.write(b, Amount::from_u64(6));
    store.write(a, Amount::from_u64(7));
    assert_eq!(store.read(a), Amount::from_u64(7));
    assert_eq!(store.read(b), Amount::from_u64(6));
    store.write(a, Amount::zero());
    assert_eq!(store.read(a), Amount::zero());
    assert_eq!(store.read(b), Amount::from_u64(6));
}

#[test]
fn balance_store_transfers() {
    let a = Address::Account([1; 32]);
    let b = Address::Account([2; 32]);
    let mut store = BalanceStore::new();
    store.write(a, Amount::from_u64(10));
    assert_eq!(store.transfer_balance(a, b, Amount::from_u64(4)), Ok(()));
    assert_eq!(store.read(a), Amount::from_u64(6));
    assert_eq!(store.read(b), Amount::from_u64(4));
    assert_eq!(
        store.transfer_balance(a, b, Amount::from_u64(7)),
        Err(Error::InsufficientBalance)
    );
    assert_eq!(store.read(a), Amount::from_u64(6));
    assert_eq!(store.read(b), Amount::from_u64(4));
    store.write(b, Amount::max_value());
    assert_eq!(store.transfer_balance(a, b, Amount::from_u64(1)), Err(Error::Overflow));
    assert_eq!(store.transfer_balance(b, b, Amount::max_value()), Ok(()));
    assert_eq!(store.read(a), Amount::from_u64(6));
    assert_eq!(store.read(b), Amount::max_value());
}

#[test]
fn supply_counter_reads_what_was_written() {
    let mut counter = SupplyCounter::new(Amount::from_u64(3));
    assert_eq!(counter.read(), Amount::from_u64(3));
    counter.write(Amount::max_value());
    assert_eq!(counter.read(), Amount::max_value());
}

#[test]
fn operator_registry() {
    let a = Address::Account([1; 32]);
    let b = Address::Account([2; 32]);
    let op = Address::Contract([3; 32]);
    let default_operator = Address::Account([4; 32]);
    let mut registry = OperatorRegistry::new(vec![default_operator, a]);
    assert_eq!(registry.list_default_operators(), vec![default_operator, a]);
    assert!(registry.is_authorized(default_operator, a));
    assert!(registry.is_authorized(default_operator, b));
    assert!(registry.is_authorized(a, b));
    assert!(!registry.is_authorized(op, a));
    registry.authorize(a, op);
    registry.authorize(a, op);
    registry.authorize(b, op);
    assert!(registry.is_authorized(op, a));
    assert!(registry.is_authorized(op, b));
    registry.revoke(a, op);
    assert!(!registry.is_authorized(op, a));
    assert!(registry.is_authorized(op, b));
    registry.revoke(a, op);
    registry.revoke(a, default_operator);
    assert!(registry.is_authorized(default_operator, a));
    assert_eq!(registry.list_default_operators(), vec![default_operator, a]);
}
