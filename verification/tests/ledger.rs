use casper_erc777::balances::BalanceStore;
use casper_erc777::operators::OperatorRegistry;
use casper_erc777::total_supply::SupplyCounter;
use casper_erc777::Address;
use casper_erc777::Amount;
use casper_erc777::Error;
use casper_erc777::ERC777;

fn account(tag: u8) -> Address {
    Address::Account([tag; 32])
}

fn installed(initial_supply: u64, installer: Address) -> ERC777 {
    ERC777::install(
        String::from("Token"),
        String::from("TKN"),
        8,
        1,
        Amount::from_u64(initial_supply),
        installer,
    )
    .token
}

fn token_of(balances: &[(Address, Amount)], total_supply: Amount) -> ERC777 {
    let mut store = BalanceStore::new();
    for (holder, amount) in balances {
        store.write(*holder, *amount);
    }
    ERC777::new(
        String::from("Token"),
        String::from("TKN"),
        8,
        1,
        store,
        SupplyCounter::new(total_supply),
        OperatorRegistry::new(Vec::new()),
    )
}

#[test]
fn install_credits_the_installer() {
    let a = account(1);
    let b = account(2);
    let token = installed(1000, a);
    assert_eq!(token.balance_of(a), Amount::from_u64(1000));
    assert_eq!(token.balance_of(b), Amount::zero());
    assert_eq!(token.total_supply(), Amount::from_u64(1000));
    assert_eq!(token.default_operators(), vec![a]);
    assert!(token.is_operator_for(a, b));
    assert!(!token.is_operator_for(b, a));
}

#[test]
fn install_keeps_the_description() {
    let token = ERC777::install(
        String::from("Gold"),
        String::from("GLD"),
        9,
        3,
        Amount::zero(),
        account(1),
    )
    .token;
    assert_eq!(token.name(), "Gold");
    assert_eq!(token.symbol(), "GLD");
    assert_eq!(token.decimals(), 9);
    assert_eq!(token.granularity(), 3);
    assert_eq!(token.total_supply(), Amount::zero());
}

#[test]
fn transfer_mint_burn_scenario() {
    let a = account(1);
    let b = account(2);
    let mut token = installed(1000, a);

    assert_eq!(token.send(a, b, Amount::from_u64(400)), Ok(()));
    assert_eq!(token.balance_of(a), Amount::from_u64(600));
    assert_eq!(token.balance_of(b), Amount::from_u64(400));
    assert_eq!(token.total_supply(), Amount::from_u64(1000));

    assert_eq!(token.mint(a, Amount::from_u64(50)), Ok(()));
    assert_eq!(token.balance_of(a), Amount::from_u64(650));
    assert_eq!(token.total_supply(), Amount::from_u64(1050));

    assert_eq!(token.burn(b, Amount::from_u64(500)), Err(Error::InsufficientBalance));
    assert_eq!(token.balance_of(a), Amount::from_u64(650));
    assert_eq!(token.balance_of(b), Amount::from_u64(400));
    assert_eq!(token.total_supply(), Amount::from_u64(1050));
}

#[test]
fn operator_scenario() {
    let a = account(1);
    let c = account(3);
    let op = account(10);
    let stranger = Address::Contract([10; 32]);
    let mut token = installed(1000, a);

    assert!(!token.is_operator_for(op, a));
    assert_eq!(token.authorize_operator(a, op), Ok(()));
    assert!(token.is_operator_for(op, a));

    assert_eq!(token.operator_send(op, a, c, Amount::from_u64(100), "", ""), Ok(()));
    assert_eq!(token.balance_of(a), Amount::from_u64(900));
    assert_eq!(token.balance_of(c), Amount::from_u64(100));
    assert_eq!(token.total_supply(), Amount::from_u64(1000));

    assert_eq!(
        token.operator_send(stranger, a, c, Amount::from_u64(100), "", ""),
        Err(Error::UnauthorizedOperator)
    );
    assert_eq!(token.balance_of(a), Amount::from_u64(900));
    assert_eq!(token.balance_of(c), Amount::from_u64(100));
}

#[test]
fn transfers_conserve_the_supply() {
    let holders = [account(1), account(2), account(3), Address::Contract([1; 32])];
    let mut token = installed(1_000_000, holders[0]);
    let transfers: [(usize, usize, u64); 8] = [
        (0, 1, 250_000),
        (1, 2, 100_000),
        (2, 3, 100_001),
        (0, 3, 750_000),
        (3, 3, 10),
        (3, 0, 1),
        (1, 0, 150_000),
        (2, 1, 0),
    ];
    let expected = [
        Ok(()),
        Ok(()),
        Err(Error::InsufficientBalance),
        Ok(()),
        Ok(()),
        Ok(()),
        Ok(()),
        Ok(()),
    ];
    for (transfer, outcome) in transfers.iter().zip(expected.iter()) {
        let result = token.send(
            holders[transfer.0],
            holders[transfer.1],
            Amount::from_u64(transfer.2),
        );
        assert_eq!(result, *outcome);
        let mut sum: u64 = 0;
        for holder in holders.iter() {
            sum += token.balance_of(*holder).0[0];
        }
        assert_eq!(sum, 1_000_000);
        assert_eq!(token.total_supply(), Amount::from_u64(1_000_000));
    }
    assert_eq!(token.balance_of(holders[0]), Amount::from_u64(150_001));
    assert_eq!(token.balance_of(holders[1]), Amount::from_u64(0));
    assert_eq!(token.balance_of(holders[2]), Amount::from_u64(100_000));
    assert_eq!(token.balance_of(holders[3]), Amount::from_u64(749_999));
}

#[test]
fn mint_then_burn_restores() {
    let a = account(1);
    let b = account(2);
    let mut token = installed(1000, a);
    assert_eq!(token.mint(b, Amount::from_u64(77)), Ok(()));
    assert_eq!(token.balance_of(b), Amount::from_u64(77));
    assert_eq!(token.total_supply(), Amount::from_u64(1077));
    assert_eq!(token.burn(b, Amount::from_u64(77)), Ok(()));
    assert_eq!(token.balance_of(b), Amount::zero());
    assert_eq!(token.balance_of(a), Amount::from_u64(1000));
    assert_eq!(token.total_supply(), Amount::from_u64(1000));
}

#[test]
fn transfer_of_more_than_the_balance_is_refused() {
    let a = account(1);
    let b = account(2);
    let mut token = installed(1000, a);
    assert_eq!(token.send(a, b, Amount::from_u64(1001)), Err(Error::InsufficientBalance));
    assert_eq!(token.send(b, a, Amount::from_u64(1)), Err(Error::InsufficientBalance));
    assert_eq!(token.send(a, a, Amount::from_u64(1001)), Err(Error::InsufficientBalance));
    assert_eq!(token.balance_of(a), Amount::from_u64(1000));
    assert_eq!(token.balance_of(b), Amount::zero());
    assert_eq!(token.total_supply(), Amount::from_u64(1000));
}

#[test]
fn transfer_of_the_whole_balance() {
    let a = account(1);
    let b = account(2);
    let mut token = installed(1000, a);
    assert_eq!(token.send(a, b, Amount::from_u64(1000)), Ok(()));
    assert_eq!(token.balance_of(a), Amount::zero());
    assert_eq!(token.balance_of(b), Amount::from_u64(1000));
}

#[test]
fn transfer_to_oneself_changes_nothing() {
    let a = account(1);
    let mut token = installed(1000, a);
    assert_eq!(token.send(a, a, Amount::from_u64(1000)), Ok(()));
    assert_eq!(token.balance_of(a), Amount::from_u64(1000));
    assert_eq!(token.total_supply(), Amount::from_u64(1000));
}

#[test]
fn transfer_of_nothing_by_an_unknown_holder() {
    let a = account(1);
    let b = account(2);
    let mut token = installed(1000, a);
    assert_eq!(token.send(b, a, Amount::zero()), Ok(()));
    assert_eq!(token.balance_of(a), Amount::from_u64(1000));
    assert_eq!(token.balance_of(b), Amount::zero());
}

#[test]
fn transfer_that_overflows_the_recipient_is_refused() {
    let a = account(1);
    let b = account(2);
    let mut token = token_of(
        &[(a, Amount::from_u64(5)), (b, Amount::max_value())],
        Amount::max_value(),
    );
    assert_eq!(token.send(a, b, Amount::from_u64(1)), Err(Error::Overflow));
    assert_eq!(token.balance_of(a), Amount::from_u64(5));
    assert_eq!(token.balance_of(b), Amount::max_value());
}

#[test]
fn transfer_carries_between_words() {
    let a = account(1);
    let b = account(2);
    let mut token = token_of(
        &[(a, Amount([0, 0, 1, 0])), (b, Amount([u64::MAX, u64::MAX, 0, 7]))],
        Amount([u64::MAX, u64::MAX, 1, 7]),
    );
    assert_eq!(token.send(a, b, Amount::from_u64(1)), Ok(()));
    assert_eq!(token.balance_of(a), Amount([u64::MAX, u64::MAX, 0, 0]));
    assert_eq!(token.balance_of(b), Amount([0, 0, 1, 7]));
}

#[test]
fn mint_that_overflows_the_supply_is_refused() {
    let a = account(1);
    let b = account(2);
    let mut token = ERC777::install(
        String::from("Token"),
        String::from("TKN"),
        8,
        1,
        Amount::max_value(),
        a,
    )
    .token;
    assert_eq!(token.mint(b, Amount::from_u64(1)), Err(Error::Overflow));
    assert_eq!(token.mint(a, Amount::from_u64(1)), Err(Error::Overflow));
    assert_eq!(token.balance_of(a), Amount::max_value());
    assert_eq!(token.balance_of(b), Amount::zero());
    assert_eq!(token.total_supply(), Amount::max_value());
    assert_eq!(token.mint(b, Amount::zero()), Ok(()));
    assert_eq!(token.total_supply(), Amount::max_value());
}

#[test]
fn mint_that_overflows_the_balance_is_refused() {
    let a = account(1);
    let mut token = token_of(&[(a, Amount::max_value())], Amount::zero());
    assert_eq!(token.mint(a, Amount::from_u64(1)), Err(Error::Overflow));
    assert_eq!(token.balance_of(a), Amount::max_value());
    assert_eq!(token.total_supply(), Amount::zero());
}

#[test]
fn mint_up_to_the_largest_amount() {
    let a = account(1);
    let mut token = installed(1, a);
    assert_eq!(
        token.mint(a, Amount([u64::MAX - 1, u64::MAX, u64::MAX, u64::MAX])),
        Ok(())
    );
    assert_eq!(token.balance_of(a), Amount::max_value());
    assert_eq!(token.total_supply(), Amount::max_value());
}

#[test]
fn mint_carries_between_words() {
    let a = account(1);
    let mut token = installed(u64::MAX, a);
    assert_eq!(token.mint(a, Amount::from_u64(1)), Ok(()));
    assert_eq!(token.balance_of(a), Amount([0, 1, 0, 0]));
    assert_eq!(token.total_supply(), Amount([0, 1, 0, 0]));
    assert_eq!(token.burn(a, Amount::from_u64(2)), Ok(()));
    assert_eq!(token.balance_of(a), Amount([u64::MAX - 1, 0, 0, 0]));
    assert_eq!(token.total_supply(), Amount([u64::MAX - 1, 0, 0, 0]));
}

#[test]
fn burn_of_more_than_the_supply_is_refused() {
    let a = account(1);
    let mut token = token_of(&[(a, Amount::from_u64(10))], Amount::from_u64(5));
    assert_eq!(token.burn(a, Amount::from_u64(10)), Err(Error::Overflow));
    assert_eq!(token.balance_of(a), Amount::from_u64(10));
    assert_eq!(token.total_supply(), Amount::from_u64(5));
    assert_eq!(token.burn(a, Amount::from_u64(11)), Err(Error::InsufficientBalance));
    assert_eq!(token.burn(a, Amount::from_u64(5)), Ok(()));
    assert_eq!(token.balance_of(a), Amount::from_u64(5));
    assert_eq!(token.total_supply(), Amount::zero());
}

#[test]
fn burn_of_the_whole_balance() {
    let a = account(1);
    let mut token = installed(1000, a);
    assert_eq!(token.burn(a, Amount::from_u64(1000)), Ok(()));
    assert_eq!(token.balance_of(a), Amount::zero());
    assert_eq!(token.total_supply(), Amount::zero());
    assert_eq!(token.burn(a, Amount::from_u64(1)), Err(Error::InsufficientBalance));
}

#[test]
fn authorize_twice_is_authorize_once() {
    let a = account(1);
    let op = account(10);
    let mut token = installed(1000, account(9));
    assert_eq!(token.authorize_operator(a, op), Ok(()));
    assert_eq!(token.authorize_operator(a, op), Ok(()));
    assert!(token.is_operator_for(op, a));
    assert_eq!(token.revoke_operator(a, op), Ok(()));
    assert!(!token.is_operator_for(op, a));
}

#[test]
fn revoke_of_a_stranger_changes_nothing() {
    let a = account(1);
    let b = account(2);
    let op = account(10);
    let other = account(11);
    let mut token = installed(1000, account(9));
    assert_eq!(token.authorize_operator(a, op), Ok(()));
    assert_eq!(token.revoke_operator(a, other), Ok(()));
    assert_eq!(token.revoke_operator(b, op), Ok(()));
    assert!(token.is_operator_for(op, a));
    assert!(!token.is_operator_for(other, a));
    assert!(!token.is_operator_for(op, b));
}

#[test]
fn grants_are_per_holder() {
    let a = account(1);
    let b = account(2);
    let op = account(10);
    let mut token = installed(1000, account(9));
    assert_eq!(token.authorize_operator(a, op), Ok(()));
    assert!(token.is_operator_for(op, a));
    assert!(!token.is_operator_for(op, b));
    assert!(!token.is_operator_for(a, op));
}

#[test]
fn a_default_operator_cannot_be_revoked() {
    let installer = account(9);
    let a = account(1);
    let b = account(2);
    let mut token = installed(1000, installer);
    assert_eq!(token.send(installer, a, Amount::from_u64(10)), Ok(()));
    assert_eq!(token.revoke_operator(a, installer), Ok(()));
    assert!(token.is_operator_for(installer, a));
    assert_eq!(token.operator_send(installer, a, b, Amount::from_u64(4), "x", "y"), Ok(()));
    assert_eq!(token.balance_of(a), Amount::from_u64(6));
    assert_eq!(token.balance_of(b), Amount::from_u64(4));
    assert_eq!(token.default_operators(), vec![installer]);
}

#[test]
fn operator_send_of_more_than_the_balance_is_refused() {
    let a = account(1);
    let b = account(2);
    let op = account(10);
    let mut token = installed(1000, a);
    assert_eq!(token.authorize_operator(a, op), Ok(()));
    assert_eq!(
        token.operator_send(op, a, b, Amount::from_u64(1001), "", ""),
        Err(Error::InsufficientBalance)
    );
    assert_eq!(token.balance_of(a), Amount::from_u64(1000));
}

#[test]
fn operator_burn_needs_an_operator() {
    let a = account(1);
    let op = account(10);
    let mut token = installed(1000, account(9));
    assert_eq!(token.send(account(9), a, Amount::from_u64(300)), Ok(()));
    assert_eq!(
        token.operator_burn(op, a, Amount::from_u64(100), "", ""),
        Err(Error::UnauthorizedOperator)
    );
    assert_eq!(token.balance_of(a), Amount::from_u64(300));
    assert_eq!(token.total_supply(), Amount::from_u64(1000));
    assert_eq!(token.authorize_operator(a, op), Ok(()));
    assert_eq!(token.operator_burn(op, a, Amount::from_u64(100), "", ""), Ok(()));
    assert_eq!(token.balance_of(a), Amount::from_u64(200));
    assert_eq!(token.total_supply(), Amount::from_u64(900));
    assert_eq!(
        token.operator_burn(op, a, Amount::from_u64(201), "", ""),
        Err(Error::InsufficientBalance)
    );
    assert_eq!(token.balance_of(a), Amount::from_u64(200));
    assert_eq!(token.total_supply(), Amount::from_u64(900));
}

#[test]
fn accounts_and_contracts_are_different_holders() {
    let account = Address::Account([7; 32]);
    let contract = Address::Contract([7; 32]);
    assert!(account != contract);
    assert!(account == Address::Account([7; 32]));
    assert!(contract == Address::Contract([7; 32]));
    let mut other = [7u8; 32];
    other[31] = 8;
    assert!(account != Address::Account(other));
    other[31] = 7;
    other[0] = 6;
    assert!(contract != Address::Contract(other));
    let mut token = installed(1000, account);
    assert_eq!(token.balance_of(contract), Amount::zero());
    assert_eq!(token.send(account, contract, Amount::from_u64(1)), Ok(()));
    assert_eq!(token.balance_of(contract), Amount::from_u64(1));
    assert_eq!(token.balance_of(account), Amount::from_u64(999));
}

#[test]
fn granted_operators_are_listed_once() {
    let a = account(1);
    let b = account(2);
    let op = account(10);
    let other = account(11);
    let installer = account(9);
    let mut token = installed(1000, installer);
    assert_eq!(token.granted_operators(a), Vec::<Address>::new());
    assert_eq!(token.authorize_operator(a, op), Ok(()));
    assert_eq!(token.authorize_operator(b, other), Ok(()));
    assert_eq!(token.authorize_operator(a, other), Ok(()));
    assert_eq!(token.authorize_operator(a, op), Ok(()));
    assert_eq!(token.granted_operators(a), vec![op, other]);
    assert_eq!(token.granted_operators(b), vec![other]);
    assert_eq!(token.granted_operators(installer), Vec::<Address>::new());
    assert_eq!(token.revoke_operator(a, op), Ok(()));
    assert_eq!(token.granted_operators(a), vec![other]);
}
