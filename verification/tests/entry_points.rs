use casper_erc777::constants;
use casper_erc777::entry_points;
use casper_erc777::entry_points::Access;
use casper_erc777::entry_points::Context;
use casper_erc777::entry_points::EntryPointDef;
use casper_erc777::entry_points::ValueType;
use casper_erc777::Address;
use casper_erc777::Amount;
use casper_erc777::ERC777;
use casper_types::CLType;
use casper_types::EntryPoint;
use casper_types::EntryPointAccess;
use casper_types::EntryPointType;
use casper_types::EntryPoints;

fn check(def: EntryPointDef, name: &str, args: &[(&str, ValueType)], ret: ValueType) {
    assert_eq!(def.name, name);
    assert_eq!(def.args.len(), args.len());
    for (parameter, expected) in def.args.iter().zip(args.iter()) {
        assert_eq!(parameter.name, expected.0);
        assert_eq!(parameter.value_type, expected.1);
    }
    assert_eq!(def.ret, ret);
    assert_eq!(def.access, Access::Public);
    assert_eq!(def.context, Context::Contract);
}

fn check_outside(entry_point: &EntryPoint, name: &str, args: &[(&str, CLType)], ret: CLType) {
    assert_eq!(entry_point.name(), name);
    assert_eq!(entry_point.args().len(), args.len());
    for (parameter, expected) in entry_point.args().iter().zip(args.iter()) {
        assert_eq!(parameter.name(), expected.0);
        assert_eq!(parameter.cl_type(), &expected.1);
    }
    assert_eq!(entry_point.ret(), &ret);
    assert_eq!(entry_point.access(), &EntryPointAccess::Public);
    assert_eq!(entry_point.entry_point_type(), EntryPointType::Contract);
}

#[test]
fn entry_points_of_the_description() {
    check(entry_points::name(), "name", &[], ValueType::String);
    check(entry_points::symbol(), "symbol", &[], ValueType::String);
    check(entry_points::decimals(), "decimals", &[], ValueType::U8);
    check(entry_points::granularity(), "granularity", &[], ValueType::U8);
}

#[test]
fn entry_points_of_the_balances() {
    check(entry_points::total_supply(), "total_supply", &[], ValueType::Amount);
    check(
        entry_points::balance_of(),
        "balance_of",
        &[("address", ValueType::Address)],
        ValueType::Amount,
    );
    check(
        entry_points::send(),
        "send",
        &[("recipient", ValueType::Address), ("amount", ValueType::Amount)],
        ValueType::Unit,
    );
    check(
        entry_points::burn(),
        "burn",
        &[("owner", ValueType::Address), ("amount", ValueType::Amount)],
        ValueType::Unit,
    );
    check(
        entry_points::transfer(),
        "transfer",
        &[("recipient", ValueType::Address), ("amount", ValueType::Amount)],
        ValueType::Unit,
    );
    check(
        entry_points::transfer_from(),
        "transfer_from",
        &[
            ("owner", ValueType::Address),
            ("recipient", ValueType::Address),
            ("amount", ValueType::Amount),
        ],
        ValueType::Unit,
    );
}

#[test]
fn entry_points_of_the_operators() {
    check(
        entry_points::is_operator_for(),
        "is_operator_for",
        &[("operator", ValueType::Address), ("token_holder", ValueType::Address)],
        ValueType::Bool,
    );
    check(
        entry_points::authorize_operator(),
        "authorize_operator",
        &[("operator", ValueType::Address)],
        ValueType::Unit,
    );
    check(
        entry_points::revoke_operator(),
        "revoke_operator",
        &[("operator", ValueType::Address)],
        ValueType::Unit,
    );
    check(entry_points::default_operators(), "default_operators", &[], ValueType::AddressList);
    check(
        entry_points::operator_send(),
        "operator_send",
        &[
            ("operator", ValueType::Address),
            ("recipient", ValueType::Address),
            ("amount", ValueType::Amount),
        ],
        ValueType::Unit,
    );
    check(
        entry_points::operator_burn(),
        "operator_burn",
        &[
            ("operator", ValueType::Address),
            ("recipient", ValueType::Address),
            ("amount", ValueType::Amount),
        ],
        ValueType::Unit,
    );
}

fn check_default(entry_points: &EntryPoints) {
    let mut names: Vec<String> = entry_points.keys().cloned().collect();
    names.sort();
    assert_eq!(
        names,
        vec![
            "authorize_operator",
            "balance_of",
            "decimals",
            "default_operators",
            "granularity",
            "is_operator_for",
            "name",
            "operator_burn",
            "operator_send",
            "revoke_operator",
            "send",
            "symbol",
            "total_supply",
        ]
    );
    assert!(!entry_points.has_entry_point("burn"));
    assert!(!entry_points.has_entry_point("mint"));
    assert!(!entry_points.has_entry_point("transfer"));
    assert!(!entry_points.has_entry_point("transfer_from"));
    check_outside(entry_points.get("name").unwrap(), "name", &[], CLType::String);
    check_outside(entry_points.get("symbol").unwrap(), "symbol", &[], CLType::String);
    check_outside(entry_points.get("decimals").unwrap(), "decimals", &[], CLType::U8);
    check_outside(entry_points.get("granularity").unwrap(), "granularity", &[], CLType::U8);
    check_outside(entry_points.get("total_supply").unwrap(), "total_supply", &[], CLType::U256);
    check_outside(
        entry_points.get("balance_of").unwrap(),
        "balance_of",
        &[("address", CLType::Key)],
        CLType::U256,
    );
    check_outside(
        entry_points.get("send").unwrap(),
        "send",
        &[("recipient", CLType::Key), ("amount", CLType::U256)],
        CLType::Unit,
    );
    check_outside(
        entry_points.get("is_operator_for").unwrap(),
        "is_operator_for",
        &[("operator", CLType::Key), ("token_holder", CLType::Key)],
        CLType::Bool,
    );
    check_outside(
        entry_points.get("authorize_operator").unwrap(),
        "authorize_operator",
        &[("operator", CLType::Key)],
        CLType::Unit,
    );
    check_outside(
        entry_points.get("revoke_operator").unwrap(),
        "revoke_operator",
        &[("operator", CLType::Key)],
        CLType::Unit,
    );
    check_outside(
        entry_points.get("default_operators").unwrap(),
        "default_operators",
        &[],
        CLType::List(Box::new(CLType::Key)),
    );
    check_outside(
        entry_points.get("operator_send").unwrap(),
        "operator_send",
        &[("operator", CLType::Key), ("recipient", CLType::Key), ("amount", CLType::U256)],
        CLType::Unit,
    );
    check_outside(
        entry_points.get("operator_burn").unwrap(),
        "operator_burn",
        &[("operator", CLType::Key), ("recipient", CLType::Key), ("amount", CLType::U256)],
        CLType::Unit,
    );
}

#[test]
fn default_entry_points() {
    check_default(&entry_points::default());
}

#[test]
fn install_publishes_the_default_entry_points() {
    let installation = ERC777::install(
        String::from("Token"),
        String::from("TKN"),
        8,
        1,
        Amount::from_u64(1000),
        Address::Account([1; 32]),
    );
    assert_eq!(installation.contract_key_name, "erc777_token_contract");
    check_default(&installation.entry_points);
}

#[test]
fn install_custom_publishes_what_it_is_given() {
    let installer = Address::Contract([5; 32]);
    let mut custom = EntryPoints::new();
    custom.add_entry_point(EntryPoint::new(
        String::from("only"),
        Vec::new(),
        CLType::Unit,
        EntryPointAccess::Public,
        EntryPointType::Contract,
    ));
    let installation = ERC777::install_custom(
        String::from("Token"),
        String::from("TKN"),
        8,
        1,
        Amount::from_u64(1000),
        installer,
        "my_token",
        custom.clone(),
    );
    assert_eq!(installation.contract_key_name, "my_token");
    assert_eq!(installation.entry_points, custom);
    assert_eq!(installation.token.balance_of(installer), Amount::from_u64(1000));
    assert_eq!(installation.token.total_supply(), Amount::from_u64(1000));
    assert_eq!(installation.token.default_operators(), vec![installer]);
}

#[test]
fn names_of_keys_and_arguments() {
    assert_eq!(constants::NAME_KEY_NAME, "name");
    assert_eq!(constants::SYMBOL_KEY_NAME, "symbol");
    assert_eq!(constants::DECIMALS_KEY_NAME, "decimals");
    assert_eq!(constants::GRANULARITY_KEY_NAME, "granularity");
    assert_eq!(constants::BALANCES_KEY_NAME, "balances");
    assert_eq!(constants::TOTAL_SUPPLY_KEY_NAME, "total_supply");
    assert_eq!(constants::DEFAULT_OPERATORS_KEY_NAME, "default_operators");
    assert_eq!(constants::OPERATORS_KEY_NAME, "operators");
    assert_eq!(constants::ERC777_TOKEN_CONTRACT_KEY_NAME, "erc777_token_contract");
    assert_eq!(constants::ADDRESS_RUNTIME_ARG_NAME, "address");
    assert_eq!(constants::OWNER_RUNTIME_ARG_NAME, "owner");
    assert_eq!(constants::SPENDER_RUNTIME_ARG_NAME, "spender");
    assert_eq!(constants::AMOUNT_RUNTIME_ARG_NAME, "amount");
    assert_eq!(constants::RECIPIENT_RUNTIME_ARG_NAME, "recipient");
    assert_eq!(constants::OPERATOR_RUNTIME_ARG_NAME, "operator");
    assert_eq!(constants::TOKEN_HOLDER_RUNTIME_ARG_NAME, "token_holder");
    assert_eq!(constants::NAME_RUNTIME_ARG_NAME, "name");
    assert_eq!(constants::SYMBOL_RUNTIME_ARG_NAME, "symbol");
    assert_eq!(constants::DECIMALS_RUNTIME_ARG_NAME, "decimals");
    assert_eq!(constants::GRANULARITY_RUNTIME_ARG_NAME, "granularity");
    assert_eq!(constants::TOTAL_SUPPLY_RUNTIME_ARG_NAME, "total_supply");
}
