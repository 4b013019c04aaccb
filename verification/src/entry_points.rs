//! Contains definition of the entry points.

use crate::constants::ADDRESS_RUNTIME_ARG_NAME;
use crate::constants::AMOUNT_RUNTIME_ARG_NAME;
use crate::constants::AUTHORIZE_OPERATOR_ENTRY_POINT_NAME;
use crate::constants::BALANCE_OF_ENTRY_POINT_NAME;
use crate::constants::BURN_ENTRY_POINT_NAME;
use crate::constants::DECIMALS_ENTRY_POINT_NAME;
use crate::constants::DEFAULT_OPERATORS_ENTRY_POINT_NAME;
use crate::constants::GRANULARITY_ENTRY_POINT_NAME;
use crate::constants::IS_OPERATOR_FOR_ENTRY_POINT_NAME;
use crate::constants::NAME_ENTRY_POINT_NAME;
use crate::constants::OPERATOR_BURN_ENTRY_POINT_NAME;
use crate::constants::OPERATOR_RUNTIME_ARG_NAME;
use crate::constants::OPERATOR_SEND_ENTRY_POINT_NAME;
use crate::constants::OWNER_RUNTIME_ARG_NAME;
use crate::constants::RECIPIENT_RUNTIME_ARG_NAME;
use crate::constants::REVOKE_OPERATOR_ENTRY_POINT_NAME;
use crate::constants::SEND_ENTRY_POINT_NAME;
use crate::constants::SYMBOL_ENTRY_POINT_NAME;
use crate::constants::TOKEN_HOLDER_RUNTIME_ARG_NAME;
use crate::constants::TOTAL_SUPPLY_ENTRY_POINT_NAME;
use crate::constants::TRANSFER_ENTRY_POINT_NAME;
use crate::constants::TRANSFER_FROM_ENTRY_POINT_NAME;
use casper_types::CLType;
use casper_types::EntryPoint;
use casper_types::EntryPointAccess;
use casper_types::EntryPointType;
use casper_types::EntryPoints;
use casper_types::Group;
use casper_types::Parameter;
use vstd::prelude::*;

verus! {

/// `casper_types::EntryPoints`: a collection of entry points, each under its
/// name.
#[verifier::external_type_specification]
#[verifier::external_body]
pub struct ExEntryPoints(EntryPoints);

/// `casper_types::CLType`: the type of a value as the Casper network knows it.
#[verifier::external_type_specification]
#[verifier::external_body]
pub struct ExCLType(CLType);

/// `casper_types::EntryPointAccess`: who may call an entry point.
#[verifier::external_type_specification]
#[verifier::external_body]
pub struct ExEntryPointAccess(EntryPointAccess);

/// `casper_types::EntryPointType`: in which context an entry point runs.
#[verifier::external_type_specification]
#[verifier::external_body]
pub struct ExEntryPointType(EntryPointType);

/// The type of a value that goes into an entry point or comes out of it.
#[derive(Clone, Copy, Debug, PartialEq, Eq)]
pub enum ValueType {
    /// Nothing.
    Unit,
    /// A truth value.
    Bool,
    /// A byte.
    U8,
    /// An amount of tokens.
    Amount,
    /// A string.
    String,
    /// An address.
    Address,
    /// A list of addresses.
    AddressList,
}

/// Who may call an entry point.
#[derive(Debug, PartialEq, Eq)]
pub enum Access {
    /// Anyone.
    Public,
    /// The members of the groups with these labels.
    Groups(Vec<String>),
}

/// What `Access` stands for.
pub enum AccessSpec {
    /// Anyone.
    Public,
    /// The members of the groups with these labels.
    Groups(Seq<Seq<char>>),
}

impl View for Access {
    type V = AccessSpec;

    open spec fn view(&self) -> AccessSpec {
        match self {
            Access::Public => AccessSpec::Public,
            Access::Groups(labels) => AccessSpec::Groups(
                Seq::new(labels@.len(), |i: int| labels@[i]@),
            ),
        }
    }
}

/// In which context an entry point runs.
#[derive(Clone, Copy, Debug, PartialEq, Eq)]
pub enum Context {
    /// As session code.
    Session,
    /// Within the contract's context.
    Contract,
}

/// A parameter of an entry point.
#[derive(Debug, PartialEq, Eq)]
pub struct ParameterDef {
    /// The name of the parameter.
    pub name: String,
    /// The type of the parameter.
    pub value_type: ValueType,
}

impl View for ParameterDef {
    type V = (Seq<char>, ValueType);

    open spec fn view(&self) -> (Seq<char>, ValueType) {
        (self.name@, self.value_type)
    }
}

/// The definition of an entry point: its name, its parameters in their order,
/// the type of what it returns, who may call it, and where it runs.
#[derive(Debug, PartialEq, Eq)]
pub struct EntryPointDef {
    /// The name of the entry point.
    pub name: String,
    /// The parameters, in their order.
    pub args: Vec<ParameterDef>,
    /// The type of what the entry point returns.
    pub ret: ValueType,
    /// Who may call the entry point.
    pub access: Access,
    /// In which context the entry point runs.
    pub context: Context,
}

/// What `EntryPointDef` stands for.
pub struct EntryPointSpec {
    /// The name of the entry point.
    pub name: Seq<char>,
    /// The parameters, in their order: the name and the type of each.
    pub args: Seq<(Seq<char>, ValueType)>,
    /// The type of what the entry point returns.
    pub ret: ValueType,
    /// Who may call the entry point.
    pub access: AccessSpec,
    /// In which context the entry point runs.
    pub context: Context,
}

impl View for EntryPointDef {
    type V = EntryPointSpec;

    open spec fn view(&self) -> EntryPointSpec {
        EntryPointSpec {
            name: self.name@,
            args: Seq::new(self.args@.len(), |i: int| self.args@[i]@),
            ret: self.ret,
            access: self.access@,
            context: self.context,
        }
    }
}

/// The entry points that a collection of entry points holds: the definition of
/// each, under its name.
pub uninterp spec fn entry_points_defs(entry_points: EntryPoints) -> Map<Seq<char>, EntryPointSpec>;

/// No entry point.
pub open spec fn no_entry_points() -> Map<Seq<char>, EntryPointSpec> {
    Map::empty()
}

/// `EntryPoints::new` returns a collection that holds no entry point.
pub assume_specification[ EntryPoints::new ]() -> (collection: EntryPoints)
    ensures
        entry_points_defs(collection) == no_entry_points(),
;

/// Gives the `CLType` that a `ValueType` stands for.
#[verifier::external_body]
fn to_cl_type(value_type: ValueType) -> CLType {
    match value_type {
        ValueType::Unit => CLType::Unit,
        ValueType::Bool => CLType::Bool,
        ValueType::U8 => CLType::U8,
        ValueType::Amount => CLType::U256,
        ValueType::String => CLType::String,
        ValueType::Address => CLType::Key,
        ValueType::AddressList => CLType::List(Box::new(CLType::Key)),
    }
}

/// Gives the `EntryPointAccess` that an `Access` stands for; `Group::new`
/// makes each group of its label.
#[verifier::external_body]
fn to_entry_point_access(access: Access) -> EntryPointAccess {
    match access {
        Access::Public => EntryPointAccess::Public,
        Access::Groups(labels) => EntryPointAccess::Groups(
            labels.into_iter().map(Group::new).collect(),
        ),
    }
}

/// Gives the `EntryPointType` that a `Context` stands for.
#[verifier::external_body]
fn to_entry_point_type(context: Context) -> EntryPointType {
    match context {
        Context::Session => EntryPointType::Session,
        Context::Contract => EntryPointType::Contract,
    }
}

/// Calls `EntryPoints::add_entry_point` with the entry point that
/// `EntryPoint::new` makes of the definition, its parameters made by
/// `Parameter::new`. The collection then holds the definition under its name,
/// in place of what it held under that name, and the other entry points as
/// before.
#[verifier::external_body]
fn add_entry_point(entry_points: &mut EntryPoints, definition: EntryPointDef)
    ensures
        entry_points_defs(*final(entry_points)) == entry_points_defs(*old(entry_points)).insert(
            definition@.name,
            definition@,
        ),
{
    let mut args: Vec<Parameter> = Vec::new();
    for parameter in definition.args {
        args.push(Parameter::new(parameter.name, to_cl_type(parameter.value_type)));
    }
    entry_points.add_entry_point(
        EntryPoint::new(
            definition.name,
            args,
            to_cl_type(definition.ret),
            to_entry_point_access(definition.access),
            to_entry_point_type(definition.context),
        ),
    );
}

/// A parameter with the given name and type.
pub open spec fn parameter_spec(name: &str, value_type: ValueType) -> (Seq<char>, ValueType) {
    (name@, value_type)
}

/// The definition of a public entry point that runs within the contract's
/// context.
pub open spec fn public_entry_point(
    name: &str,
    args: Seq<(Seq<char>, ValueType)>,
    ret: ValueType,
) -> EntryPointSpec {
    EntryPointSpec { name: name@, args, ret, access: AccessSpec::Public, context: Context::Contract }
}

fn parameter(name: &str, value_type: ValueType) -> (parameter: ParameterDef)
    ensures
        parameter@ == parameter_spec(name, value_type),
{
    ParameterDef { name: name.to_owned(), value_type }
}

fn entry_point(name: &str, args: Vec<ParameterDef>, ret: ValueType) -> (entry_point: EntryPointDef)
    ensures
        entry_point@ == public_entry_point(name, Seq::new(args@.len(), |i: int| args@[i]@), ret),
{
    EntryPointDef {
        name: name.to_owned(),
        args,
        ret,
        access: Access::Public,
        context: Context::Contract,
    }
}

/// The `name` entry point: it takes nothing and returns the name of the token, a string.
pub open spec fn name_spec() -> EntryPointSpec {
    public_entry_point(
        NAME_ENTRY_POINT_NAME,
        seq![],
        ValueType::String,
    )
}

/// Returns the `name` entry point.
pub fn name() -> (entry_point: EntryPointDef)
    ensures
        entry_point@ == name_spec(),
{
    let args: Vec<ParameterDef> = Vec::new();
    let entry_point = self::entry_point(NAME_ENTRY_POINT_NAME, args, ValueType::String);
    assert(entry_point@.args =~= name_spec().args);
    entry_point
}

/// The `symbol` entry point: it takes nothing and returns the symbol of the token, a string.
pub open spec fn symbol_spec() -> EntryPointSpec {
    public_entry_point(
        SYMBOL_ENTRY_POINT_NAME,
        seq![],
        ValueType::String,
    )
}

/// Returns the `symbol` entry point.
pub fn symbol() -> (entry_point: EntryPointDef)
    ensures
        entry_point@ == symbol_spec(),
{
    let args: Vec<ParameterDef> = Vec::new();
    let entry_point = self::entry_point(SYMBOL_ENTRY_POINT_NAME, args, ValueType::String);
    assert(entry_point@.args =~= symbol_spec().args);
    entry_point
}

/// The `transfer_from` entry point: it takes an owner, a recipient and an amount, and returns nothing.
pub open spec fn transfer_from_spec() -> EntryPointSpec {
    public_entry_point(
        TRANSFER_FROM_ENTRY_POINT_NAME,
        seq![
            parameter_spec(OWNER_RUNTIME_ARG_NAME, ValueType::Address),
            parameter_spec(RECIPIENT_RUNTIME_ARG_NAME, ValueType::Address),
            parameter_spec(AMOUNT_RUNTIME_ARG_NAME, ValueType::Amount),
        ],
        ValueType::Unit,
    )
}

/// Returns the `transfer_from` entry point. It is not among the default entry
/// points.
pub fn transfer_from() -> (entry_point: EntryPointDef)
    ensures
        entry_point@ == transfer_from_spec(),
{
    let mut args: Vec<ParameterDef> = Vec::new();
    args.push(parameter(OWNER_RUNTIME_ARG_NAME, ValueType::Address));
    args.push(parameter(RECIPIENT_RUNTIME_ARG_NAME, ValueType::Address));
    args.push(parameter(AMOUNT_RUNTIME_ARG_NAME, ValueType::Amount));
    let entry_point = self::entry_point(TRANSFER_FROM_ENTRY_POINT_NAME, args, ValueType::Unit);
    assert(entry_point@.args =~= transfer_from_spec().args);
    entry_point
}

/// The `transfer` entry point: it takes a recipient and an amount, and returns nothing.
pub open spec fn transfer_spec() -> EntryPointSpec {
    public_entry_point(
        TRANSFER_ENTRY_POINT_NAME,
        seq![
            parameter_spec(RECIPIENT_RUNTIME_ARG_NAME, ValueType::Address),
            parameter_spec(AMOUNT_RUNTIME_ARG_NAME, ValueType::Amount),
        ],
        ValueType::Unit,
    )
}

/// Returns the `transfer` entry point. It is not among the default entry
/// points.
pub fn transfer() -> (entry_point: EntryPointDef)
    ensures
        entry_point@ == transfer_spec(),
{
    let mut args: Vec<ParameterDef> = Vec::new();
    args.push(parameter(RECIPIENT_RUNTIME_ARG_NAME, ValueType::Address));
    args.push(parameter(AMOUNT_RUNTIME_ARG_NAME, ValueType::Amount));
    let entry_point = self::entry_point(TRANSFER_ENTRY_POINT_NAME, args, ValueType::Unit);
    assert(entry_point@.args =~= transfer_spec().args);
    entry_point
}

/// The `balance_of` entry point: it takes an address and returns its balance, an amount.
pub open spec fn balance_of_spec() -> EntryPointSpec {
    public_entry_point(
        BALANCE_OF_ENTRY_POINT_NAME,
        seq![
            parameter_spec(ADDRESS_RUNTIME_ARG_NAME, ValueType::Address),
        ],
        ValueType::Amount,
    )
}

/// Returns the `balance_of` entry point.
pub fn balance_of() -> (entry_point: EntryPointDef)
    ensures
        entry_point@ == balance_of_spec(),
{
    let mut args: Vec<ParameterDef> = Vec::new();
    args.push(parameter(ADDRESS_RUNTIME_ARG_NAME, ValueType::Address));
    let entry_point = self::entry_point(BALANCE_OF_ENTRY_POINT_NAME, args, ValueType::Amount);
    assert(entry_point@.args =~= balance_of_spec().args);
    entry_point
}

/// The `total_supply` entry point: it takes nothing and returns the total supply, an amount.
pub open spec fn total_supply_spec() -> EntryPointSpec {
    public_entry_point(
        TOTAL_SUPPLY_ENTRY_POINT_NAME,
        seq![],
        ValueType::Amount,
    )
}

/// Returns the `total_supply` entry point.
pub fn total_supply() -> (entry_point: EntryPointDef)
    ensures
        entry_point@ == total_supply_spec(),
{
    let args: Vec<ParameterDef> = Vec::new();
    let entry_point = self::entry_point(TOTAL_SUPPLY_ENTRY_POINT_NAME, args, ValueType::Amount);
    assert(entry_point@.args =~= total_supply_spec().args);
    entry_point
}

/// The `granularity` entry point: it takes nothing and returns the granularity, a byte.
pub open spec fn granularity_spec() -> EntryPointSpec {
    public_entry_point(
        GRANULARITY_ENTRY_POINT_NAME,
        seq![],
        ValueType::U8,
    )
}

/// Returns the `granularity` entry point.
pub fn granularity() -> (entry_point: EntryPointDef)
    ensures
        entry_point@ == granularity_spec(),
{
    let args: Vec<ParameterDef> = Vec::new();
    let entry_point = self::entry_point(GRANULARITY_ENTRY_POINT_NAME, args, ValueType::U8);
    assert(entry_point@.args =~= granularity_spec().args);
    entry_point
}

/// The `decimals` entry point: it takes nothing and returns the decimals, a byte.
pub open spec fn decimals_spec() -> EntryPointSpec {
    public_entry_point(
        DECIMALS_ENTRY_POINT_NAME,
        seq![],
        ValueType::U8,
    )
}

/// Returns the `decimals` entry point.
pub fn decimals() -> (entry_point: EntryPointDef)
    ensures
        entry_point@ == decimals_spec(),
{
    let args: Vec<ParameterDef> = Vec::new();
    let entry_point = self::entry_point(DECIMALS_ENTRY_POINT_NAME, args, ValueType::U8);
    assert(entry_point@.args =~= decimals_spec().args);
    entry_point
}

/// The `send` entry point: it takes a recipient and an amount, and returns nothing; the sender is
/// the caller.
pub open spec fn send_spec() -> EntryPointSpec {
    public_entry_point(
        SEND_ENTRY_POINT_NAME,
        seq![
            parameter_spec(RECIPIENT_RUNTIME_ARG_NAME, ValueType::Address),
            parameter_spec(AMOUNT_RUNTIME_ARG_NAME, ValueType::Amount),
        ],
        ValueType::Unit,
    )
}

/// Returns the `send` entry point.
pub fn send() -> (entry_point: EntryPointDef)
    ensures
        entry_point@ == send_spec(),
{
    let mut args: Vec<ParameterDef> = Vec::new();
    args.push(parameter(RECIPIENT_RUNTIME_ARG_NAME, ValueType::Address));
    args.push(parameter(AMOUNT_RUNTIME_ARG_NAME, ValueType::Amount));
    let entry_point = self::entry_point(SEND_ENTRY_POINT_NAME, args, ValueType::Unit);
    assert(entry_point@.args =~= send_spec().args);
    entry_point
}

/// The `burn` entry point: it takes an owner and an amount, and returns nothing.
pub open spec fn burn_spec() -> EntryPointSpec {
    public_entry_point(
        BURN_ENTRY_POINT_NAME,
        seq![
            parameter_spec(OWNER_RUNTIME_ARG_NAME, ValueType::Address),
            parameter_spec(AMOUNT_RUNTIME_ARG_NAME, ValueType::Amount),
        ],
        ValueType::Unit,
    )
}

/// Returns the `burn` entry point. Burning checks nothing of who asks for it,
/// so this entry point is not among the default entry points.
pub fn burn() -> (entry_point: EntryPointDef)
    ensures
        entry_point@ == burn_spec(),
{
    let mut args: Vec<ParameterDef> = Vec::new();
    args.push(parameter(OWNER_RUNTIME_ARG_NAME, ValueType::Address));
    args.push(parameter(AMOUNT_RUNTIME_ARG_NAME, ValueType::Amount));
    let entry_point = self::entry_point(BURN_ENTRY_POINT_NAME, args, ValueType::Unit);
    assert(entry_point@.args =~= burn_spec().args);
    entry_point
}

/// The `is_operator_for` entry point: it takes an operator and a token holder, and returns a truth
/// value.
pub open spec fn is_operator_for_spec() -> EntryPointSpec {
    public_entry_point(
        IS_OPERATOR_FOR_ENTRY_POINT_NAME,
        seq![
            parameter_spec(OPERATOR_RUNTIME_ARG_NAME, ValueType::Address),
            parameter_spec(TOKEN_HOLDER_RUNTIME_ARG_NAME, ValueType::Address),
        ],
        ValueType::Bool,
    )
}

/// Returns the `is_operator_for` entry point.
pub fn is_operator_for() -> (entry_point: EntryPointDef)
    ensures
        entry_point@ == is_operator_for_spec(),
{
    let mut args: Vec<ParameterDef> = Vec::new();
    args.push(parameter(OPERATOR_RUNTIME_ARG_NAME, ValueType::Address));
    args.push(parameter(TOKEN_HOLDER_RUNTIME_ARG_NAME, ValueType::Address));
    let entry_point = self::entry_point(IS_OPERATOR_FOR_ENTRY_POINT_NAME, args, ValueType::Bool);
    assert(entry_point@.args =~= is_operator_for_spec().args);
    entry_point
}

/// The `authorize_operator` entry point: it takes an operator and returns nothing; the
/// token holder is the caller.
pub open spec fn authorize_operator_spec() -> EntryPointSpec {
    public_entry_point(
        AUTHORIZE_OPERATOR_ENTRY_POINT_NAME,
        seq![
            parameter_spec(OPERATOR_RUNTIME_ARG_NAME, ValueType::Address),
        ],
        ValueType::Unit,
    )
}

/// Returns the `authorize_operator` entry point.
pub fn authorize_operator() -> (entry_point: EntryPointDef)
    ensures
        entry_point@ == authorize_operator_spec(),
{
    let mut args: Vec<ParameterDef> = Vec::new();
    args.push(parameter(OPERATOR_RUNTIME_ARG_NAME, ValueType::Address));
    let entry_point = self::entry_point(AUTHORIZE_OPERATOR_ENTRY_POINT_NAME, args, ValueType::Unit);
    assert(entry_point@.args =~= authorize_operator_spec().args);
    entry_point
}

/// The `revoke_operator` entry point: it takes an operator and returns nothing; the
/// token holder is the caller.
pub open spec fn revoke_operator_spec() -> EntryPointSpec {
    public_entry_point(
        REVOKE_OPERATOR_ENTRY_POINT_NAME,
        seq![
            parameter_spec(OPERATOR_RUNTIME_ARG_NAME, ValueType::Address),
        ],
        ValueType::Unit,
    )
}

/// Returns the `revoke_operator` entry point.
pub fn revoke_operator() -> (entry_point: EntryPointDef)
    ensures
        entry_point@ == revoke_operator_spec(),
{
    let mut args: Vec<ParameterDef> = Vec::new();
    args.push(parameter(OPERATOR_RUNTIME_ARG_NAME, ValueType::Address));
    let entry_point = self::entry_point(REVOKE_OPERATOR_ENTRY_POINT_NAME, args, ValueType::Unit);
    assert(entry_point@.args =~= revoke_operator_spec().args);
    entry_point
}

/// The `default_operators` entry point: it takes nothing and returns the default
/// operators, a list of addresses.
pub open spec fn default_operators_spec() -> EntryPointSpec {
    public_entry_point(
        DEFAULT_OPERATORS_ENTRY_POINT_NAME,
        seq![],
        ValueType::AddressList,
    )
}

/// Returns the `default_operators` entry point.
pub fn default_operators() -> (entry_point: EntryPointDef)
    ensures
        entry_point@ == default_operators_spec(),
{
    let args: Vec<ParameterDef> = Vec::new();
    let entry_point = self::entry_point(DEFAULT_OPERATORS_ENTRY_POINT_NAME, args, ValueType::AddressList);
    assert(entry_point@.args =~= default_operators_spec().args);
    entry_point
}

/// The `operator_send` entry point: it takes an operator, a recipient and an amount,
/// and returns nothing.
pub open spec fn operator_send_spec() -> EntryPointSpec {
    public_entry_point(
        OPERATOR_SEND_ENTRY_POINT_NAME,
        seq![
            parameter_spec(OPERATOR_RUNTIME_ARG_NAME, ValueType::Address),
            parameter_spec(RECIPIENT_RUNTIME_ARG_NAME, ValueType::Address),
            parameter_spec(AMOUNT_RUNTIME_ARG_NAME, ValueType::Amount),
        ],
        ValueType::Unit,
    )
}

/// Returns the `operator_send` entry point.
pub fn operator_send() -> (entry_point: EntryPointDef)
    ensures
        entry_point@ == operator_send_spec(),
{
    let mut args: Vec<ParameterDef> = Vec::new();
    args.push(parameter(OPERATOR_RUNTIME_ARG_NAME, ValueType::Address));
    args.push(parameter(RECIPIENT_RUNTIME_ARG_NAME, ValueType::Address));
    args.push(parameter(AMOUNT_RUNTIME_ARG_NAME, ValueType::Amount));
    let entry_point = self::entry_point(OPERATOR_SEND_ENTRY_POINT_NAME, args, ValueType::Unit);
    assert(entry_point@.args =~= operator_send_spec().args);
    entry_point
}

/// The `operator_burn` entry point: it takes an operator, the holder whose tokens are
/// burnt and an amount, and returns nothing.
pub open spec fn operator_burn_spec() -> EntryPointSpec {
    public_entry_point(
        OPERATOR_BURN_ENTRY_POINT_NAME,
        seq![
            parameter_spec(OPERATOR_RUNTIME_ARG_NAME, ValueType::Address),
            parameter_spec(RECIPIENT_RUNTIME_ARG_NAME, ValueType::Address),
            parameter_spec(AMOUNT_RUNTIME_ARG_NAME, ValueType::Amount),
        ],
        ValueType::Unit,
    )
}

/// Returns the `operator_burn` entry point.
pub fn operator_burn() -> (entry_point: EntryPointDef)
    ensures
        entry_point@ == operator_burn_spec(),
{
    let mut args: Vec<ParameterDef> = Vec::new();
    args.push(parameter(OPERATOR_RUNTIME_ARG_NAME, ValueType::Address));
    args.push(parameter(RECIPIENT_RUNTIME_ARG_NAME, ValueType::Address));
    args.push(parameter(AMOUNT_RUNTIME_ARG_NAME, ValueType::Amount));
    let entry_point = self::entry_point(OPERATOR_BURN_ENTRY_POINT_NAME, args, ValueType::Unit);
    assert(entry_point@.args =~= operator_burn_spec().args);
    entry_point
}

/// The entry points with the definition `added` among them, under its name.
pub open spec fn with_entry_point(
    defs: Map<Seq<char>, EntryPointSpec>,
    added: EntryPointSpec,
) -> Map<Seq<char>, EntryPointSpec> {
    defs.insert(added.name, added)
}

/// The default entry points: those for the description of the token, for the
/// balances and the total supply, for sending, and for operators.
pub open spec fn default_spec() -> Map<Seq<char>, EntryPointSpec> {
    let defs = no_entry_points();
    let defs = with_entry_point(defs, name_spec());
    let defs = with_entry_point(defs, symbol_spec());
    let defs = with_entry_point(defs, granularity_spec());
    let defs = with_entry_point(defs, decimals_spec());
    let defs = with_entry_point(defs, total_supply_spec());
    let defs = with_entry_point(defs, balance_of_spec());
    let defs = with_entry_point(defs, send_spec());
    let defs = with_entry_point(defs, is_operator_for_spec());
    let defs = with_entry_point(defs, authorize_operator_spec());
    let defs = with_entry_point(defs, revoke_operator_spec());
    let defs = with_entry_point(defs, default_operators_spec());
    let defs = with_entry_point(defs, operator_send_spec());
    let defs = with_entry_point(defs, operator_burn_spec());
    defs
}

/// The names of the entry points differ from one another.
proof fn lemma_names_differ()
    ensures
        NAME_ENTRY_POINT_NAME@ != SYMBOL_ENTRY_POINT_NAME@,
        NAME_ENTRY_POINT_NAME@ != GRANULARITY_ENTRY_POINT_NAME@,
        NAME_ENTRY_POINT_NAME@ != DECIMALS_ENTRY_POINT_NAME@,
        NAME_ENTRY_POINT_NAME@ != TOTAL_SUPPLY_ENTRY_POINT_NAME@,
        NAME_ENTRY_POINT_NAME@ != BALANCE_OF_ENTRY_POINT_NAME@,
        NAME_ENTRY_POINT_NAME@ != SEND_ENTRY_POINT_NAME@,
        NAME_ENTRY_POINT_NAME@ != IS_OPERATOR_FOR_ENTRY_POINT_NAME@,
        NAME_ENTRY_POINT_NAME@ != AUTHORIZE_OPERATOR_ENTRY_POINT_NAME@,
        NAME_ENTRY_POINT_NAME@ != REVOKE_OPERATOR_ENTRY_POINT_NAME@,
        NAME_ENTRY_POINT_NAME@ != DEFAULT_OPERATORS_ENTRY_POINT_NAME@,
        NAME_ENTRY_POINT_NAME@ != OPERATOR_SEND_ENTRY_POINT_NAME@,
        NAME_ENTRY_POINT_NAME@ != OPERATOR_BURN_ENTRY_POINT_NAME@,
        NAME_ENTRY_POINT_NAME@ != BURN_ENTRY_POINT_NAME@,
        NAME_ENTRY_POINT_NAME@ != TRANSFER_ENTRY_POINT_NAME@,
        NAME_ENTRY_POINT_NAME@ != TRANSFER_FROM_ENTRY_POINT_NAME@,
        SYMBOL_ENTRY_POINT_NAME@ != GRANULARITY_ENTRY_POINT_NAME@,
        SYMBOL_ENTRY_POINT_NAME@ != DECIMALS_ENTRY_POINT_NAME@,
        SYMBOL_ENTRY_POINT_NAME@ != TOTAL_SUPPLY_ENTRY_POINT_NAME@,
        SYMBOL_ENTRY_POINT_NAME@ != BALANCE_OF_ENTRY_POINT_NAME@,
        SYMBOL_ENTRY_POINT_NAME@ != SEND_ENTRY_POINT_NAME@,
        SYMBOL_ENTRY_POINT_NAME@ != IS_OPERATOR_FOR_ENTRY_POINT_NAME@,
        SYMBOL_ENTRY_POINT_NAME@ != AUTHORIZE_OPERATOR_ENTRY_POINT_NAME@,
        SYMBOL_ENTRY_POINT_NAME@ != REVOKE_OPERATOR_ENTRY_POINT_NAME@,
        SYMBOL_ENTRY_POINT_NAME@ != DEFAULT_OPERATORS_ENTRY_POINT_NAME@,
        SYMBOL_ENTRY_POINT_NAME@ != OPERATOR_SEND_ENTRY_POINT_NAME@,
        SYMBOL_ENTRY_POINT_NAME@ != OPERATOR_BURN_ENTRY_POINT_NAME@,
        SYMBOL_ENTRY_POINT_NAME@ != BURN_ENTRY_POINT_NAME@,
        SYMBOL_ENTRY_POINT_NAME@ != TRANSFER_ENTRY_POINT_NAME@,
        SYMBOL_ENTRY_POINT_NAME@ != TRANSFER_FROM_ENTRY_POINT_NAME@,
        GRANULARITY_ENTRY_POINT_NAME@ != DECIMALS_ENTRY_POINT_NAME@,
        GRANULARITY_ENTRY_POINT_NAME@ != TOTAL_SUPPLY_ENTRY_POINT_NAME@,
        GRANULARITY_ENTRY_POINT_NAME@ != BALANCE_OF_ENTRY_POINT_NAME@,
        GRANULARITY_ENTRY_POINT_NAME@ != SEND_ENTRY_POINT_NAME@,
        GRANULARITY_ENTRY_POINT_NAME@ != IS_OPERATOR_FOR_ENTRY_POINT_NAME@,
        GRANULARITY_ENTRY_POINT_NAME@ != AUTHORIZE_OPERATOR_ENTRY_POINT_NAME@,
        GRANULARITY_ENTRY_POINT_NAME@ != REVOKE_OPERATOR_ENTRY_POINT_NAME@,
        GRANULARITY_ENTRY_POINT_NAME@ != DEFAULT_OPERATORS_ENTRY_POINT_NAME@,
        GRANULARITY_ENTRY_POINT_NAME@ != OPERATOR_SEND_ENTRY_POINT_NAME@,
        GRANULARITY_ENTRY_POINT_NAME@ != OPERATOR_BURN_ENTRY_POINT_NAME@,
        GRANULARITY_ENTRY_POINT_NAME@ != BURN_ENTRY_POINT_NAME@,
        GRANULARITY_ENTRY_POINT_NAME@ != TRANSFER_ENTRY_POINT_NAME@,
        GRANULARITY_ENTRY_POINT_NAME@ != TRANSFER_FROM_ENTRY_POINT_NAME@,
        DECIMALS_ENTRY_POINT_NAME@ != TOTAL_SUPPLY_ENTRY_POINT_NAME@,
        DECIMALS_ENTRY_POINT_NAME@ != BALANCE_OF_ENTRY_POINT_NAME@,
        DECIMALS_ENTRY_POINT_NAME@ != SEND_ENTRY_POINT_NAME@,
        DECIMALS_ENTRY_POINT_NAME@ != IS_OPERATOR_FOR_ENTRY_POINT_NAME@,
        DECIMALS_ENTRY_POINT_NAME@ != AUTHORIZE_OPERATOR_ENTRY_POINT_NAME@,
        DECIMALS_ENTRY_POINT_NAME@ != REVOKE_OPERATOR_ENTRY_POINT_NAME@,
        DECIMALS_ENTRY_POINT_NAME@ != DEFAULT_OPERATORS_ENTRY_POINT_NAME@,
        DECIMALS_ENTRY_POINT_NAME@ != OPERATOR_SEND_ENTRY_POINT_NAME@,
        DECIMALS_ENTRY_POINT_NAME@ != OPERATOR_BURN_ENTRY_POINT_NAME@,
        DECIMALS_ENTRY_POINT_NAME@ != BURN_ENTRY_POINT_NAME@,
        DECIMALS_ENTRY_POINT_NAME@ != TRANSFER_ENTRY_POINT_NAME@,
        DECIMALS_ENTRY_POINT_NAME@ != TRANSFER_FROM_ENTRY_POINT_NAME@,
        TOTAL_SUPPLY_ENTRY_POINT_NAME@ != BALANCE_OF_ENTRY_POINT_NAME@,
        TOTAL_SUPPLY_ENTRY_POINT_NAME@ != SEND_ENTRY_POINT_NAME@,
        TOTAL_SUPPLY_ENTRY_POINT_NAME@ != IS_OPERATOR_FOR_ENTRY_POINT_NAME@,
        TOTAL_SUPPLY_ENTRY_POINT_NAME@ != AUTHORIZE_OPERATOR_ENTRY_POINT_NAME@,
        TOTAL_SUPPLY_ENTRY_POINT_NAME@ != REVOKE_OPERATOR_ENTRY_POINT_NAME@,
        TOTAL_SUPPLY_ENTRY_POINT_NAME@ != DEFAULT_OPERATORS_ENTRY_POINT_NAME@,
        TOTAL_SUPPLY_ENTRY_POINT_NAME@ != OPERATOR_SEND_ENTRY_POINT_NAME@,
        TOTAL_SUPPLY_ENTRY_POINT_NAME@ != OPERATOR_BURN_ENTRY_POINT_NAME@,
        TOTAL_SUPPLY_ENTRY_POINT_NAME@ != BURN_ENTRY_POINT_NAME@,
        TOTAL_SUPPLY_ENTRY_POINT_NAME@ != TRANSFER_ENTRY_POINT_NAME@,
        TOTAL_SUPPLY_ENTRY_POINT_NAME@ != TRANSFER_FROM_ENTRY_POINT_NAME@,
        BALANCE_OF_ENTRY_POINT_NAME@ != SEND_ENTRY_POINT_NAME@,
        BALANCE_OF_ENTRY_POINT_NAME@ != IS_OPERATOR_FOR_ENTRY_POINT_NAME@,
        BALANCE_OF_ENTRY_POINT_NAME@ != AUTHORIZE_OPERATOR_ENTRY_POINT_NAME@,
        BALANCE_OF_ENTRY_POINT_NAME@ != REVOKE_OPERATOR_ENTRY_POINT_NAME@,
        BALANCE_OF_ENTRY_POINT_NAME@ != DEFAULT_OPERATORS_ENTRY_POINT_NAME@,
        BALANCE_OF_ENTRY_POINT_NAME@ != OPERATOR_SEND_ENTRY_POINT_NAME@,
        BALANCE_OF_ENTRY_POINT_NAME@ != OPERATOR_BURN_ENTRY_POINT_NAME@,
        BALANCE_OF_ENTRY_POINT_NAME@ != BURN_ENTRY_POINT_NAME@,
        BALANCE_OF_ENTRY_POINT_NAME@ != TRANSFER_ENTRY_POINT_NAME@,
        BALANCE_OF_ENTRY_POINT_NAME@ != TRANSFER_FROM_ENTRY_POINT_NAME@,
        SEND_ENTRY_POINT_NAME@ != IS_OPERATOR_FOR_ENTRY_POINT_NAME@,
        SEND_ENTRY_POINT_NAME@ != AUTHORIZE_OPERATOR_ENTRY_POINT_NAME@,
        SEND_ENTRY_POINT_NAME@ != REVOKE_OPERATOR_ENTRY_POINT_NAME@,
        SEND_ENTRY_POINT_NAME@ != DEFAULT_OPERATORS_ENTRY_POINT_NAME@,
        SEND_ENTRY_POINT_NAME@ != OPERATOR_SEND_ENTRY_POINT_NAME@,
        SEND_ENTRY_POINT_NAME@ != OPERATOR_BURN_ENTRY_POINT_NAME@,
        SEND_ENTRY_POINT_NAME@ != BURN_ENTRY_POINT_NAME@,
        SEND_ENTRY_POINT_NAME@ != TRANSFER_ENTRY_POINT_NAME@,
        SEND_ENTRY_POINT_NAME@ != TRANSFER_FROM_ENTRY_POINT_NAME@,
        IS_OPERATOR_FOR_ENTRY_POINT_NAME@ != AUTHORIZE_OPERATOR_ENTRY_POINT_NAME@,
        IS_OPERATOR_FOR_ENTRY_POINT_NAME@ != REVOKE_OPERATOR_ENTRY_POINT_NAME@,
        IS_OPERATOR_FOR_ENTRY_POINT_NAME@ != DEFAULT_OPERATORS_ENTRY_POINT_NAME@,
        IS_OPERATOR_FOR_ENTRY_POINT_NAME@ != OPERATOR_SEND_ENTRY_POINT_NAME@,
        IS_OPERATOR_FOR_ENTRY_POINT_NAME@ != OPERATOR_BURN_ENTRY_POINT_NAME@,
        IS_OPERATOR_FOR_ENTRY_POINT_NAME@ != BURN_ENTRY_POINT_NAME@,
        IS_OPERATOR_FOR_ENTRY_POINT_NAME@ != TRANSFER_ENTRY_POINT_NAME@,
        IS_OPERATOR_FOR_ENTRY_POINT_NAME@ != TRANSFER_FROM_ENTRY_POINT_NAME@,
        AUTHORIZE_OPERATOR_ENTRY_POINT_NAME@ != REVOKE_OPERATOR_ENTRY_POINT_NAME@,
        AUTHORIZE_OPERATOR_ENTRY_POINT_NAME@ != DEFAULT_OPERATORS_ENTRY_POINT_NAME@,
        AUTHORIZE_OPERATOR_ENTRY_POINT_NAME@ != OPERATOR_SEND_ENTRY_POINT_NAME@,
        AUTHORIZE_OPERATOR_ENTRY_POINT_NAME@ != OPERATOR_BURN_ENTRY_POINT_NAME@,
        AUTHORIZE_OPERATOR_ENTRY_POINT_NAME@ != BURN_ENTRY_POINT_NAME@,
        AUTHORIZE_OPERATOR_ENTRY_POINT_NAME@ != TRANSFER_ENTRY_POINT_NAME@,
        AUTHORIZE_OPERATOR_ENTRY_POINT_NAME@ != TRANSFER_FROM_ENTRY_POINT_NAME@,
        REVOKE_OPERATOR_ENTRY_POINT_NAME@ != DEFAULT_OPERATORS_ENTRY_POINT_NAME@,
        REVOKE_OPERATOR_ENTRY_POINT_NAME@ != OPERATOR_SEND_ENTRY_POINT_NAME@,
        REVOKE_OPERATOR_ENTRY_POINT_NAME@ != OPERATOR_BURN_ENTRY_POINT_NAME@,
        REVOKE_OPERATOR_ENTRY_POINT_NAME@ != BURN_ENTRY_POINT_NAME@,
        REVOKE_OPERATOR_ENTRY_POINT_NAME@ != TRANSFER_ENTRY_POINT_NAME@,
        REVOKE_OPERATOR_ENTRY_POINT_NAME@ != TRANSFER_FROM_ENTRY_POINT_NAME@,
        DEFAULT_OPERATORS_ENTRY_POINT_NAME@ != OPERATOR_SEND_ENTRY_POINT_NAME@,
        DEFAULT_OPERATORS_ENTRY_POINT_NAME@ != OPERATOR_BURN_ENTRY_POINT_NAME@,
        DEFAULT_OPERATORS_ENTRY_POINT_NAME@ != BURN_ENTRY_POINT_NAME@,
        DEFAULT_OPERATORS_ENTRY_POINT_NAME@ != TRANSFER_ENTRY_POINT_NAME@,
        DEFAULT_OPERATORS_ENTRY_POINT_NAME@ != TRANSFER_FROM_ENTRY_POINT_NAME@,
        OPERATOR_SEND_ENTRY_POINT_NAME@ != OPERATOR_BURN_ENTRY_POINT_NAME@,
        OPERATOR_SEND_ENTRY_POINT_NAME@ != BURN_ENTRY_POINT_NAME@,
        OPERATOR_SEND_ENTRY_POINT_NAME@ != TRANSFER_ENTRY_POINT_NAME@,
        OPERATOR_SEND_ENTRY_POINT_NAME@ != TRANSFER_FROM_ENTRY_POINT_NAME@,
        OPERATOR_BURN_ENTRY_POINT_NAME@ != BURN_ENTRY_POINT_NAME@,
        OPERATOR_BURN_ENTRY_POINT_NAME@ != TRANSFER_ENTRY_POINT_NAME@,
        OPERATOR_BURN_ENTRY_POINT_NAME@ != TRANSFER_FROM_ENTRY_POINT_NAME@,
        BURN_ENTRY_POINT_NAME@ != TRANSFER_ENTRY_POINT_NAME@,
        BURN_ENTRY_POINT_NAME@ != TRANSFER_FROM_ENTRY_POINT_NAME@,
        TRANSFER_ENTRY_POINT_NAME@ != TRANSFER_FROM_ENTRY_POINT_NAME@,
{
    reveal_strlit("name");
    reveal_strlit("symbol");
    reveal_strlit("granularity");
    reveal_strlit("decimals");
    reveal_strlit("total_supply");
    reveal_strlit("balance_of");
    reveal_strlit("send");
    reveal_strlit("is_operator_for");
    reveal_strlit("authorize_operator");
    reveal_strlit("revoke_operator");
    reveal_strlit("default_operators");
    reveal_strlit("operator_send");
    reveal_strlit("operator_burn");
    reveal_strlit("burn");
    reveal_strlit("transfer");
    reveal_strlit("transfer_from");
    assert(NAME_ENTRY_POINT_NAME@.len() != SYMBOL_ENTRY_POINT_NAME@.len());
    assert(NAME_ENTRY_POINT_NAME@.len() != GRANULARITY_ENTRY_POINT_NAME@.len());
    assert(NAME_ENTRY_POINT_NAME@.len() != DECIMALS_ENTRY_POINT_NAME@.len());
    assert(NAME_ENTRY_POINT_NAME@.len() != TOTAL_SUPPLY_ENTRY_POINT_NAME@.len());
    assert(NAME_ENTRY_POINT_NAME@.len() != BALANCE_OF_ENTRY_POINT_NAME@.len());
    assert(NAME_ENTRY_POINT_NAME@[0] != SEND_ENTRY_POINT_NAME@[0]);
    assert(NAME_ENTRY_POINT_NAME@.len() != IS_OPERATOR_FOR_ENTRY_POINT_NAME@.len());
    assert(NAME_ENTRY_POINT_NAME@.len() != AUTHORIZE_OPERATOR_ENTRY_POINT_NAME@.len());
    assert(NAME_ENTRY_POINT_NAME@.len() != REVOKE_OPERATOR_ENTRY_POINT_NAME@.len());
    assert(NAME_ENTRY_POINT_NAME@.len() != DEFAULT_OPERATORS_ENTRY_POINT_NAME@.len());
    assert(NAME_ENTRY_POINT_NAME@.len() != OPERATOR_SEND_ENTRY_POINT_NAME@.len());
    assert(NAME_ENTRY_POINT_NAME@.len() != OPERATOR_BURN_ENTRY_POINT_NAME@.len());
    assert(NAME_ENTRY_POINT_NAME@[0] != BURN_ENTRY_POINT_NAME@[0]);
    assert(NAME_ENTRY_POINT_NAME@.len() != TRANSFER_ENTRY_POINT_NAME@.len());
    assert(NAME_ENTRY_POINT_NAME@.len() != TRANSFER_FROM_ENTRY_POINT_NAME@.len());
    assert(SYMBOL_ENTRY_POINT_NAME@.len() != GRANULARITY_ENTRY_POINT_NAME@.len());
    assert(SYMBOL_ENTRY_POINT_NAME@.len() != DECIMALS_ENTRY_POINT_NAME@.len());
    assert(SYMBOL_ENTRY_POINT_NAME@.len() != TOTAL_SUPPLY_ENTRY_POINT_NAME@.len());
    assert(SYMBOL_ENTRY_POINT_NAME@.len() != BALANCE_OF_ENTRY_POINT_NAME@.len());
    assert(SYMBOL_ENTRY_POINT_NAME@.len() != SEND_ENTRY_POINT_NAME@.len());
    assert(SYMBOL_ENTRY_POINT_NAME@.len() != IS_OPERATOR_FOR_ENTRY_POINT_NAME@.len());
    assert(SYMBOL_ENTRY_POINT_NAME@.len() != AUTHORIZE_OPERATOR_ENTRY_POINT_NAME@.len());
    assert(SYMBOL_ENTRY_POINT_NAME@.len() != REVOKE_OPERATOR_ENTRY_POINT_NAME@.len());
    assert(SYMBOL_ENTRY_POINT_NAME@.len() != DEFAULT_OPERATORS_ENTRY_POINT_NAME@.len());
    assert(SYMBOL_ENTRY_POINT_NAME@.len() != OPERATOR_SEND_ENTRY_POINT_NAME@.len());
    assert(SYMBOL_ENTRY_POINT_NAME@.len() != OPERATOR_BURN_ENTRY_POINT_NAME@.len());
    assert(SYMBOL_ENTRY_POINT_NAME@.len() != BURN_ENTRY_POINT_NAME@.len());
    assert(SYMBOL_ENTRY_POINT_NAME@.len() != TRANSFER_ENTRY_POINT_NAME@.len());
    assert(SYMBOL_ENTRY_POINT_NAME@.len() != TRANSFER_FROM_ENTRY_POINT_NAME@.len());
    assert(GRANULARITY_ENTRY_POINT_NAME@.len() != DECIMALS_ENTRY_POINT_NAME@.len());
    assert(GRANULARITY_ENTRY_POINT_NAME@.len() != TOTAL_SUPPLY_ENTRY_POINT_NAME@.len());
    assert(GRANULARITY_ENTRY_POINT_NAME@.len() != BALANCE_OF_ENTRY_POINT_NAME@.len());
    assert(GRANULARITY_ENTRY_POINT_NAME@.len() != SEND_ENTRY_POINT_NAME@.len());
    assert(GRANULARITY_ENTRY_POINT_NAME@.len() != IS_OPERATOR_FOR_ENTRY_POINT_NAME@.len());
    assert(GRANULARITY_ENTRY_POINT_NAME@.len() != AUTHORIZE_OPERATOR_ENTRY_POINT_NAME@.len());
    assert(GRANULARITY_ENTRY_POINT_NAME@.len() != REVOKE_OPERATOR_ENTRY_POINT_NAME@.len());
    assert(GRANULARITY_ENTRY_POINT_NAME@.len() != DEFAULT_OPERATORS_ENTRY_POINT_NAME@.len());
    assert(GRANULARITY_ENTRY_POINT_NAME@.len() != OPERATOR_SEND_ENTRY_POINT_NAME@.len());
    assert(GRANULARITY_ENTRY_POINT_NAME@.len() != OPERATOR_BURN_ENTRY_POINT_NAME@.len());
    assert(GRANULARITY_ENTRY_POINT_NAME@.len() != BURN_ENTRY_POINT_NAME@.len());
    assert(GRANULARITY_ENTRY_POINT_NAME@.len() != TRANSFER_ENTRY_POINT_NAME@.len());
    assert(GRANULARITY_ENTRY_POINT_NAME@.len() != TRANSFER_FROM_ENTRY_POINT_NAME@.len());
    assert(DECIMALS_ENTRY_POINT_NAME@.len() != TOTAL_SUPPLY_ENTRY_POINT_NAME@.len());
    assert(DECIMALS_ENTRY_POINT_NAME@.len() != BALANCE_OF_ENTRY_POINT_NAME@.len());
    assert(DECIMALS_ENTRY_POINT_NAME@.len() != SEND_ENTRY_POINT_NAME@.len());
    assert(DECIMALS_ENTRY_POINT_NAME@.len() != IS_OPERATOR_FOR_ENTRY_POINT_NAME@.len());
    assert(DECIMALS_ENTRY_POINT_NAME@.len() != AUTHORIZE_OPERATOR_ENTRY_POINT_NAME@.len());
    assert(DECIMALS_ENTRY_POINT_NAME@.len() != REVOKE_OPERATOR_ENTRY_POINT_NAME@.len());
    assert(DECIMALS_ENTRY_POINT_NAME@.len() != DEFAULT_OPERATORS_ENTRY_POINT_NAME@.len());
    assert(DECIMALS_ENTRY_POINT_NAME@.len() != OPERATOR_SEND_ENTRY_POINT_NAME@.len());
    assert(DECIMALS_ENTRY_POINT_NAME@.len() != OPERATOR_BURN_ENTRY_POINT_NAME@.len());
    assert(DECIMALS_ENTRY_POINT_NAME@.len() != BURN_ENTRY_POINT_NAME@.len());
    assert(DECIMALS_ENTRY_POINT_NAME@[0] != TRANSFER_ENTRY_POINT_NAME@[0]);
    assert(DECIMALS_ENTRY_POINT_NAME@.len() != TRANSFER_FROM_ENTRY_POINT_NAME@.len());
    assert(TOTAL_SUPPLY_ENTRY_POINT_NAME@.len() != BALANCE_OF_ENTRY_POINT_NAME@.len());
    assert(TOTAL_SUPPLY_ENTRY_POINT_NAME@.len() != SEND_ENTRY_POINT_NAME@.len());
    assert(TOTAL_SUPPLY_ENTRY_POINT_NAME@.len() != IS_OPERATOR_FOR_ENTRY_POINT_NAME@.len());
    assert(TOTAL_SUPPLY_ENTRY_POINT_NAME@.len() != AUTHORIZE_OPERATOR_ENTRY_POINT_NAME@.len());
    assert(TOTAL_SUPPLY_ENTRY_POINT_NAME@.len() != REVOKE_OPERATOR_ENTRY_POINT_NAME@.len());
    assert(TOTAL_SUPPLY_ENTRY_POINT_NAME@.len() != DEFAULT_OPERATORS_ENTRY_POINT_NAME@.len());
    assert(TOTAL_SUPPLY_ENTRY_POINT_NAME@.len() != OPERATOR_SEND_ENTRY_POINT_NAME@.len());
    assert(TOTAL_SUPPLY_ENTRY_POINT_NAME@.len() != OPERATOR_BURN_ENTRY_POINT_NAME@.len());
    assert(TOTAL_SUPPLY_ENTRY_POINT_NAME@.len() != BURN_ENTRY_POINT_NAME@.len());
    assert(TOTAL_SUPPLY_ENTRY_POINT_NAME@.len() != TRANSFER_ENTRY_POINT_NAME@.len());
    assert(TOTAL_SUPPLY_ENTRY_POINT_NAME@.len() != TRANSFER_FROM_ENTRY_POINT_NAME@.len());
    assert(BALANCE_OF_ENTRY_POINT_NAME@.len() != SEND_ENTRY_POINT_NAME@.len());
    assert(BALANCE_OF_ENTRY_POINT_NAME@.len() != IS_OPERATOR_FOR_ENTRY_POINT_NAME@.len());
    assert(BALANCE_OF_ENTRY_POINT_NAME@.len() != AUTHORIZE_OPERATOR_ENTRY_POINT_NAME@.len());
    assert(BALANCE_OF_ENTRY_POINT_NAME@.len() != REVOKE_OPERATOR_ENTRY_POINT_NAME@.len());
    assert(BALANCE_OF_ENTRY_POINT_NAME@.len() != DEFAULT_OPERATORS_ENTRY_POINT_NAME@.len());
    assert(BALANCE_OF_ENTRY_POINT_NAME@.len() != OPERATOR_SEND_ENTRY_POINT_NAME@.len());
    assert(BALANCE_OF_ENTRY_POINT_NAME@.len() != OPERATOR_BURN_ENTRY_POINT_NAME@.len());
    assert(BALANCE_OF_ENTRY_POINT_NAME@.len() != BURN_ENTRY_POINT_NAME@.len());
    assert(BALANCE_OF_ENTRY_POINT_NAME@.len() != TRANSFER_ENTRY_POINT_NAME@.len());
    assert(BALANCE_OF_ENTRY_POINT_NAME@.len() != TRANSFER_FROM_ENTRY_POINT_NAME@.len());
    assert(SEND_ENTRY_POINT_NAME@.len() != IS_OPERATOR_FOR_ENTRY_POINT_NAME@.len());
    assert(SEND_ENTRY_POINT_NAME@.len() != AUTHORIZE_OPERATOR_ENTRY_POINT_NAME@.len());
    assert(SEND_ENTRY_POINT_NAME@.len() != REVOKE_OPERATOR_ENTRY_POINT_NAME@.len());
    assert(SEND_ENTRY_POINT_NAME@.len() != DEFAULT_OPERATORS_ENTRY_POINT_NAME@.len());
    assert(SEND_ENTRY_POINT_NAME@.len() != OPERATOR_SEND_ENTRY_POINT_NAME@.len());
    assert(SEND_ENTRY_POINT_NAME@.len() != OPERATOR_BURN_ENTRY_POINT_NAME@.len());
    assert(SEND_ENTRY_POINT_NAME@[0] != BURN_ENTRY_POINT_NAME@[0]);
    assert(SEND_ENTRY_POINT_NAME@.len() != TRANSFER_ENTRY_POINT_NAME@.len());
    assert(SEND_ENTRY_POINT_NAME@.len() != TRANSFER_FROM_ENTRY_POINT_NAME@.len());
    assert(IS_OPERATOR_FOR_ENTRY_POINT_NAME@.len() != AUTHORIZE_OPERATOR_ENTRY_POINT_NAME@.len());
    assert(IS_OPERATOR_FOR_ENTRY_POINT_NAME@[0] != REVOKE_OPERATOR_ENTRY_POINT_NAME@[0]);
    assert(IS_OPERATOR_FOR_ENTRY_POINT_NAME@.len() != DEFAULT_OPERATORS_ENTRY_POINT_NAME@.len());
    assert(IS_OPERATOR_FOR_ENTRY_POINT_NAME@.len() != OPERATOR_SEND_ENTRY_POINT_NAME@.len());
    assert(IS_OPERATOR_FOR_ENTRY_POINT_NAME@.len() != OPERATOR_BURN_ENTRY_POINT_NAME@.len());
    assert(IS_OPERATOR_FOR_ENTRY_POINT_NAME@.len() != BURN_ENTRY_POINT_NAME@.len());
    assert(IS_OPERATOR_FOR_ENTRY_POINT_NAME@.len() != TRANSFER_ENTRY_POINT_NAME@.len());
    assert(IS_OPERATOR_FOR_ENTRY_POINT_NAME@.len() != TRANSFER_FROM_ENTRY_POINT_NAME@.len());
    assert(AUTHORIZE_OPERATOR_ENTRY_POINT_NAME@.len() != REVOKE_OPERATOR_ENTRY_POINT_NAME@.len());
    assert(AUTHORIZE_OPERATOR_ENTRY_POINT_NAME@.len() != DEFAULT_OPERATORS_ENTRY_POINT_NAME@.len());
    assert(AUTHORIZE_OPERATOR_ENTRY_POINT_NAME@.len() != OPERATOR_SEND_ENTRY_POINT_NAME@.len());
    assert(AUTHORIZE_OPERATOR_ENTRY_POINT_NAME@.len() != OPERATOR_BURN_ENTRY_POINT_NAME@.len());
    assert(AUTHORIZE_OPERATOR_ENTRY_POINT_NAME@.len() != BURN_ENTRY_POINT_NAME@.len());
    assert(AUTHORIZE_OPERATOR_ENTRY_POINT_NAME@.len() != TRANSFER_ENTRY_POINT_NAME@.len());
    assert(AUTHORIZE_OPERATOR_ENTRY_POINT_NAME@.len() != TRANSFER_FROM_ENTRY_POINT_NAME@.len());
    assert(REVOKE_OPERATOR_ENTRY_POINT_NAME@.len() != DEFAULT_OPERATORS_ENTRY_POINT_NAME@.len());
    assert(REVOKE_OPERATOR_ENTRY_POINT_NAME@.len() != OPERATOR_SEND_ENTRY_POINT_NAME@.len());
    assert(REVOKE_OPERATOR_ENTRY_POINT_NAME@.len() != OPERATOR_BURN_ENTRY_POINT_NAME@.len());
    assert(REVOKE_OPERATOR_ENTRY_POINT_NAME@.len() != BURN_ENTRY_POINT_NAME@.len());
    assert(REVOKE_OPERATOR_ENTRY_POINT_NAME@.len() != TRANSFER_ENTRY_POINT_NAME@.len());
    assert(REVOKE_OPERATOR_ENTRY_POINT_NAME@.len() != TRANSFER_FROM_ENTRY_POINT_NAME@.len());
    assert(DEFAULT_OPERATORS_ENTRY_POINT_NAME@.len() != OPERATOR_SEND_ENTRY_POINT_NAME@.len());
    assert(DEFAULT_OPERATORS_ENTRY_POINT_NAME@.len() != OPERATOR_BURN_ENTRY_POINT_NAME@.len());
    assert(DEFAULT_OPERATORS_ENTRY_POINT_NAME@.len() != BURN_ENTRY_POINT_NAME@.len());
    assert(DEFAULT_OPERATORS_ENTRY_POINT_NAME@.len() != TRANSFER_ENTRY_POINT_NAME@.len());
    assert(DEFAULT_OPERATORS_ENTRY_POINT_NAME@.len() != TRANSFER_FROM_ENTRY_POINT_NAME@.len());
    assert(OPERATOR_SEND_ENTRY_POINT_NAME@[9] != OPERATOR_BURN_ENTRY_POINT_NAME@[9]);
    assert(OPERATOR_SEND_ENTRY_POINT_NAME@.len() != BURN_ENTRY_POINT_NAME@.len());
    assert(OPERATOR_SEND_ENTRY_POINT_NAME@.len() != TRANSFER_ENTRY_POINT_NAME@.len());
    assert(OPERATOR_SEND_ENTRY_POINT_NAME@[0] != TRANSFER_FROM_ENTRY_POINT_NAME@[0]);
    assert(OPERATOR_BURN_ENTRY_POINT_NAME@.len() != BURN_ENTRY_POINT_NAME@.len());
    assert(OPERATOR_BURN_ENTRY_POINT_NAME@.len() != TRANSFER_ENTRY_POINT_NAME@.len());
    assert(OPERATOR_BURN_ENTRY_POINT_NAME@[0] != TRANSFER_FROM_ENTRY_POINT_NAME@[0]);
    assert(BURN_ENTRY_POINT_NAME@.len() != TRANSFER_ENTRY_POINT_NAME@.len());
    assert(BURN_ENTRY_POINT_NAME@.len() != TRANSFER_FROM_ENTRY_POINT_NAME@.len());
    assert(TRANSFER_ENTRY_POINT_NAME@.len() != TRANSFER_FROM_ENTRY_POINT_NAME@.len());
}

/// The default entry points are thirteen, each found under its own name;
/// `burn`, `transfer` and `transfer_from` are not among them.
pub proof fn lemma_default_entry_points()
    ensures
        default_spec().dom().contains(NAME_ENTRY_POINT_NAME@),
        default_spec()[NAME_ENTRY_POINT_NAME@] == name_spec(),
        default_spec().dom().contains(SYMBOL_ENTRY_POINT_NAME@),
        default_spec()[SYMBOL_ENTRY_POINT_NAME@] == symbol_spec(),
        default_spec().dom().contains(GRANULARITY_ENTRY_POINT_NAME@),
        default_spec()[GRANULARITY_ENTRY_POINT_NAME@] == granularity_spec(),
        default_spec().dom().contains(DECIMALS_ENTRY_POINT_NAME@),
        default_spec()[DECIMALS_ENTRY_POINT_NAME@] == decimals_spec(),
        default_spec().dom().contains(TOTAL_SUPPLY_ENTRY_POINT_NAME@),
        default_spec()[TOTAL_SUPPLY_ENTRY_POINT_NAME@] == total_supply_spec(),
        default_spec().dom().contains(BALANCE_OF_ENTRY_POINT_NAME@),
        default_spec()[BALANCE_OF_ENTRY_POINT_NAME@] == balance_of_spec(),
        default_spec().dom().contains(SEND_ENTRY_POINT_NAME@),
        default_spec()[SEND_ENTRY_POINT_NAME@] == send_spec(),
        default_spec().dom().contains(IS_OPERATOR_FOR_ENTRY_POINT_NAME@),
        default_spec()[IS_OPERATOR_FOR_ENTRY_POINT_NAME@] == is_operator_for_spec(),
        default_spec().dom().contains(AUTHORIZE_OPERATOR_ENTRY_POINT_NAME@),
        default_spec()[AUTHORIZE_OPERATOR_ENTRY_POINT_NAME@] == authorize_operator_spec(),
        default_spec().dom().contains(REVOKE_OPERATOR_ENTRY_POINT_NAME@),
        default_spec()[REVOKE_OPERATOR_ENTRY_POINT_NAME@] == revoke_operator_spec(),
        default_spec().dom().contains(DEFAULT_OPERATORS_ENTRY_POINT_NAME@),
        default_spec()[DEFAULT_OPERATORS_ENTRY_POINT_NAME@] == default_operators_spec(),
        default_spec().dom().contains(OPERATOR_SEND_ENTRY_POINT_NAME@),
        default_spec()[OPERATOR_SEND_ENTRY_POINT_NAME@] == operator_send_spec(),
        default_spec().dom().contains(OPERATOR_BURN_ENTRY_POINT_NAME@),
        default_spec()[OPERATOR_BURN_ENTRY_POINT_NAME@] == operator_burn_spec(),
        !default_spec().dom().contains(BURN_ENTRY_POINT_NAME@),
        !default_spec().dom().contains(TRANSFER_ENTRY_POINT_NAME@),
        !default_spec().dom().contains(TRANSFER_FROM_ENTRY_POINT_NAME@),
        default_spec().dom().finite(),
        default_spec().dom().len() == 13,
{
    lemma_names_differ();
}

/// Returns the default set of ERC777 token entry points.
pub fn default() -> (entry_points: EntryPoints)
    ensures
        entry_points_defs(entry_points) == default_spec(),
{
    let mut entry_points = EntryPoints::new();
    add_entry_point(&mut entry_points, name());
    add_entry_point(&mut entry_points, symbol());
    add_entry_point(&mut entry_points, granularity());
    add_entry_point(&mut entry_points, decimals());
    add_entry_point(&mut entry_points, total_supply());
    add_entry_point(&mut entry_points, balance_of());
    add_entry_point(&mut entry_points, send());
    add_entry_point(&mut entry_points, is_operator_for());
    add_entry_point(&mut entry_points, authorize_operator());
    add_entry_point(&mut entry_points, revoke_operator());
    add_entry_point(&mut entry_points, default_operators());
    add_entry_point(&mut entry_points, operator_send());
    add_entry_point(&mut entry_points, operator_burn());
    entry_points
}

} // verus!
