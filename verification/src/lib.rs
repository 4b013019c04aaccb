//! An ERC777 token ledger: the balances of the holders, the total supply, and
//! the operators that may act for a holder, with the operations that change
//! them.

pub mod address;
pub mod amount;
pub mod balances;
pub mod constants;
pub mod entry_points;
pub mod error;
pub mod operators;
pub mod state;
pub mod total_supply;

use vstd::prelude::*;

pub use crate::address::Address;
pub use crate::amount::Amount;
pub use crate::error::Error;

use casper_types::EntryPoints;

use crate::amount::checked_add;
use crate::amount::checked_sub;
use crate::amount::max_amount;
use crate::balances::BalanceStore;
use crate::constants::ERC777_TOKEN_CONTRACT_KEY_NAME;
use crate::entry_points::entry_points_defs;
use crate::operators::OperatorRegistry;
use crate::state::follows;
use crate::state::TokenState;
use crate::total_supply::SupplyCounter;

verus! {

/// An ERC777 token.
pub struct ERC777 {
    name: String,
    symbol: String,
    decimals: u8,
    granularity: u8,
    balances: BalanceStore,
    total_supply: SupplyCounter,
    operators: OperatorRegistry,
}

impl View for ERC777 {
    type V = TokenState;

    closed spec fn view(&self) -> TokenState {
        TokenState {
            name: self.name@,
            symbol: self.symbol@,
            decimals: self.decimals,
            granularity: self.granularity,
            balances: self.balances@,
            total_supply: self.total_supply@,
            operators: self.operators@,
        }
    }
}

/// What installing a token gives: the token, and what is to be published
/// with it.
pub struct Installation {
    /// The token as it stands after the installation.
    pub token: ERC777,
    /// The name of the key under which the contract is to be found.
    pub contract_key_name: String,
    /// The entry points of the contract.
    pub entry_points: EntryPoints,
}

impl ERC777 {
    /// Whether the token is well formed: its stores are.
    pub closed spec fn wf(&self) -> bool {
        self.balances.wf() && self.operators.wf()
    }

    /// The state of a token is valid.
    pub proof fn lemma_view_valid(&self)
        ensures
            self@.valid(),
    {
        self.balances.lemma_view_bounded();
        self.total_supply.lemma_view_bounded();
        assert forall|holder: Address| #[trigger] self@.balance_of(holder) <= max_amount() by {
            assert(self.balances.balance(holder) <= max_amount());
        }
    }

    /// A token made of its description and its three stores.
    pub fn new(
        name: String,
        symbol: String,
        decimals: u8,
        granularity: u8,
        balances: BalanceStore,
        total_supply: SupplyCounter,
        operators: OperatorRegistry,
    ) -> (token: ERC777)
        requires
            balances.wf(),
            operators.wf(),
        ensures
            token.wf(),
            token@ == (TokenState {
                name: name@,
                symbol: symbol@,
                decimals,
                granularity,
                balances: balances@,
                total_supply: total_supply@,
                operators: operators@,
            }),
    {
        ERC777 { name, symbol, decimals, granularity, balances, total_supply, operators }
    }

    /// Installs the ERC777 contract with the default set of entry points, for
    /// `caller`, who receives the initial supply and becomes the default
    /// operator.
    pub fn install(
        name: String,
        symbol: String,
        decimals: u8,
        granularity: u8,
        initial_supply: Amount,
        caller: Address,
    ) -> (installation: Installation)
        ensures
            installation.token.wf(),
            installation.token@ == TokenState::installed(
                name@,
                symbol@,
                decimals,
                granularity,
                initial_supply@,
                caller,
            ),
            installation.token@.conserved(),
            installation.contract_key_name@ == ERC777_TOKEN_CONTRACT_KEY_NAME@,
            entry_points_defs(installation.entry_points) == crate::entry_points::default_spec(),
    {
        let default_entry_points = crate::entry_points::default();
        ERC777::install_custom(
            name,
            symbol,
            decimals,
            granularity,
            initial_supply,
            caller,
            ERC777_TOKEN_CONTRACT_KEY_NAME,
            default_entry_points,
        )
    }

    /// Installs the ERC777 contract with a custom set of entry points.
    ///
    /// # Warning
    ///
    /// Contract developers should use [`ERC777::install`] instead, as it will
    /// create the default set of ERC777 entry points. Using `install_custom`
    /// with a different set of entry points might lead to problems with
    /// integrators such as wallets, and exchanges.
    pub fn install_custom(
        name: String,
        symbol: String,
        decimals: u8,
        granularity: u8,
        initial_supply: Amount,
        caller: Address,
        contract_key_name: &str,
        entry_points: EntryPoints,
    ) -> (installation: Installation)
        ensures
            installation.token.wf(),
            installation.token@ == TokenState::installed(
                name@,
                symbol@,
                decimals,
                granularity,
                initial_supply@,
                caller,
            ),
            installation.token@.conserved(),
            installation.contract_key_name@ == contract_key_name@,
            installation.entry_points == entry_points,
    {
        let mut balances = BalanceStore::new();
        balances.write(caller, initial_supply);
        let total_supply = SupplyCounter::new(initial_supply);
        let mut default_operators: Vec<Address> = Vec::new();
        default_operators.push(caller);
        let operators = OperatorRegistry::new(default_operators);
        proof {
            crate::state::lemma_installed_conserved(
                name@,
                symbol@,
                decimals,
                granularity,
                initial_supply@,
                caller,
            );
            assert(default_operators@ =~= seq![caller]);
        }
        let token = ERC777::new(
            name,
            symbol,
            decimals,
            granularity,
            balances,
            total_supply,
            operators,
        );
        Installation { token, contract_key_name: contract_key_name.to_owned(), entry_points }
    }

    fn read_balance(&self, owner: Address) -> (balance: Amount)
        requires
            self.wf(),
        ensures
            balance@ == self@.balance_of(owner),
    {
        self.balances.read(owner)
    }

    fn write_balance(&mut self, owner: Address, amount: Amount)
        requires
            old(self).wf(),
        ensures
            final(self).wf(),
            final(self)@ == (TokenState {
                balances: old(self)@.balances.insert(owner, amount@),
                ..old(self)@
            }),
    {
        self.balances.write(owner, amount)
    }

    fn read_total_supply(&self) -> (total_supply: Amount)
        ensures
            total_supply@ == self@.total_supply,
    {
        self.total_supply.read()
    }

    fn write_total_supply(&mut self, total_supply: Amount)
        requires
            old(self).wf(),
        ensures
            final(self).wf(),
            final(self)@ == (TokenState { total_supply: total_supply@, ..old(self)@ }),
    {
        self.total_supply.write(total_supply)
    }

    fn transfer_balance(&mut self, sender: Address, recipient: Address, amount: Amount) -> (result:
        Result<(), Error>)
        requires
            old(self).wf(),
        ensures
            final(self).wf(),
            follows(old(self)@.transfer(sender, recipient, amount@), old(self)@, result, final(self)@),
    {
        self.balances.transfer_balance(sender, recipient, amount)
    }

    /// Returns the name of the token.
    pub fn name(&self) -> (name: String)
        ensures
            name@ == self@.name,
    {
        self.name.clone()
    }

    /// Returns the symbol of the token.
    pub fn symbol(&self) -> (symbol: String)
        ensures
            symbol@ == self@.symbol,
    {
        self.symbol.clone()
    }

    /// Returns the decimals of the token.
    pub fn decimals(&self) -> (decimals: u8)
        ensures
            decimals == self@.decimals,
    {
        self.decimals
    }

    /// Returns the total supply of the token.
    pub fn total_supply(&self) -> (total_supply: Amount)
        ensures
            total_supply@ == self@.total_supply,
    {
        self.read_total_supply()
    }

    /// Returns the granularity of the token.
    pub fn granularity(&self) -> (granularity: u8)
        ensures
            granularity == self@.granularity,
    {
        self.granularity
    }

    /// Returns the balance of `owner`.
    pub fn balance_of(&self, owner: Address) -> (balance: Amount)
        requires
            self.wf(),
        ensures
            balance@ == self@.balance_of(owner),
    {
        self.balances.read(owner)
    }

    /// Whether `operator` may act for `token_holder`: it is a default
    /// operator, or `token_holder` has authorized it.
    pub fn is_operator_for(&self, operator: Address, token_holder: Address) -> (authorized: bool)
        ensures
            authorized == self@.is_operator_for(operator, token_holder),
    {
        self.operators.is_authorized(operator, token_holder)
    }

    /// Records that `token_holder` authorizes `operator` to act for it. This
    /// always succeeds.
    pub fn authorize_operator(&mut self, token_holder: Address, operator: Address) -> (result:
        Result<(), Error>)
        requires
            old(self).wf(),
        ensures
            final(self).wf(),
            result is Ok,
            final(self)@ == old(self)@.authorize_operator(token_holder, operator),
            final(self)@.is_operator_for(operator, token_holder),
    {
        self.operators.authorize(token_holder, operator);
        Ok(())
    }

    /// Records that `token_holder` no longer authorizes `operator` to act for
    /// it. This always succeeds; a default operator stays an operator.
    pub fn revoke_operator(&mut self, token_holder: Address, operator: Address) -> (result: Result<
        (),
        Error,
    >)
        requires
            old(self).wf(),
        ensures
            final(self).wf(),
            result is Ok,
            final(self)@ == old(self)@.revoke_operator(token_holder, operator),
            !old(self)@.operators.grants.contains((token_holder, operator)) ==> final(self)@ == old(
                self,
            )@,
    {
        proof {
            if !self@.operators.grants.contains((token_holder, operator)) {
                crate::state::lemma_revoke_never_authorized(self@, token_holder, operator);
            }
        }
        self.operators.revoke(token_holder, operator);
        Ok(())
    }

    /// Returns the default operators: those that may act for every holder.
    pub fn default_operators(&self) -> (list: Vec<Address>)
        ensures
            list@ == self@.operators.default_operators,
    {
        self.operators.list_default_operators()
    }

    /// Returns the operators that `token_holder` has authorized, each once.
    /// The default operators are among them only where `token_holder` has
    /// authorized them too.
    pub fn granted_operators(&self, token_holder: Address) -> (list: Vec<Address>)
        requires
            self.wf(),
        ensures
            list@.no_duplicates(),
            forall|operator: Address|
                list@.contains(operator) <==> self@.operators.grants.contains(
                    (token_holder, operator),
                ),
    {
        self.operators.list_granted_operators(token_holder)
    }

    /// Transfers `amount` of tokens from `token_holder` to `recipient` on
    /// behalf of `operator`, which must be an operator for `token_holder`.
    /// `data` and `operator_data` go with the transfer and change nothing.
    pub fn operator_send(
        &mut self,
        operator: Address,
        token_holder: Address,
        recipient: Address,
        amount: Amount,
        data: &str,
        operator_data: &str,
    ) -> (result: Result<(), Error>)
        requires
            old(self).wf(),
        ensures
            final(self).wf(),
            follows(
                old(self)@.operator_send(operator, token_holder, recipient, amount@),
                old(self)@,
                result,
                final(self)@,
            ),
            old(self)@.conserved() ==> final(self)@.conserved(),
    {
        if !self.is_operator_for(operator, token_holder) {
            return Err(Error::UnauthorizedOperator);
        }
        self.send(token_holder, recipient, amount)
    }

    /// Burns `amount` of tokens of `token_holder` on behalf of `operator`,
    /// which must be an operator for `token_holder`. `data` and
    /// `operator_data` go with the burning and change nothing.
    pub fn operator_burn(
        &mut self,
        operator: Address,
        token_holder: Address,
        amount: Amount,
        data: &str,
        operator_data: &str,
    ) -> (result: Result<(), Error>)
        requires
            old(self).wf(),
        ensures
            final(self).wf(),
            follows(
                old(self)@.operator_burn(operator, token_holder, amount@),
                old(self)@,
                result,
                final(self)@,
            ),
            old(self)@.conserved() ==> final(self)@.conserved(),
    {
        if !self.is_operator_for(operator, token_holder) {
            return Err(Error::UnauthorizedOperator);
        }
        self.burn(token_holder, amount)
    }

    /// Transfers `amount` of tokens from `sender` to `recipient`.
    ///
    /// The transfer is refused with `InsufficientBalance` where `sender` holds
    /// less than `amount`, and with `Overflow` where the balance of another
    /// `recipient` would leave the range of an amount, which cannot happen
    /// while the total supply is the sum of all balances. A refused transfer
    /// changes nothing.
    pub fn send(&mut self, sender: Address, recipient: Address, amount: Amount) -> (result: Result<
        (),
        Error,
    >)
        requires
            old(self).wf(),
        ensures
            final(self).wf(),
            follows(old(self)@.transfer(sender, recipient, amount@), old(self)@, result, final(self)@),
            amount@ > old(self)@.balance_of(sender) ==> result == Err::<(), Error>(
                Error::InsufficientBalance,
            ) && final(self)@ == old(self)@,
            final(self)@.total_supply == old(self)@.total_supply,
            crate::balances::sum_of_balances(final(self)@.balances)
                == crate::balances::sum_of_balances(old(self)@.balances),
            old(self)@.conserved() ==> final(self)@.conserved() && (result is Ok <==> amount@
                <= old(self)@.balance_of(sender)),
    {
        proof {
            self.lemma_view_valid();
            if self@.transfer(sender, recipient, amount@) is Ok {
                crate::state::lemma_transfer_conserves(self@, sender, recipient, amount@);
            }
            if self@.conserved() {
                crate::state::lemma_conserved_transfer(self@, sender, recipient, amount@);
            }
        }
        self.transfer_balance(sender, recipient, amount)
    }

    /// Mints `amount` new tokens and adds them to `owner`'s balance and to the
    /// token total supply.
    ///
    /// The minting is refused with `Overflow` where the balance or the total
    /// supply would leave the range of an amount, and then changes nothing.
    ///
    /// # Security
    ///
    /// This checks nothing of who asks for it: do not offer it to the public
    /// through an entry point.
    pub fn mint(&mut self, owner: Address, amount: Amount) -> (result: Result<(), Error>)
        requires
            old(self).wf(),
        ensures
            final(self).wf(),
            follows(old(self)@.mint(owner, amount@), old(self)@, result, final(self)@),
            old(self)@.balance_of(owner) + amount@ > max_amount() || old(self)@.total_supply
                + amount@ > max_amount() ==> result == Err::<(), Error>(Error::Overflow)
                && final(self)@ == old(self)@,
            old(self)@.conserved() ==> final(self)@.conserved(),
    {
        proof {
            self.lemma_view_valid();
            if self@.mint(owner, amount@) is Ok {
                crate::state::lemma_mint_conserves(self@, owner, amount@);
            }
        }
        let new_balance = {
            let balance = self.read_balance(owner);
            match checked_add(balance, amount) {
                Some(sum) => sum,
                None => {
                    return Err(Error::Overflow);
                },
            }
        };
        let new_total_supply = {
            let total_supply = self.read_total_supply();
            match checked_add(total_supply, amount) {
                Some(sum) => sum,
                None => {
                    return Err(Error::Overflow);
                },
            }
        };
        self.write_balance(owner, new_balance);
        self.write_total_supply(new_total_supply);
        Ok(())
    }

    /// Burns (i.e. subtracts) `amount` of tokens from `owner`'s balance and
    /// from the token total supply.
    ///
    /// The burning is refused with `InsufficientBalance` where `owner` holds
    /// less than `amount`, else with `Overflow` where the total supply is less
    /// than `amount`; a refused burning changes nothing.
    ///
    /// # Security
    ///
    /// This checks nothing of who asks for it: do not offer it to the public
    /// through an entry point.
    pub fn burn(&mut self, owner: Address, amount: Amount) -> (result: Result<(), Error>)
        requires
            old(self).wf(),
        ensures
            final(self).wf(),
            follows(old(self)@.burn(owner, amount@), old(self)@, result, final(self)@),
            amount@ > old(self)@.balance_of(owner) ==> result == Err::<(), Error>(
                Error::InsufficientBalance,
            ) && final(self)@ == old(self)@,
            old(self)@.conserved() ==> final(self)@.conserved(),
    {
        proof {
            self.lemma_view_valid();
            if self@.burn(owner, amount@) is Ok {
                crate::state::lemma_burn_conserves(self@, owner, amount@);
            }
        }
        let new_balance = {
            let balance = self.read_balance(owner);
            match checked_sub(balance, amount) {
                Some(difference) => difference,
                None => {
                    return Err(Error::InsufficientBalance);
                },
            }
        };
        let new_total_supply = {
            let total_supply = self.read_total_supply();
            match checked_sub(total_supply, amount) {
                Some(difference) => difference,
                None => {
                    return Err(Error::Overflow);
                },
            }
        };
        self.write_balance(owner, new_balance);
        self.write_total_supply(new_total_supply);
        Ok(())
    }
}

} // verus!
