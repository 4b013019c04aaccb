use crate::address::Address;
use crate::amount::max_amount;
use crate::balances::balance_at;
use crate::balances::lemma_sum_insert;
use crate::balances::lemma_transfer_keeps_sum;
use crate::balances::lemma_transfer_never_overflows;
use crate::balances::sum_of_balances;
use crate::balances::transfer_balances;
use crate::error::Error;
use crate::operators::Operators;
use vstd::prelude::*;

verus! {

/// What a token stands for: its fixed description, the balance of every
/// holder, the total supply, and who may act for whom.
pub struct TokenState {
    /// The name of the token.
    pub name: Seq<char>,
    /// The symbol of the token.
    pub symbol: Seq<char>,
    /// The number of decimals in which amounts are shown.
    pub decimals: u8,
    /// The smallest part of the token that cannot be divided.
    pub granularity: u8,
    /// The balances. A holder that the mapping does not list holds nothing.
    pub balances: Map<Address, nat>,
    /// The number of tokens in existence.
    pub total_supply: nat,
    /// The default operators and the grants of the holders.
    pub operators: Operators,
}

/// One transfer: `amount` tokens to go from `sender` to `recipient`.
pub struct Transfer {
    /// The holder who gives.
    pub sender: Address,
    /// The holder who receives.
    pub recipient: Address,
    /// The number of tokens.
    pub amount: nat,
}

impl TokenState {
    /// The state of a token that was just installed by `installer`: the
    /// installer holds the whole initial supply and is the one default
    /// operator; nobody else holds anything, and no holder has authorized an
    /// operator.
    pub open spec fn installed(
        name: Seq<char>,
        symbol: Seq<char>,
        decimals: u8,
        granularity: u8,
        initial_supply: nat,
        installer: Address,
    ) -> TokenState {
        TokenState {
            name,
            symbol,
            decimals,
            granularity,
            balances: Map::empty().insert(installer, initial_supply),
            total_supply: initial_supply,
            operators: Operators { default_operators: seq![installer], grants: Set::empty() },
        }
    }

    /// Whether the state can be that of a token: finitely many holders are
    /// listed, and every balance and the total supply fit in an amount.
    pub open spec fn valid(self) -> bool {
        &&& self.balances.dom().finite()
        &&& forall|holder: Address| #[trigger] self.balance_of(holder) <= max_amount()
        &&& self.total_supply <= max_amount()
    }

    /// Whether the total supply is the sum of all balances.
    pub open spec fn conserved(self) -> bool {
        sum_of_balances(self.balances) == self.total_supply
    }

    /// The balance of `holder`.
    pub open spec fn balance_of(self, holder: Address) -> nat {
        balance_at(self.balances, holder)
    }

    /// Whether `operator` may act for `holder`.
    pub open spec fn is_operator_for(self, operator: Address, holder: Address) -> bool {
        self.operators.is_authorized(operator, holder)
    }

    /// The state after a transfer of `amount` from `sender` to `recipient`, or
    /// why the transfer is refused.
    pub open spec fn transfer(self, sender: Address, recipient: Address, amount: nat) -> Result<
        TokenState,
        Error,
    > {
        match transfer_balances(self.balances, sender, recipient, amount) {
            Ok(balances) => Ok(TokenState { balances, ..self }),
            Err(error) => Err(error),
        }
    }

    /// The state after `amount` new tokens are given to `owner`, or why the
    /// minting is refused.
    pub open spec fn mint(self, owner: Address, amount: nat) -> Result<TokenState, Error> {
        if self.balance_of(owner) + amount > max_amount() || self.total_supply + amount
            > max_amount() {
            Err(Error::Overflow)
        } else {
            Ok(
                TokenState {
                    balances: self.balances.insert(owner, self.balance_of(owner) + amount),
                    total_supply: self.total_supply + amount,
                    ..self
                },
            )
        }
    }

    /// The state after `amount` tokens of `owner` are destroyed, or why the
    /// burning is refused.
    pub open spec fn burn(self, owner: Address, amount: nat) -> Result<TokenState, Error> {
        if self.balance_of(owner) < amount {
            Err(Error::InsufficientBalance)
        } else if self.total_supply < amount {
            Err(Error::Overflow)
        } else {
            Ok(
                TokenState {
                    balances: self.balances.insert(owner, (self.balance_of(owner) - amount) as nat),
                    total_supply: (self.total_supply - amount) as nat,
                    ..self
                },
            )
        }
    }

    /// The state after `holder` has authorized `operator`.
    pub open spec fn authorize_operator(self, holder: Address, operator: Address) -> TokenState {
        TokenState { operators: self.operators.authorize(holder, operator), ..self }
    }

    /// The state after `holder` has revoked `operator`.
    pub open spec fn revoke_operator(self, holder: Address, operator: Address) -> TokenState {
        TokenState { operators: self.operators.revoke(holder, operator), ..self }
    }

    /// The state after `operator` has sent `amount` tokens of `holder` to
    /// `recipient`, or why that is refused.
    pub open spec fn operator_send(
        self,
        operator: Address,
        holder: Address,
        recipient: Address,
        amount: nat,
    ) -> Result<TokenState, Error> {
        if !self.is_operator_for(operator, holder) {
            Err(Error::UnauthorizedOperator)
        } else {
            self.transfer(holder, recipient, amount)
        }
    }

    /// The state after `operator` has burnt `amount` tokens of `holder`, or
    /// why that is refused.
    pub open spec fn operator_burn(self, operator: Address, holder: Address, amount: nat) -> Result<
        TokenState,
        Error,
    > {
        if !self.is_operator_for(operator, holder) {
            Err(Error::UnauthorizedOperator)
        } else {
            self.burn(holder, amount)
        }
    }

    /// The state after one transfer was tried: a refused transfer changes
    /// nothing.
    pub open spec fn after_transfer(self, transfer: Transfer) -> TokenState {
        match self.transfer(transfer.sender, transfer.recipient, transfer.amount) {
            Ok(state) => state,
            Err(_) => self,
        }
    }

    /// The state after the transfers were tried one after the other.
    pub open spec fn after_transfers(self, transfers: Seq<Transfer>) -> TokenState
        decreases transfers.len(),
    {
        if transfers.len() == 0 {
            self
        } else {
            self.after_transfers(transfers.drop_last()).after_transfer(transfers.last())
        }
    }
}

/// Whether `result` and the state `after` are what `outcome` asks for: on
/// success the new state, on refusal the error and the state `before`.
pub open spec fn follows(
    outcome: Result<TokenState, Error>,
    before: TokenState,
    result: Result<(), Error>,
    after: TokenState,
) -> bool {
    match outcome {
        Ok(state) => result is Ok && after == state,
        Err(error) => result == Err::<(), Error>(error) && after == before,
    }
}

/// In a token that was just installed, the total supply is the sum of all
/// balances, the installer holds all of it, and the installer may act for
/// every holder.
pub proof fn lemma_installed_conserved(
    name: Seq<char>,
    symbol: Seq<char>,
    decimals: u8,
    granularity: u8,
    initial_supply: nat,
    installer: Address,
)
    ensures
        ({
            let state = TokenState::installed(
                name,
                symbol,
                decimals,
                granularity,
                initial_supply,
                installer,
            );
            &&& state.conserved()
            &&& state.balance_of(installer) == initial_supply
            &&& forall|holder: Address| holder != installer ==> state.balance_of(holder) == 0
            &&& forall|holder: Address| state.is_operator_for(installer, holder)
        }),
{
    let none = Map::<Address, nat>::empty();
    assert(sum_of_balances(none) == 0);
    lemma_sum_insert(none, installer, initial_supply);
    assert(seq![installer][0] == installer);
}

/// A transfer that goes through keeps the state valid, the total supply and
/// the sum of all balances.
pub proof fn lemma_transfer_conserves(
    state: TokenState,
    sender: Address,
    recipient: Address,
    amount: nat,
)
    requires
        state.valid(),
        state.transfer(sender, recipient, amount) is Ok,
    ensures
        state.transfer(sender, recipient, amount)->Ok_0.valid(),
        state.transfer(sender, recipient, amount)->Ok_0.total_supply == state.total_supply,
        sum_of_balances(state.transfer(sender, recipient, amount)->Ok_0.balances)
            == sum_of_balances(state.balances),
{
    lemma_transfer_keeps_sum(state.balances, sender, recipient, amount);
    let after = state.transfer(sender, recipient, amount)->Ok_0;
    assert forall|holder: Address| #[trigger] after.balance_of(holder) <= max_amount() by {
        assert(state.balance_of(holder) <= max_amount());
        assert(state.balance_of(sender) <= max_amount());
    }
}

/// Whatever transfers are tried, in whatever order, the sum of all balances
/// and the total supply stay what they were; so a total supply that was the
/// sum of all balances before is the sum of all balances after.
pub proof fn lemma_transfers_conserve(state: TokenState, transfers: Seq<Transfer>)
    requires
        state.valid(),
    ensures
        state.after_transfers(transfers).valid(),
        state.after_transfers(transfers).total_supply == state.total_supply,
        sum_of_balances(state.after_transfers(transfers).balances) == sum_of_balances(
            state.balances,
        ),
        state.conserved() ==> state.after_transfers(transfers).conserved(),
    decreases transfers.len(),
{
    if transfers.len() > 0 {
        lemma_transfers_conserve(state, transfers.drop_last());
        let before = state.after_transfers(transfers.drop_last());
        let last = transfers.last();
        if before.transfer(last.sender, last.recipient, last.amount) is Ok {
            lemma_transfer_conserves(before, last.sender, last.recipient, last.amount);
        }
    }
}

/// A transfer of more than the sender holds is refused for the insufficient
/// balance.
pub proof fn lemma_transfer_needs_balance(
    state: TokenState,
    sender: Address,
    recipient: Address,
    amount: nat,
)
    requires
        amount > state.balance_of(sender),
    ensures
        state.transfer(sender, recipient, amount) == Err::<TokenState, Error>(
            Error::InsufficientBalance,
        ),
{
}

/// Where the total supply is the sum of all balances, a transfer is refused
/// only for an insufficient balance.
pub proof fn lemma_conserved_transfer(
    state: TokenState,
    sender: Address,
    recipient: Address,
    amount: nat,
)
    requires
        state.valid(),
        state.conserved(),
    ensures
        state.transfer(sender, recipient, amount) is Ok <==> amount <= state.balance_of(sender),
{
    lemma_transfer_never_overflows(state.balances, sender, recipient, amount);
}

/// Minting that goes through keeps the state valid, and keeps the total
/// supply the sum of all balances where it was so.
pub proof fn lemma_mint_conserves(state: TokenState, owner: Address, amount: nat)
    requires
        state.valid(),
        state.mint(owner, amount) is Ok,
    ensures
        state.mint(owner, amount)->Ok_0.valid(),
        state.conserved() ==> state.mint(owner, amount)->Ok_0.conserved(),
{
    lemma_sum_insert(state.balances, owner, state.balance_of(owner) + amount);
    let after = state.mint(owner, amount)->Ok_0;
    assert forall|holder: Address| #[trigger] after.balance_of(holder) <= max_amount() by {
        assert(state.balance_of(holder) <= max_amount());
    }
}

/// Burning that goes through keeps the state valid, and keeps the total
/// supply the sum of all balances where it was so.
pub proof fn lemma_burn_conserves(state: TokenState, owner: Address, amount: nat)
    requires
        state.valid(),
        state.burn(owner, amount) is Ok,
    ensures
        state.burn(owner, amount)->Ok_0.valid(),
        state.conserved() ==> state.burn(owner, amount)->Ok_0.conserved(),
{
    lemma_sum_insert(state.balances, owner, (state.balance_of(owner) - amount) as nat);
    let after = state.burn(owner, amount)->Ok_0;
    assert forall|holder: Address| #[trigger] after.balance_of(holder) <= max_amount() by {
        assert(state.balance_of(holder) <= max_amount());
        assert(state.balance_of(owner) <= max_amount());
    }
}

/// Burning what was just minted goes through, and gives the owner's balance
/// and the total supply back as they were before the minting; no other
/// balance has changed either.
pub proof fn lemma_mint_then_burn(state: TokenState, owner: Address, amount: nat)
    requires
        state.mint(owner, amount) is Ok,
    ensures
        state.mint(owner, amount)->Ok_0.burn(owner, amount) is Ok,
        state.mint(owner, amount)->Ok_0.burn(owner, amount)->Ok_0.balance_of(owner)
            == state.balance_of(owner),
        state.mint(owner, amount)->Ok_0.burn(owner, amount)->Ok_0.total_supply
            == state.total_supply,
        forall|holder: Address|
            state.mint(owner, amount)->Ok_0.burn(owner, amount)->Ok_0.balance_of(holder)
                == state.balance_of(holder),
        state.mint(owner, amount)->Ok_0.burn(owner, amount)->Ok_0.operators == state.operators,
{
}

/// Minting is refused for an overflow exactly where the owner's balance or
/// the total supply would leave the range of an amount.
pub proof fn lemma_mint_overflow(state: TokenState, owner: Address, amount: nat)
    ensures
        state.mint(owner, amount) == Err::<TokenState, Error>(Error::Overflow) <==> (
        state.balance_of(owner) + amount > max_amount() || state.total_supply + amount
            > max_amount()),
{
}

/// Authorizing an operator twice gives the state that authorizing it once
/// gives.
pub proof fn lemma_authorize_twice(state: TokenState, holder: Address, operator: Address)
    ensures
        state.authorize_operator(holder, operator).authorize_operator(holder, operator)
            == state.authorize_operator(holder, operator),
        state.authorize_operator(holder, operator).is_operator_for(operator, holder),
{
    crate::operators::lemma_authorize_idempotent(state.operators, holder, operator);
}

/// Revoking an operator that the holder never authorized changes nothing.
pub proof fn lemma_revoke_never_authorized(state: TokenState, holder: Address, operator: Address)
    requires
        !state.operators.grants.contains((holder, operator)),
    ensures
        state.revoke_operator(holder, operator) == state,
{
    crate::operators::lemma_revoke_absent(state.operators, holder, operator);
}

} // verus!
