use crate::address::Address;
use crate::amount::checked_add;
use crate::amount::checked_sub;
use crate::amount::max_amount;
use crate::amount::Amount;
use crate::error::Error;
use vstd::prelude::*;

verus! {

/// The balance that the mapping `balances` gives to `holder`: zero for a
/// holder that it does not list.
pub open spec fn balance_at(balances: Map<Address, nat>, holder: Address) -> nat {
    if balances.dom().contains(holder) {
        balances[holder]
    } else {
        0
    }
}

/// The sum of all balances of a finite mapping.
pub open spec fn sum_of_balances(balances: Map<Address, nat>) -> nat
    decreases balances.dom().len(),
    when balances.dom().finite()
{
    if balances.dom().is_empty() {
        0
    } else {
        let holder = balances.dom().choose();
        balances[holder] + sum_of_balances(balances.remove(holder))
    }
}

/// The sum of all balances is the balance of any one listed holder plus the sum
/// over the others.
pub proof fn lemma_sum_split(balances: Map<Address, nat>, holder: Address)
    requires
        balances.dom().finite(),
        balances.dom().contains(holder),
    ensures
        sum_of_balances(balances) == balances[holder] + sum_of_balances(balances.remove(holder)),
    decreases balances.dom().len(),
{
    let first = balances.dom().choose();
    if first != holder {
        let rest = balances.remove(first);
        lemma_sum_split(rest, holder);
        lemma_sum_split(balances.remove(holder), first);
        assert(rest.remove(holder) =~= balances.remove(holder).remove(first));
    }
}

/// Setting one holder's balance changes the sum by the difference between the
/// new balance and the old one.
pub proof fn lemma_sum_insert(balances: Map<Address, nat>, holder: Address, balance: nat)
    requires
        balances.dom().finite(),
    ensures
        sum_of_balances(balances.insert(holder, balance)) + balance_at(balances, holder)
            == sum_of_balances(balances) + balance,
{
    let after = balances.insert(holder, balance);
    lemma_sum_split(after, holder);
    if balances.dom().contains(holder) {
        lemma_sum_split(balances, holder);
        assert(after.remove(holder) =~= balances.remove(holder));
    } else {
        assert(after.remove(holder) =~= balances);
    }
}

/// No balance is larger than the sum of all balances.
pub proof fn lemma_balance_within_sum(balances: Map<Address, nat>, holder: Address)
    requires
        balances.dom().finite(),
    ensures
        balance_at(balances, holder) <= sum_of_balances(balances),
{
    if balances.dom().contains(holder) {
        lemma_sum_split(balances, holder);
    }
}

/// The balances of two different holders together are no larger than the sum
/// of all balances.
pub proof fn lemma_two_balances_within_sum(
    balances: Map<Address, nat>,
    first: Address,
    second: Address,
)
    requires
        balances.dom().finite(),
        first != second,
    ensures
        balance_at(balances, first) + balance_at(balances, second) <= sum_of_balances(balances),
{
    if balances.dom().contains(first) {
        lemma_sum_split(balances, first);
        lemma_balance_within_sum(balances.remove(first), second);
    } else {
        lemma_balance_within_sum(balances, second);
    }
}

/// What a transfer of `amount` from `sender` to `recipient` makes of the
/// balances: the new balances, or why the transfer is refused. A transfer of
/// an amount that the sender holds, to the sender itself, changes nothing.
pub open spec fn transfer_balances(
    balances: Map<Address, nat>,
    sender: Address,
    recipient: Address,
    amount: nat,
) -> Result<Map<Address, nat>, Error> {
    if balance_at(balances, sender) < amount {
        Err(Error::InsufficientBalance)
    } else if sender == recipient {
        Ok(balances)
    } else if balance_at(balances, recipient) + amount > max_amount() {
        Err(Error::Overflow)
    } else {
        Ok(
            balances.insert(sender, (balance_at(balances, sender) - amount) as nat).insert(
                recipient,
                balance_at(balances, recipient) + amount,
            ),
        )
    }
}

/// A transfer that goes through moves `amount` from the sender to the
/// recipient, leaves every other balance alone, and keeps the sum of all
/// balances.
pub proof fn lemma_transfer_keeps_sum(
    balances: Map<Address, nat>,
    sender: Address,
    recipient: Address,
    amount: nat,
)
    requires
        balances.dom().finite(),
        transfer_balances(balances, sender, recipient, amount) is Ok,
    ensures
        ({
            let after = transfer_balances(balances, sender, recipient, amount)->Ok_0;
            &&& after.dom().finite()
            &&& sum_of_balances(after) == sum_of_balances(balances)
            &&& sender != recipient ==> balance_at(after, sender) == balance_at(balances, sender)
                - amount
            &&& sender != recipient ==> balance_at(after, recipient) == balance_at(
                balances,
                recipient,
            ) + amount
            &&& sender == recipient ==> after == balances
            &&& forall|other: Address|
                other != sender && other != recipient ==> balance_at(after, other) == balance_at(
                    balances,
                    other,
                )
        }),
{
    if sender != recipient {
        let debited = balances.insert(sender, (balance_at(balances, sender) - amount) as nat);
        lemma_sum_insert(balances, sender, (balance_at(balances, sender) - amount) as nat);
        lemma_sum_insert(debited, recipient, balance_at(balances, recipient) + amount);
    }
}

/// Among balances whose sum fits in an amount, no transfer is refused for an
/// overflow.
pub proof fn lemma_transfer_never_overflows(
    balances: Map<Address, nat>,
    sender: Address,
    recipient: Address,
    amount: nat,
)
    requires
        balances.dom().finite(),
        sum_of_balances(balances) <= max_amount(),
    ensures
        transfer_balances(balances, sender, recipient, amount) != Err::<Map<Address, nat>, Error>(
            Error::Overflow,
        ),
{
    if sender != recipient {
        lemma_two_balances_within_sum(balances, sender, recipient);
    }
}

/// The mapping that a list of entries stands for.
spec fn entries_map(entries: Seq<(Address, Amount)>) -> Map<Address, nat>
    decreases entries.len(),
{
    if entries.len() == 0 {
        Map::empty()
    } else {
        entries_map(entries.drop_last()).insert(entries.last().0, entries.last().1@)
    }
}

/// Whether no holder stands twice in a list of entries.
spec fn distinct_holders(entries: Seq<(Address, Amount)>) -> bool {
    forall|i: int, j: int|
        0 <= i < j < entries.len() ==> (#[trigger] entries[i]).0 != (#[trigger] entries[j]).0
}

proof fn lemma_entries_map_dom(entries: Seq<(Address, Amount)>)
    ensures
        entries_map(entries).dom().finite(),
        forall|holder: Address|
            entries_map(entries).dom().contains(holder) <==> exists|i: int|
                0 <= i < entries.len() && (#[trigger] entries[i]).0 == holder,
    decreases entries.len(),
{
    if entries.len() > 0 {
        let front = entries.drop_last();
        lemma_entries_map_dom(front);
        assert forall|holder: Address|
            entries_map(entries).dom().contains(holder) implies exists|i: int|
            0 <= i < entries.len() && (#[trigger] entries[i]).0 == holder by {
            if holder == entries.last().0 {
                assert(entries[entries.len() - 1].0 == holder);
            } else {
                let i = choose|i: int| 0 <= i < front.len() && (#[trigger] front[i]).0 == holder;
                assert(entries[i].0 == holder);
            }
        }
        assert forall|holder: Address|
            (exists|i: int| 0 <= i < entries.len() && (#[trigger] entries[i]).0 == holder)
            implies entries_map(entries).dom().contains(holder) by {
            let i = choose|i: int| 0 <= i < entries.len() && (#[trigger] entries[i]).0 == holder;
            if i < front.len() {
                assert(front[i].0 == holder);
            }
        }
    }
}

proof fn lemma_entries_map_bounded(entries: Seq<(Address, Amount)>)
    ensures
        forall|holder: Address| #[trigger]
            balance_at(entries_map(entries), holder) <= max_amount(),
    decreases entries.len(),
{
    if entries.len() > 0 {
        lemma_entries_map_bounded(entries.drop_last());
        assert forall|holder: Address| #[trigger]
            balance_at(entries_map(entries), holder) <= max_amount() by {
            assert(balance_at(entries_map(entries.drop_last()), holder)
                <= max_amount());
        }
    }
}

proof fn lemma_entries_map_at(entries: Seq<(Address, Amount)>, i: int)
    requires
        distinct_holders(entries),
        0 <= i < entries.len(),
    ensures
        entries_map(entries).dom().contains(entries[i].0),
        entries_map(entries)[entries[i].0] == entries[i].1@,
    decreases entries.len(),
{
    let front = entries.drop_last();
    if i < entries.len() - 1 {
        assert(distinct_holders(front)) by {
            assert forall|a: int, b: int| 0 <= a < b < front.len() implies (#[trigger] front[a]).0
                != (#[trigger] front[b]).0 by {
                assert(entries[a].0 != entries[b].0);
            }
        }
        lemma_entries_map_at(front, i);
        assert(front[i] == entries[i]);
        assert(entries[i].0 != entries[entries.len() - 1].0);
    }
}

proof fn lemma_entries_map_update(entries: Seq<(Address, Amount)>, i: int, amount: Amount)
    requires
        distinct_holders(entries),
        0 <= i < entries.len(),
    ensures
        distinct_holders(entries.update(i, (entries[i].0, amount))),
        entries_map(entries.update(i, (entries[i].0, amount))) == entries_map(entries).insert(
            entries[i].0,
            amount@,
        ),
    decreases entries.len(),
{
    let holder = entries[i].0;
    let updated = entries.update(i, (holder, amount));
    assert(distinct_holders(updated)) by {
        assert forall|a: int, b: int| 0 <= a < b < updated.len() implies (#[trigger] updated[a]).0
            != (#[trigger] updated[b]).0 by {
            assert(entries[a].0 != entries[b].0);
        }
    }
    let front = entries.drop_last();
    if i == entries.len() - 1 {
        assert(updated.drop_last() =~= front);
        assert(entries_map(updated) =~= entries_map(entries).insert(holder, amount@));
    } else {
        assert(distinct_holders(front)) by {
            assert forall|a: int, b: int| 0 <= a < b < front.len() implies (#[trigger] front[a]).0
                != (#[trigger] front[b]).0 by {
                assert(entries[a].0 != entries[b].0);
            }
        }
        lemma_entries_map_update(front, i, amount);
        assert(updated.drop_last() =~= front.update(i, (holder, amount)));
        assert(front[i] == entries[i]);
        assert(entries[i].0 != entries[entries.len() - 1].0);
        assert(entries_map(updated) =~= entries_map(entries).insert(holder, amount@));
    }
}

proof fn lemma_entries_map_push(entries: Seq<(Address, Amount)>, holder: Address, amount: Amount)
    requires
        distinct_holders(entries),
        forall|i: int| 0 <= i < entries.len() ==> (#[trigger] entries[i]).0 != holder,
    ensures
        distinct_holders(entries.push((holder, amount))),
        entries_map(entries.push((holder, amount))) == entries_map(entries).insert(holder, amount@),
{
    let pushed = entries.push((holder, amount));
    assert(pushed.drop_last() =~= entries);
    assert(distinct_holders(pushed)) by {
        assert forall|a: int, b: int| 0 <= a < b < pushed.len() implies (#[trigger] pushed[a]).0
            != (#[trigger] pushed[b]).0 by {
            if b < entries.len() {
                assert(entries[a].0 != entries[b].0);
            } else {
                assert(entries[a].0 != holder);
            }
        }
    }
}

/// The balance store: the balance of every holder. A holder that the store
/// does not list has the balance zero.
pub struct BalanceStore {
    entries: Vec<(Address, Amount)>,
}

impl View for BalanceStore {
    type V = Map<Address, nat>;

    closed spec fn view(&self) -> Map<Address, nat> {
        entries_map(self.entries@)
    }
}

impl BalanceStore {
    /// Whether the store is well formed: it lists no holder twice.
    pub closed spec fn wf(&self) -> bool {
        distinct_holders(self.entries@)
    }

    /// The balance that the store gives to `holder`.
    pub open spec fn balance(&self, holder: Address) -> nat {
        balance_at(self@, holder)
    }

    /// The store lists finitely many holders, and every balance fits in an
    /// amount.
    pub proof fn lemma_view_bounded(&self)
        ensures
            self@.dom().finite(),
            forall|holder: Address| #[trigger] self.balance(holder) <= max_amount(),
    {
        lemma_entries_map_dom(self.entries@);
        lemma_entries_map_bounded(self.entries@);
    }

    /// A store in which every balance is zero.
    pub fn new() -> (store: BalanceStore)
        ensures
            store.wf(),
            store@ == Map::<Address, nat>::empty(),
    {
        BalanceStore { entries: Vec::new() }
    }

    /// Reads the balance of `holder`.
    pub fn read(&self, holder: Address) -> (balance: Amount)
        requires
            self.wf(),
        ensures
            balance@ == balance_at(self@, holder),
    {
        proof {
            lemma_entries_map_dom(self.entries@);
        }
        let mut i: usize = 0;
        while i < self.entries.len()
            invariant
                i <= self.entries.len(),
                distinct_holders(self.entries@),
                forall|j: int| 0 <= j < i ==> (#[trigger] self.entries@[j]).0 != holder,
            decreases self.entries.len() - i,
        {
            if self.entries[i].0 == holder {
                proof {
                    lemma_entries_map_at(self.entries@, i as int);
                }
                return self.entries[i].1;
            }
            i += 1;
        }
        Amount::zero()
    }

    /// Sets the balance of `holder` to `amount`, whatever it was.
    pub fn write(&mut self, holder: Address, amount: Amount)
        requires
            old(self).wf(),
        ensures
            final(self).wf(),
            final(self)@ == old(self)@.insert(holder, amount@),
    {
        let mut i: usize = 0;
        while i < self.entries.len()
            invariant
                i <= self.entries.len(),
                *self == *old(self),
                distinct_holders(self.entries@),
                forall|j: int| 0 <= j < i ==> (#[trigger] self.entries@[j]).0 != holder,
            decreases self.entries.len() - i,
        {
            if self.entries[i].0 == holder {
                proof {
                    lemma_entries_map_update(self.entries@, i as int, amount);
                }
                self.entries.set(i, (holder, amount));
                return ;
            }
            i += 1;
        }
        proof {
            lemma_entries_map_push(self.entries@, holder, amount);
        }
        self.entries.push((holder, amount));
    }

    /// Moves `amount` from the balance of `sender` to that of `recipient`, or
    /// refuses and leaves the store as it was.
    pub fn transfer_balance(&mut self, sender: Address, recipient: Address, amount: Amount) -> (result:
        Result<(), Error>)
        requires
            old(self).wf(),
        ensures
            final(self).wf(),
            match transfer_balances(old(self)@, sender, recipient, amount@) {
                Ok(balances) => result is Ok && final(self)@ == balances,
                Err(error) => result == Err::<(), Error>(error) && *final(self) == *old(self),
            },
    {
        let sender_balance = self.read(sender);
        let new_sender_balance = match checked_sub(sender_balance, amount) {
            Some(balance) => balance,
            None => {
                return Err(Error::InsufficientBalance);
            },
        };
        if sender == recipient {
            return Ok(());
        }
        let recipient_balance = self.read(recipient);
        let new_recipient_balance = match checked_add(recipient_balance, amount) {
            Some(balance) => balance,
            None => {
                return Err(Error::Overflow);
            },
        };
        self.write(sender, new_sender_balance);
        self.write(recipient, new_recipient_balance);
        Ok(())
    }
}

} // verus!
