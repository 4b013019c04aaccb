use crate::amount::Amount;
use vstd::prelude::*;

verus! {

/// The supply counter: the number of tokens in existence.
pub struct SupplyCounter {
    value: Amount,
}

impl View for SupplyCounter {
    type V = nat;

    closed spec fn view(&self) -> nat {
        self.value@
    }
}

impl SupplyCounter {
    /// The counter is never larger than the largest amount.
    pub proof fn lemma_view_bounded(&self)
        ensures
            self@ <= crate::amount::max_amount(),
    {
    }

    /// A counter that stands at `initial_supply`.
    pub fn new(initial_supply: Amount) -> (counter: SupplyCounter)
        ensures
            counter@ == initial_supply@,
    {
        SupplyCounter { value: initial_supply }
    }

    /// Reads the counter.
    pub fn read(&self) -> (total_supply: Amount)
        ensures
            total_supply@ == self@,
    {
        self.value
    }

    /// Sets the counter to `total_supply`, whatever it was.
    pub fn write(&mut self, total_supply: Amount)
        ensures
            final(self)@ == total_supply@,
    {
        self.value = total_supply;
    }
}

} // verus!
