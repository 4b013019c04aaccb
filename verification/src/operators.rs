use crate::address::Address;
use vstd::prelude::*;

verus! {

/// What an operator registry stands for.
pub struct Operators {
    /// The operators that act for every holder, in the order in which they
    /// were given when the registry was made.
    pub default_operators: Seq<Address>,
    /// The explicit grants: the pairs of a holder and an operator that the
    /// holder has authorized.
    pub grants: Set<(Address, Address)>,
}

impl Operators {
    /// Whether `operator` may act for `holder`: it is a default operator, or
    /// `holder` has granted it.
    pub open spec fn is_authorized(self, operator: Address, holder: Address) -> bool {
        self.default_operators.contains(operator) || self.grants.contains((holder, operator))
    }

    /// The registry after `holder` has authorized `operator`.
    pub open spec fn authorize(self, holder: Address, operator: Address) -> Operators {
        Operators { grants: self.grants.insert((holder, operator)), ..self }
    }

    /// The registry after `holder` has revoked `operator`.
    pub open spec fn revoke(self, holder: Address, operator: Address) -> Operators {
        Operators { grants: self.grants.remove((holder, operator)), ..self }
    }
}

/// Authorizing an operator a second time changes nothing.
pub proof fn lemma_authorize_idempotent(operators: Operators, holder: Address, operator: Address)
    ensures
        operators.authorize(holder, operator).authorize(holder, operator) == operators.authorize(
            holder,
            operator,
        ),
{
    let once = operators.authorize(holder, operator);
    assert(once.grants.insert((holder, operator)) =~= once.grants);
}

/// Revoking an operator that the holder has not granted changes nothing.
pub proof fn lemma_revoke_absent(operators: Operators, holder: Address, operator: Address)
    requires
        !operators.grants.contains((holder, operator)),
    ensures
        operators.revoke(holder, operator) == operators,
{
    assert(operators.grants.remove((holder, operator)) =~= operators.grants);
}

/// Revoking an operator a second time changes nothing.
pub proof fn lemma_revoke_idempotent(operators: Operators, holder: Address, operator: Address)
    ensures
        operators.revoke(holder, operator).revoke(holder, operator) == operators.revoke(
            holder,
            operator,
        ),
{
    lemma_revoke_absent(operators.revoke(holder, operator), holder, operator);
}

/// The operator registry: the default operators, and the operators that each
/// holder has authorized.
pub struct OperatorRegistry {
    default_operators: Vec<Address>,
    grants: Vec<(Address, Address)>,
}

impl View for OperatorRegistry {
    type V = Operators;

    closed spec fn view(&self) -> Operators {
        Operators { default_operators: self.default_operators@, grants: self.grants@.to_set() }
    }
}

impl OperatorRegistry {
    /// Whether the registry is well formed: it holds no grant twice.
    pub closed spec fn wf(&self) -> bool {
        self.grants@.no_duplicates()
    }

    /// A registry with the given default operators and no grant.
    pub fn new(default_operators: Vec<Address>) -> (registry: OperatorRegistry)
        ensures
            registry.wf(),
            registry@ == (Operators {
                default_operators: default_operators@,
                grants: Set::<(Address, Address)>::empty(),
            }),
    {
        let registry = OperatorRegistry { default_operators, grants: Vec::new() };
        assert(registry.grants@.to_set() =~= Set::<(Address, Address)>::empty());
        registry
    }

    fn position(&self, holder: Address, operator: Address) -> (found: Option<usize>)
        ensures
            match found {
                Some(i) => i < self.grants@.len() && self.grants@[i as int] == (holder, operator),
                None => !self.grants@.contains((holder, operator)),
            },
    {
        let mut i: usize = 0;
        while i < self.grants.len()
            invariant
                i <= self.grants.len(),
                forall|j: int| 0 <= j < i ==> self.grants@[j] != (holder, operator),
            decreases self.grants.len() - i,
        {
            if self.grants[i].0 == holder && self.grants[i].1 == operator {
                return Some(i);
            }
            i += 1;
        }
        None
    }

    /// Whether `operator` may act for `holder`.
    pub fn is_authorized(&self, operator: Address, holder: Address) -> (authorized: bool)
        ensures
            authorized == self@.is_authorized(operator, holder),
    {
        let mut i: usize = 0;
        while i < self.default_operators.len()
            invariant
                i <= self.default_operators.len(),
                forall|j: int| 0 <= j < i ==> self.default_operators@[j] != operator,
            decreases self.default_operators.len() - i,
        {
            if self.default_operators[i] == operator {
                return true;
            }
            i += 1;
        }
        self.position(holder, operator).is_some()
    }

    /// Records that `holder` authorizes `operator`.
    pub fn authorize(&mut self, holder: Address, operator: Address)
        requires
            old(self).wf(),
        ensures
            final(self).wf(),
            final(self)@ == old(self)@.authorize(holder, operator),
    {
        match self.position(holder, operator) {
            Some(i) => {
                assert(self.grants@.contains((holder, operator)));
                assert(self.grants@.to_set() =~= self.grants@.to_set().insert((holder, operator)));
            },
            None => {
                self.grants.push((holder, operator));
                proof {
                    let before = old(self).grants@;
                    let after = self.grants@;
                    assert forall|pair: (Address, Address)|
                        after.contains(pair) <==> before.contains(pair) || pair == (
                            holder,
                            operator,
                        ) by {
                        if before.contains(pair) {
                            let j = choose|j: int| 0 <= j < before.len() && before[j] == pair;
                            assert(after[j] == pair);
                        }
                        if pair == (holder, operator) {
                            assert(after[before.len() as int] == pair);
                        }
                    }
                    assert(after.to_set() =~= before.to_set().insert((holder, operator)));
                }
            },
        }
    }

    /// Records that `holder` no longer authorizes `operator`.
    pub fn revoke(&mut self, holder: Address, operator: Address)
        requires
            old(self).wf(),
        ensures
            final(self).wf(),
            final(self)@ == old(self)@.revoke(holder, operator),
    {
        match self.position(holder, operator) {
            Some(i) => {
                self.grants.remove(i);
                assert(self.grants@.to_set() =~= old(self).grants@.to_set().remove(
                    (holder, operator),
                )) by {
                    let before = old(self).grants@;
                    let after = self.grants@;
                    assert forall|pair: (Address, Address)|
                        after.contains(pair) <==> before.contains(pair) && pair != (
                            holder,
                            operator,
                        ) by {
                        if after.contains(pair) {
                            let j = choose|j: int| 0 <= j < after.len() && after[j] == pair;
                            if j < i {
                                assert(before[j] == pair);
                            } else {
                                assert(before[j + 1] == pair);
                            }
                        }
                        if before.contains(pair) && pair != (holder, operator) {
                            let j = choose|j: int| 0 <= j < before.len() && before[j] == pair;
                            if j < i {
                                assert(after[j] == pair);
                            } else {
                                assert(after[j - 1] == pair);
                            }
                        }
                    }
                }
            },
            None => {
                assert(self.grants@.to_set() =~= old(self).grants@.to_set().remove(
                    (holder, operator),
                ));
            },
        }
    }

    /// The operators that `holder` has authorized, each once.
    pub fn list_granted_operators(&self, holder: Address) -> (list: Vec<Address>)
        requires
            self.wf(),
        ensures
            list@.no_duplicates(),
            forall|operator: Address|
                list@.contains(operator) <==> self@.grants.contains((holder, operator)),
    {
        let mut list: Vec<Address> = Vec::new();
        let mut from: Ghost<Seq<int>> = Ghost(Seq::empty());
        let mut i: usize = 0;
        while i < self.grants.len()
            invariant
                i <= self.grants.len(),
                self.grants@.no_duplicates(),
                from@.len() == list@.len(),
                forall|k: int|
                    0 <= k < list@.len() ==> 0 <= #[trigger] from@[k] < i && self.grants@[from@[k]]
                        == (holder, list@[k]),
                forall|j: int|
                    0 <= j < i && self.grants@[j].0 == holder ==> list@.contains(
                        (#[trigger] self.grants@[j]).1,
                    ),
                list@.no_duplicates(),
            decreases self.grants.len() - i,
        {
            if self.grants[i].0 == holder {
                let ghost before = list@;
                proof {
                    assert forall|k: int| 0 <= k < before.len() implies before[k]
                        != self.grants@[i as int].1 by {
                        assert(0 <= from@[k] < i);
                        if before[k] == self.grants@[i as int].1 {
                            assert(self.grants@[from@[k]] == self.grants@[i as int]);
                        }
                    }
                }
                list.push(self.grants[i].1);
                proof {
                    from@ = from@.push(i as int);
                    assert forall|j: int|
                        0 <= j < i + 1 && self.grants@[j].0 == holder implies list@.contains(
                        (#[trigger] self.grants@[j]).1,
                    ) by {
                        if j < i {
                            let k = choose|k: int|
                                0 <= k < before.len() && before[k] == self.grants@[j].1;
                            assert(list@[k] == self.grants@[j].1);
                        } else {
                            assert(list@[before.len() as int] == self.grants@[j].1);
                        }
                    }
                }
            }
            i += 1;
        }
        proof {
            assert forall|operator: Address|
                list@.contains(operator) <==> self@.grants.contains((holder, operator)) by {
                if list@.contains(operator) {
                    let k = choose|k: int| 0 <= k < list@.len() && list@[k] == operator;
                    assert(self.grants@[from@[k]] == (holder, operator));
                }
                if self.grants@.contains((holder, operator)) {
                    let j = choose|j: int|
                        0 <= j < self.grants@.len() && self.grants@[j] == (holder, operator);
                    assert(list@.contains(self.grants@[j].1));
                }
            }
        }
        list
    }

    /// The default operators, in the order in which they were given.
    pub fn list_default_operators(&self) -> (list: Vec<Address>)
        ensures
            list@ == self@.default_operators,
    {
        let mut list: Vec<Address> = Vec::new();
        let mut i: usize = 0;
        while i < self.default_operators.len()
            invariant
                i <= self.default_operators.len(),
                list@ == self.default_operators@.subrange(0, i as int),
            decreases self.default_operators.len() - i,
        {
            list.push(self.default_operators[i]);
            assert(list@ =~= self.default_operators@.subrange(0, i + 1));
            i += 1;
        }
        assert(list@ =~= self.default_operators@);
        list
    }
}

} // verus!
