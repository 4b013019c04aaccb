use vstd::prelude::*;

verus! {

/// The holder of a balance: an account or a contract, each named by a 32-byte
/// hash.
#[derive(Clone, Copy, Debug, Eq)]
pub enum Address {
    /// An account, by its account hash.
    Account([u8; 32]),
    /// A contract, by its contract package hash.
    Contract([u8; 32]),
}

fn same_bytes(a: &[u8; 32], b: &[u8; 32]) -> (r: bool)
    ensures
        r == (*a == *b),
{
    let mut i: usize = 0;
    while i < 32
        invariant
            i <= 32,
            forall|j: int| 0 <= j < i ==> a[j] == b[j],
        decreases 32 - i,
    {
        if a[i] != b[i] {
            return false;
        }
        i += 1;
    }
    assert(*a =~= *b);
    true
}

impl PartialEq for Address {
    /// Whether the two addresses name the same holder: both are accounts or
    /// both are contracts, with the same hash.
    fn eq(&self, other: &Address) -> (r: bool) {
        match (self, other) {
            (Address::Account(a), Address::Account(b)) => same_bytes(a, b),
            (Address::Contract(a), Address::Contract(b)) => same_bytes(a, b),
            _ => false,
        }
    }
}

impl vstd::std_specs::cmp::PartialEqSpecImpl for Address {
    open spec fn obeys_eq_spec() -> bool {
        true
    }

    open spec fn eq_spec(&self, other: &Address) -> bool {
        *self == *other
    }
}

} // verus!
