use casper_types::U256;
use vstd::prelude::*;

verus! {

/// The base in which the four 64-bit words of an amount are digits: `2^64`.
pub open spec fn word_base() -> nat {
    0x1_0000_0000_0000_0000nat
}

/// The largest amount: `2^256 - 1`.
pub open spec fn max_amount() -> nat {
    0xffff_ffff_ffff_ffff_ffff_ffff_ffff_ffff_ffff_ffff_ffff_ffff_ffff_ffff_ffff_ffffnat
}

/// The number that four little-endian 64-bit words stand for.
pub open spec fn words_value(w: Seq<u64>) -> nat {
    (w[0] + word_base() * (w[1] + word_base() * (w[2] + word_base() * w[3]))) as nat
}

/// An unsigned 256-bit quantity of tokens, held as four little-endian 64-bit
/// words.
#[derive(Clone, Copy, Debug, Eq)]
pub struct Amount(pub [u64; 4]);

impl PartialEq for Amount {
    /// Whether the two amounts stand for the same number.
    fn eq(&self, other: &Amount) -> (r: bool) {
        proof {
            if self@ == other@ {
                lemma_amount_injective(*self, *other);
            }
        }
        self.0[0] == other.0[0] && self.0[1] == other.0[1] && self.0[2] == other.0[2] && self.0[3]
            == other.0[3]
    }
}

impl vstd::std_specs::cmp::PartialEqSpecImpl for Amount {
    open spec fn obeys_eq_spec() -> bool {
        true
    }

    open spec fn eq_spec(&self, other: &Amount) -> bool {
        self@ == other@
    }
}

impl View for Amount {
    type V = nat;

    open spec fn view(&self) -> nat {
        words_value(self.0@)
    }
}

/// Two amounts that stand for the same number are the same amount.
pub proof fn lemma_amount_injective(a: Amount, b: Amount)
    requires
        a@ == b@,
    ensures
        a == b,
{
    assert(a.0 =~= b.0);
}

impl Amount {
    /// The amount zero.
    pub fn zero() -> (r: Amount)
        ensures
            r@ == 0,
    {
        Amount([0, 0, 0, 0])
    }

    /// The largest amount.
    pub fn max_value() -> (r: Amount)
        ensures
            r@ == max_amount(),
    {
        Amount([u64::MAX, u64::MAX, u64::MAX, u64::MAX])
    }

    /// The amount that stands for `value`.
    pub fn from_u64(value: u64) -> (r: Amount)
        ensures
            r@ == value,
    {
        Amount([value, 0, 0, 0])
    }

    /// Whether this amount is zero.
    pub fn is_zero(&self) -> (r: bool)
        ensures
            r == (self@ == 0),
    {
        self.0[0] == 0 && self.0[1] == 0 && self.0[2] == 0 && self.0[3] == 0
    }
}

/// Calls `U256::checked_add` on the two numbers, each made of the words of its
/// amount, least significant first as `U256` holds them. It returns the sum of
/// the two numbers, or `None` where the sum does not fit in 256 bits.
#[verifier::external_body]
pub(crate) fn checked_add(a: Amount, b: Amount) -> (r: Option<Amount>)
    ensures
        r is Some <==> a@ + b@ <= max_amount(),
        r is Some ==> r->0@ == a@ + b@,
{
    match U256(a.0).checked_add(U256(b.0)) {
        Some(sum) => Some(Amount(sum.0)),
        None => None,
    }
}

/// Calls `U256::checked_sub` on the two numbers, each made of the words of its
/// amount, least significant first as `U256` holds them. It returns the
/// difference of the two numbers, or `None` where the second is the larger.
#[verifier::external_body]
pub(crate) fn checked_sub(a: Amount, b: Amount) -> (r: Option<Amount>)
    ensures
        r is Some <==> b@ <= a@,
        r is Some ==> r->0@ == a@ - b@,
{
    match U256(a.0).checked_sub(U256(b.0)) {
        Some(difference) => Some(Amount(difference.0)),
        None => None,
    }
}

} // verus!
