use vstd::prelude::*;

verus! {

/// Why an operation on the token was refused. A refused operation leaves the
/// token as it was.
#[derive(Clone, Copy, Debug, PartialEq, Eq)]
pub enum Error {
    /// The holder's balance is smaller than the amount to take from it.
    InsufficientBalance,
    /// A balance or the total supply would leave the range of an amount.
    Overflow,
    /// The operator is not authorized to act for the holder.
    UnauthorizedOperator,
}

} // verus!
