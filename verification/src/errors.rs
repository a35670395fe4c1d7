//! The failure taxonomy of the escrow machine.
//!
//! Every failure is fatal to the current operation: the operation returns the
//! error with no state mutation and no transfer instruction issued.

use vstd::prelude::*;

verus! {

/// Why an escrow operation was rejected.
///
/// `IncorrectAmount` carries the expected and the given amount so that the
/// caller can report both.
#[derive(Clone, Copy, Debug, PartialEq, Eq, Structural)]
pub enum EscrowError {
    /// The initializer was called although contract state already exists.
    Reinitialization,
    /// The configured cost does not exceed the minimum fee.
    InvalidConfiguration,
    /// The caller of the current operation is not the party it is reserved to.
    UnauthorizedCaller,
    /// The amount attached to a deposit differs from the escrow cost.
    IncorrectAmount { expected: u128, given: u128 },
    /// The stored cost is below the minimum fee, so the payout after the fee
    /// deduction would underflow; the configuration invariant was violated.
    ArithmeticInvariant,
    /// `unlock` was called before the escrow was funded.
    NotFunded,
    /// `deposit` was called a second time on a funded escrow.
    AlreadyFunded,
    /// The operation was called after the escrow was settled.
    AlreadySettled,
}

impl EscrowError {
    /// A descriptive message for the rejection, one per variant.
    pub fn message(&self) -> (m: &'static str)
        ensures
            self is Reinitialization ==> m@ == "Already initialized"@,
            self is InvalidConfiguration ==> m@ == "Cost must exceed the minimum fee"@,
            self is UnauthorizedCaller ==> m@ == "Only buyer can make a deposit"@,
            self is IncorrectAmount ==> m@ == "Wrong deposit: the attached amount must equal the cost"@,
            self is ArithmeticInvariant ==> m@ == "Escrow cost is below the minimum fee"@,
            self is NotFunded ==> m@ == "Escrow has not been funded"@,
            self is AlreadyFunded ==> m@ == "Escrow is already funded"@,
            self is AlreadySettled ==> m@ == "Escrow is already settled"@,
    {
        match self {
            EscrowError::Reinitialization => "Already initialized",
            EscrowError::InvalidConfiguration => "Cost must exceed the minimum fee",
            EscrowError::UnauthorizedCaller => "Only buyer can make a deposit",
            EscrowError::IncorrectAmount { .. } => "Wrong deposit: the attached amount must equal the cost",
            EscrowError::ArithmeticInvariant => "Escrow cost is below the minimum fee",
            EscrowError::NotFunded => "Escrow has not been funded",
            EscrowError::AlreadyFunded => "Escrow is already funded",
            EscrowError::AlreadySettled => "Escrow is already settled",
        }
    }
}

} // verus!
