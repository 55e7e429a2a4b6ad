//! The error taxonomy: every way a request can be rejected. Each failure is
//! returned as a structured value and, by the contracts in [`crate::contract`],
//! occurs before any mutation of the store.

use vstd::prelude::*;

verus! {

/// Why an attached payment is unusable for a box-creation request.
#[derive(Debug, PartialEq, Eq)]
pub enum PaymentError {
    /// No coin was attached, or the single attached coin carries a zero amount.
    NoFunds,
    /// More than one coin was attached.
    MultipleDenoms,
    /// Exactly one non-zero coin was attached but its denomination is not the
    /// requested one; carries the denomination that was requested.
    MissingDenom(String),
}

/// Mathematical image of a [`PaymentError`].
pub ghost enum PaymentErrorV {
    NoFunds,
    MultipleDenoms,
    MissingDenom(Seq<char>),
}

impl View for PaymentError {
    type V = PaymentErrorV;

    open spec fn view(&self) -> PaymentErrorV {
        match self {
            PaymentError::NoFunds => PaymentErrorV::NoFunds,
            PaymentError::MultipleDenoms => PaymentErrorV::MultipleDenoms,
            PaymentError::MissingDenom(d) => PaymentErrorV::MissingDenom(d@),
        }
    }
}

/// Every failure an engine operation can return.
#[derive(Debug, PartialEq, Eq)]
pub enum ContractError {
    /// The configuration (or the box counter) does not exist yet: the
    /// operation was attempted before initialization.
    NotInitialized,
    /// No box record exists under the given identifier.
    BoxNotFound,
    /// The payment attached to a creation request is unusable.
    Payment(PaymentError),
    /// The attached payment is usable but smaller than the sum of the
    /// requested box funds; carries both amounts.
    InsufficientFunds { got: u128, needed: u128 },
    /// The supplied secret does not hash to the stored digest.
    IncorrectPassword,
}

/// Mathematical image of a [`ContractError`].
pub ghost enum ContractErrorV {
    NotInitialized,
    BoxNotFound,
    Payment(PaymentErrorV),
    InsufficientFunds { got: u128, needed: u128 },
    IncorrectPassword,
}

impl View for ContractError {
    type V = ContractErrorV;

    open spec fn view(&self) -> ContractErrorV {
        match self {
            ContractError::NotInitialized => ContractErrorV::NotInitialized,
            ContractError::BoxNotFound => ContractErrorV::BoxNotFound,
            ContractError::Payment(p) => ContractErrorV::Payment(p@),
            ContractError::InsufficientFunds { got, needed } => ContractErrorV::InsufficientFunds {
                got: *got,
                needed: *needed,
            },
            ContractError::IncorrectPassword => ContractErrorV::IncorrectPassword,
        }
    }
}

} // verus!
