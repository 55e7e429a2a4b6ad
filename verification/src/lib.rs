//! A password-gated escrow: a creator locks a quantity of a single fungible
//! asset behind a secret, and any holder of that secret can later claim the
//! funds.
//!
//! The crate is organised around a persistent store ([`state`]), the four
//! engine operations ([`contract`]), the request/response shapes ([`msg`]),
//! payment validation ([`payment`]), the password digest ([`crypto`]) and the
//! error taxonomy ([`error`]).

pub mod contract;
pub mod crypto;
pub mod error;
pub mod msg;
pub mod payment;
pub mod state;
