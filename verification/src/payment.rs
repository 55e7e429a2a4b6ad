//! Payment validation for box creation: a request must attach exactly one
//! non-zero coin, and it must be of the configured denomination. Anything
//! attached beyond the required sum is accepted and retained without an
//! accounting record.

use vstd::prelude::*;

use crate::error::{PaymentError, PaymentErrorV};
use crate::msg::{MessageInfo, MessageInfoV};

verus! {

/// What an attached payment is worth towards the denomination `denom`:
/// the amount of the single attached coin, or the reason it is unusable.
/// No coin, or a single coin of amount zero, counts as no funds; two or
/// more coins are rejected outright; a single non-zero coin of another
/// denomination reports the denomination that was requested.
pub open spec fn spec_must_pay(info: MessageInfoV, denom: Seq<char>) -> Result<u128, PaymentErrorV> {
    if info.funds.len() == 0 {
        Err(PaymentErrorV::NoFunds)
    } else if info.funds.len() > 1 {
        Err(PaymentErrorV::MultipleDenoms)
    } else if info.funds[0].amount == 0 {
        Err(PaymentErrorV::NoFunds)
    } else if info.funds[0].denom != denom {
        Err(PaymentErrorV::MissingDenom(denom))
    } else {
        Ok(info.funds[0].amount)
    }
}

/// The amount of `denom` attached to the request, if the attached coins are
/// usable as a payment in `denom`.
pub fn must_pay(info: &MessageInfo, denom: &String) -> (r: Result<u128, PaymentError>)
    ensures
        match spec_must_pay(info@, denom@) {
            Ok(a) => r matches Ok(v) && v == a,
            Err(e) => r matches Err(pe) && pe@ == e,
        },
{
    if info.funds.len() == 0 {
        Err(PaymentError::NoFunds)
    } else if info.funds.len() > 1 {
        Err(PaymentError::MultipleDenoms)
    } else {
        let coin = &info.funds[0];
        if coin.amount == 0 {
            Err(PaymentError::NoFunds)
        } else if !(coin.denom == *denom) {
            Err(PaymentError::MissingDenom(denom.clone()))
        } else {
            Ok(coin.amount)
        }
    }
}

} // verus!
