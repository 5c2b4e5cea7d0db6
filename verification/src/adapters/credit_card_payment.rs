//! Payment by credit card.

use crate::adapters::cash_payment::{new_payment_id, payment_id};
use crate::ports::payment::{PaymentError, PaymentProcessor};
use vstd::prelude::*;
use vstd::string::StringExecFns;

verus! {

/// The most that can be put on a card in one payment, in cents.
pub const CARD_LIMIT: i128 = 100_000;

/// What a card payment of `amount` cents may answer: a negative amount and
/// an amount over [`CARD_LIMIT`] are refused, each with its own reason;
/// every other amount is captured, with a payment id that starts with `CC-`.
pub open spec fn card_answer(amount: i128, result: Result<String, PaymentError>) -> bool {
    if amount < 0 {
        result matches Err(PaymentError::ProcessingFailed(reason)) && reason@
            == "Amount cannot be negative"@
    } else if amount > CARD_LIMIT {
        result matches Err(PaymentError::ProcessingFailed(reason)) && reason@
            == "Amount exceeds card limit"@
    } else {
        result matches Ok(id) && exists|bits: u128| id@ == payment_id("CC-"@, bits)
    }
}

/// Takes payment by credit card through a payment gateway.
pub struct CreditCardPayment {
    gateway_url: String,
}

impl CreditCardPayment {
    /// The address of the payment gateway.
    pub closed spec fn gateway(&self) -> Seq<char> {
        self.gateway_url@
    }

    /// A card processor that talks to the gateway at `gateway_url`.
    pub fn new(gateway_url: String) -> (processor: Self)
        ensures
            processor.gateway() == gateway_url@,
    {
        CreditCardPayment { gateway_url }
    }

    /// The address of the payment gateway.
    pub fn gateway_url(&self) -> (url: &str)
        ensures
            url@ == self.gateway(),
    {
        self.gateway_url.as_str()
    }
}

impl PaymentProcessor for CreditCardPayment {
    /// Refuses negative amounts and amounts over [`CARD_LIMIT`]; captures
    /// every other amount, with a payment id that starts with `CC-`.
    fn process_payment(&self, amount: i128) -> (result: Result<String, PaymentError>)
        ensures
            card_answer(amount, result),
    {
        if amount < 0 {
            return Err(
                PaymentError::ProcessingFailed(String::from_str("Amount cannot be negative")),
            );
        }
        if amount > CARD_LIMIT {
            return Err(
                PaymentError::ProcessingFailed(String::from_str("Amount exceeds card limit")),
            );
        }
        Ok(new_payment_id("CC-"))
    }

    fn payment_method_name(&self) -> (name: &str)
        ensures
            name@ == "Credit Card"@,
    {
        "Credit Card"
    }
}

} // verus!
