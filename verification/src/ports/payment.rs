//! Capturing payment.

use crate::text::labelled;
use vstd::prelude::*;
use vstd::string::StringExecFns;

verus! {

/// Why a payment was not captured.
#[derive(Debug)]
pub enum PaymentError {
    InsufficientFunds,
    InvalidCard,
    ProcessingFailed(String),
    NetworkError(String),
}

impl PaymentError {
    /// What [`to_string`](PaymentError::to_string) gives for this error.
    pub open spec fn text(self) -> Seq<char> {
        match self {
            PaymentError::InsufficientFunds => "Insufficient funds"@,
            PaymentError::InvalidCard => "Invalid card"@,
            PaymentError::ProcessingFailed(msg) => "Processing failed: "@ + msg@,
            PaymentError::NetworkError(msg) => "Network error: "@ + msg@,
        }
    }

    /// The error as a line of text.
    pub fn to_string(&self) -> (text: String)
        ensures
            text@ == self.text(),
    {
        match self {
            PaymentError::InsufficientFunds => String::from_str("Insufficient funds"),
            PaymentError::InvalidCard => String::from_str("Invalid card"),
            PaymentError::ProcessingFailed(msg) => labelled("Processing failed: ", msg.as_str()),
            PaymentError::NetworkError(msg) => labelled("Network error: ", msg.as_str()),
        }
    }
}

impl Clone for PaymentError {
    fn clone(&self) -> (copy: Self)
        ensures
            copy == *self,
    {
        match self {
            PaymentError::InsufficientFunds => PaymentError::InsufficientFunds,
            PaymentError::InvalidCard => PaymentError::InvalidCard,
            PaymentError::ProcessingFailed(msg) => PaymentError::ProcessingFailed(msg.clone()),
            PaymentError::NetworkError(msg) => PaymentError::NetworkError(msg.clone()),
        }
    }
}

/// Something that can capture a payment.
///
/// Implementations are expected not to charge twice when asked twice for the
/// same payment, and have no access to the order they are paid for. The
/// trait itself promises nothing about the outcome of a capture: the
/// workflow is verified for every outcome.
pub trait PaymentProcessor {
    /// Captures `amount` cents. `Ok` carries the id of the payment.
    fn process_payment(&self, amount: i128) -> Result<String, PaymentError>;

    /// The name of this payment method, for display.
    fn payment_method_name(&self) -> (name: &str)
        default_ensures
            name@ == "Unknown Payment Method"@,
    {
        "Unknown Payment Method"
    }
}

} // verus!
