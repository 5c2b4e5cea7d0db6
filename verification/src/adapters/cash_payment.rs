//! Payment in cash.

use crate::ids::{fresh_id, id_text, uuid_text};
use crate::ports::payment::{PaymentError, PaymentProcessor};
use vstd::prelude::*;
use vstd::string::StringExecFns;

verus! {

/// The id of a payment: a prefix that names the payment method, followed by
/// a fresh identifier as `uuid` prints it.
pub open spec fn payment_id(prefix: Seq<char>, bits: u128) -> Seq<char> {
    prefix + uuid_text(bits)
}

/// A payment id starts with the prefix of its payment method.
pub proof fn payment_id_starts_with_its_prefix(prefix: Seq<char>, bits: u128)
    ensures
        prefix.is_prefix_of(payment_id(prefix, bits)),
{
    assert(payment_id(prefix, bits).subrange(0, prefix.len() as int) =~= prefix);
}

/// Makes the id for a new payment: `prefix` followed by a fresh random
/// identifier.
pub fn new_payment_id(prefix: &str) -> (id: String)
    ensures
        exists|bits: u128| id@ == payment_id(prefix@, bits),
{
    let bits = fresh_id();
    let mut id = String::from_str(prefix);
    let printed = id_text(bits);
    id.append(printed.as_str());
    assert(id@ == payment_id(prefix@, bits));
    id
}

/// Takes payment in cash. Cash is never refused.
pub struct CashPayment;

impl PaymentProcessor for CashPayment {
    /// Always succeeds; the payment id starts with `CASH-`.
    fn process_payment(&self, amount: i128) -> (result: Result<String, PaymentError>)
        ensures
            result matches Ok(id) && exists|bits: u128| id@ == payment_id("CASH-"@, bits),
    {
        Ok(new_payment_id("CASH-"))
    }

    fn payment_method_name(&self) -> (name: &str)
        ensures
            name@ == "Cash"@,
    {
        "Cash"
    }
}

} // verus!
