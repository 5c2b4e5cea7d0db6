//! Customers.

use crate::ids::fresh_id;
use vstd::prelude::*;

verus! {

/// A customer of the shop.
#[derive(Debug)]
pub struct Customer {
    pub id: u128,
    pub name: String,
    pub email: String,
    pub phone: Option<String>,
}

/// What a [`Customer`] holds, as mathematical values.
pub struct CustomerView {
    pub id: u128,
    pub name: Seq<char>,
    pub email: Seq<char>,
    pub phone: Option<Seq<char>>,
}

/// The characters of an optional string.
pub open spec fn optional_text(s: Option<String>) -> Option<Seq<char>> {
    match s {
        Some(s) => Some(s@),
        None => None,
    }
}

impl View for Customer {
    type V = CustomerView;

    open spec fn view(&self) -> CustomerView {
        CustomerView {
            id: self.id,
            name: self.name@,
            email: self.email@,
            phone: optional_text(self.phone),
        }
    }
}

impl Clone for Customer {
    fn clone(&self) -> (copy: Self)
        ensures
            copy@ == self@,
    {
        let phone = match &self.phone {
            Some(p) => Some(p.clone()),
            None => None,
        };
        Customer { id: self.id, name: self.name.clone(), email: self.email.clone(), phone }
    }
}

impl Customer {
    /// A new customer with the given contact details and a fresh random id.
    pub fn new(name: String, email: String, phone: Option<String>) -> (customer: Self)
        ensures
            customer@.name == name@,
            customer@.email == email@,
            customer@.phone == optional_text(phone),
    {
        Customer { id: fresh_id(), name, email, phone }
    }
}

} // verus!
