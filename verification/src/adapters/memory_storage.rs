//! An order store that lives in memory.

use crate::domain::order::{Order, OrderView};
use crate::ids::{id_text, uuid_text};
use crate::ports::repository::{
    any_order, is_listing_of, order_views, ordered_by, OrderRepository, RepositoryError,
};
use std::collections::HashMap;
use vstd::prelude::*;
use vstd::std_specs::hash::spec_hash_map_iter;
use vstd::std_specs::iter::IteratorSpec;
use vstd::string::StringExecFns;

verus! {

broadcast use vstd::std_specs::hash::group_hash_axioms;

/// An order store backed by a hash map. Nothing outlives the process; good
/// for tests, demos and development.
pub struct MemoryOrderRepository {
    orders: HashMap<u128, Order>,
}

/// The text `Order <id> <what>`, with the id printed as `uuid` prints it.
pub open spec fn order_message(id: u128, what: Seq<char>) -> Seq<char> {
    "Order "@ + uuid_text(id) + what
}

/// Builds the text `Order <id> <what>`.
fn order_message_text(id: u128, what: &str) -> (text: String)
    ensures
        text@ == order_message(id, what@),
{
    let mut text = String::from_str("Order ");
    let printed = id_text(id);
    text.append(printed.as_str());
    text.append(what);
    text
}

impl MemoryOrderRepository {
    /// Every order is kept under its own id.
    #[verifier::type_invariant]
    spec fn keyed_by_id(self) -> bool {
        forall|id: u128| #[trigger] self.orders@.contains_key(id) ==> self.orders@[id].id == id
    }

    /// An empty store.
    pub fn new() -> (repo: Self)
        ensures
            repo.records() == Map::<u128, OrderView>::empty(),
    {
        let repo = MemoryOrderRepository { orders: HashMap::new() };
        assert(repo.records() =~= Map::<u128, OrderView>::empty());
        repo
    }

    /// How many orders are stored.
    pub fn count(&self) -> (n: usize)
        ensures
            n == self.records().len(),
    {
        assert(self.records().dom() =~= self.orders@.dom());
        self.orders.len()
    }

    /// Removes every order.
    pub fn clear(&mut self)
        ensures
            final(self).records() == Map::<u128, OrderView>::empty(),
    {
        self.orders = HashMap::new();
        assert(self.records() =~= Map::<u128, OrderView>::empty());
    }

    /// Puts `order` under its id, replacing what was there.
    ///
    /// The map is taken out of the store while it changes and put back
    /// afterwards, so the store never holds a map in which an order sits
    /// under another order's id.
    pub(crate) fn put(&mut self, order: Order)
        ensures
            final(self).records() == old(self).records().insert(order.id, order@),
    {
        proof {
            use_type_invariant(&*self);
        }
        let mut orders: HashMap<u128, Order> = HashMap::new();
        core::mem::swap(&mut self.orders, &mut orders);
        let ghost before = orders@;
        orders.insert(order.id, order);
        assert(orders@.map_values(|o: Order| o@) =~= before.map_values(|o: Order| o@).insert(
            order.id,
            order@,
        ));
        self.orders = orders;
    }

    /// Copies of the stored orders of the customer with the given e-mail
    /// address, or of all stored orders if no address is given.
    pub(crate) fn collect(&self, email: Option<&String>) -> (orders: Vec<Order>)
        ensures
            email matches Some(address) ==> is_listing_of(
                order_views(orders@),
                self.records(),
                ordered_by(address@),
            ),
            email is None ==> is_listing_of(order_views(orders@), self.records(), any_order()),
    {
        proof {
            use_type_invariant(self);
        }
        let ghost wanted = match email {
            Some(address) => ordered_by(address@),
            None => any_order(),
        };
        let ghost pairs = spec_hash_map_iter(&self.orders).remaining();
        // For each entry walked so far, where its copy went if it was kept;
        // and for each copy, the entry it was made from.
        let ghost mut placed: Seq<int> = Seq::empty();
        let ghost mut source: Seq<int> = Seq::empty();
        let mut out: Vec<Order> = Vec::new();
        for entry in it: self.orders.iter()
            invariant
                it.seq() == pairs,
                pairs == spec_hash_map_iter(&self.orders).remaining(),
                email matches Some(address) ==> wanted == ordered_by(address@),
                email is None ==> wanted == any_order(),
                placed.len() == it.index(),
                out.len() <= it.index(),
                forall|k: int|
                    0 <= k < it.index() ==> if wanted((*pairs[k].1)@) {
                        &&& 0 <= #[trigger] placed[k] < out.len()
                        &&& out[placed[k]]@ == (*pairs[k].1)@
                    } else {
                        placed[k] == -1
                    },
                source.len() == out.len(),
                forall|n: int|
                    0 <= n < out.len() ==> {
                        &&& 0 <= #[trigger] source[n] < it.index()
                        &&& placed[source[n]] == n
                        &&& wanted((*pairs[source[n]].1)@)
                        &&& out[n]@ == (*pairs[source[n]].1)@
                    },
        {
            let (_, order) = entry;
            let keep = match email {
                Some(address) => order.customer.email == *address,
                None => true,
            };
            let ghost index = it.index();
            if keep {
                out.push(order.clone());
                proof {
                    placed = placed.push(out.len() - 1);
                    source = source.push(index);
                }
            } else {
                proof {
                    placed = placed.push(-1);
                }
            }
        }
        proof {
            let listed = order_views(out@);
            let records = self.records();
            assert forall|i: int| 0 <= i < listed.len() implies {
                &&& records.contains_key((#[trigger] listed[i]).id)
                &&& records[listed[i].id] == listed[i]
                &&& wanted(listed[i])
            } by {
                let k = source[i];
                assert(self.orders@.contains_key(*pairs[k].0));
            }
            assert forall|i: int, j: int| 0 <= i < j < listed.len() implies (
            #[trigger] listed[i]).id != (#[trigger] listed[j]).id by {
                let k = source[i];
                let l = source[j];
                assert(self.orders@.contains_key(*pairs[k].0));
                assert(self.orders@.contains_key(*pairs[l].0));
                if listed[i].id == listed[j].id {
                    assert(*pairs[k].0 == *pairs[l].0);
                    assert(pairs[k] == pairs[l]);
                    assert(k == l);
                    assert(placed[k] == i && placed[l] == j);
                }
            }
            assert forall|id: u128| #[trigger]
                records.contains_key(id) && wanted(records[id]) implies exists|i: int|
                0 <= i < listed.len() && (#[trigger] listed[i]).id == id by {
                assert(self.orders@.contains_key(id));
                let pair = (&id, &self.orders@[id]);
                assert(pairs.contains(pair));
                let k = choose|k: int| 0 <= k < pairs.len() && pairs[k] == pair;
                assert(listed[placed[k]].id == id);
            }
        }
        out
    }
}

impl Default for MemoryOrderRepository {
    fn default() -> (repo: Self)
        ensures
            repo.records() == Map::<u128, OrderView>::empty(),
    {
        MemoryOrderRepository::new()
    }
}

impl OrderRepository for MemoryOrderRepository {
    closed spec fn records(&self) -> Map<u128, OrderView> {
        self.orders@.map_values(|order: Order| order@)
    }

    /// Saving in memory cannot fail for any other reason than a taken id.
    fn save(&mut self, order: &Order) -> (result: Result<(), RepositoryError>)
        ensures
            result is Ok <==> !old(self).records().contains_key(order.id),
            result matches Err(RepositoryError::AlreadyExists(msg)) ==> msg@ == order_message(
                order.id,
                " already exists"@,
            ),
    {
        if self.orders.contains_key(&order.id) {
            return Err(RepositoryError::AlreadyExists(order_message_text(order.id, " already exists")));
        }
        self.put(order.clone());
        Ok(())
    }

    /// Looking up in memory cannot fail.
    fn find_by_id(&self, id: u128) -> (result: Result<Option<Order>, RepositoryError>)
        ensures
            result is Ok,
    {
        proof {
            use_type_invariant(self);
        }
        match self.orders.get(&id) {
            Some(order) => Ok(Some(order.clone())),
            None => Ok(None),
        }
    }

    /// Listing in memory cannot fail.
    fn find_by_customer_email(&self, email: &str) -> (result: Result<Vec<Order>, RepositoryError>)
        ensures
            result is Ok,
    {
        let address = String::from_str(email);
        Ok(self.collect(Some(&address)))
    }

    /// Listing in memory cannot fail.
    fn list_all(&self) -> (result: Result<Vec<Order>, RepositoryError>)
        ensures
            result is Ok,
    {
        Ok(self.collect(None))
    }

    /// Updating in memory cannot fail for any other reason than an unknown
    /// id.
    fn update(&mut self, order: &Order) -> (result: Result<(), RepositoryError>)
        ensures
            result is Ok <==> old(self).records().contains_key(order.id),
            result matches Err(RepositoryError::NotFound(msg)) ==> msg@ == order_message(
                order.id,
                " not found"@,
            ),
    {
        if !self.orders.contains_key(&order.id) {
            return Err(RepositoryError::NotFound(order_message_text(order.id, " not found")));
        }
        self.put(order.clone());
        Ok(())
    }

    /// Deleting in memory cannot fail.
    fn delete(&mut self, id: u128) -> (result: Result<bool, RepositoryError>)
        ensures
            result is Ok,
    {
        proof {
            use_type_invariant(&*self);
        }
        let mut orders: HashMap<u128, Order> = HashMap::new();
        core::mem::swap(&mut self.orders, &mut orders);
        let ghost before = orders@;
        let removed = orders.remove(&id);
        assert(orders@.map_values(|o: Order| o@) =~= before.map_values(|o: Order| o@).remove(id));
        self.orders = orders;
        Ok(removed.is_some())
    }
}

} // verus!
