//! An order store that keeps its orders in a file.
//!
//! The store works on a copy of the orders in memory and writes all of them
//! to its file after every change. Reading and writing the file, and the
//! format of its contents, are the business of an [`OrderFile`], which the
//! program that uses the library provides.

use crate::adapters::memory_storage::MemoryOrderRepository;
use crate::domain::order::{Order, OrderView};
use crate::ports::repository::{order_views, OrderRepository, RepositoryError};
use vstd::prelude::*;

verus! {

/// A file that holds a list of orders.
pub trait OrderFile {
    /// Reads the orders in the file. `Ok(None)` means that there is no file
    /// yet; `Err` says why the file could not be read or understood.
    fn load(&self) -> Result<Option<Vec<Order>>, String>;

    /// Replaces the contents of the file by `orders`. `Err` says why that
    /// did not work.
    fn store(&mut self, orders: &Vec<Order>) -> Result<(), String>;
}

/// The records that a list of orders read from a file amounts to: each
/// order under its id; where two orders have the same id, the later one.
pub open spec fn loaded_records(orders: Seq<OrderView>) -> Map<u128, OrderView>
    decreases orders.len(),
{
    if orders.len() == 0 {
        Map::empty()
    } else {
        loaded_records(orders.drop_last()).insert(orders.last().id, orders.last())
    }
}

/// An order store that writes every change through to a file.
///
/// When the file cannot be written, the operation fails with `SaveFailed`,
/// but the change stays in the store's memory and is written with the next
/// change that succeeds.
///
/// For reasoning only, the store keeps a journal of what it has asked its
/// file to hold.
pub struct JsonOrderRepository<F: OrderFile> {
    file: F,
    orders: MemoryOrderRepository,
    journal: Ghost<Seq<Map<u128, OrderView>>>,
}

impl<F: OrderFile> JsonOrderRepository<F> {
    /// What the store has asked its file to hold since it was opened, oldest
    /// first: each entry is the full set of records at the time.
    pub closed spec fn written(&self) -> Seq<Map<u128, OrderView>> {
        self.journal@
    }

    /// Opens the store on `file`: reads the orders the file holds, or starts
    /// empty if there is no file yet. Fails with `LoadFailed` if the file
    /// cannot be read or understood. See
    /// [`from_loaded`](JsonOrderRepository::from_loaded) for the result on
    /// each answer of the file.
    pub fn new(file: F) -> (result: Result<Self, RepositoryError>)
        ensures
            result matches Err(error) ==> error is LoadFailed,
            result matches Ok(store) ==> store.written() == Seq::<Map<u128, OrderView>>::empty(),
    {
        let loaded = file.load();
        JsonOrderRepository::from_loaded(file, loaded)
    }

    /// Makes the store from what reading `file` gave.
    ///
    /// A failed read gives `LoadFailed` with the file's own words. No file
    /// gives an empty store. A list of orders gives a store with
    /// [those records](loaded_records).
    pub fn from_loaded(file: F, loaded: Result<Option<Vec<Order>>, String>) -> (result: Result<
        Self,
        RepositoryError,
    >)
        ensures
            match loaded {
                Ok(Some(orders)) => result matches Ok(store) && store.records() == loaded_records(
                    order_views(orders@),
                ),
                Ok(None) => result matches Ok(store) && store.records() == Map::<
                    u128,
                    OrderView,
                >::empty(),
                Err(reason) => result matches Err(RepositoryError::LoadFailed(r)) && r == reason,
            },
            result matches Ok(store) ==> store.written() == Seq::<Map<u128, OrderView>>::empty(),
    {
        match loaded {
            Err(reason) => Err(RepositoryError::LoadFailed(reason)),
            Ok(None) => Ok(
                JsonOrderRepository {
                    file,
                    orders: MemoryOrderRepository::new(),
                    journal: Ghost(Seq::empty()),
                },
            ),
            Ok(Some(list)) => {
                let mut orders = MemoryOrderRepository::new();
                let ghost views = order_views(list@);
                let mut i: usize = 0;
                while i < list.len()
                    invariant
                        i <= list.len(),
                        views == order_views(list@),
                        orders.records() == loaded_records(views.take(i as int)),
                    decreases list.len() - i,
                {
                    proof {
                        let seen = views.take(i + 1);
                        assert(seen.drop_last() =~= views.take(i as int));
                        assert(seen.last() == list[i as int]@);
                    }
                    orders.put(list[i].clone());
                    i += 1;
                }
                assert(views.take(list.len() as int) =~= views);
                Ok(JsonOrderRepository { file, orders, journal: Ghost(Seq::empty()) })
            },
        }
    }

    /// Asks the file to hold all orders of the store, and notes the request
    /// in the journal.
    fn write_through(&mut self) -> (result: Result<(), RepositoryError>)
        ensures
            final(self).records() == old(self).records(),
            final(self).written() == old(self).written().push(old(self).records()),
            result matches Err(error) ==> error is SaveFailed,
    {
        let all = self.orders.collect(None);
        self.journal = Ghost(self.journal@.push(self.orders.records()));
        match self.file.store(&all) {
            Ok(()) => Ok(()),
            Err(reason) => Err(RepositoryError::SaveFailed(reason)),
        }
    }
}

impl<F: OrderFile> OrderRepository for JsonOrderRepository<F> {
    closed spec fn records(&self) -> Map<u128, OrderView> {
        self.orders.records()
    }

    /// A refused save does not touch the file. Otherwise the file is asked
    /// to hold the records with the new order; after `SaveFailed` the store
    /// holds the new order all the same.
    fn save(&mut self, order: &Order) -> (result: Result<(), RepositoryError>)
        ensures
            final(self).records() == if old(self).records().contains_key(order.id) {
                old(self).records()
            } else {
                old(self).records().insert(order.id, order@)
            },
            final(self).written() == if old(self).records().contains_key(order.id) {
                old(self).written()
            } else {
                old(self).written().push(final(self).records())
            },
    {
        match self.orders.save(order) {
            Ok(()) => self.write_through(),
            Err(error) => Err(error),
        }
    }

    /// Looking up cannot fail: the answer comes from memory.
    fn find_by_id(&self, id: u128) -> (result: Result<Option<Order>, RepositoryError>)
        ensures
            result is Ok,
    {
        self.orders.find_by_id(id)
    }

    /// Listing cannot fail: the answer comes from memory.
    fn find_by_customer_email(&self, email: &str) -> (result: Result<Vec<Order>, RepositoryError>)
        ensures
            result is Ok,
    {
        self.orders.find_by_customer_email(email)
    }

    /// Listing cannot fail: the answer comes from memory.
    fn list_all(&self) -> (result: Result<Vec<Order>, RepositoryError>)
        ensures
            result is Ok,
    {
        self.orders.list_all()
    }

    /// A refused update does not touch the file. Otherwise the file is
    /// asked to hold the records with the new version; after `SaveFailed` the
    /// store holds the new version all the same.
    fn update(&mut self, order: &Order) -> (result: Result<(), RepositoryError>)
        ensures
            final(self).records() == if old(self).records().contains_key(order.id) {
                old(self).records().insert(order.id, order@)
            } else {
                old(self).records()
            },
            final(self).written() == if old(self).records().contains_key(order.id) {
                old(self).written().push(final(self).records())
            } else {
                old(self).written()
            },
    {
        match self.orders.update(order) {
            Ok(()) => self.write_through(),
            Err(error) => Err(error),
        }
    }

    /// The file is asked to hold the remaining records only if an order
    /// was removed. After `SaveFailed` the order is gone from the store all
    /// the same.
    fn delete(&mut self, id: u128) -> (result: Result<bool, RepositoryError>)
        ensures
            final(self).records() == old(self).records().remove(id),
            final(self).written() == if old(self).records().contains_key(id) {
                old(self).written().push(final(self).records())
            } else {
                old(self).written()
            },
    {
        let existed = match self.orders.delete(id) {
            Ok(existed) => existed,
            Err(error) => {
                return Err(error);
            },
        };
        if existed {
            match self.write_through() {
                Ok(()) => {},
                Err(error) => {
                    return Err(error);
                },
            }
        }
        Ok(existed)
    }
}

} // verus!
