//! Storing orders.
//!
//! A store is modelled as a map from order id to the order kept under it.
//! The contract of each operation says what it does to that map and what it
//! answers, for every outcome the operation can have.

use crate::domain::order::{Order, OrderView};
use crate::text::labelled;
use vstd::prelude::*;

verus! {

/// Why a store operation failed.
#[derive(Debug)]
pub enum RepositoryError {
    NotFound(String),
    SaveFailed(String),
    LoadFailed(String),
    AlreadyExists(String),
}

impl RepositoryError {
    /// What [`to_string`](RepositoryError::to_string) gives for this error.
    pub open spec fn text(self) -> Seq<char> {
        match self {
            RepositoryError::NotFound(msg) => "Not found: "@ + msg@,
            RepositoryError::SaveFailed(msg) => "Save failed: "@ + msg@,
            RepositoryError::LoadFailed(msg) => "Load failed: "@ + msg@,
            RepositoryError::AlreadyExists(msg) => "Already exists: "@ + msg@,
        }
    }

    /// The error as a line of text.
    pub fn to_string(&self) -> (text: String)
        ensures
            text@ == self.text(),
    {
        match self {
            RepositoryError::NotFound(msg) => labelled("Not found: ", msg.as_str()),
            RepositoryError::SaveFailed(msg) => labelled("Save failed: ", msg.as_str()),
            RepositoryError::LoadFailed(msg) => labelled("Load failed: ", msg.as_str()),
            RepositoryError::AlreadyExists(msg) => labelled("Already exists: ", msg.as_str()),
        }
    }
}

impl Clone for RepositoryError {
    fn clone(&self) -> (copy: Self)
        ensures
            copy == *self,
    {
        match self {
            RepositoryError::NotFound(msg) => RepositoryError::NotFound(msg.clone()),
            RepositoryError::SaveFailed(msg) => RepositoryError::SaveFailed(msg.clone()),
            RepositoryError::LoadFailed(msg) => RepositoryError::LoadFailed(msg.clone()),
            RepositoryError::AlreadyExists(msg) => RepositoryError::AlreadyExists(msg.clone()),
        }
    }
}

/// The views of a sequence of orders, in the same order.
pub open spec fn order_views(orders: Seq<Order>) -> Seq<OrderView> {
    orders.map_values(|order: Order| order@)
}

/// Whether `listed` holds exactly the records of `records` that `wanted`
/// accepts: every listed order is such a record, stored under its own id; no
/// record is listed twice; and none is missing. The order of the list is
/// left open.
pub open spec fn is_listing_of(
    listed: Seq<OrderView>,
    records: Map<u128, OrderView>,
    wanted: spec_fn(OrderView) -> bool,
) -> bool {
    &&& forall|i: int|
        0 <= i < listed.len() ==> {
            &&& records.contains_key((#[trigger] listed[i]).id)
            &&& records[listed[i].id] == listed[i]
            &&& wanted(listed[i])
        }
    &&& forall|i: int, j: int|
        0 <= i < j < listed.len() ==> (#[trigger] listed[i]).id != (#[trigger] listed[j]).id
    &&& forall|id: u128|
        #[trigger] records.contains_key(id) && wanted(records[id]) ==> exists|i: int|
            0 <= i < listed.len() && (#[trigger] listed[i]).id == id
}

/// Accepts every order.
pub open spec fn any_order() -> spec_fn(OrderView) -> bool {
    |order: OrderView| true
}

/// Accepts the orders of the customer with the given e-mail address.
pub open spec fn ordered_by(email: Seq<char>) -> spec_fn(OrderView) -> bool {
    |order: OrderView| order.customer.email == email
}

/// What `save` may do: the store `before`, the order handed in, the answer
/// and the store `after`.
///
/// If an order with the same id is already stored, the answer is
/// `AlreadyExists` and the store keeps what it had. Otherwise the order is
/// stored, or the answer is `SaveFailed`; after such a failure the store
/// holds either what it held before or the new order as well.
pub open spec fn save_outcome(
    before: Map<u128, OrderView>,
    order: OrderView,
    result: Result<(), RepositoryError>,
    after: Map<u128, OrderView>,
) -> bool {
    match result {
        Ok(()) => !before.contains_key(order.id) && after == before.insert(order.id, order),
        Err(RepositoryError::AlreadyExists(_)) => before.contains_key(order.id) && after == before,
        Err(RepositoryError::SaveFailed(_)) => {
            &&& !before.contains_key(order.id)
            &&& (after == before || after == before.insert(order.id, order))
        },
        Err(_) => false,
    }
}

/// What `update` may do: the store `before`, the order handed in, the answer
/// and the store `after`.
///
/// If no order with that id is stored, the answer is `NotFound` and the
/// store keeps what it had. Otherwise the stored order is replaced, or the
/// answer is `SaveFailed`; after such a failure the store holds under that id
/// either the old order or the new one.
pub open spec fn update_outcome(
    before: Map<u128, OrderView>,
    order: OrderView,
    result: Result<(), RepositoryError>,
    after: Map<u128, OrderView>,
) -> bool {
    match result {
        Ok(()) => before.contains_key(order.id) && after == before.insert(order.id, order),
        Err(RepositoryError::NotFound(_)) => !before.contains_key(order.id) && after == before,
        Err(RepositoryError::SaveFailed(_)) => {
            &&& before.contains_key(order.id)
            &&& (after == before || after == before.insert(order.id, order))
        },
        Err(_) => false,
    }
}

/// What `delete` may do: the store `before`, the id handed in, the answer
/// and the store `after`.
///
/// The answer says whether an order with that id was stored, and afterwards
/// none is. The call can fail only with `SaveFailed`, and only if there was
/// such an order; after such a failure the store holds either what it held
/// before or the same without that order.
pub open spec fn delete_outcome(
    before: Map<u128, OrderView>,
    id: u128,
    result: Result<bool, RepositoryError>,
    after: Map<u128, OrderView>,
) -> bool {
    match result {
        Ok(existed) => existed == before.contains_key(id) && after == before.remove(id),
        Err(RepositoryError::SaveFailed(_)) => {
            &&& before.contains_key(id)
            &&& (after == before || after == before.remove(id))
        },
        Err(_) => false,
    }
}

/// What `find_by_id` may answer on the store `records`: `Ok(Some(..))` with
/// the order stored under `id`, `Ok(None)` if there is none, or
/// `LoadFailed`.
pub open spec fn find_outcome(
    records: Map<u128, OrderView>,
    id: u128,
    result: Result<Option<Order>, RepositoryError>,
) -> bool {
    match result {
        Ok(Some(order)) => records.contains_key(id) && records[id] == order@ && order.id == id,
        Ok(None) => !records.contains_key(id),
        Err(RepositoryError::LoadFailed(_)) => true,
        Err(_) => false,
    }
}

/// What a listing may answer on the store `records`: `Ok` with exactly the
/// records that `wanted` accepts, in no particular order, or `LoadFailed`.
pub open spec fn list_outcome(
    records: Map<u128, OrderView>,
    wanted: spec_fn(OrderView) -> bool,
    result: Result<Vec<Order>, RepositoryError>,
) -> bool {
    match result {
        Ok(orders) => is_listing_of(order_views(orders@), records, wanted),
        Err(RepositoryError::LoadFailed(_)) => true,
        Err(_) => false,
    }
}

/// A store of orders, keyed by order id.
///
/// Every implementation keeps each order under the order's own id and
/// honours the contracts below, so that one store can stand in for another.
pub trait OrderRepository {
    /// The orders in the store, by id.
    spec fn records(&self) -> Map<u128, OrderView>;

    /// Adds a new order; see [`save_outcome`].
    fn save(&mut self, order: &Order) -> (result: Result<(), RepositoryError>)
        ensures
            save_outcome(old(self).records(), order@, result, final(self).records()),
    ;

    /// Looks an order up by id; see [`find_outcome`].
    fn find_by_id(&self, id: u128) -> (result: Result<Option<Order>, RepositoryError>)
        ensures
            find_outcome(self.records(), id, result),
    ;

    /// All orders of the customer with the given e-mail address, possibly
    /// none; see [`list_outcome`].
    fn find_by_customer_email(&self, email: &str) -> (result: Result<Vec<Order>, RepositoryError>)
        ensures
            list_outcome(self.records(), ordered_by(email@), result),
    ;

    /// All orders in the store, possibly none; see [`list_outcome`].
    fn list_all(&self) -> (result: Result<Vec<Order>, RepositoryError>)
        ensures
            list_outcome(self.records(), any_order(), result),
    ;

    /// Replaces the stored order that has the same id; see
    /// [`update_outcome`].
    fn update(&mut self, order: &Order) -> (result: Result<(), RepositoryError>)
        ensures
            update_outcome(old(self).records(), order@, result, final(self).records()),
    ;

    /// Removes the order with the given id, if there is one, and says
    /// whether there was; see [`delete_outcome`].
    fn delete(&mut self, id: u128) -> (result: Result<bool, RepositoryError>)
        ensures
            delete_outcome(old(self).records(), id, result, final(self).records()),
    ;
}

/// Saving two orders with the same id: if the first save succeeds, the
/// second is refused with `AlreadyExists` and leaves the store as the first
/// left it.
pub proof fn second_save_is_refused(
    start: Map<u128, OrderView>,
    first: OrderView,
    between: Map<u128, OrderView>,
    second: OrderView,
    answer: Result<(), RepositoryError>,
    end: Map<u128, OrderView>,
)
    requires
        first.id == second.id,
        save_outcome(start, first, Ok(()), between),
        save_outcome(between, second, answer, end),
    ensures
        answer matches Err(RepositoryError::AlreadyExists(_)),
        end == between,
{
}

/// Updating an order whose id has no record is refused with `NotFound` and
/// leaves the store as it was.
pub proof fn update_of_unknown_id_is_refused(
    before: Map<u128, OrderView>,
    order: OrderView,
    answer: Result<(), RepositoryError>,
    after: Map<u128, OrderView>,
)
    requires
        !before.contains_key(order.id),
        update_outcome(before, order, answer, after),
    ensures
        answer matches Err(RepositoryError::NotFound(_)),
        after == before,
{
}

/// Deleting an id that has no record answers `false` and leaves the store as
/// it was.
pub proof fn delete_of_unknown_id_answers_false(
    before: Map<u128, OrderView>,
    id: u128,
    answer: Result<bool, RepositoryError>,
    after: Map<u128, OrderView>,
)
    requires
        !before.contains_key(id),
        delete_outcome(before, id, answer, after),
    ensures
        answer == Ok::<bool, RepositoryError>(false),
        after == before,
{
    assert(before.remove(id) =~= before);
}

/// A record is deleted exactly once: if a delete succeeds on an id that has
/// a record, it answers `true`, and the next delete of the same id answers
/// `false`.
pub proof fn delete_answers_true_once(
    start: Map<u128, OrderView>,
    id: u128,
    first: bool,
    between: Map<u128, OrderView>,
    second: Result<bool, RepositoryError>,
    end: Map<u128, OrderView>,
)
    requires
        start.contains_key(id),
        delete_outcome(start, id, Ok(first), between),
        delete_outcome(between, id, second, end),
    ensures
        first,
        second == Ok::<bool, RepositoryError>(false),
        end == between,
{
    assert(between.remove(id) =~= between);
}

} // verus!
