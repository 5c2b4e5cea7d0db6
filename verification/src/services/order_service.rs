//! The order service: places orders and moves them through their lifecycle.
//!
//! Placing an order validates the input, computes the total, captures
//! payment, marks the order paid, stores it and notifies the customer, in
//! that order. Nothing is stored before payment has been captured. A failed
//! notification never fails an operation: it is kept as a warning that the
//! caller can read afterwards.
//!
//! The service works with whatever store, payment processor and notifier it
//! is given. What each operation returns for each answer of a collaborator
//! is decided by the small functions at the top of this module, each with an
//! exact contract; the operations themselves state what holds for every
//! answer.

use crate::domain::customer::{Customer, CustomerView};
use crate::domain::order::{
    item_views, total_of, Order, OrderItem, OrderItemView, OrderStatus, OrderView,
};
use crate::ports::notifier::{NotificationError, Notifier};
use crate::ports::payment::{PaymentError, PaymentProcessor};
use crate::ports::repository::{
    any_order, list_outcome, ordered_by, save_outcome, update_outcome, OrderRepository,
    RepositoryError,
};
use crate::text::labelled;
use vstd::prelude::*;
use vstd::string::StringExecFns;

verus! {

/// Why an operation of the order service failed, by the stage that failed.
#[derive(Debug)]
pub enum OrderServiceError {
    /// Payment was not captured.
    PaymentFailed(PaymentError),
    /// The store failed.
    StorageFailed(RepositoryError),
    /// A notification failed. No operation of the service fails with this;
    /// failed notifications are kept as warnings.
    NotificationFailed(NotificationError),
    /// There is no order with the given id.
    OrderNotFound,
    /// The request itself is not acceptable.
    InvalidOrder(String),
}

impl OrderServiceError {
    /// What [`to_string`](OrderServiceError::to_string) gives for this error.
    pub open spec fn text(self) -> Seq<char> {
        match self {
            OrderServiceError::PaymentFailed(error) => "Payment failed: "@ + error.text(),
            OrderServiceError::StorageFailed(error) => "Storage failed: "@ + error.text(),
            OrderServiceError::NotificationFailed(error) => "Notification failed: "@
                + error.text(),
            OrderServiceError::OrderNotFound => "Order not found"@,
            OrderServiceError::InvalidOrder(reason) => "Invalid order: "@ + reason@,
        }
    }

    /// The error as a line of text.
    pub fn to_string(&self) -> (text: String)
        ensures
            text@ == self.text(),
    {
        match self {
            OrderServiceError::PaymentFailed(error) => {
                let detail = error.to_string();
                labelled("Payment failed: ", detail.as_str())
            },
            OrderServiceError::StorageFailed(error) => {
                let detail = error.to_string();
                labelled("Storage failed: ", detail.as_str())
            },
            OrderServiceError::NotificationFailed(error) => {
                let detail = error.to_string();
                labelled("Notification failed: ", detail.as_str())
            },
            OrderServiceError::OrderNotFound => String::from_str("Order not found"),
            OrderServiceError::InvalidOrder(reason) => labelled("Invalid order: ", reason.as_str()),
        }
    }
}

/// `order` with its status replaced.
pub open spec fn with_status(order: OrderView, status: OrderStatus) -> OrderView {
    OrderView { status, ..order }
}

/// Whether `order` is a paid order of `customer` for exactly `items`: it is
/// `Paid`, carries a payment id, and its total is the sum over the items.
pub open spec fn is_paid_order_for(
    order: OrderView,
    customer: CustomerView,
    items: Seq<OrderItemView>,
) -> bool {
    &&& order.customer == customer
    &&& order.items == items
    &&& order.status == OrderStatus::Paid
    &&& order.payment_id is Some
    &&& order.total_price == total_of(items)
}

/// Whether `after` is `before` with at most one warning added at the end.
pub open spec fn at_most_one_more(
    before: Seq<NotificationError>,
    after: Seq<NotificationError>,
) -> bool {
    after == before || (after.len() == before.len() + 1 && after.drop_last() == before)
}

/// Turns a list of items into a pending order.
///
/// An empty list is refused with `InvalidOrder`. Otherwise the order holds
/// exactly these items, and its total is the sum over the items of price
/// times quantity.
pub fn draft_order(customer: Customer, items: Vec<OrderItem>) -> (result: Result<
    Order,
    OrderServiceError,
>)
    ensures
        items.len() == 0 ==> (result matches Err(OrderServiceError::InvalidOrder(reason))
            && reason@ == "Order must contain at least one item"@),
        items.len() > 0 ==> (result matches Ok(order) && {
            &&& order@.customer == customer@
            &&& order@.items == item_views(items@)
            &&& order@.status == OrderStatus::Pending
            &&& order@.payment_id is None
            &&& order@.total_price == total_of(item_views(items@))
            &&& order.well_formed()
        }),
{
    if items.len() == 0 {
        return Err(
            OrderServiceError::InvalidOrder(String::from_str("Order must contain at least one item")),
        );
    }
    Ok(Order::new(customer, items))
}

/// Decides how placing an order goes on once payment has been asked for: a
/// captured payment marks the order `Paid` and records the payment id; a
/// refused payment ends the workflow with `PaymentFailed`.
pub fn payment_result(order: Order, payment: Result<String, PaymentError>) -> (result: Result<
    Order,
    OrderServiceError,
>)
    ensures
        match payment {
            Ok(id) => result matches Ok(paid) && paid@ == (OrderView {
                status: OrderStatus::Paid,
                payment_id: Some(id@),
                ..order@
            }) && (order.well_formed() ==> paid.well_formed()),
            Err(error) => result matches Err(OrderServiceError::PaymentFailed(e)) && e == error,
        },
{
    match payment {
        Ok(id) => {
            let mut order = order;
            order.mark_as_paid(id);
            Ok(order)
        },
        Err(error) => Err(OrderServiceError::PaymentFailed(error)),
    }
}

/// Passes on what the store answered: its value on success, and its error,
/// wrapped as `StorageFailed`, on failure.
pub fn storage_result<T>(answer: Result<T, RepositoryError>) -> (result: Result<
    T,
    OrderServiceError,
>)
    ensures
        match answer {
            Ok(value) => result matches Ok(v) && v == value,
            Err(error) => result matches Err(OrderServiceError::StorageFailed(e)) && e == error,
        },
{
    match answer {
        Ok(value) => Ok(value),
        Err(error) => Err(OrderServiceError::StorageFailed(error)),
    }
}

/// Decides what a lookup amounts to: the order if the store has one,
/// `OrderNotFound` if it has none, and `StorageFailed` if the store failed.
pub fn found_order(answer: Result<Option<Order>, RepositoryError>) -> (result: Result<
    Order,
    OrderServiceError,
>)
    ensures
        match answer {
            Ok(Some(order)) => result matches Ok(o) && o == order,
            Ok(None) => result matches Err(OrderServiceError::OrderNotFound),
            Err(error) => result matches Err(OrderServiceError::StorageFailed(e)) && e == error,
        },
{
    match answer {
        Ok(Some(order)) => Ok(order),
        Ok(None) => Err(OrderServiceError::OrderNotFound),
        Err(error) => Err(OrderServiceError::StorageFailed(error)),
    }
}

/// Refuses to cancel an order that is already `Completed`; lets every other
/// order pass.
pub fn ensure_cancellable(order: &Order) -> (result: Result<(), OrderServiceError>)
    ensures
        order@.status == OrderStatus::Completed ==> (result matches Err(
            OrderServiceError::InvalidOrder(reason),
        ) && reason@ == "Cannot cancel completed order"@),
        order@.status != OrderStatus::Completed ==> result is Ok,
{
    if order.status == OrderStatus::Completed {
        Err(OrderServiceError::InvalidOrder(String::from_str("Cannot cancel completed order")))
    } else {
        Ok(())
    }
}

/// Keeps a failed notification as a warning; a delivered one leaves no
/// trace.
pub fn record_notification(
    warnings: &mut Vec<NotificationError>,
    answer: Result<(), NotificationError>,
)
    ensures
        match answer {
            Ok(()) => final(warnings)@ == old(warnings)@,
            Err(error) => final(warnings)@ == old(warnings)@.push(error),
        },
{
    match answer {
        Ok(()) => {},
        Err(error) => {
            warnings.push(error);
        },
    }
}

/// The occasions on which a customer is notified.
#[derive(Clone, Copy, Debug, PartialEq, Eq, Structural)]
pub enum Notice {
    /// The order was placed.
    Placed,
    /// The order is ready for pickup.
    Ready,
    /// The order was cancelled.
    Cancelled,
}

/// Something the service asked of a collaborator that can change the world:
/// a payment, a write to the store, or a notification.
pub enum Request {
    /// The payment processor was asked to capture this many cents.
    Charge { amount: int },
    /// The store was asked to save this new order.
    Save { order: OrderView },
    /// The store was asked to replace an order by this version of it.
    Update { order: OrderView },
    /// The notifier was asked to tell the customer about this order.
    Notify { notice: Notice, order: OrderView },
}

/// What can be observed of a service: the orders in its store, the
/// notifications that failed, and everything it has asked of its
/// collaborators so far, oldest first.
pub struct ServiceView {
    pub records: Map<u128, OrderView>,
    pub warnings: Seq<NotificationError>,
    pub asked: Seq<Request>,
}

/// What placing an order may do, given the customer, the line items asked
/// for, the service before, the answer, and the service after.
///
/// * No items: `InvalidOrder`; nothing changes and no collaborator is asked
///   for anything.
/// * `Ok`: payment of the total was asked for, then the paid order was
///   saved, then the customer was notified; the returned order is a paid
///   order for exactly these items, it is now in the store under a fresh
///   id, and at most one warning was added.
/// * `PaymentFailed`: payment of the total was asked for and nothing else;
///   nothing was stored.
/// * `StorageFailed`: payment of the total was asked for, then the store
///   refused to save the paid order; no notification was sent.
pub open spec fn place_outcome(
    customer: CustomerView,
    items: Seq<OrderItemView>,
    before: ServiceView,
    result: Result<Order, OrderServiceError>,
    after: ServiceView,
) -> bool {
    let charge = Request::Charge { amount: total_of(items) };
    if items.len() == 0 {
        &&& result matches Err(OrderServiceError::InvalidOrder(reason))
        &&& reason@ == "Order must contain at least one item"@
        &&& after == before
    } else {
        match result {
            Ok(order) => {
                &&& is_paid_order_for(order@, customer, items)
                &&& order.well_formed()
                &&& !before.records.contains_key(order.id)
                &&& after.records == before.records.insert(order.id, order@)
                &&& at_most_one_more(before.warnings, after.warnings)
                &&& after.asked == before.asked.push(charge).push(
                    Request::Save { order: order@ },
                ).push(Request::Notify { notice: Notice::Placed, order: order@ })
            },
            Err(OrderServiceError::PaymentFailed(_)) => {
                &&& after.records == before.records
                &&& after.warnings == before.warnings
                &&& after.asked == before.asked.push(charge)
            },
            Err(OrderServiceError::StorageFailed(error)) => {
                &&& after.warnings == before.warnings
                &&& exists|order: OrderView| #[trigger]
                    is_paid_order_for(order, customer, items) && save_outcome(
                        before.records,
                        order,
                        Err(error),
                        after.records,
                    ) && after.asked == before.asked.push(charge).push(Request::Save { order })
            },
            Err(_) => false,
        }
    }
}

/// What looking up the order with id `id` may answer on the store
/// `records`: the stored order, `OrderNotFound` if there is none, or
/// `StorageFailed` with `LoadFailed`.
pub open spec fn get_outcome(
    records: Map<u128, OrderView>,
    id: u128,
    result: Result<Order, OrderServiceError>,
) -> bool {
    match result {
        Ok(order) => records.contains_key(id) && records[id] == order@ && order.id == id,
        Err(OrderServiceError::OrderNotFound) => !records.contains_key(id),
        Err(OrderServiceError::StorageFailed(RepositoryError::LoadFailed(_))) => true,
        Err(_) => false,
    }
}

/// What a listing may answer on the store `records`: exactly the records
/// that `wanted` accepts, in no particular order, or `StorageFailed` with
/// `LoadFailed`.
pub open spec fn listing_outcome(
    records: Map<u128, OrderView>,
    wanted: spec_fn(OrderView) -> bool,
    result: Result<Vec<Order>, OrderServiceError>,
) -> bool {
    match result {
        Ok(orders) => list_outcome(records, wanted, Ok(orders)),
        Err(OrderServiceError::StorageFailed(RepositoryError::LoadFailed(_))) => true,
        Err(_) => false,
    }
}

/// The two lifecycle steps that the service offers for a stored order.
#[derive(Clone, Copy, Debug, PartialEq, Eq, Structural)]
pub enum Step {
    /// Mark the order ready for pickup.
    MarkReady,
    /// Cancel the order.
    Cancel,
}

impl Step {
    /// The status the step leads to from `status`.
    pub open spec fn leads_to(self, status: OrderStatus) -> OrderStatus {
        match self {
            Step::MarkReady => status.after_ready(),
            Step::Cancel => status.after_cancel(),
        }
    }

    /// Whether the service refuses the step for an order in `status`:
    /// it refuses to cancel an order that is `Completed`, and nothing else.
    pub open spec fn is_refused_in(self, status: OrderStatus) -> bool {
        self == Step::Cancel && status == OrderStatus::Completed
    }

    /// The notice the customer gets when the step was taken.
    pub open spec fn notice(self) -> Notice {
        match self {
            Step::MarkReady => Notice::Ready,
            Step::Cancel => Notice::Cancelled,
        }
    }
}

/// What taking a lifecycle step for the order with id `id` may do, given
/// the service before, the answer, and the service after.
///
/// * `Ok`: the order was in the store and the step was not refused; the
///   store was asked to replace the order by a version with the status the
///   step leads to, and did; then the customer was notified; at most one
///   warning was added.
/// * `OrderNotFound`: there is no such order; nothing changes.
/// * `InvalidOrder`: the order is in the store but the step is refused in
///   its status; nothing changes.
/// * `StorageFailed` with `LoadFailed`: nothing changes.
/// * `StorageFailed` with `SaveFailed`: the order was in the store and the
///   step was not refused; the store was asked to replace the order and
///   failed, and holds either the old or the new version; nobody was
///   notified.
///
/// Where nothing changes, no collaborator was asked for anything but the
/// lookup.
pub open spec fn step_outcome(
    step: Step,
    id: u128,
    before: ServiceView,
    result: Result<(), OrderServiceError>,
    after: ServiceView,
) -> bool {
    let found = before.records[id];
    let moved = with_status(found, step.leads_to(found.status));
    let update = Request::Update { order: moved };
    match result {
        Ok(()) => {
            &&& before.records.contains_key(id)
            &&& !step.is_refused_in(found.status)
            &&& after.records == before.records.insert(id, moved)
            &&& at_most_one_more(before.warnings, after.warnings)
            &&& after.asked == before.asked.push(update).push(
                Request::Notify { notice: step.notice(), order: moved },
            )
        },
        Err(OrderServiceError::OrderNotFound) => !before.records.contains_key(id) && after == before,
        Err(OrderServiceError::InvalidOrder(reason)) => {
            &&& before.records.contains_key(id)
            &&& step.is_refused_in(found.status)
            &&& reason@ == "Cannot cancel completed order"@
            &&& after == before
        },
        Err(OrderServiceError::StorageFailed(RepositoryError::LoadFailed(_))) => after == before,
        Err(OrderServiceError::StorageFailed(RepositoryError::SaveFailed(_))) => {
            &&& before.records.contains_key(id)
            &&& !step.is_refused_in(found.status)
            &&& (after.records == before.records || after.records == before.records.insert(
                id,
                moved,
            ))
            &&& after.warnings == before.warnings
            &&& after.asked == before.asked.push(update)
        },
        Err(_) => false,
    }
}

/// Coordinates a store, a payment processor and a notifier.
///
/// Besides its collaborators the service keeps the notifications that
/// failed, and, for reasoning only, a journal of what it has asked of its
/// collaborators.
pub struct OrderService<R, P, N> where R: OrderRepository, P: PaymentProcessor, N: Notifier {
    repository: R,
    payment_processor: P,
    notifier: N,
    warnings: Vec<NotificationError>,
    journal: Ghost<Seq<Request>>,
}

impl<R, P, N> OrderService<R, P, N> where R: OrderRepository, P: PaymentProcessor, N: Notifier {
    /// The store the service works with.
    pub closed spec fn store(&self) -> R {
        self.repository
    }

    /// The payment processor the service works with.
    pub closed spec fn processor(&self) -> P {
        self.payment_processor
    }

    /// The notifier the service works with.
    pub closed spec fn announcer(&self) -> N {
        self.notifier
    }

    /// The notifications that failed so far, oldest first.
    pub closed spec fn warned(&self) -> Seq<NotificationError> {
        self.warnings@
    }

    /// What the service has asked of its collaborators so far, oldest first.
    /// Lookups and listings are not kept.
    pub closed spec fn asked(&self) -> Seq<Request> {
        self.journal@
    }

    /// The orders in the service's store, by id.
    pub open spec fn records(&self) -> Map<u128, OrderView> {
        self.store().records()
    }

    /// What can be observed of the service.
    pub open spec fn state(&self) -> ServiceView {
        ServiceView { records: self.records(), warnings: self.warned(), asked: self.asked() }
    }

    /// A service that works with the given collaborators. It has no
    /// warnings yet and has asked for nothing.
    pub fn new(repository: R, payment_processor: P, notifier: N) -> (service: Self)
        ensures
            service.store() == repository,
            service.processor() == payment_processor,
            service.announcer() == notifier,
            service.warned() == Seq::<NotificationError>::empty(),
            service.asked() == Seq::<Request>::empty(),
    {
        OrderService {
            repository,
            payment_processor,
            notifier,
            warnings: Vec::new(),
            journal: Ghost(Seq::empty()),
        }
    }

    /// The store the service works with.
    pub fn repository(&self) -> (repository: &R)
        ensures
            *repository == self.store(),
    {
        &self.repository
    }

    /// The notifications that failed so far, oldest first.
    pub fn warnings(&self) -> (warnings: &Vec<NotificationError>)
        ensures
            warnings@ == self.warned(),
    {
        &self.warnings
    }

    /// Asks the payment processor to capture `amount` cents, and notes the
    /// request in the journal.
    fn charge(&mut self, amount: i128) -> (answer: Result<String, PaymentError>)
        ensures
            final(self).asked() == old(self).asked().push(Request::Charge { amount: amount as int }),
            final(self).store() == old(self).store(),
            final(self).processor() == old(self).processor(),
            final(self).announcer() == old(self).announcer(),
            final(self).warned() == old(self).warned(),
    {
        let answer = self.payment_processor.process_payment(amount);
        self.journal = Ghost(self.journal@.push(Request::Charge { amount: amount as int }));
        answer
    }

    /// Asks the store to save `order`, and notes the request in the journal.
    fn save(&mut self, order: &Order) -> (answer: Result<(), RepositoryError>)
        ensures
            save_outcome(old(self).records(), order@, answer, final(self).records()),
            final(self).asked() == old(self).asked().push(Request::Save { order: order@ }),
            final(self).processor() == old(self).processor(),
            final(self).announcer() == old(self).announcer(),
            final(self).warned() == old(self).warned(),
    {
        let answer = self.repository.save(order);
        self.journal = Ghost(self.journal@.push(Request::Save { order: order@ }));
        answer
    }

    /// Asks the store to replace an order by `order`, and notes the request
    /// in the journal.
    fn update(&mut self, order: &Order) -> (answer: Result<(), RepositoryError>)
        ensures
            update_outcome(old(self).records(), order@, answer, final(self).records()),
            final(self).asked() == old(self).asked().push(Request::Update { order: order@ }),
            final(self).processor() == old(self).processor(),
            final(self).announcer() == old(self).announcer(),
            final(self).warned() == old(self).warned(),
    {
        let answer = self.repository.update(order);
        self.journal = Ghost(self.journal@.push(Request::Update { order: order@ }));
        answer
    }

    /// Asks the notifier to tell the customer about `order`, keeps a failure
    /// as a warning, and notes the request in the journal.
    fn notify(&mut self, notice: Notice, order: &Order)
        ensures
            at_most_one_more(old(self).warned(), final(self).warned()),
            final(self).asked() == old(self).asked().push(
                Request::Notify { notice, order: order@ },
            ),
            final(self).store() == old(self).store(),
            final(self).processor() == old(self).processor(),
            final(self).announcer() == old(self).announcer(),
    {
        let answer = match notice {
            Notice::Placed => self.notifier.notify_order_placed(order),
            Notice::Ready => self.notifier.notify_order_ready(order),
            Notice::Cancelled => self.notifier.notify_order_cancelled(order),
        };
        record_notification(&mut self.warnings, answer);
        self.journal = Ghost(self.journal@.push(Request::Notify { notice, order: order@ }));
        proof {
            assert(self.warnings@.len() == old(self).warnings@.len() + 1
                ==> self.warnings@.drop_last() =~= old(self).warnings@);
        }
    }

    /// Places an order for `customer` with the given items, each of which
    /// carries its unit price.
    ///
    /// See [`place_outcome`] for what the call may do. Whatever it does, the
    /// collaborators stay the ones they were; and the store is not touched at
    /// all unless payment was captured.
    pub fn place_order(&mut self, customer: Customer, items: Vec<OrderItem>) -> (result: Result<
        Order,
        OrderServiceError,
    >)
        ensures
            final(self).processor() == old(self).processor(),
            final(self).announcer() == old(self).announcer(),
            place_outcome(customer@, item_views(items@), old(self).state(), result, final(self).state()),
            (result matches Err(OrderServiceError::InvalidOrder(_))) || (result matches Err(
                OrderServiceError::PaymentFailed(_),
            )) ==> final(self).store() == old(self).store(),
    {
        let order = match draft_order(customer, items) {
            Ok(order) => order,
            Err(error) => {
                return Err(error);
            },
        };
        let payment = self.charge(order.total_price);
        let order = match payment_result(order, payment) {
            Ok(order) => order,
            Err(error) => {
                return Err(error);
            },
        };
        let saved = self.save(&order);
        match storage_result(saved) {
            Ok(()) => {},
            Err(error) => {
                assert(is_paid_order_for(order@, customer@, item_views(items@)));
                return Err(error);
            },
        }
        self.notify(Notice::Placed, &order);
        Ok(order)
    }

    /// Looks up the order with the given id; see [`get_outcome`].
    pub fn get_order(&self, id: u128) -> (result: Result<Order, OrderServiceError>)
        ensures
            get_outcome(self.records(), id, result),
    {
        found_order(self.repository.find_by_id(id))
    }

    /// All orders of the customer with the given e-mail address, possibly
    /// none; see [`listing_outcome`].
    pub fn list_customer_orders(&self, email: &str) -> (result: Result<
        Vec<Order>,
        OrderServiceError,
    >)
        ensures
            listing_outcome(self.records(), ordered_by(email@), result),
    {
        storage_result(self.repository.find_by_customer_email(email))
    }

    /// Marks the order with the given id ready for pickup and tells the
    /// customer.
    ///
    /// The order becomes `Ready` only if it is `Preparing`; in every other
    /// status it is stored again as it is, and the customer is told all the
    /// same. See [`step_outcome`].
    pub fn mark_order_ready(&mut self, id: u128) -> (result: Result<(), OrderServiceError>)
        ensures
            final(self).processor() == old(self).processor(),
            final(self).announcer() == old(self).announcer(),
            step_outcome(Step::MarkReady, id, old(self).state(), result, final(self).state()),
            !(result matches Err(OrderServiceError::InvalidOrder(_))),
    {
        let mut order = match self.get_order(id) {
            Ok(order) => order,
            Err(error) => {
                return Err(error);
            },
        };
        order.mark_as_ready();
        let updated = self.update(&order);
        match storage_result(updated) {
            Ok(()) => {},
            Err(error) => {
                return Err(error);
            },
        }
        self.notify(Notice::Ready, &order);
        Ok(())
    }

    /// Cancels the order with the given id and tells the customer.
    ///
    /// An order that is already `Completed` is refused with `InvalidOrder`
    /// and left alone. See [`step_outcome`].
    pub fn cancel_order(&mut self, id: u128) -> (result: Result<(), OrderServiceError>)
        ensures
            final(self).processor() == old(self).processor(),
            final(self).announcer() == old(self).announcer(),
            step_outcome(Step::Cancel, id, old(self).state(), result, final(self).state()),
    {
        let mut order = match self.get_order(id) {
            Ok(order) => order,
            Err(error) => {
                return Err(error);
            },
        };
        match ensure_cancellable(&order) {
            Ok(()) => {},
            Err(error) => {
                return Err(error);
            },
        }
        order.cancel();
        let updated = self.update(&order);
        match storage_result(updated) {
            Ok(()) => {},
            Err(error) => {
                return Err(error);
            },
        }
        self.notify(Notice::Cancelled, &order);
        Ok(())
    }

    /// All orders in the store, possibly none; see [`listing_outcome`].
    pub fn list_all_orders(&self) -> (result: Result<Vec<Order>, OrderServiceError>)
        ensures
            listing_outcome(self.records(), any_order(), result),
    {
        storage_result(self.repository.list_all())
    }
}

/// Placing an order with no items fails with `InvalidOrder`, changes
/// nothing, and asks no collaborator for anything: no payment is requested
/// and nothing is saved.
pub proof fn empty_order_is_refused(
    customer: CustomerView,
    before: ServiceView,
    result: Result<Order, OrderServiceError>,
    after: ServiceView,
)
    requires
        place_outcome(customer, Seq::<OrderItemView>::empty(), before, result, after),
    ensures
        result matches Err(OrderServiceError::InvalidOrder(_)),
        after.records == before.records,
        after.warnings == before.warnings,
        after.asked == before.asked,
{
}

/// Nothing is stored unless payment was captured: when placing an order
/// fails with `InvalidOrder` or `PaymentFailed`, the store holds exactly
/// what it held before and was not asked to save anything.
pub proof fn nothing_is_stored_without_payment(
    customer: CustomerView,
    items: Seq<OrderItemView>,
    before: ServiceView,
    result: Result<Order, OrderServiceError>,
    after: ServiceView,
)
    requires
        place_outcome(customer, items, before, result, after),
        (result matches Err(OrderServiceError::InvalidOrder(_))) || (result matches Err(
            OrderServiceError::PaymentFailed(_),
        )),
    ensures
        after.records == before.records,
        forall|i: int|
            before.asked.len() <= i < after.asked.len() ==> !((#[trigger] after.asked[i]) is Save),
{
}

/// Whenever placing an order asks the store to save, payment of the
/// order's total was asked for just before: the request to save is never the
/// first request of the call.
pub proof fn payment_is_asked_for_before_saving(
    customer: CustomerView,
    items: Seq<OrderItemView>,
    before: ServiceView,
    result: Result<Order, OrderServiceError>,
    after: ServiceView,
    i: int,
)
    requires
        place_outcome(customer, items, before, result, after),
        before.asked.len() <= i < after.asked.len(),
        after.asked[i] is Save,
    ensures
        i == before.asked.len() + 1,
        after.asked[i - 1] == (Request::Charge { amount: total_of(items) }),
        (result is Ok) || (result matches Err(OrderServiceError::StorageFailed(_))),
{
}

/// An order that was placed successfully is `Paid`, carries a payment id,
/// totals the sum over its items of price times quantity, and is in the
/// store under its id exactly as it was returned.
pub proof fn placed_order_is_paid_and_stored(
    customer: CustomerView,
    items: Seq<OrderItemView>,
    before: ServiceView,
    order: Order,
    after: ServiceView,
)
    requires
        place_outcome(customer, items, before, Ok(order), after),
    ensures
        items.len() > 0,
        order@.status == OrderStatus::Paid,
        order@.payment_id is Some,
        order@.total_price == total_of(order@.items),
        after.records.contains_key(order.id),
        after.records[order.id] == order@,
{
}

/// Marking ready is idempotent: when it succeeds on an order that is not
/// `Preparing`, for instance one that is `Ready` already, the store holds
/// exactly what it held before, and the version it was asked to write is the
/// one it had.
pub proof fn marking_ready_changes_only_preparing_orders(
    id: u128,
    before: ServiceView,
    after: ServiceView,
)
    requires
        step_outcome(Step::MarkReady, id, before, Ok(()), after),
        before.records[id].status != OrderStatus::Preparing,
    ensures
        after.records == before.records,
        after.asked[before.asked.len() as int] == (Request::Update { order: before.records[id] }),
{
    assert(with_status(before.records[id], before.records[id].status) == before.records[id]);
    assert(before.records.insert(id, before.records[id]) =~= before.records);
}

/// A cancellation that succeeds leaves the order `Cancelled` in the store,
/// and a cancellation is refused with `InvalidOrder` exactly for orders that
/// are `Completed`, which it leaves alone.
pub proof fn cancelling_spares_completed_orders(
    id: u128,
    before: ServiceView,
    result: Result<(), OrderServiceError>,
    after: ServiceView,
)
    requires
        step_outcome(Step::Cancel, id, before, result, after),
    ensures
        result is Ok ==> after.records[id].status == OrderStatus::Cancelled,
        result is Ok ==> before.records[id].status != OrderStatus::Completed,
        (result matches Err(OrderServiceError::InvalidOrder(_))) ==> before.records[id].status
            == OrderStatus::Completed && after == before,
{
}

} // verus!
