//! Orders and the lifecycle they move through.
//!
//! An order is created `Pending`, becomes `Paid` when payment has been
//! captured, and then moves through `Preparing` and `Ready` to `Completed`.
//! It can be cancelled at any point before completion. A transition that is
//! asked for in the wrong state changes nothing; each guarded transition
//! reports whether it took effect.

use crate::clock::{now, Timestamp};
use crate::domain::beverage::{cup_description, cup_price, Beverage, Size, MAX_BASE_PRICE};
use crate::domain::customer::{optional_text, Customer, CustomerView};
use crate::ids::fresh_id;
use vstd::prelude::*;

verus! {

/// Where an order stands in its lifecycle.
#[derive(Clone, Copy, Debug, PartialEq, Eq, Structural)]
pub enum OrderStatus {
    /// Just created, not yet paid.
    Pending,
    /// Payment has been captured.
    Paid,
    /// Being made.
    Preparing,
    /// Waiting to be picked up.
    Ready,
    /// Handed over to the customer.
    Completed,
    /// Called off.
    Cancelled,
}

impl OrderStatus {
    /// The status after a request to start preparing: `Paid` becomes
    /// `Preparing`, every other status stays.
    pub open spec fn after_preparing(self) -> OrderStatus {
        if self == OrderStatus::Paid {
            OrderStatus::Preparing
        } else {
            self
        }
    }

    /// The status after a request to mark ready: `Preparing` becomes `Ready`,
    /// every other status stays.
    pub open spec fn after_ready(self) -> OrderStatus {
        if self == OrderStatus::Preparing {
            OrderStatus::Ready
        } else {
            self
        }
    }

    /// The status after a request to complete: `Ready` becomes `Completed`,
    /// every other status stays.
    pub open spec fn after_completed(self) -> OrderStatus {
        if self == OrderStatus::Ready {
            OrderStatus::Completed
        } else {
            self
        }
    }

    /// The status after a request to cancel: `Completed` stays, every other
    /// status becomes `Cancelled`.
    pub open spec fn after_cancel(self) -> OrderStatus {
        if self == OrderStatus::Completed {
            self
        } else {
            OrderStatus::Cancelled
        }
    }

    /// The name of the status.
    pub open spec fn label(self) -> Seq<char> {
        match self {
            OrderStatus::Pending => "Pending"@,
            OrderStatus::Paid => "Paid"@,
            OrderStatus::Preparing => "Preparing"@,
            OrderStatus::Ready => "Ready"@,
            OrderStatus::Completed => "Completed"@,
            OrderStatus::Cancelled => "Cancelled"@,
        }
    }

    /// The name of the status as text.
    pub fn name(&self) -> (name: &'static str)
        ensures
            name@ == self.label(),
    {
        match self {
            OrderStatus::Pending => "Pending",
            OrderStatus::Paid => "Paid",
            OrderStatus::Preparing => "Preparing",
            OrderStatus::Ready => "Ready",
            OrderStatus::Completed => "Completed",
            OrderStatus::Cancelled => "Cancelled",
        }
    }

    /// Whether payment must have been captured for an order to be in this
    /// status.
    pub open spec fn is_past_payment(self) -> bool {
        self == OrderStatus::Paid || self == OrderStatus::Preparing || self == OrderStatus::Ready
            || self == OrderStatus::Completed
    }
}

/// One line of an order: a beverage as it was named and priced when the
/// order was placed. The price is per unit, in cents.
#[derive(Debug)]
pub struct OrderItem {
    pub beverage_name: String,
    pub beverage_description: String,
    pub price: u32,
    pub quantity: u8,
}

/// What an [`OrderItem`] holds, as mathematical values.
pub struct OrderItemView {
    pub beverage_name: Seq<char>,
    pub beverage_description: Seq<char>,
    pub price: u32,
    pub quantity: u8,
}

impl OrderItemView {
    /// Unit price times quantity, in cents.
    pub open spec fn line_total(self) -> int {
        self.price * self.quantity
    }
}

impl View for OrderItem {
    type V = OrderItemView;

    open spec fn view(&self) -> OrderItemView {
        OrderItemView {
            beverage_name: self.beverage_name@,
            beverage_description: self.beverage_description@,
            price: self.price,
            quantity: self.quantity,
        }
    }
}

/// The line for one cup of the given size of a beverage with the given name
/// and base price: the name, the description, the price of the cup, and a
/// quantity of one.
pub open spec fn line_for(name: Seq<char>, base_cents: nat, size: Size) -> OrderItemView {
    OrderItemView {
        beverage_name: name,
        beverage_description: cup_description(name, size),
        price: cup_price(base_cents, size) as u32,
        quantity: 1,
    }
}

impl OrderItem {
    /// The line for one cup of `beverage`: its name, its description and its
    /// price, with a quantity of one.
    pub fn from_beverage<B: Beverage + ?Sized>(beverage: &B) -> (item: OrderItem)
        requires
            beverage.base_cents() <= MAX_BASE_PRICE,
        ensures
            item@ == line_for(beverage.name_view(), beverage.base_cents(), beverage.size_view()),
    {
        OrderItem {
            beverage_name: beverage.name(),
            beverage_description: beverage.description(),
            price: beverage.price(),
            quantity: 1,
        }
    }

    /// The line for one cup of `beverage`, or `None` if the beverage cannot
    /// be priced because its base price exceeds [`MAX_BASE_PRICE`].
    pub fn try_from_beverage<B: Beverage + ?Sized>(beverage: &B) -> (item: Option<OrderItem>)
        ensures
            item is Some <==> beverage.base_cents() <= MAX_BASE_PRICE,
            item matches Some(line) ==> line@ == line_for(
                beverage.name_view(),
                beverage.base_cents(),
                beverage.size_view(),
            ),
    {
        if beverage.is_priceable() {
            Some(OrderItem::from_beverage(beverage))
        } else {
            None
        }
    }
}

impl Clone for OrderItem {
    fn clone(&self) -> (copy: Self)
        ensures
            copy@ == self@,
    {
        OrderItem {
            beverage_name: self.beverage_name.clone(),
            beverage_description: self.beverage_description.clone(),
            price: self.price,
            quantity: self.quantity,
        }
    }
}

/// The views of a sequence of items, in the same order.
pub open spec fn item_views(items: Seq<OrderItem>) -> Seq<OrderItemView> {
    items.map_values(|item: OrderItem| item@)
}

/// The sum of the line totals of `items`, in cents.
pub open spec fn total_of(items: Seq<OrderItemView>) -> int
    decreases items.len(),
{
    if items.len() == 0 {
        0
    } else {
        total_of(items.drop_last()) + items.last().line_total()
    }
}

/// The largest line total there can be: the largest price times the largest
/// quantity.
pub open spec fn max_line_total() -> int {
    0xffff_ffff * 0xffint
}

/// A line total is never negative and never more than the largest price
/// times the largest quantity.
pub proof fn line_total_is_bounded(item: OrderItemView)
    ensures
        0 <= item.line_total() <= max_line_total(),
{
    assert(0 <= item.price * item.quantity <= 0xffff_ffff * 0xff) by (nonlinear_arith)
        requires
            0 <= item.price <= 0xffff_ffff,
            0 <= item.quantity <= 0xff,
    ;
}

/// A total is never negative and never more than the largest line total for
/// each item.
pub proof fn total_of_is_bounded(items: Seq<OrderItemView>)
    ensures
        0 <= total_of(items) <= items.len() * max_line_total(),
    decreases items.len(),
{
    if items.len() > 0 {
        total_of_is_bounded(items.drop_last());
        line_total_is_bounded(items.last());
        assert((items.len() - 1) * max_line_total() + max_line_total() == items.len()
            * max_line_total()) by (nonlinear_arith);
    }
}

/// Adding one item to the end of a list adds its line total to the total.
pub proof fn total_of_push(items: Seq<OrderItemView>, item: OrderItemView)
    ensures
        total_of(items.push(item)) == total_of(items) + item.line_total(),
{
    assert(items.push(item).drop_last() =~= items);
}

/// An order: who ordered what, what it costs and how far it has come.
#[derive(Debug)]
pub struct Order {
    pub id: u128,
    pub customer: Customer,
    pub items: Vec<OrderItem>,
    pub status: OrderStatus,
    pub created_at: Timestamp,
    /// Total in cents, fixed when the order is created.
    pub total_price: i128,
    pub payment_id: Option<String>,
}

/// What an [`Order`] holds, as mathematical values.
pub struct OrderView {
    pub id: u128,
    pub customer: CustomerView,
    pub items: Seq<OrderItemView>,
    pub status: OrderStatus,
    pub created_at: Timestamp,
    pub total_price: int,
    pub payment_id: Option<Seq<char>>,
}

impl OrderView {
    /// The total is the sum over the items, and an order that is past
    /// payment carries the id of that payment.
    pub open spec fn well_formed(self) -> bool {
        &&& self.total_price == total_of(self.items)
        &&& self.status.is_past_payment() ==> self.payment_id is Some
    }
}

impl View for Order {
    type V = OrderView;

    open spec fn view(&self) -> OrderView {
        OrderView {
            id: self.id,
            customer: self.customer@,
            items: item_views(self.items@),
            status: self.status,
            created_at: self.created_at,
            total_price: self.total_price as int,
            payment_id: optional_text(self.payment_id),
        }
    }
}

/// Copies a list of items.
fn clone_items(items: &Vec<OrderItem>) -> (copy: Vec<OrderItem>)
    ensures
        item_views(copy@) == item_views(items@),
{
    let mut copy: Vec<OrderItem> = Vec::new();
    let mut i: usize = 0;
    while i < items.len()
        invariant
            i <= items.len(),
            copy.len() == i,
            forall|k: int| 0 <= k < i ==> copy[k]@ == items[k]@,
        decreases items.len() - i,
    {
        copy.push(items[i].clone());
        i += 1;
    }
    assert(item_views(copy@) =~= item_views(items@));
    copy
}

/// Adds up the line totals of a list of items.
fn sum_items(items: &Vec<OrderItem>) -> (total: i128)
    ensures
        total == total_of(item_views(items@)),
{
    let ghost views = item_views(items@);
    let mut total: i128 = 0;
    let mut i: usize = 0;
    while i < items.len()
        invariant
            i <= items.len(),
            views == item_views(items@),
            total == total_of(views.take(i as int)),
        decreases items.len() - i,
    {
        proof {
            let seen = views.take(i as int);
            assert(views.take(i + 1) =~= seen.push(views[i as int]));
            total_of_push(seen, views[i as int]);
            line_total_is_bounded(views[i as int]);
            total_of_is_bounded(seen);
            assert(seen.len() * max_line_total() <= usize::MAX * max_line_total())
                by (nonlinear_arith)
                requires
                    seen.len() <= usize::MAX,
            ;
        }
        let line: i128 = (items[i].price as i128) * (items[i].quantity as i128);
        total = total + line;
        i += 1;
    }
    assert(views.take(items.len() as int) =~= views);
    total
}

impl Clone for Order {
    fn clone(&self) -> (copy: Self)
        ensures
            copy@ == self@,
    {
        let payment_id = match &self.payment_id {
            Some(p) => Some(p.clone()),
            None => None,
        };
        Order {
            id: self.id,
            customer: self.customer.clone(),
            items: clone_items(&self.items),
            status: self.status,
            created_at: self.created_at,
            total_price: self.total_price,
            payment_id,
        }
    }
}

impl Order {
    /// Whether this order's view is [well formed](OrderView::well_formed).
    pub open spec fn well_formed(&self) -> bool {
        self@.well_formed()
    }

    /// A new pending order for `customer` with the given items, a fresh
    /// random id and the current time. The total is the sum over the items
    /// of price times quantity and is not recomputed afterwards.
    pub fn new(customer: Customer, items: Vec<OrderItem>) -> (order: Self)
        ensures
            order@.customer == customer@,
            order@.items == item_views(items@),
            order@.status == OrderStatus::Pending,
            order@.payment_id is None,
            order@.total_price == total_of(item_views(items@)),
            order.well_formed(),
    {
        let total_price = sum_items(&items);
        Order {
            id: fresh_id(),
            customer,
            items,
            status: OrderStatus::Pending,
            created_at: now(),
            total_price,
            payment_id: None,
        }
    }

    /// Records that payment was captured: the order becomes `Paid`, whatever
    /// its status was, and keeps the id of the payment.
    pub fn mark_as_paid(&mut self, payment_id: String)
        ensures
            final(self)@ == (OrderView {
                status: OrderStatus::Paid,
                payment_id: Some(payment_id@),
                ..old(self)@
            }),
            old(self).well_formed() ==> final(self).well_formed(),
    {
        self.status = OrderStatus::Paid;
        self.payment_id = Some(payment_id);
    }

    /// Starts preparation if the order is `Paid`; otherwise changes nothing.
    /// Returns whether the status changed.
    pub fn mark_as_preparing(&mut self) -> (changed: bool)
        ensures
            final(self)@ == (OrderView {
                status: old(self)@.status.after_preparing(),
                ..old(self)@
            }),
            changed == (old(self)@.status == OrderStatus::Paid),
            old(self).well_formed() ==> final(self).well_formed(),
    {
        if self.status == OrderStatus::Paid {
            self.status = OrderStatus::Preparing;
            true
        } else {
            false
        }
    }

    /// Marks the order ready for pickup if it is `Preparing`; otherwise
    /// changes nothing. Returns whether the status changed.
    pub fn mark_as_ready(&mut self) -> (changed: bool)
        ensures
            final(self)@ == (OrderView { status: old(self)@.status.after_ready(), ..old(self)@ }),
            changed == (old(self)@.status == OrderStatus::Preparing),
            old(self).well_formed() ==> final(self).well_formed(),
    {
        if self.status == OrderStatus::Preparing {
            self.status = OrderStatus::Ready;
            true
        } else {
            false
        }
    }

    /// Completes the order if it is `Ready`; otherwise changes nothing.
    /// Returns whether the status changed.
    pub fn mark_as_completed(&mut self) -> (changed: bool)
        ensures
            final(self)@ == (OrderView {
                status: old(self)@.status.after_completed(),
                ..old(self)@
            }),
            changed == (old(self)@.status == OrderStatus::Ready),
            old(self).well_formed() ==> final(self).well_formed(),
    {
        if self.status == OrderStatus::Ready {
            self.status = OrderStatus::Completed;
            true
        } else {
            false
        }
    }

    /// Cancels the order unless it is `Completed`, in which case nothing
    /// changes. Returns whether the order is now cancelled by this call,
    /// that is, whether it was not `Completed`.
    pub fn cancel(&mut self) -> (changed: bool)
        ensures
            final(self)@ == (OrderView { status: old(self)@.status.after_cancel(), ..old(self)@ }),
            changed == (old(self)@.status != OrderStatus::Completed),
            old(self).well_formed() ==> final(self).well_formed(),
    {
        if self.status != OrderStatus::Completed {
            self.status = OrderStatus::Cancelled;
            true
        } else {
            false
        }
    }
}

/// Each guarded transition takes effect from exactly one status: preparing
/// from `Paid`, ready from `Preparing`, completed from `Ready`. From every
/// other status it leaves the status as it is.
pub proof fn advancing_needs_the_exact_status(status: OrderStatus)
    ensures
        status.after_preparing() != status <==> status == OrderStatus::Paid,
        status.after_ready() != status <==> status == OrderStatus::Preparing,
        status.after_completed() != status <==> status == OrderStatus::Ready,
        status == OrderStatus::Paid ==> status.after_preparing() == OrderStatus::Preparing,
        status == OrderStatus::Preparing ==> status.after_ready() == OrderStatus::Ready,
        status == OrderStatus::Ready ==> status.after_completed() == OrderStatus::Completed,
{
}

/// Cancelling leads to `Cancelled` from every status but `Completed`, which
/// it leaves alone.
pub proof fn cancel_spares_only_completed(status: OrderStatus)
    ensures
        status != OrderStatus::Completed ==> status.after_cancel() == OrderStatus::Cancelled,
        status == OrderStatus::Completed ==> status.after_cancel() == OrderStatus::Completed,
{
}

/// `Completed` and `Cancelled` are final: none of the four guarded
/// transitions leads out of either.
pub proof fn completed_and_cancelled_are_final(status: OrderStatus)
    requires
        status == OrderStatus::Completed || status == OrderStatus::Cancelled,
    ensures
        status.after_preparing() == status,
        status.after_ready() == status,
        status.after_completed() == status,
        status.after_cancel() == status,
{
}

} // verus!
