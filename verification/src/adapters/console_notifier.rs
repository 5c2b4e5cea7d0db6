//! Notifications on the console.
//!
//! The notifier composes the text of each notification and hands it to a
//! [`Screen`]. What a screen is, the program that uses the library decides:
//! usually something that prints to standard output.

use crate::domain::order::{Order, OrderView};
use crate::ports::notifier::{NotificationError, Notifier};
use crate::ids::{id_text, uuid_text};
use crate::text::{decimal, decimal_text, money, money_text};
use vstd::prelude::*;
use vstd::string::StringExecFns;

verus! {

/// Something that can show a block of text to the person at the console.
pub trait Screen {
    /// Shows `text`, set off from what was shown before.
    fn show(&self, text: &str);
}

/// Tells the customer about their order on a screen. Showing a notification
/// never fails.
pub struct ConsoleNotifier<S: Screen> {
    screen: S,
}

/// The notification for a placed order.
pub open spec fn order_placed_text(order: OrderView) -> Seq<char> {
    "🎉 Order Placed!\nOrder ID: "@ + uuid_text(order.id) + "\nCustomer: "@ + order.customer.name
        + " ("@ + order.customer.email + ")\nItems: "@ + decimal(order.items.len())
        + "\nTotal: $"@ + money(order.total_price) + "\nStatus: "@ + order.status.label()
}

/// The notification for an order that is ready for pickup.
pub open spec fn order_ready_text(order: OrderView) -> Seq<char> {
    "☕ Order Ready for Pickup!\nOrder ID: "@ + uuid_text(order.id) + "\nCustomer: "@
        + order.customer.name + "\nPlease come to the counter!"@
}

/// The notification for a cancelled order.
pub open spec fn order_cancelled_text(order: OrderView) -> Seq<char> {
    "❌ Order Cancelled\nOrder ID: "@ + uuid_text(order.id) + "\nCustomer: "@
        + order.customer.name
}

impl<S: Screen> ConsoleNotifier<S> {
    /// The screen the notifier shows its notifications on.
    pub closed spec fn shown_on(&self) -> S {
        self.screen
    }

    /// A notifier that shows its notifications on `screen`.
    pub fn new(screen: S) -> (notifier: Self)
        ensures
            notifier.shown_on() == screen,
    {
        ConsoleNotifier { screen }
    }

    /// The screen the notifier shows its notifications on.
    pub fn screen(&self) -> (screen: &S)
        ensures
            *screen == self.shown_on(),
    {
        &self.screen
    }

    /// The text that tells the customer that the order was placed: the order
    /// id, the customer's name and e-mail address, the number of items, the
    /// total in dollars and the status.
    pub fn order_placed_message(&self, order: &Order) -> (message: String)
        ensures
            message@ == order_placed_text(order@),
    {
        let mut message = String::from_str("🎉 Order Placed!\nOrder ID: ");
        let id = id_text(order.id);
        message.append(id.as_str());
        message.append("\nCustomer: ");
        message.append(order.customer.name.as_str());
        message.append(" (");
        message.append(order.customer.email.as_str());
        message.append(")\nItems: ");
        let count = decimal_text(order.items.len() as u128);
        message.append(count.as_str());
        message.append("\nTotal: $");
        let total = money_text(order.total_price);
        message.append(total.as_str());
        message.append("\nStatus: ");
        message.append(order.status.name());
        message
    }

    /// The text that tells the customer that the order is ready for pickup.
    pub fn order_ready_message(&self, order: &Order) -> (message: String)
        ensures
            message@ == order_ready_text(order@),
    {
        let mut message = String::from_str("☕ Order Ready for Pickup!\nOrder ID: ");
        let id = id_text(order.id);
        message.append(id.as_str());
        message.append("\nCustomer: ");
        message.append(order.customer.name.as_str());
        message.append("\nPlease come to the counter!");
        message
    }

    /// The text that tells the customer that the order was cancelled.
    pub fn order_cancelled_message(&self, order: &Order) -> (message: String)
        ensures
            message@ == order_cancelled_text(order@),
    {
        let mut message = String::from_str("❌ Order Cancelled\nOrder ID: ");
        let id = id_text(order.id);
        message.append(id.as_str());
        message.append("\nCustomer: ");
        message.append(order.customer.name.as_str());
        message
    }
}

impl<S: Screen> Notifier for ConsoleNotifier<S> {
    /// Shows the [text for a placed order](order_placed_text). Always
    /// succeeds.
    fn notify_order_placed(&self, order: &Order) -> (result: Result<(), NotificationError>)
        ensures
            result is Ok,
    {
        let message = self.order_placed_message(order);
        self.screen.show(message.as_str());
        Ok(())
    }

    /// Shows the [text for a ready order](order_ready_text). Always
    /// succeeds.
    fn notify_order_ready(&self, order: &Order) -> (result: Result<(), NotificationError>)
        ensures
            result is Ok,
    {
        let message = self.order_ready_message(order);
        self.screen.show(message.as_str());
        Ok(())
    }

    /// Shows the [text for a cancelled order](order_cancelled_text). Always
    /// succeeds.
    fn notify_order_cancelled(&self, order: &Order) -> (result: Result<(), NotificationError>)
        ensures
            result is Ok,
    {
        let message = self.order_cancelled_message(order);
        self.screen.show(message.as_str());
        Ok(())
    }
}

} // verus!
