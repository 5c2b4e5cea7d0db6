use coffee_shop_solid::{
    ConsoleNotifier, Customer, NotificationError, Notifier, Order, OrderItem, Screen,
};
use std::cell::RefCell;

/// A screen that remembers what it was asked to show.
#[derive(Default)]
struct Glass {
    shown: RefCell<Vec<String>>,
}

impl Screen for Glass {
    fn show(&self, text: &str) {
        self.shown.borrow_mut().push(text.to_string());
    }
}

fn make_test_order() -> Order {
    let customer = Customer::new(
        "Test User".to_string(),
        "test@example.com".to_string(),
        Some("+1234567890".to_string()),
    );

    let items = vec![OrderItem {
        beverage_name: "Coffee".to_string(),
        beverage_description: "Medium Coffee".to_string(),
        price: 350,
        quantity: 1,
    }];

    Order::new(customer, items)
}

fn printed(id: u128) -> String {
    uuid::Uuid::from_u128(id).to_string()
}

#[test]
fn test_notify_order_placed() {
    let notifier = ConsoleNotifier::new(Glass::default());
    let order = make_test_order();

    let result = notifier.notify_order_placed(&order);
    assert!(result.is_ok());
}

#[test]
fn test_notify_order_ready() {
    let notifier = ConsoleNotifier::new(Glass::default());
    let mut order = make_test_order();
    order.mark_as_paid("TEST-123".to_string());
    order.mark_as_preparing();
    order.mark_as_ready();

    let result = notifier.notify_order_ready(&order);
    assert!(result.is_ok());
}

#[test]
fn test_notify_order_cancelled() {
    let notifier = ConsoleNotifier::new(Glass::default());
    let mut order = make_test_order();
    order.cancel();

    let result = notifier.notify_order_cancelled(&order);
    assert!(result.is_ok());
}

#[test]
fn placed_notification_shows_the_order() {
    let notifier = ConsoleNotifier::new(Glass::default());
    let order = make_test_order();
    notifier.notify_order_placed(&order).unwrap();

    let wanted = format!(
        "🎉 Order Placed!\nOrder ID: {}\nCustomer: Test User (test@example.com)\nItems: 1\nTotal: $3.50\nStatus: Pending",
        printed(order.id)
    );
    assert_eq!(*notifier.screen().shown.borrow(), vec![wanted.clone()]);
    assert_eq!(notifier.order_placed_message(&order), wanted);
}

#[test]
fn ready_notification_shows_the_order() {
    let notifier = ConsoleNotifier::new(Glass::default());
    let order = make_test_order();
    notifier.notify_order_ready(&order).unwrap();

    let wanted = format!(
        "☕ Order Ready for Pickup!\nOrder ID: {}\nCustomer: Test User\nPlease come to the counter!",
        printed(order.id)
    );
    assert_eq!(*notifier.screen().shown.borrow(), vec![wanted.clone()]);
    assert_eq!(notifier.order_ready_message(&order), wanted);
}

#[test]
fn cancelled_notification_shows_the_order() {
    let notifier = ConsoleNotifier::new(Glass::default());
    let order = make_test_order();
    notifier.notify_order_cancelled(&order).unwrap();

    let wanted =
        format!("❌ Order Cancelled\nOrder ID: {}\nCustomer: Test User", printed(order.id));
    assert_eq!(*notifier.screen().shown.borrow(), vec![wanted.clone()]);
    assert_eq!(notifier.order_cancelled_message(&order), wanted);
}

#[test]
fn placed_notification_counts_items_and_money() {
    let notifier = ConsoleNotifier::new(Glass::default());
    let customer = Customer::new("A".to_string(), "a@b.c".to_string(), None);
    let item = |price: u32, quantity: u8| OrderItem {
        beverage_name: "Tea".to_string(),
        beverage_description: "Tea".to_string(),
        price,
        quantity,
    };
    let items: Vec<OrderItem> = (0..12).map(|_| item(1005, 10)).collect();
    let mut order = Order::new(customer, items);
    order.mark_as_paid("P".to_string());
    let message = notifier.order_placed_message(&order);
    assert!(message.contains("\nItems: 12\n"));
    assert!(message.contains("\nTotal: $1206.00\n"));
    assert!(message.ends_with("\nStatus: Paid"));

    order.total_price = 7;
    assert!(notifier.order_placed_message(&order).contains("\nTotal: $0.07\n"));
    order.total_price = -1250;
    assert!(notifier.order_placed_message(&order).contains("\nTotal: $-12.50\n"));
    order.total_price = i128::MIN;
    assert!(notifier
        .order_placed_message(&order)
        .contains("\nTotal: $-1701411834604692317316873037158841057.28\n"));
}

#[test]
fn notification_errors_read_as_text() {
    assert_eq!(NotificationError::SendFailed("x".to_string()).to_string(), "Send failed: x");
    assert_eq!(
        NotificationError::InvalidRecipient("x".to_string()).to_string(),
        "Invalid recipient: x"
    );
    assert_eq!(NotificationError::NetworkError("x".to_string()).to_string(), "Network error: x");
    let copy = NotificationError::SendFailed("x".to_string()).clone();
    assert!(matches!(copy, NotificationError::SendFailed(reason) if reason == "x"));
}
