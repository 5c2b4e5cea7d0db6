use coffee_shop_solid::services::order_service::{
    draft_order, ensure_cancellable, found_order, payment_result, record_notification,
    storage_result,
};
use coffee_shop_solid::{
    CashPayment, Coffee, ConsoleNotifier, CreditCardPayment, Customer, JsonOrderRepository,
    MemoryOrderRepository, NotificationError, Notifier, Order, OrderFile, OrderItem,
    OrderRepository, OrderService, OrderServiceError, OrderStatus, PaymentError,
    PaymentProcessor, RepositoryError, Screen, Size,
};
use std::cell::RefCell;
use std::rc::Rc;

struct Quiet;

impl Screen for Quiet {
    fn show(&self, _text: &str) {}
}

/// A payment processor that counts its calls and can be told to refuse.
#[derive(Clone, Default)]
struct Till {
    refuse: bool,
    charged: Rc<RefCell<Vec<i128>>>,
}

impl PaymentProcessor for Till {
    fn process_payment(&self, amount: i128) -> Result<String, PaymentError> {
        self.charged.borrow_mut().push(amount);
        if self.refuse {
            Err(PaymentError::InsufficientFunds)
        } else {
            Ok(format!("TILL-{}", self.charged.borrow().len()))
        }
    }
}

/// A notifier that counts its calls and can be told to fail.
#[derive(Clone, Default)]
struct Bell {
    fail: bool,
    rung: Rc<RefCell<Vec<String>>>,
}

impl Bell {
    fn ring(&self, what: &str, order: &Order) -> Result<(), NotificationError> {
        self.rung.borrow_mut().push(format!("{} {}", what, order.id));
        if self.fail {
            Err(NotificationError::SendFailed(what.to_string()))
        } else {
            Ok(())
        }
    }
}

impl Notifier for Bell {
    fn notify_order_placed(&self, order: &Order) -> Result<(), NotificationError> {
        self.ring("placed", order)
    }

    fn notify_order_ready(&self, order: &Order) -> Result<(), NotificationError> {
        self.ring("ready", order)
    }

    fn notify_order_cancelled(&self, order: &Order) -> Result<(), NotificationError> {
        self.ring("cancelled", order)
    }
}

/// A file that can be told to fail and counts its writes.
#[derive(Clone, Default)]
struct Disk {
    broken: Rc<RefCell<bool>>,
    writes: Rc<RefCell<usize>>,
}

impl OrderFile for Disk {
    fn load(&self) -> Result<Option<Vec<Order>>, String> {
        Ok(None)
    }

    fn store(&mut self, _orders: &Vec<Order>) -> Result<(), String> {
        if *self.broken.borrow() {
            return Err("Failed to write file: no space".to_string());
        }
        *self.writes.borrow_mut() += 1;
        Ok(())
    }
}

fn test_customer() -> Customer {
    Customer::new("Test User".to_string(), "test@example.com".to_string(), None)
}

fn coffee() -> OrderItem {
    OrderItem::from_beverage(&Coffee { size: Size::Medium, extra_shots: 0 })
}

fn priced(price: u32, quantity: u8) -> OrderItem {
    OrderItem {
        beverage_name: "Special".to_string(),
        beverage_description: "Special (Large)".to_string(),
        price,
        quantity,
    }
}

fn order_in(status: OrderStatus) -> Order {
    let mut order = Order::new(test_customer(), vec![coffee()]);
    order.mark_as_paid("PAY-1".to_string());
    order.status = status;
    order
}

fn service_with(
    orders: &[&Order],
    bell: Bell,
) -> OrderService<MemoryOrderRepository, Till, Bell> {
    let mut repository = MemoryOrderRepository::new();
    for order in orders {
        repository.save(order).unwrap();
    }
    OrderService::new(repository, Till::default(), bell)
}

const ALL: [OrderStatus; 6] = [
    OrderStatus::Pending,
    OrderStatus::Paid,
    OrderStatus::Preparing,
    OrderStatus::Ready,
    OrderStatus::Completed,
    OrderStatus::Cancelled,
];

#[test]
fn test_place_order_success() {
    let repository = MemoryOrderRepository::new();
    let payment = CashPayment;
    let notifier = ConsoleNotifier::new(Quiet);
    let mut service = OrderService::new(repository, payment, notifier);

    let customer = test_customer();

    let items = vec![OrderItem::from_beverage(&Coffee { size: Size::Medium, extra_shots: 0 })];

    let result = service.place_order(customer, items);

    assert!(result.is_ok());
    let order = result.unwrap();
    assert_eq!(order.status, OrderStatus::Paid);
}

#[test]
fn test_place_order_empty_fails() {
    let repository = MemoryOrderRepository::new();
    let payment = CashPayment;
    let notifier = ConsoleNotifier::new(Quiet);
    let mut service = OrderService::new(repository, payment, notifier);

    let customer = test_customer();

    let result = service.place_order(customer, vec![]);

    assert!(result.is_err());
}

#[test]
fn alice_orders_one_coffee() {
    let till = Till::default();
    let bell = Bell::default();
    let mut service = OrderService::new(MemoryOrderRepository::new(), till.clone(), bell.clone());
    let alice = Customer::new("Alice".to_string(), "alice@example.com".to_string(), None);
    let alice_id = alice.id;

    let order = service.place_order(alice, vec![priced(350, 1)]).unwrap();

    assert_eq!(order.total_price, 350);
    assert_eq!(order.status, OrderStatus::Paid);
    assert_eq!(order.payment_id, Some("TILL-1".to_string()));
    assert!(!order.payment_id.as_ref().unwrap().is_empty());
    assert_eq!(order.customer.id, alice_id);
    assert_eq!(order.items.len(), 1);
    assert_eq!(order.items[0].beverage_name, "Special");

    // Charged once, for the total; stored as returned; announced once.
    assert_eq!(*till.charged.borrow(), vec![350]);
    assert_eq!(service.repository().count(), 1);
    let stored = service.get_order(order.id).unwrap();
    assert_eq!(stored.status, OrderStatus::Paid);
    assert_eq!(stored.payment_id, order.payment_id);
    assert_eq!(stored.total_price, 350);
    assert_eq!(*bell.rung.borrow(), vec![format!("placed {}", order.id)]);
    assert!(service.warnings().is_empty());
}

#[test]
fn placed_order_totals_price_times_quantity() {
    let till = Till::default();
    let mut service =
        OrderService::new(MemoryOrderRepository::new(), till.clone(), Bell::default());
    let order = service
        .place_order(test_customer(), vec![priced(350, 2), priced(300, 1), priced(125, 4)])
        .unwrap();
    assert_eq!(order.total_price, 1500);
    assert_eq!(*till.charged.borrow(), vec![1500]);
}

#[test]
fn cash_payment_leaves_a_payment_id() {
    let mut service =
        OrderService::new(MemoryOrderRepository::new(), CashPayment, ConsoleNotifier::new(Quiet));
    let order = service.place_order(test_customer(), vec![coffee()]).unwrap();
    assert_eq!(order.status, OrderStatus::Paid);
    assert!(order.payment_id.unwrap().starts_with("CASH-"));
}

#[test]
fn empty_order_reaches_no_collaborator() {
    let till = Till::default();
    let bell = Bell::default();
    let disk = Disk::default();
    let repository = JsonOrderRepository::new(disk.clone()).unwrap();
    let mut service = OrderService::new(repository, till.clone(), bell.clone());

    let result = service.place_order(test_customer(), vec![]);

    match result {
        Err(OrderServiceError::InvalidOrder(reason)) => {
            assert_eq!(reason, "Order must contain at least one item")
        }
        other => panic!("unexpected answer: {:?}", other),
    }
    assert!(till.charged.borrow().is_empty());
    assert_eq!(*disk.writes.borrow(), 0);
    assert!(service.list_all_orders().unwrap().is_empty());
    assert!(bell.rung.borrow().is_empty());
    assert!(service.warnings().is_empty());
}

#[test]
fn refused_payment_stores_nothing() {
    let till = Till { refuse: true, ..Till::default() };
    let bell = Bell::default();
    let disk = Disk::default();
    let repository = JsonOrderRepository::new(disk.clone()).unwrap();
    let mut service = OrderService::new(repository, till.clone(), bell.clone());

    let result = service.place_order(test_customer(), vec![coffee()]);

    assert!(matches!(
        result,
        Err(OrderServiceError::PaymentFailed(PaymentError::InsufficientFunds))
    ));
    assert_eq!(*till.charged.borrow(), vec![350]);
    assert_eq!(*disk.writes.borrow(), 0);
    assert!(service.list_all_orders().unwrap().is_empty());
    assert!(service.list_customer_orders("test@example.com").unwrap().is_empty());
    assert!(bell.rung.borrow().is_empty());
}

#[test]
fn card_over_its_limit_stores_nothing() {
    let card = CreditCardPayment::new("https://payment-gateway.example.com".to_string());
    let mut service =
        OrderService::new(MemoryOrderRepository::new(), card, ConsoleNotifier::new(Quiet));

    // 100 000.01 is one cent over the limit.
    let result = service.place_order(test_customer(), vec![priced(100_001, 1)]);

    match result {
        Err(OrderServiceError::PaymentFailed(PaymentError::ProcessingFailed(reason))) => {
            assert_eq!(reason, "Amount exceeds card limit")
        }
        other => panic!("unexpected answer: {:?}", other),
    }
    assert_eq!(service.repository().count(), 0);

    let order = service.place_order(test_customer(), vec![priced(100_000, 1)]).unwrap();
    assert!(order.payment_id.unwrap().starts_with("CC-"));
    assert_eq!(service.repository().count(), 1);
}

#[test]
fn failed_save_is_reported_after_payment_was_captured() {
    let till = Till::default();
    let bell = Bell::default();
    let disk = Disk::default();
    *disk.broken.borrow_mut() = true;
    let repository = JsonOrderRepository::new(disk).unwrap();
    let mut service = OrderService::new(repository, till.clone(), bell.clone());

    let result = service.place_order(test_customer(), vec![coffee()]);

    match result {
        Err(OrderServiceError::StorageFailed(RepositoryError::SaveFailed(reason))) => {
            assert_eq!(reason, "Failed to write file: no space")
        }
        other => panic!("unexpected answer: {:?}", other),
    }
    // Payment was captured, and nobody was told about an order.
    assert_eq!(*till.charged.borrow(), vec![350]);
    assert!(bell.rung.borrow().is_empty());
    assert!(service.warnings().is_empty());
}

#[test]
fn failed_notification_is_a_warning_not_a_failure() {
    let bell = Bell { fail: true, ..Bell::default() };
    let mut service =
        OrderService::new(MemoryOrderRepository::new(), Till::default(), bell.clone());

    let order = service.place_order(test_customer(), vec![coffee()]).unwrap();
    assert_eq!(order.status, OrderStatus::Paid);
    assert_eq!(service.repository().count(), 1);
    assert_eq!(service.warnings().len(), 1);
    assert!(matches!(&service.warnings()[0], NotificationError::SendFailed(what) if what == "placed"));

    service.cancel_order(order.id).unwrap();
    assert_eq!(service.get_order(order.id).unwrap().status, OrderStatus::Cancelled);
    assert_eq!(service.warnings().len(), 2);
    assert!(matches!(&service.warnings()[1], NotificationError::SendFailed(what) if what == "cancelled"));

    service.mark_order_ready(order.id).unwrap();
    assert_eq!(service.warnings().len(), 3);
    assert!(matches!(&service.warnings()[2], NotificationError::SendFailed(what) if what == "ready"));
}

#[test]
fn get_order_finds_or_reports_not_found() {
    let order = order_in(OrderStatus::Paid);
    let service = service_with(&[&order], Bell::default());
    let found = service.get_order(order.id).unwrap();
    assert_eq!(found.id, order.id);
    assert_eq!(found.total_price, 350);
    assert!(matches!(service.get_order(order.id + 1), Err(OrderServiceError::OrderNotFound)));
}

#[test]
fn listings_are_empty_or_complete() {
    let service = service_with(&[], Bell::default());
    assert!(service.list_all_orders().unwrap().is_empty());
    assert!(service.list_customer_orders("test@example.com").unwrap().is_empty());

    let mine = order_in(OrderStatus::Paid);
    let bob = Customer::new("Bob".to_string(), "bob@example.com".to_string(), None);
    let theirs = Order::new(bob, vec![coffee()]);
    let service = service_with(&[&mine, &theirs], Bell::default());
    assert_eq!(service.list_all_orders().unwrap().len(), 2);
    let found = service.list_customer_orders("bob@example.com").unwrap();
    assert_eq!(found.len(), 1);
    assert_eq!(found[0].id, theirs.id);
}

#[test]
fn mark_order_ready_moves_a_preparing_order() {
    let order = order_in(OrderStatus::Preparing);
    let bell = Bell::default();
    let mut service = service_with(&[&order], bell.clone());

    service.mark_order_ready(order.id).unwrap();

    let stored = service.get_order(order.id).unwrap();
    assert_eq!(stored.status, OrderStatus::Ready);
    assert_eq!(stored.payment_id, Some("PAY-1".to_string()));
    assert_eq!(stored.total_price, 350);
    assert_eq!(*bell.rung.borrow(), vec![format!("ready {}", order.id)]);
}

#[test]
fn mark_order_ready_again_keeps_it_ready() {
    let order = order_in(OrderStatus::Ready);
    let bell = Bell::default();
    let disk = Disk::default();
    let mut repository = JsonOrderRepository::new(disk.clone()).unwrap();
    repository.save(&order).unwrap();
    let mut service = OrderService::new(repository, Till::default(), bell.clone());

    service.mark_order_ready(order.id).unwrap();
    service.mark_order_ready(order.id).unwrap();

    let stored = service.get_order(order.id).unwrap();
    assert_eq!(stored.status, OrderStatus::Ready);
    assert_eq!(stored.payment_id, order.payment_id);
    assert_eq!(stored.total_price, order.total_price);
    assert_eq!(stored.created_at, order.created_at);
    // The record was written again each time, with the same content.
    assert_eq!(*disk.writes.borrow(), 3);
    assert_eq!(bell.rung.borrow().len(), 2);
}

#[test]
fn mark_order_ready_leaves_other_statuses_alone() {
    for status in ALL {
        let order = order_in(status);
        let mut service = service_with(&[&order], Bell::default());
        assert!(service.mark_order_ready(order.id).is_ok());
        let wanted =
            if status == OrderStatus::Preparing { OrderStatus::Ready } else { status };
        assert_eq!(service.get_order(order.id).unwrap().status, wanted);
    }
}

#[test]
fn mark_order_ready_of_unknown_order_is_not_found() {
    let bell = Bell::default();
    let mut service = service_with(&[], bell.clone());
    assert!(matches!(service.mark_order_ready(1), Err(OrderServiceError::OrderNotFound)));
    assert!(bell.rung.borrow().is_empty());
}

#[test]
fn cancel_order_cancels_all_but_completed() {
    for status in ALL {
        let order = order_in(status);
        let bell = Bell::default();
        let mut service = service_with(&[&order], bell.clone());
        let result = service.cancel_order(order.id);
        if status == OrderStatus::Completed {
            match result {
                Err(OrderServiceError::InvalidOrder(reason)) => {
                    assert_eq!(reason, "Cannot cancel completed order")
                }
                other => panic!("unexpected answer: {:?}", other),
            }
            assert_eq!(service.get_order(order.id).unwrap().status, OrderStatus::Completed);
            assert!(bell.rung.borrow().is_empty());
        } else {
            assert!(result.is_ok());
            assert_eq!(service.get_order(order.id).unwrap().status, OrderStatus::Cancelled);
            assert_eq!(*bell.rung.borrow(), vec![format!("cancelled {}", order.id)]);
        }
    }
}

#[test]
fn cancel_order_of_unknown_order_is_not_found() {
    let mut service = service_with(&[], Bell::default());
    assert!(matches!(service.cancel_order(1), Err(OrderServiceError::OrderNotFound)));
}

#[test]
fn failed_update_is_reported_as_storage_failure() {
    let order = order_in(OrderStatus::Preparing);
    let bell = Bell::default();
    let disk = Disk::default();
    let mut repository = JsonOrderRepository::new(disk.clone()).unwrap();
    repository.save(&order).unwrap();
    let mut service = OrderService::new(repository, Till::default(), bell.clone());

    *disk.broken.borrow_mut() = true;
    assert!(matches!(
        service.mark_order_ready(order.id),
        Err(OrderServiceError::StorageFailed(RepositoryError::SaveFailed(_)))
    ));
    assert!(matches!(
        service.cancel_order(order.id),
        Err(OrderServiceError::StorageFailed(RepositoryError::SaveFailed(_)))
    ));
    assert!(bell.rung.borrow().is_empty());
}

#[test]
fn draft_order_refuses_an_empty_list() {
    match draft_order(test_customer(), vec![]) {
        Err(OrderServiceError::InvalidOrder(reason)) => {
            assert_eq!(reason, "Order must contain at least one item")
        }
        other => panic!("unexpected answer: {:?}", other),
    }
    let order = draft_order(test_customer(), vec![priced(10, 3)]).unwrap();
    assert_eq!(order.status, OrderStatus::Pending);
    assert_eq!(order.total_price, 30);
    assert_eq!(order.payment_id, None);
}

#[test]
fn payment_result_marks_paid_or_fails() {
    let order = Order::new(test_customer(), vec![coffee()]);
    let id = order.id;
    let paid = payment_result(order, Ok("PAY-5".to_string())).unwrap();
    assert_eq!(paid.id, id);
    assert_eq!(paid.status, OrderStatus::Paid);
    assert_eq!(paid.payment_id, Some("PAY-5".to_string()));
    assert_eq!(paid.total_price, 350);

    let order = Order::new(test_customer(), vec![coffee()]);
    assert!(matches!(
        payment_result(order, Err(PaymentError::InvalidCard)),
        Err(OrderServiceError::PaymentFailed(PaymentError::InvalidCard))
    ));
}

#[test]
fn storage_result_wraps_the_error() {
    assert_eq!(storage_result(Ok(5)).unwrap(), 5);
    let failed: Result<(), RepositoryError> = Err(RepositoryError::SaveFailed("x".to_string()));
    assert!(matches!(
        storage_result(failed),
        Err(OrderServiceError::StorageFailed(RepositoryError::SaveFailed(reason))) if reason == "x"
    ));
}

#[test]
fn found_order_tells_missing_from_failed() {
    let order = Order::new(test_customer(), vec![coffee()]);
    let id = order.id;
    assert_eq!(found_order(Ok(Some(order))).unwrap().id, id);
    assert!(matches!(found_order(Ok(None)), Err(OrderServiceError::OrderNotFound)));
    assert!(matches!(
        found_order(Err(RepositoryError::LoadFailed("x".to_string()))),
        Err(OrderServiceError::StorageFailed(RepositoryError::LoadFailed(reason))) if reason == "x"
    ));
}

#[test]
fn ensure_cancellable_refuses_only_completed() {
    for status in ALL {
        let result = ensure_cancellable(&order_in(status));
        assert_eq!(result.is_err(), status == OrderStatus::Completed);
    }
}

#[test]
fn record_notification_keeps_failures_in_order() {
    let mut warnings = Vec::new();
    record_notification(&mut warnings, Ok(()));
    assert!(warnings.is_empty());
    record_notification(&mut warnings, Err(NotificationError::SendFailed("a".to_string())));
    record_notification(&mut warnings, Ok(()));
    record_notification(&mut warnings, Err(NotificationError::NetworkError("b".to_string())));
    assert_eq!(warnings.len(), 2);
    assert!(matches!(&warnings[0], NotificationError::SendFailed(reason) if reason == "a"));
    assert!(matches!(&warnings[1], NotificationError::NetworkError(reason) if reason == "b"));
}

#[test]
fn service_errors_read_as_text() {
    assert_eq!(
        OrderServiceError::PaymentFailed(PaymentError::InvalidCard).to_string(),
        "Payment failed: Invalid card"
    );
    assert_eq!(
        OrderServiceError::StorageFailed(RepositoryError::NotFound("x".to_string())).to_string(),
        "Storage failed: Not found: x"
    );
    assert_eq!(
        OrderServiceError::NotificationFailed(NotificationError::SendFailed("x".to_string()))
            .to_string(),
        "Notification failed: Send failed: x"
    );
    assert_eq!(OrderServiceError::OrderNotFound.to_string(), "Order not found");
    assert_eq!(
        OrderServiceError::InvalidOrder("empty".to_string()).to_string(),
        "Invalid order: empty"
    );
}
