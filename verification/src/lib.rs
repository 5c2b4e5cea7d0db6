//! Order workflow of a small coffee shop.
//!
//! The crate is layered from the inside out:
//!
//! * [`domain`]: customers, orders with their lifecycle, and the beverage
//!   catalogue. Money is counted in whole cents.
//! * [`ports`]: the three capabilities the workflow depends on (storing
//!   orders, capturing payment, notifying the customer), as traits.
//! * [`services`]: the order service, which sequences payment, state change,
//!   persistence and notification and says what happens when a step fails.
//! * [`adapters`]: ready-made implementations of the capabilities.
//!
//! Identifiers and timestamps come from the `uuid` and `chrono` crates; the
//! two small modules [`ids`] and [`clock`] are the only places that call
//! them.

pub mod adapters;
pub mod clock;
pub mod domain;
pub mod ids;
pub mod ports;
pub mod services;
pub mod text;

pub use adapters::{
    CashPayment, ConsoleNotifier, CreditCardPayment, JsonOrderRepository, MemoryOrderRepository,
    OrderFile, Screen,
};
pub use clock::Timestamp;
pub use domain::{
    Beverage, Coffee, Customer, CustomerView, Order, OrderItem, OrderItemView, OrderStatus,
    OrderView, Size, Smoothie, Tea,
};
pub use ports::{
    NotificationError, Notifier, OrderRepository, PaymentError, PaymentProcessor, RepositoryError,
};
pub use services::{OrderService, OrderServiceError, PricingCalculator};
