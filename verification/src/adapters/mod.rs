//! Ready-made implementations of the capabilities in [`crate::ports`].

pub mod cash_payment;
pub mod console_notifier;
pub mod credit_card_payment;
pub mod json_storage;
pub mod memory_storage;

pub use cash_payment::CashPayment;
pub use console_notifier::{ConsoleNotifier, Screen};
pub use credit_card_payment::CreditCardPayment;
pub use json_storage::{JsonOrderRepository, OrderFile};
pub use memory_storage::MemoryOrderRepository;
