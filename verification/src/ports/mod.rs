//! The capabilities the order workflow depends on, as traits: storing orders,
//! capturing payment and notifying the customer. The workflow is written
//! against these traits only, so any implementation can be plugged in.

pub mod notifier;
pub mod payment;
pub mod repository;

pub use notifier::{NotificationError, Notifier};
pub use payment::{PaymentError, PaymentProcessor};
pub use repository::{OrderRepository, RepositoryError};
