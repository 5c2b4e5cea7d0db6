//! The business concepts: customers, orders and beverages. Nothing here
//! knows how orders are stored, paid for or announced.

pub mod beverage;
pub mod customer;
pub mod order;

pub use beverage::{Beverage, Coffee, Size, Smoothie, Tea};
pub use customer::{Customer, CustomerView};
pub use order::{Order, OrderItem, OrderItemView, OrderStatus, OrderView};
