//! The workflows built on the domain and the ports.

pub mod order_service;
pub mod pricing_calculator;

pub use order_service::{OrderService, OrderServiceError};
pub use pricing_calculator::PricingCalculator;
