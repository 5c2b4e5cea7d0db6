use coffee_shop_solid::adapters::credit_card_payment::CARD_LIMIT;
use coffee_shop_solid::{CashPayment, CreditCardPayment, PaymentError, PaymentProcessor};

const GATEWAY: &str = "https://payment-gateway.example.com";

struct Barter;

impl PaymentProcessor for Barter {
    fn process_payment(&self, _amount: i128) -> Result<String, PaymentError> {
        Ok("BARTER".to_string())
    }
}

#[test]
fn test_cash_payment_success() {
    let payment = CashPayment;
    let result = payment.process_payment(1050);

    assert!(result.is_ok());
    let payment_id = result.unwrap();
    assert!(payment_id.starts_with("CASH-"));
}

#[test]
fn cash_payment_test_payment_method_name() {
    let payment = CashPayment;
    assert_eq!(payment.payment_method_name(), "Cash");
}

#[test]
fn test_credit_card_payment_success() {
    let payment = CreditCardPayment::new(GATEWAY.to_string());
    let result = payment.process_payment(5000);

    assert!(result.is_ok());
    let payment_id = result.unwrap();
    assert!(payment_id.starts_with("CC-"));
}

#[test]
fn test_credit_card_payment_negative_amount() {
    let payment = CreditCardPayment::new(GATEWAY.to_string());
    let result = payment.process_payment(-1000);

    assert!(result.is_err());
}

#[test]
fn test_credit_card_payment_exceeds_limit() {
    let payment = CreditCardPayment::new(GATEWAY.to_string());
    let result = payment.process_payment(150_000);

    assert!(result.is_err());
}

#[test]
fn credit_card_payment_test_payment_method_name() {
    let payment = CreditCardPayment::new(GATEWAY.to_string());
    assert_eq!(payment.payment_method_name(), "Credit Card");
}

#[test]
fn payment_id_is_prefix_and_hyphenated_uuid() {
    let id = CashPayment.process_payment(1).unwrap();
    let rest = id.strip_prefix("CASH-").unwrap();
    assert_eq!(rest.len(), 36);
    let parsed = uuid::Uuid::parse_str(rest).unwrap();
    assert_eq!(parsed.to_string(), rest);

    let id = CreditCardPayment::new(GATEWAY.to_string()).process_payment(1).unwrap();
    let rest = id.strip_prefix("CC-").unwrap();
    assert_eq!(uuid::Uuid::parse_str(rest).unwrap().to_string(), rest);
}

#[test]
fn payment_ids_differ_between_payments() {
    let first = CashPayment.process_payment(100).unwrap();
    let second = CashPayment.process_payment(100).unwrap();
    assert_ne!(first, second);
}

#[test]
fn credit_card_refusals_name_their_reason() {
    let payment = CreditCardPayment::new(GATEWAY.to_string());
    match payment.process_payment(-1) {
        Err(PaymentError::ProcessingFailed(reason)) => {
            assert_eq!(reason, "Amount cannot be negative")
        }
        other => panic!("unexpected answer: {:?}", other),
    }
    match payment.process_payment(CARD_LIMIT + 1) {
        Err(PaymentError::ProcessingFailed(reason)) => {
            assert_eq!(reason, "Amount exceeds card limit")
        }
        other => panic!("unexpected answer: {:?}", other),
    }
}

#[test]
fn credit_card_accepts_the_edges_of_its_range() {
    let payment = CreditCardPayment::new(GATEWAY.to_string());
    assert_eq!(CARD_LIMIT, 100_000);
    assert!(payment.process_payment(0).is_ok());
    assert!(payment.process_payment(CARD_LIMIT).is_ok());
}

#[test]
fn credit_card_keeps_its_gateway() {
    let payment = CreditCardPayment::new(GATEWAY.to_string());
    assert_eq!(payment.gateway_url(), GATEWAY);
}

#[test]
fn payment_method_name_has_a_default() {
    assert_eq!(Barter.payment_method_name(), "Unknown Payment Method");
}

#[test]
fn payment_errors_read_as_text() {
    assert_eq!(PaymentError::InsufficientFunds.to_string(), "Insufficient funds");
    assert_eq!(PaymentError::InvalidCard.to_string(), "Invalid card");
    assert_eq!(
        PaymentError::ProcessingFailed("declined".to_string()).to_string(),
        "Processing failed: declined"
    );
    assert_eq!(
        PaymentError::NetworkError("timeout".to_string()).to_string(),
        "Network error: timeout"
    );
    let copy = PaymentError::NetworkError("timeout".to_string()).clone();
    assert!(matches!(copy, PaymentError::NetworkError(reason) if reason == "timeout"));
}
