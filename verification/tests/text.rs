use coffee_shop_solid::text::{labelled, money_text};

#[test]
fn labelled_puts_label_before_detail() {
    assert_eq!(labelled("Not found: ", "order 7"), "Not found: order 7");
    assert_eq!(labelled("", ""), "");
}

#[test]
fn money_is_dollars_and_two_decimals() {
    assert_eq!(money_text(0), "0.00");
    assert_eq!(money_text(5), "0.05");
    assert_eq!(money_text(50), "0.50");
    assert_eq!(money_text(350), "3.50");
    assert_eq!(money_text(1000), "10.00");
    assert_eq!(money_text(123_456_789), "1234567.89");
    assert_eq!(money_text(-1), "-0.01");
    assert_eq!(money_text(-350), "-3.50");
    assert_eq!(money_text(i128::MAX), "1701411834604692317316873037158841057.27");
    assert_eq!(money_text(i128::MIN), "-1701411834604692317316873037158841057.28");
}
