use house_finder::text::{cents_text, decimal, hex};

#[test]
fn decimal_of_zero_and_others() {
    assert_eq!(decimal(0), "0");
    assert_eq!(decimal(7), "7");
    assert_eq!(decimal(1234), "1234");
    assert_eq!(decimal(u64::MAX), u64::MAX.to_string());
}

#[test]
fn hex_two_digits_a_byte() {
    assert_eq!(hex(&vec![0x0f, 0xa0, 0x00, 0xff]), "0fa000ff");
    assert_eq!(hex(&Vec::new()), "");
}

#[test]
fn cents_with_two_decimals() {
    assert_eq!(cents_text(1290), "12.90");
    assert_eq!(cents_text(5), "0.05");
    assert_eq!(cents_text(0), "0.00");
}
