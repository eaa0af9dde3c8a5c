use overworld::digits::{push_decimal, push_decimal_min3};

#[test]
fn plain_decimal_has_no_padding() {
    let mut s = String::new();
    push_decimal(&mut s, 0);
    assert_eq!(s, "0");
    let mut s = String::new();
    push_decimal(&mut s, 42);
    assert_eq!(s, "42");
    let mut s = String::new();
    push_decimal(&mut s, 65535);
    assert_eq!(s, "65535");
}

#[test]
fn padded_decimal_is_at_least_three_digits() {
    let mut s = String::new();
    push_decimal_min3(&mut s, 0);
    assert_eq!(s, "000");
    let mut s = String::new();
    push_decimal_min3(&mut s, 7);
    assert_eq!(s, "007");
    let mut s = String::new();
    push_decimal_min3(&mut s, 99);
    assert_eq!(s, "099");
    let mut s = String::new();
    push_decimal_min3(&mut s, 100);
    assert_eq!(s, "100");
    let mut s = String::new();
    push_decimal_min3(&mut s, 9999);
    assert_eq!(s, "9999");
}

#[test]
fn decimal_appends_after_existing_text() {
    let mut s = String::from("n=");
    push_decimal(&mut s, 151);
    assert_eq!(s, "n=151");
}
