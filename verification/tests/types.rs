use konto::types::AccountNumber;

#[test]
fn test_account_number_display() {
    let n = AccountNumber::new(1020);
    assert_eq!(n.to_string(), "1020");
}

#[test]
fn account_number_negative_and_zero_text() {
    assert_eq!(AccountNumber::new(-45).to_string(), "-45");
    assert_eq!(AccountNumber::new(0).to_string(), "0");
    assert_eq!(AccountNumber::new(i32::MIN).to_string(), "-2147483648");
}
