use client_rust::fees::{airdrop_amount, required_fees};

#[test]
fn required_fees_exact() {
    // rent-exemption minimum plus 100 signatures' worth of fees
    assert_eq!(required_fees(10, 2), Some(210));
    assert_eq!(required_fees(0, 0), Some(0));
    assert_eq!(required_fees(1_000_000, 5_000), Some(1_500_000));
}

#[test]
fn required_fees_overflow_is_none() {
    assert_eq!(required_fees(u64::MAX, 1), None);
    assert_eq!(required_fees(0, u64::MAX), None);
    assert_eq!(required_fees(u64::MAX - 99, 1), None);
    assert_eq!(required_fees(u64::MAX - 100, 1), Some(u64::MAX));
}

#[test]
fn no_airdrop_when_funded() {
    assert_eq!(airdrop_amount(210, 210), None);
    assert_eq!(airdrop_amount(211, 210), None);
    assert_eq!(airdrop_amount(u64::MAX, 0), None);
}

#[test]
fn airdrop_is_exactly_the_deficit() {
    assert_eq!(airdrop_amount(0, 210), Some(210));
    assert_eq!(airdrop_amount(50, 210), Some(160));
    assert_eq!(airdrop_amount(209, 210), Some(1));
    assert_eq!(airdrop_amount(0, u64::MAX), Some(u64::MAX));
}
