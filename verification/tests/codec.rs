use borsh::{BorshDeserialize, BorshSerialize};
use client_rust::state::{decode_greeting, encode_greeting, greeting_size, GreetingState};

#[test]
fn greeting_size_is_four() {
    assert_eq!(greeting_size(), 4);
}

#[test]
fn greeting_size_matches_borsh() {
    let bytes = 0u32.try_to_vec().unwrap();
    assert_eq!(greeting_size(), bytes.len());
}

#[test]
fn encode_exact_bytes() {
    assert_eq!(encode_greeting(&GreetingState { counter: 5 }), vec![5, 0, 0, 0]);
    assert_eq!(encode_greeting(&GreetingState { counter: 258 }), vec![2, 1, 0, 0]);
    assert_eq!(encode_greeting(&GreetingState { counter: 0 }), vec![0, 0, 0, 0]);
    assert_eq!(
        encode_greeting(&GreetingState { counter: u32::MAX }),
        vec![255, 255, 255, 255]
    );
}

#[test]
fn round_trip_zero() {
    let bytes = encode_greeting(&GreetingState { counter: 0 });
    assert_eq!(decode_greeting(&bytes), Some(GreetingState { counter: 0 }));
}

#[test]
fn round_trip_max() {
    let bytes = encode_greeting(&GreetingState { counter: u32::MAX });
    assert_eq!(decode_greeting(&bytes), Some(GreetingState { counter: u32::MAX }));
}

#[test]
fn round_trip_various() {
    for counter in [1u32, 5, 6, 258, 65536, 16777216, 2147483648] {
        let bytes = encode_greeting(&GreetingState { counter });
        assert_eq!(decode_greeting(&bytes), Some(GreetingState { counter }));
    }
}

#[test]
fn encoding_matches_borsh() {
    for counter in [0u32, 1, 5, 258, 65535, u32::MAX] {
        let ours = encode_greeting(&GreetingState { counter });
        let borshs = counter.try_to_vec().unwrap();
        assert_eq!(ours, borshs);
        let back = u32::try_from_slice(&ours).unwrap();
        assert_eq!(back, counter);
    }
}

#[test]
fn decode_rejects_wrong_length() {
    assert_eq!(decode_greeting(&[]), None);
    assert_eq!(decode_greeting(&[1, 2, 3]), None);
    assert_eq!(decode_greeting(&[1, 2, 3, 4, 5]), None);
}

#[test]
fn borsh_rejects_what_we_reject() {
    assert!(u32::try_from_slice(&[1, 2, 3]).is_err());
    assert!(u32::try_from_slice(&[1, 2, 3, 4, 5]).is_err());
}
