use eip55::model::{BODY_LEN, PREFIXED_LEN};
use eip55::{to_checksum_address, Checksum, Error, PREFIX};

#[test]
fn test_checksum_from_str() {
    let prefixed_checksum = "0xe0FC04FA2d34a66B779fd5CEe748268032a146c0";

    let addr_lowercase = "0xe0fc04fa2d34a66b779fd5cee748268032a146c0";
    let checksummed = Checksum::from_str(&addr_lowercase).expect("Should be valid String!");

    assert_eq!(PREFIX, &checksummed[..2]);
    assert_eq!(checksummed, prefixed_checksum);

    let addr_uppercase = "0xE0FC04FA2D34A66B779FD5CEE748268032A146C0";
    let checksummed = Checksum::from_str(&addr_uppercase).expect("Should be valid String!");

    assert_eq!(PREFIX, &checksummed[..2]);
    assert_eq!(checksummed, prefixed_checksum);
}

#[test]
fn test_invalid_hex_char() {
    let hex_char = "eqfc04fa2d34a66b779fd5cee748268032a146c0";

    let expected_err = Error::HexChar {
        value: 'q',
        index: 1,
    };
    assert_eq!(Err(expected_err), Checksum::from_str(hex_char));
}

#[test]
fn prefix_is_zero_x() {
    assert_eq!(PREFIX, "0x");
    assert_eq!(BODY_LEN, 40);
    assert_eq!(PREFIXED_LEN, 42);
}

#[test]
fn unprefixed_address_is_encoded_without_prefix() {
    assert_eq!(
        Checksum::from_str("e0fc04fa2d34a66b779fd5cee748268032a146c0"),
        Ok(String::from("e0FC04FA2d34a66B779fd5CEe748268032a146c0"))
    );
}

#[test]
fn to_checksum_address_encodes_a_body() {
    assert_eq!(
        to_checksum_address("e0fc04fa2d34a66b779fd5cee748268032a146c0"),
        Ok(String::from("e0FC04FA2d34a66B779fd5CEe748268032a146c0"))
    );
    assert_eq!(
        to_checksum_address("E0FC04FA2D34A66B779FD5CEE748268032A146C0"),
        Ok(String::from("e0FC04FA2d34a66B779fd5CEe748268032a146c0"))
    );
}

#[test]
fn to_checksum_address_reports_first_bad_character() {
    assert_eq!(
        to_checksum_address("e0fc04fa2d34a66b779fd5cee748268032a146cz"),
        Err(Error::HexChar { value: 'z', index: 39 })
    );
}

#[test]
fn mixed_case_vectors() {
    let vectors = [
        "0x5aAeb6053F3E94C9b9A09f33669435E7Ef1BeAed",
        "0xfB6916095ca1df60bB79Ce92cE3Ea74c37c5d359",
        "0xdbF03B407c01E7cD3CBea99509d93f8DDDC8C6FB",
        "0xD1220A0cf47c7B9Be7A2E6BA89F429762e7b9aDb",
    ];
    for expected in vectors {
        let lower = expected.to_lowercase();
        assert_eq!(Checksum::from_str(&lower), Ok(String::from(expected)));
        let upper = format!("0x{}", expected[2..].to_uppercase());
        assert_eq!(Checksum::from_str(&upper), Ok(String::from(expected)));
        assert_eq!(Checksum::from_str(expected), Ok(String::from(expected)));
    }
}

#[test]
fn all_upper_case_vectors() {
    let vectors = [
        "0x52908400098527886E0F7030069857D2E4169EE7",
        "0x8617E340B3D01FA5F11F306F4090FD50E238070D",
    ];
    for expected in vectors {
        let lower = expected.to_lowercase();
        assert_eq!(Checksum::from_str(&lower), Ok(String::from(expected)));
    }
}

#[test]
fn all_lower_case_vectors() {
    let vectors = [
        "0xde709f2102306220921060314715629080e2fb77",
        "0x27b1fdb04752bbc536007a920d24acb045561c26",
    ];
    for expected in vectors {
        let upper = format!("0x{}", expected[2..].to_uppercase());
        assert_eq!(Checksum::from_str(&upper), Ok(String::from(expected)));
    }
}

#[test]
fn digits_only_address_is_unchanged() {
    let digits = "0123456789012345678901234567890123456789";
    assert_eq!(Checksum::from_str(digits), Ok(String::from(digits)));
    let prefixed = "0x0123456789012345678901234567890123456789";
    assert_eq!(Checksum::from_str(prefixed), Ok(String::from(prefixed)));
}

#[test]
fn input_case_is_ignored() {
    let mixed = "0xE0fC04Fa2D34a66b779Fd5cEE748268032A146c0";
    let lower = mixed.to_lowercase();
    assert_eq!(Checksum::from_str(mixed), Checksum::from_str(&lower));
    assert_eq!(
        Checksum::from_str(mixed),
        Ok(String::from("0xe0FC04FA2d34a66B779fd5CEe748268032a146c0"))
    );
    let body = "E0fC04Fa2D34a66b779Fd5cEE748268032A146c0";
    assert_eq!(Checksum::from_str(body), Checksum::from_str(&body.to_lowercase()));
}

#[test]
fn encoding_keeps_length_and_digits() {
    for input in [
        "0xe0fc04fa2d34a66b779fd5cee748268032a146c0",
        "e0fc04fa2d34a66b779fd5cee748268032a146c0",
        "0xD1220A0CF47C7B9BE7A2E6BA89F429762E7B9ADB",
    ] {
        let encoded = Checksum::from_str(input).unwrap();
        assert_eq!(encoded.len(), input.len());
        for (a, b) in input.chars().zip(encoded.chars()) {
            if a.is_ascii_digit() {
                assert_eq!(a, b);
            }
            assert_eq!(a.to_ascii_lowercase(), b.to_ascii_lowercase());
        }
    }
}

#[test]
fn prefix_passes_through() {
    let encoded = Checksum::from_str("0xfb6916095ca1df60bb79ce92ce3ea74c37c5d359").unwrap();
    assert_eq!(encoded.len(), 42);
    assert!(encoded.starts_with("0x"));
    let body = Checksum::from_str("fb6916095ca1df60bb79ce92ce3ea74c37c5d359").unwrap();
    assert_eq!(&encoded[2..], body);
}

#[test]
fn encoding_twice_gives_the_same() {
    let input = "0xdbf03b407c01e7cd3cbea99509d93f8dddc8c6fb";
    assert_eq!(Checksum::from_str(input), Checksum::from_str(input));
    let bad = "0xdbf03b407c01e7cd3cbea99509d93f8dddc8c6fg";
    assert_eq!(Checksum::from_str(bad), Checksum::from_str(bad));
}

#[test]
fn encoding_an_encoding_gives_it_back() {
    let encoded = Checksum::from_str("0x5aaeb6053f3e94c9b9a09f33669435e7ef1beaed").unwrap();
    assert_eq!(Checksum::from_str(&encoded), Ok(encoded.clone()));
}
