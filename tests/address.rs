use bridge_events::address::{eth_address_hex, get_eth_address, AddressError, EthAddress};

fn counting() -> EthAddress {
    let mut a = [0u8; 20];
    for (i, b) in a.iter_mut().enumerate() {
        *b = i as u8;
    }
    a
}

#[test]
fn parses_counting_address() {
    let a = get_eth_address("000102030405060708090a0b0c0d0e0f10111213".to_string()).unwrap();
    assert_eq!(a, counting());
}

#[test]
fn parses_upper_and_mixed_case() {
    let a = get_eth_address("FFfe00A0b1C2d3E4f5061728394a5B6c7D8e9FA0".to_string()).unwrap();
    assert_eq!(a[0], 0xff);
    assert_eq!(a[1], 0xfe);
    assert_eq!(a[3], 0xa0);
    assert_eq!(a[19], 0xa0);
}

#[test]
fn round_trip_gives_lowercase_text() {
    let text = "FFfe00A0b1C2d3E4f5061728394a5B6c7D8e9FA0";
    let a = get_eth_address(text.to_string()).unwrap();
    assert_eq!(eth_address_hex(&a), text.to_lowercase());
    let lower = "000102030405060708090a0b0c0d0e0f10111213";
    let b = get_eth_address(lower.to_string()).unwrap();
    assert_eq!(eth_address_hex(&b), lower);
}

#[test]
fn writes_address_as_hex() {
    assert_eq!(eth_address_hex(&counting()), "000102030405060708090a0b0c0d0e0f10111213");
    assert_eq!(eth_address_hex(&[0xab; 20]), "ab".repeat(20));
}

#[test]
fn rejects_odd_length() {
    assert_eq!(get_eth_address("abc".to_string()), Err(AddressError::OddLength));
    assert_eq!(get_eth_address("0".repeat(39)), Err(AddressError::OddLength));
}

#[test]
fn rejects_non_hex_character() {
    let mut text = "0".repeat(40);
    text.replace_range(5..6, "g");
    assert_eq!(
        get_eth_address(text),
        Err(AddressError::InvalidHexCharacter { c: 'g', index: 5 })
    );
    let prefixed = format!("0x{}", "0".repeat(38));
    assert_eq!(
        get_eth_address(prefixed),
        Err(AddressError::InvalidHexCharacter { c: 'x', index: 1 })
    );
    assert!(get_eth_address(format!("é{}", "0".repeat(38))).is_err());
}

#[test]
fn rejects_wrong_byte_count() {
    assert_eq!(get_eth_address("00".repeat(19)), Err(AddressError::InvalidLength));
    assert_eq!(get_eth_address("00".repeat(21)), Err(AddressError::InvalidLength));
    assert_eq!(get_eth_address(String::new()), Err(AddressError::InvalidLength));
}
