use chunked_migration::{L2ChainId, L2ChainIdError, U256};

#[test]
fn max_is_the_safe_integer_bound() {
    assert_eq!(L2ChainId::MAX, ((1u64 << 53) - 1 - 36) / 2);
    assert_eq!(L2ChainId::MAX, 4503599627370477);
}

#[test]
fn decimal_max_is_accepted() {
    let id = L2ChainId::from_str("4503599627370477").unwrap();
    assert_eq!(id, L2ChainId(U256::from_u64(L2ChainId::MAX)));
}

#[test]
fn decimal_above_max_is_refused() {
    assert!(matches!(L2ChainId::from_str("4503599627370478"), Err(L2ChainIdError::TooBig)));
    assert!(matches!(
        L2ChainId::from_str("18446744073709551616"),
        Err(L2ChainIdError::TooBig)
    ));
}

#[test]
fn hexadecimal_gives_the_same_identifier() {
    let decimal = L2ChainId::from_str("4503599627370477").unwrap();
    assert_eq!(L2ChainId::from_str("0xfffffffffffed").unwrap(), decimal);
    assert_eq!(L2ChainId::from_str("0xFFFFFFFFFFFED").unwrap(), decimal);
    assert_eq!(L2ChainId::from_str("fffffffffffed").unwrap(), decimal);
    assert!(matches!(L2ChainId::from_str("0xfffffffffffee"), Err(L2ChainIdError::TooBig)));
}

#[test]
fn decimal_is_tried_first() {
    assert_eq!(L2ChainId::from_str("270").unwrap(), L2ChainId::from(270));
    assert_eq!(L2ChainId::from_str("0x270").unwrap(), L2ChainId::from(0x270));
    assert_eq!(L2ChainId::from_str("0x10e").unwrap(), L2ChainId::from(270));
    assert_eq!(L2ChainId::from_str("1a").unwrap(), L2ChainId::from(26));
    assert_eq!(L2ChainId::from_str("").unwrap(), L2ChainId::from(0));
    assert_eq!(L2ChainId::from_str("0x").unwrap(), L2ChainId::from(0));
    assert_eq!(L2ChainId::from_str("007").unwrap(), L2ChainId::from(7));
}

#[test]
fn strings_that_spell_no_number_are_refused() {
    for text in ["zksync", "12 ", "-1", "0x0x1", "1_000", "+5", "0X1f", "12\u{e9}"] {
        assert!(
            matches!(L2ChainId::from_str(text), Err(L2ChainIdError::Malformed(_))),
            "{text:?}"
        );
    }
    let too_long = "1".repeat(65);
    assert!(matches!(L2ChainId::from_str(&format!("0x{too_long}")), Err(L2ChainIdError::Malformed(_))));
    let wide = "9".repeat(80);
    assert!(matches!(L2ChainId::from_str(&wide), Err(L2ChainIdError::Malformed(_))));
}

#[test]
fn wide_numbers_are_too_big() {
    let wide = "f".repeat(64);
    assert!(matches!(L2ChainId::from_str(&wide), Err(L2ChainIdError::TooBig)));
    let decimal = "1".repeat(70);
    assert!(matches!(L2ChainId::from_str(&decimal), Err(L2ChainIdError::TooBig)));
}

#[test]
fn default_chain_is_270() {
    assert_eq!(L2ChainId::default(), L2ChainId(U256::from_u64(270)));
    assert_eq!(L2ChainId::default(), L2ChainId::from(270));
}

#[test]
fn from_u64_takes_the_number_as_it_is() {
    let id = L2ChainId::from(u64::MAX);
    assert_eq!(id.0, U256 { word3: 0, word2: 0, word1: 0, word0: u64::MAX });
}

#[test]
fn decimal_reaches_to_256_bits() {
    // 2^256 - 1 is a number, though too big for a chain; 2^256 is none.
    let largest = "115792089237316195423570985008687907853269984665640564039457584007913129639935";
    let beyond = "115792089237316195423570985008687907853269984665640564039457584007913129639936";
    assert!(matches!(L2ChainId::from_str(largest), Err(L2ChainIdError::TooBig)));
    assert!(matches!(L2ChainId::from_str(beyond), Err(L2ChainIdError::Malformed(_))));
    let padded = format!("{}{}", "0".repeat(100), "42");
    assert_eq!(L2ChainId::from_str(&padded).unwrap(), L2ChainId::from(42));
}

#[test]
fn hexadecimal_takes_up_to_64_digits() {
    assert_eq!(L2ChainId::from_str("abc").unwrap(), L2ChainId::from(0xabc));
    assert_eq!(L2ChainId::from_str("0xABC").unwrap(), L2ChainId::from(0xabc));
    assert_eq!(L2ChainId::from_str("0xa").unwrap(), L2ChainId::from(10));
    assert_eq!(L2ChainId::from_str("aB").unwrap(), L2ChainId::from(0xab));
    let zeros = format!("0x{}a", "0".repeat(63));
    assert_eq!(L2ChainId::from_str(&zeros).unwrap(), L2ChainId::from(10));
    let full = format!("0x{}", "f".repeat(64));
    assert!(matches!(L2ChainId::from_str(&full), Err(L2ChainIdError::TooBig)));
    let over = format!("0x{}a", "0".repeat(64));
    assert!(matches!(L2ChainId::from_str(&over), Err(L2ChainIdError::Malformed(_))));
    let odd = "f".repeat(63);
    assert!(matches!(L2ChainId::from_str(&odd), Err(L2ChainIdError::TooBig)));
    assert!(matches!(L2ChainId::from_str("0xg"), Err(L2ChainIdError::Malformed(_))));
    assert!(matches!(L2ChainId::from_str("x1"), Err(L2ChainIdError::Malformed(_))));
    assert!(matches!(L2ChainId::from_str("a@"), Err(L2ChainIdError::Malformed(_))));
    assert!(matches!(L2ChainId::from_str("a`"), Err(L2ChainIdError::Malformed(_))));
    assert!(matches!(L2ChainId::from_str("aG"), Err(L2ChainIdError::Malformed(_))));
    assert!(matches!(L2ChainId::from_str("1/"), Err(L2ChainIdError::Malformed(_))));
    assert!(matches!(L2ChainId::from_str("1:"), Err(L2ChainIdError::Malformed(_))));
}
