use swap_bridge::error::ContractError;
use swap_bridge::eth::validate_address;

const BODY: &str = "0123456789abcdef0123456789ABCDEF01234567";

#[test]
fn accepts_forty_hex_digits_with_prefix() {
    let addr = format!("0x{}", BODY);
    assert!(validate_address(&addr).is_ok());
}

#[test]
fn accepts_forty_hex_digits_without_prefix() {
    assert!(validate_address(BODY).is_ok());
}

#[test]
fn rejects_short_and_long_bodies() {
    assert_eq!(
        validate_address("0x123"),
        Err(ContractError::InvalidAddress)
    );
    let long = format!("0x{}0", BODY);
    assert_eq!(validate_address(&long), Err(ContractError::InvalidAddress));
    let no_prefix_41 = format!("{}0", BODY);
    assert_eq!(
        validate_address(&no_prefix_41),
        Err(ContractError::InvalidAddress)
    );
}

#[test]
fn rejects_non_hex_characters() {
    let bad = format!("0x{}g", &BODY[..39]);
    assert_eq!(validate_address(&bad), Err(ContractError::InvalidAddress));
    let spaced = format!("0x{} ", &BODY[..39]);
    assert_eq!(
        validate_address(&spaced),
        Err(ContractError::InvalidAddress)
    );
}

#[test]
fn rejects_empty_and_prefix_only() {
    assert_eq!(validate_address(""), Err(ContractError::InvalidAddress));
    assert_eq!(validate_address("0x"), Err(ContractError::InvalidAddress));
}

#[test]
fn strips_only_a_single_prefix() {
    let doubled = format!("0x0x{}", &BODY[..38]);
    assert_eq!(
        validate_address(&doubled),
        Err(ContractError::InvalidAddress)
    );
}

#[test]
fn capital_prefix_is_not_a_prefix() {
    let capital = format!("0X{}", BODY);
    assert_eq!(
        validate_address(&capital),
        Err(ContractError::InvalidAddress)
    );
}
