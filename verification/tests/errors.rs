use swap_bridge::error::ContractError;

#[test]
fn error_messages_are_stable() {
    assert_eq!(
        ContractError::Paused.message(),
        "Swap contract is currently paused"
    );
    assert_eq!(ContractError::UnknownToken.message(), "Unknown token");
    assert_eq!(
        ContractError::NotFound.message(),
        "Token address not in whitelist"
    );
    assert_eq!(
        ContractError::AlreadyProcessed.message(),
        "Mint already exists"
    );
    assert!(!ContractError::Unauthorized.message().is_empty());
    assert!(!ContractError::InvalidAddress.message().is_empty());
    assert!(!ContractError::BelowMinimum.message().is_empty());
}

#[test]
fn error_kinds_are_distinguishable() {
    assert_ne!(ContractError::Paused, ContractError::Unauthorized);
    assert_ne!(ContractError::UnknownToken, ContractError::NotFound);
    assert_ne!(ContractError::BelowMinimum, ContractError::AlreadyProcessed);
}
