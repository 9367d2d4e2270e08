use swap_bridge::error::ContractError;
use swap_bridge::state::Mint;
use swap_bridge::state::MintLedger;
use swap_bridge::state::Swap;
use swap_bridge::state::SwapLedger;

fn swap(token: &str, source: &str, destination: &str, amount: u128) -> Swap {
    Swap {
        destination: String::from(destination),
        source: String::from(source),
        amount,
        token: String::from(token),
        nonce: 0,
    }
}

#[test]
fn nonces_count_up_from_zero_per_asset() {
    let mut ledger = SwapLedger::new();
    assert_eq!(ledger.store(swap("tokenA", "alice", "0xaa", 1)), 0);
    assert_eq!(ledger.store(swap("tokenA", "bob", "0xbb", 2)), 1);
    assert_eq!(ledger.store(swap("tokenB", "carol", "0xcc", 3)), 0);
    assert_eq!(ledger.store(swap("tokenA", "dave", "0xdd", 4)), 2);
    assert_eq!(ledger.store(swap("tokenB", "erin", "0xee", 5)), 1);
}

#[test]
fn stored_records_carry_their_nonce() {
    let mut ledger = SwapLedger::new();
    ledger.store(swap("tokenA", "alice", "0xaa", 1));
    ledger.store(swap("tokenA", "bob", "0xbb", 2));
    let token = String::from("tokenA");
    assert_eq!(ledger.get(&token, 0).unwrap().nonce, 0);
    assert_eq!(ledger.get(&token, 1).unwrap().nonce, 1);
}

#[test]
fn store_then_get_round_trips_the_record() {
    let mut ledger = SwapLedger::new();
    let nonce = ledger.store(swap("tokenA", "alice", "0xabc", 150));
    let got = ledger.get(&String::from("tokenA"), nonce).unwrap();
    assert_eq!(got.token, "tokenA");
    assert_eq!(got.source, "alice");
    assert_eq!(got.destination, "0xabc");
    assert_eq!(got.amount, 150);
    assert_eq!(got.nonce, nonce);
}

#[test]
fn get_out_of_range_or_unknown_asset_fails_not_found() {
    let mut ledger = SwapLedger::new();
    assert_eq!(
        ledger.get(&String::from("tokenA"), 0).unwrap_err(),
        ContractError::NotFound
    );
    ledger.store(swap("tokenA", "alice", "0xaa", 1));
    assert_eq!(
        ledger.get(&String::from("tokenA"), 1).unwrap_err(),
        ContractError::NotFound
    );
    assert_eq!(
        ledger.get(&String::from("tokenB"), 0).unwrap_err(),
        ContractError::NotFound
    );
}

#[test]
fn asset_histories_are_independent() {
    let mut ledger = SwapLedger::new();
    ledger.store(swap("tokenA", "alice", "0xaa", 1));
    ledger.store(swap("tokenB", "bob", "0xbb", 2));
    let a0 = ledger.get(&String::from("tokenA"), 0).unwrap();
    let b0 = ledger.get(&String::from("tokenB"), 0).unwrap();
    assert_eq!(a0.source, "alice");
    assert_eq!(b0.source, "bob");
}

fn mint(identifier: &str, amount: u128, address: &str) -> Mint {
    Mint {
        identifier: String::from(identifier),
        amount,
        address: String::from(address),
    }
}

#[test]
fn mint_store_records_the_identifier() {
    let mut ledger = MintLedger::new();
    assert!(!ledger.exists_id(&String::from("ext-1")));
    ledger.store(mint("ext-1", 200, "bob")).unwrap();
    assert!(ledger.exists_id(&String::from("ext-1")));
    assert!(!ledger.exists_id(&String::from("ext-2")));
}

#[test]
fn mint_store_rejects_a_duplicate_identifier() {
    let mut ledger = MintLedger::new();
    ledger.store(mint("ext-1", 200, "bob")).unwrap();
    let err = ledger.store(mint("ext-1", 300, "carol")).unwrap_err();
    assert_eq!(err, ContractError::AlreadyProcessed);
    assert!(ledger.exists_id(&String::from("ext-1")));
}
