use swap_bridge::error::ContractError;
use swap_bridge::state::Contract;
use swap_bridge::state::TokenWhiteList;

fn entry(address: &str, code_hash: &str, minimum_amount: u128) -> Contract {
    Contract {
        address: String::from(address),
        code_hash: String::from(code_hash),
        minimum_amount,
    }
}

#[test]
fn new_whitelist_is_empty() {
    let wl = TokenWhiteList::new();
    assert_eq!(wl.all().len(), 0);
}

#[test]
fn add_then_get_returns_the_entry() {
    let mut wl = TokenWhiteList::new();
    wl.add(&entry("token1", "hash1", 100));
    let got = wl.get(&String::from("token1")).unwrap();
    assert_eq!(got.address, "token1");
    assert_eq!(got.code_hash, "hash1");
    assert_eq!(got.minimum_amount, 100);
}

#[test]
fn get_absent_address_fails_not_found() {
    let wl = TokenWhiteList::new();
    let err = wl.get(&String::from("token1")).unwrap_err();
    assert_eq!(err, ContractError::NotFound);
}

#[test]
fn duplicate_add_keeps_one_entry_with_first_minimum() {
    let mut wl = TokenWhiteList::new();
    wl.add(&entry("token1", "hash1", 100));
    wl.add(&entry("token1", "hash2", 999));
    let all = wl.all();
    assert_eq!(all.len(), 1);
    assert_eq!(all[0].address, "token1");
    assert_eq!(all[0].code_hash, "hash1");
    assert_eq!(all[0].minimum_amount, 100);
    let got = wl.get(&String::from("token1")).unwrap();
    assert_eq!(got.minimum_amount, 100);
}

#[test]
fn remove_absent_address_is_a_noop() {
    let mut wl = TokenWhiteList::new();
    wl.add(&entry("token1", "hash1", 100));
    wl.remove(&String::from("token2"));
    let all = wl.all();
    assert_eq!(all.len(), 1);
    assert_eq!(all[0].address, "token1");
}

#[test]
fn remove_deletes_only_the_named_entry() {
    let mut wl = TokenWhiteList::new();
    wl.add(&entry("token1", "hash1", 100));
    wl.add(&entry("token2", "hash2", 200));
    wl.add(&entry("token3", "hash3", 300));
    wl.remove(&String::from("token2"));
    let all = wl.all();
    assert_eq!(all.len(), 2);
    assert_eq!(all[0].address, "token1");
    assert_eq!(all[1].address, "token3");
    assert_eq!(
        wl.get(&String::from("token2")).unwrap_err(),
        ContractError::NotFound
    );
}

#[test]
fn all_preserves_insertion_order() {
    let mut wl = TokenWhiteList::new();
    wl.add(&entry("b", "hb", 2));
    wl.add(&entry("a", "ha", 1));
    wl.add(&entry("c", "hc", 3));
    let all = wl.all();
    let names: Vec<&str> = all.iter().map(|c| c.address.as_str()).collect();
    assert_eq!(names, ["b", "a", "c"]);
}

#[test]
fn contract_equality_is_by_address_only() {
    let a = entry("token1", "hash1", 100);
    let b = entry("token1", "other", 5);
    let c = entry("token2", "hash1", 100);
    assert!(a == b);
    assert!(a != c);
}
