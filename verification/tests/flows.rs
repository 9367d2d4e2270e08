use swap_bridge::contract::add_token_contract;
use swap_bridge::contract::burn_token;
use swap_bridge::contract::change_owner;
use swap_bridge::contract::handle;
use swap_bridge::contract::init;
use swap_bridge::contract::mint_token;
use swap_bridge::contract::pause_swap;
use swap_bridge::contract::query;
use swap_bridge::contract::unpause_swap;
use swap_bridge::contract::Bridge;
use swap_bridge::error::ContractError;
use swap_bridge::msg::Env;
use swap_bridge::msg::HandleAnswer;
use swap_bridge::msg::HandleMsg;
use swap_bridge::msg::InitMsg;
use swap_bridge::msg::QueryAnswer;
use swap_bridge::msg::QueryMsg;
use swap_bridge::msg::ResponseStatus;
use swap_bridge::token_messages::TokenMsgs;

const DEST: &str = "0xabcabcabcabcabcabcabcabcabcabcabcabcabca";

fn env(sender: &str) -> Env {
    Env {
        message_sender: String::from(sender),
        contract_code_hash: String::from("bridge-hash"),
    }
}

/// A bridge owned by "owner" with "token1" whitelisted at minimum 100.
fn bridge_with_token1() -> Bridge {
    let msg = InitMsg {
        owner: String::from("owner"),
        token_address: Some(String::from("token1")),
        code_hash: Some(String::from("hash1")),
        minimum_amount: Some(100),
    };
    let (bridge, callback) = init(msg, &env("owner"));
    assert!(callback.is_some());
    bridge
}

#[test]
fn init_without_token_starts_empty_and_unpaused() {
    let msg = InitMsg {
        owner: String::from("owner"),
        token_address: None,
        code_hash: None,
        minimum_amount: None,
    };
    let (bridge, callback) = init(msg, &env("owner"));
    assert!(callback.is_none());
    assert_eq!(bridge.config.owner, "owner");
    assert!(!bridge.config.paused);
    assert_eq!(bridge.whitelist.all().len(), 0);
}

#[test]
fn init_with_token_whitelists_it_and_registers_receive() {
    let bridge = bridge_with_token1();
    let all = bridge.whitelist.all();
    assert_eq!(all.len(), 1);
    assert_eq!(all[0].address, "token1");
    assert_eq!(all[0].minimum_amount, 100);

    let msg = InitMsg {
        owner: String::from("owner"),
        token_address: Some(String::from("token1")),
        code_hash: Some(String::from("hash1")),
        minimum_amount: Some(100),
    };
    let (_, callback) = init(msg, &env("owner"));
    let ins = callback.unwrap();
    assert_eq!(ins.contract_addr, "token1");
    assert_eq!(ins.callback_code_hash, "hash1");
    match ins.msg {
        TokenMsgs::RegisterReceive { code_hash, padding } => {
            assert_eq!(code_hash, "bridge-hash");
            assert!(padding.is_none());
        }
        _ => panic!("expected a register-receive instruction"),
    }
}

#[test]
fn burn_succeeds_for_whitelisted_caller_above_minimum() {
    let mut bridge = bridge_with_token1();
    let resp = burn_token(
        &mut bridge,
        &env("token1"),
        String::from("alice"),
        150,
        Some(String::from(DEST)),
    )
    .unwrap();
    assert_eq!(
        resp.answer,
        HandleAnswer::Receive {
            status: ResponseStatus::Success,
            nonce: 0,
        }
    );
    assert_eq!(resp.messages.len(), 1);
    assert_eq!(resp.messages[0].contract_addr, "token1");
    assert_eq!(resp.messages[0].callback_code_hash, "hash1");
    match &resp.messages[0].msg {
        TokenMsgs::Burn { amount, padding } => {
            assert_eq!(*amount, 150);
            assert!(padding.is_none());
        }
        _ => panic!("expected a burn instruction"),
    }
    let stored = bridge.swaps.get(&String::from("token1"), 0).unwrap();
    assert_eq!(stored.source, "alice");
    assert_eq!(stored.destination, DEST);
    assert_eq!(stored.amount, 150);
    assert_eq!(stored.nonce, 0);
}

#[test]
fn burn_nonces_increase_per_caller() {
    let mut bridge = bridge_with_token1();
    for expected in 0..3u64 {
        let resp = burn_token(
            &mut bridge,
            &env("token1"),
            String::from("alice"),
            150,
            Some(String::from(DEST)),
        )
        .unwrap();
        assert_eq!(
            resp.answer,
            HandleAnswer::Receive {
                status: ResponseStatus::Success,
                nonce: expected,
            }
        );
    }
}

#[test]
fn burn_from_non_whitelisted_caller_fails_and_stores_nothing() {
    let mut bridge = bridge_with_token1();
    let err = burn_token(
        &mut bridge,
        &env("intruder"),
        String::from("alice"),
        150,
        Some(String::from(DEST)),
    )
    .unwrap_err();
    assert_eq!(err, ContractError::UnknownToken);
    assert_eq!(
        bridge.swaps.get(&String::from("intruder"), 0).unwrap_err(),
        ContractError::NotFound
    );
    assert_eq!(
        bridge.swaps.get(&String::from("token1"), 0).unwrap_err(),
        ContractError::NotFound
    );
}

#[test]
fn burn_below_minimum_fails_and_stores_nothing() {
    let mut bridge = bridge_with_token1();
    let err = burn_token(
        &mut bridge,
        &env("token1"),
        String::from("alice"),
        50,
        Some(String::from(DEST)),
    )
    .unwrap_err();
    assert_eq!(err, ContractError::BelowMinimum);
    assert_eq!(
        bridge.swaps.get(&String::from("token1"), 0).unwrap_err(),
        ContractError::NotFound
    );
}

#[test]
fn burn_with_malformed_destination_fails() {
    let mut bridge = bridge_with_token1();
    let err = burn_token(
        &mut bridge,
        &env("token1"),
        String::from("alice"),
        150,
        Some(String::from("0xnot-an-address")),
    )
    .unwrap_err();
    assert_eq!(err, ContractError::InvalidAddress);
}

#[test]
fn mint_succeeds_once_then_replays_are_rejected() {
    let mut bridge = bridge_with_token1();
    let resp = mint_token(
        &mut bridge,
        &env("relayer"),
        String::from("bob"),
        String::from("ext-1"),
        200,
        String::from("token1"),
    )
    .unwrap();
    assert_eq!(
        resp.answer,
        HandleAnswer::MintFromExtChain {
            status: ResponseStatus::Success,
        }
    );
    assert_eq!(resp.messages.len(), 1);
    assert_eq!(resp.messages[0].contract_addr, "token1");
    match &resp.messages[0].msg {
        TokenMsgs::Mint {
            amount,
            address,
            padding,
        } => {
            assert_eq!(*amount, 200);
            assert_eq!(address, "bob");
            assert!(padding.is_none());
        }
        _ => panic!("expected a mint instruction"),
    }

    let err = mint_token(
        &mut bridge,
        &env("relayer"),
        String::from("bob"),
        String::from("ext-1"),
        200,
        String::from("token1"),
    )
    .unwrap_err();
    assert_eq!(err, ContractError::AlreadyProcessed);
}

#[test]
fn mint_for_non_whitelisted_asset_fails() {
    let mut bridge = bridge_with_token1();
    let err = mint_token(
        &mut bridge,
        &env("relayer"),
        String::from("bob"),
        String::from("ext-1"),
        200,
        String::from("token2"),
    )
    .unwrap_err();
    assert_eq!(err, ContractError::UnknownToken);
    assert!(!bridge.mints.exists_id(&String::from("ext-1")));
}

#[test]
fn pause_halts_both_flows_and_unpause_restores_them() {
    let mut bridge = bridge_with_token1();
    pause_swap(&mut bridge, &env("owner")).unwrap();

    let burn_err = burn_token(
        &mut bridge,
        &env("token1"),
        String::from("alice"),
        150,
        Some(String::from(DEST)),
    )
    .unwrap_err();
    assert_eq!(burn_err, ContractError::Paused);
    let mint_err = mint_token(
        &mut bridge,
        &env("relayer"),
        String::from("bob"),
        String::from("ext-1"),
        200,
        String::from("token1"),
    )
    .unwrap_err();
    assert_eq!(mint_err, ContractError::Paused);

    unpause_swap(&mut bridge, &env("owner")).unwrap();

    assert!(burn_token(
        &mut bridge,
        &env("token1"),
        String::from("alice"),
        150,
        Some(String::from(DEST)),
    )
    .is_ok());
    assert!(mint_token(
        &mut bridge,
        &env("relayer"),
        String::from("bob"),
        String::from("ext-1"),
        200,
        String::from("token1"),
    )
    .is_ok());
}

#[test]
fn pause_and_unpause_require_the_owner() {
    let mut bridge = bridge_with_token1();
    assert_eq!(
        pause_swap(&mut bridge, &env("intruder")).unwrap_err(),
        ContractError::Unauthorized
    );
    assert!(!bridge.config.paused);
    pause_swap(&mut bridge, &env("owner")).unwrap();
    assert_eq!(
        unpause_swap(&mut bridge, &env("intruder")).unwrap_err(),
        ContractError::Unauthorized
    );
    assert!(bridge.config.paused);
}

#[test]
fn change_owner_hands_over_control() {
    let mut bridge = bridge_with_token1();
    assert_eq!(
        change_owner(&mut bridge, &env("intruder"), String::from("eve")).unwrap_err(),
        ContractError::Unauthorized
    );
    let resp = change_owner(&mut bridge, &env("owner"), String::from("new-owner")).unwrap();
    assert_eq!(
        resp.answer,
        HandleAnswer::ChangeOwner {
            status: ResponseStatus::Success,
        }
    );
    assert_eq!(
        pause_swap(&mut bridge, &env("owner")).unwrap_err(),
        ContractError::Unauthorized
    );
    assert!(pause_swap(&mut bridge, &env("new-owner")).is_ok());
}

#[test]
fn add_token_requires_the_owner() {
    let mut bridge = bridge_with_token1();
    let err = add_token_contract(
        &mut bridge,
        &env("intruder"),
        String::from("token2"),
        String::from("hash2"),
        5,
    )
    .unwrap_err();
    assert_eq!(err, ContractError::Unauthorized);
    assert_eq!(bridge.whitelist.all().len(), 1);
}

#[test]
fn handle_dispatches_the_whole_command_surface() {
    let mut bridge = bridge_with_token1();
    let owner_env = env("owner");

    let resp = handle(
        &mut bridge,
        &owner_env,
        HandleMsg::AddToken {
            address: String::from("token2"),
            code_hash: String::from("hash2"),
            minimum_amount: 10,
        },
    )
    .unwrap();
    assert_eq!(
        resp.answer,
        HandleAnswer::AddToken {
            status: ResponseStatus::Success,
        }
    );
    assert_eq!(resp.messages.len(), 1);
    assert_eq!(resp.messages[0].contract_addr, "token2");

    let resp = handle(
        &mut bridge,
        &env("token2"),
        HandleMsg::Receive {
            sender: String::from("alice"),
            msg: Some(String::from(DEST)),
            amount: 10,
        },
    )
    .unwrap();
    assert_eq!(
        resp.answer,
        HandleAnswer::Receive {
            status: ResponseStatus::Success,
            nonce: 0,
        }
    );

    let resp = handle(
        &mut bridge,
        &env("relayer"),
        HandleMsg::MintFromExtChain {
            address: String::from("bob"),
            identifier: String::from("ext-9"),
            amount: 25,
            token: String::from("token2"),
            padding: None,
        },
    )
    .unwrap();
    assert_eq!(
        resp.answer,
        HandleAnswer::MintFromExtChain {
            status: ResponseStatus::Success,
        }
    );

    let resp = handle(
        &mut bridge,
        &owner_env,
        HandleMsg::RemoveToken {
            address: String::from("token2"),
        },
    )
    .unwrap();
    assert_eq!(
        resp.answer,
        HandleAnswer::RemoveToken {
            status: ResponseStatus::Success,
        }
    );
    assert_eq!(bridge.whitelist.all().len(), 1);

    let resp = handle(&mut bridge, &owner_env, HandleMsg::PauseSwap {}).unwrap();
    assert_eq!(
        resp.answer,
        HandleAnswer::PauseSwap {
            status: ResponseStatus::Success,
        }
    );
    let resp = handle(&mut bridge, &owner_env, HandleMsg::UnpauseSwap {}).unwrap();
    assert_eq!(
        resp.answer,
        HandleAnswer::UnpauseSwap {
            status: ResponseStatus::Success,
        }
    );
    let resp = handle(
        &mut bridge,
        &owner_env,
        HandleMsg::ChangeOwner {
            owner: String::from("owner2"),
        },
    )
    .unwrap();
    assert_eq!(
        resp.answer,
        HandleAnswer::ChangeOwner {
            status: ResponseStatus::Success,
        }
    );
}

#[test]
fn queries_report_swaps_mints_and_tokens() {
    let mut bridge = bridge_with_token1();
    burn_token(
        &mut bridge,
        &env("token1"),
        String::from("alice"),
        150,
        Some(String::from(DEST)),
    )
    .unwrap();
    mint_token(
        &mut bridge,
        &env("relayer"),
        String::from("bob"),
        String::from("ext-1"),
        200,
        String::from("token1"),
    )
    .unwrap();

    match query(
        &bridge,
        QueryMsg::Swap {
            nonce: 0,
            token: String::from("token1"),
        },
    )
    .unwrap()
    {
        QueryAnswer::Swap { result } => {
            assert_eq!(result.source, "alice");
            assert_eq!(result.amount, 150);
            assert_eq!(result.nonce, 0);
        }
        _ => panic!("expected a swap answer"),
    }

    assert_eq!(
        query(
            &bridge,
            QueryMsg::Swap {
                nonce: 1,
                token: String::from("token1"),
            },
        )
        .unwrap_err(),
        ContractError::NotFound
    );

    match query(
        &bridge,
        QueryMsg::MintById {
            identifier: String::from("ext-1"),
        },
    )
    .unwrap()
    {
        QueryAnswer::Mint { result } => assert!(result),
        _ => panic!("expected a mint answer"),
    }
    match query(
        &bridge,
        QueryMsg::MintById {
            identifier: String::from("ext-2"),
        },
    )
    .unwrap()
    {
        QueryAnswer::Mint { result } => assert!(!result),
        _ => panic!("expected a mint answer"),
    }

    match query(&bridge, QueryMsg::Tokens {}).unwrap() {
        QueryAnswer::Tokens { result } => {
            assert_eq!(result, ["token1"]);
        }
        _ => panic!("expected a tokens answer"),
    }
}
