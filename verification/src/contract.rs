//! The swap orchestrator: the bridge's two transactional flows
//! (burn-and-record, validate-and-mint), its administrative operations
//! and its read-only queries, over one explicit state object.
//!
//! Every operation either completes and returns a structured answer with
//! at most one outbound instruction, or fails with a stable error kind
//! and leaves the state exactly as it was (atomicity).

use vstd::prelude::*;
use crate::error::ContractError;
use crate::eth::valid_eth_address;
use crate::eth::validate_address;
use crate::msg::Env;
use crate::msg::HandleAnswer;
use crate::msg::HandleMsg;
use crate::msg::InitMsg;
use crate::msg::QueryAnswer;
use crate::msg::QueryMsg;
use crate::msg::ResponseStatus;
use crate::state::contains_addr;
use crate::state::add_entry;
use crate::state::remove_entry;
use crate::state::entry_for;
use crate::state::has_id;
use crate::state::Contract;
use crate::state::ContractV;
use crate::state::Mint;
use crate::state::MintLedger;
use crate::state::MintV;
use crate::state::State;
use crate::state::StateV;
use crate::state::Swap;
use crate::state::SwapLedger;
use crate::state::SwapV;
use crate::state::TokenWhiteList;
use crate::token_messages::addressed_to;
use crate::token_messages::is_burn;
use crate::token_messages::is_mint;
use crate::token_messages::is_register_receive;
use crate::token_messages::Instruction;
use crate::token_messages::TokenMsgs;

verus! {

/// The whole mutable store of one bridge instance.
#[derive(Debug)]
pub struct Bridge {
    pub config: State,
    pub whitelist: TokenWhiteList,
    pub swaps: SwapLedger,
    pub mints: MintLedger,
}

impl Bridge {
    /// All component invariants hold.
    pub open spec fn wf(&self) -> bool {
        self.whitelist.wf() && self.swaps.wf() && self.mints.wf()
    }
}

/// The answer of a command, with the outbound instructions (at most one)
/// for the token-contract collaborator.
#[derive(Debug)]
pub struct HandleResponse {
    pub messages: Vec<Instruction>,
    pub answer: HandleAnswer,
}

/// The first reason, if any, for which a deposit-burn call is rejected:
/// the pause gate, then whitelist membership of the calling token
/// contract, then the destination's address grammar, then the asset's
/// minimum transfer amount.
pub open spec fn burn_check(
    config: StateV,
    whitelist: Seq<ContractV>,
    caller: Seq<char>,
    amount: u128,
    destination: Seq<char>,
) -> Option<ContractError> {
    if config.paused {
        Some(ContractError::Paused)
    } else if !contains_addr(whitelist, caller) {
        Some(ContractError::UnknownToken)
    } else if !valid_eth_address(destination) {
        Some(ContractError::InvalidAddress)
    } else if amount < entry_for(whitelist, caller).minimum_amount {
        Some(ContractError::BelowMinimum)
    } else {
        None
    }
}

/// The first reason, if any, for which an external-deposit credit is
/// rejected: the pause gate, then whitelist membership of the target
/// asset, then idempotency of the deposit identifier.
pub open spec fn mint_check(
    config: StateV,
    whitelist: Seq<ContractV>,
    mints: Seq<MintV>,
    token: Seq<char>,
    identifier: Seq<char>,
) -> Option<ContractError> {
    if config.paused {
        Some(ContractError::Paused)
    } else if !contains_addr(whitelist, token) {
        Some(ContractError::UnknownToken)
    } else if has_id(mints, identifier) {
        Some(ContractError::AlreadyProcessed)
    } else {
        None
    }
}

/// Whitelists a token and returns the register-receive callback for it.
/// Shared by `init` and `add_token_contract`; performs no owner check.
pub fn _add_token(
    bridge: &mut Bridge,
    env: &Env,
    code_hash: &String,
    token_address: &String,
    minimum_amount: u128,
) -> (callback: TokenMsgs)
    requires
        old(bridge).wf(),
    ensures
        final(bridge).wf(),
        final(bridge).whitelist@ == add_entry(
            old(bridge).whitelist@,
            (ContractV { address: token_address@, code_hash: code_hash@, minimum_amount }),
        ),
        final(bridge).config == old(bridge).config,
        final(bridge).swaps == old(bridge).swaps,
        final(bridge).mints == old(bridge).mints,
        is_register_receive(callback, env.contract_code_hash@),
{
    let params = Contract {
        address: token_address.clone(),
        code_hash: code_hash.clone(),
        minimum_amount,
    };
    bridge.whitelist.add(&params);
    TokenMsgs::RegisterReceive { code_hash: env.contract_code_hash.clone(), padding: None }
}

/// Removes a token from the whitelist. Shared helper without owner check.
pub fn _rm_token(bridge: &mut Bridge, token_address: &String)
    requires
        old(bridge).wf(),
    ensures
        final(bridge).wf(),
        final(bridge).whitelist@ == remove_entry(old(bridge).whitelist@, token_address@),
        final(bridge).config == old(bridge).config,
        final(bridge).swaps == old(bridge).swaps,
        final(bridge).mints == old(bridge).mints,
{
    bridge.whitelist.remove(token_address);
}

/// Creates the bridge: owner set, pause flag down, whitelist empty but
/// for the optional initial token, both ledgers empty. When an initial
/// token is whitelisted, the register-receive instruction for it is
/// returned.
pub fn init(msg: InitMsg, env: &Env) -> (r: (Bridge, Option<Instruction>))
    requires
        msg.token_address is Some && msg.code_hash is Some ==> msg.minimum_amount is Some,
    ensures
        r.0.wf(),
        r.0.config@.owner == msg.owner@,
        !r.0.config@.paused,
        r.0.mints@ == Seq::<MintV>::empty(),
        forall|t: Seq<char>| #[trigger] r.0.swaps.swaps_of(t) == Seq::<SwapV>::empty(),
        msg.token_address is Some && msg.code_hash is Some ==> {
            let entry = ContractV {
                address: msg.token_address->0@,
                code_hash: msg.code_hash->0@,
                minimum_amount: msg.minimum_amount->0,
            };
            &&& r.0.whitelist@ == seq![entry]
            &&& r.1 matches Some(ins) && addressed_to(ins, entry) && is_register_receive(
                ins.msg,
                env.contract_code_hash@,
            )
        },
        !(msg.token_address is Some && msg.code_hash is Some) ==> r.0.whitelist@ == Seq::<
            ContractV,
        >::empty() && r.1 is None,
{
    let mut bridge = Bridge {
        config: State { owner: msg.owner, paused: false },
        whitelist: TokenWhiteList::new(),
        swaps: SwapLedger::new(),
        mints: MintLedger::new(),
    };
    if let Some(address) = msg.token_address {
        if let Some(hash) = msg.code_hash {
            let minimum_amount = msg.minimum_amount.unwrap();
            let callback = _add_token(&mut bridge, env, &hash, &address, minimum_amount);
            proof {
                assert(bridge.whitelist@ =~= seq![
                    ContractV { address: address@, code_hash: hash@, minimum_amount },
                ]);
            }
            let ins = Instruction {
                msg: callback,
                contract_addr: address,
                callback_code_hash: hash,
            };
            return (bridge, Some(ins));
        }
    }
    (bridge, None)
}

/// Whitelist add: owner only; emits the register-receive instruction to
/// the newly added token contract.
pub fn add_token_contract(
    bridge: &mut Bridge,
    env: &Env,
    address: String,
    code_hash: String,
    minimum_amount: u128,
) -> (r: Result<HandleResponse, ContractError>)
    requires
        old(bridge).wf(),
    ensures
        final(bridge).wf(),
        old(bridge).config@.owner != env.message_sender@ ==> r == Err::<
            HandleResponse,
            ContractError,
        >(ContractError::Unauthorized) && *final(bridge) == *old(bridge),
        old(bridge).config@.owner == env.message_sender@ ==> {
            let entry = ContractV { address: address@, code_hash: code_hash@, minimum_amount };
            &&& final(bridge).whitelist@ == add_entry(old(bridge).whitelist@, entry)
            &&& final(bridge).config == old(bridge).config
            &&& final(bridge).swaps == old(bridge).swaps
            &&& final(bridge).mints == old(bridge).mints
            &&& r matches Ok(resp) && resp.answer == (HandleAnswer::AddToken {
                status: ResponseStatus::Success,
            }) && resp.messages@.len() == 1 && addressed_to(resp.messages@[0], entry)
                && is_register_receive(resp.messages@[0].msg, env.contract_code_hash@)
        },
{
    if !bridge.config.is_owner(&env.message_sender) {
        return Err(ContractError::Unauthorized);
    }
    let callback = _add_token(bridge, env, &code_hash, &address, minimum_amount);
    let ins = Instruction { msg: callback, contract_addr: address, callback_code_hash: code_hash };
    let mut messages: Vec<Instruction> = Vec::new();
    messages.push(ins);
    Ok(
        HandleResponse {
            messages,
            answer: HandleAnswer::AddToken { status: ResponseStatus::Success },
        },
    )
}

/// Whitelist remove: owner only; removing an address that is not
/// whitelisted succeeds and changes nothing.
pub fn remove_token_contract(bridge: &mut Bridge, env: &Env, address: String) -> (r: Result<
    HandleResponse,
    ContractError,
>)
    requires
        old(bridge).wf(),
    ensures
        final(bridge).wf(),
        old(bridge).config@.owner != env.message_sender@ ==> r == Err::<
            HandleResponse,
            ContractError,
        >(ContractError::Unauthorized) && *final(bridge) == *old(bridge),
        old(bridge).config@.owner == env.message_sender@ ==> {
            &&& final(bridge).whitelist@ == remove_entry(old(bridge).whitelist@, address@)
            &&& final(bridge).config == old(bridge).config
            &&& final(bridge).swaps == old(bridge).swaps
            &&& final(bridge).mints == old(bridge).mints
            &&& r matches Ok(resp) && resp.answer == (HandleAnswer::RemoveToken {
                status: ResponseStatus::Success,
            }) && resp.messages@.len() == 0
        },
{
    if !bridge.config.is_owner(&env.message_sender) {
        return Err(ContractError::Unauthorized);
    }
    _rm_token(bridge, &address);
    Ok(
        HandleResponse {
            messages: Vec::new(),
            answer: HandleAnswer::RemoveToken { status: ResponseStatus::Success },
        },
    )
}

/// Owner replacement: owner only; the new owner takes effect at once.
pub fn change_owner(bridge: &mut Bridge, env: &Env, owner: String) -> (r: Result<
    HandleResponse,
    ContractError,
>)
    requires
        old(bridge).wf(),
    ensures
        final(bridge).wf(),
        old(bridge).config@.owner != env.message_sender@ ==> r == Err::<
            HandleResponse,
            ContractError,
        >(ContractError::Unauthorized) && *final(bridge) == *old(bridge),
        old(bridge).config@.owner == env.message_sender@ ==> {
            &&& final(bridge).config@.owner == owner@
            &&& final(bridge).config@.paused == old(bridge).config@.paused
            &&& final(bridge).whitelist == old(bridge).whitelist
            &&& final(bridge).swaps == old(bridge).swaps
            &&& final(bridge).mints == old(bridge).mints
            &&& r matches Ok(resp) && resp.answer == (HandleAnswer::ChangeOwner {
                status: ResponseStatus::Success,
            }) && resp.messages@.len() == 0
        },
{
    if !bridge.config.is_owner(&env.message_sender) {
        return Err(ContractError::Unauthorized);
    }
    bridge.config.owner = owner;
    Ok(
        HandleResponse {
            messages: Vec::new(),
            answer: HandleAnswer::ChangeOwner { status: ResponseStatus::Success },
        },
    )
}

/// Raises the pause flag: owner only. While it is up, both swap flows
/// are rejected with `Paused`.
pub fn pause_swap(bridge: &mut Bridge, env: &Env) -> (r: Result<HandleResponse, ContractError>)
    requires
        old(bridge).wf(),
    ensures
        final(bridge).wf(),
        old(bridge).config@.owner != env.message_sender@ ==> r == Err::<
            HandleResponse,
            ContractError,
        >(ContractError::Unauthorized) && *final(bridge) == *old(bridge),
        old(bridge).config@.owner == env.message_sender@ ==> {
            &&& final(bridge).config@ == (StateV { paused: true, ..old(bridge).config@ })
            &&& final(bridge).whitelist == old(bridge).whitelist
            &&& final(bridge).swaps == old(bridge).swaps
            &&& final(bridge).mints == old(bridge).mints
            &&& r matches Ok(resp) && resp.answer == (HandleAnswer::PauseSwap {
                status: ResponseStatus::Success,
            }) && resp.messages@.len() == 0
        },
{
    if !bridge.config.is_owner(&env.message_sender) {
        return Err(ContractError::Unauthorized);
    }
    bridge.config.paused = true;
    Ok(
        HandleResponse {
            messages: Vec::new(),
            answer: HandleAnswer::PauseSwap { status: ResponseStatus::Success },
        },
    )
}

/// Lowers the pause flag: owner only. Both swap flows work again.
pub fn unpause_swap(bridge: &mut Bridge, env: &Env) -> (r: Result<HandleResponse, ContractError>)
    requires
        old(bridge).wf(),
    ensures
        final(bridge).wf(),
        old(bridge).config@.owner != env.message_sender@ ==> r == Err::<
            HandleResponse,
            ContractError,
        >(ContractError::Unauthorized) && *final(bridge) == *old(bridge),
        old(bridge).config@.owner == env.message_sender@ ==> {
            &&& final(bridge).config@ == (StateV { paused: false, ..old(bridge).config@ })
            &&& final(bridge).whitelist == old(bridge).whitelist
            &&& final(bridge).swaps == old(bridge).swaps
            &&& final(bridge).mints == old(bridge).mints
            &&& r matches Ok(resp) && resp.answer == (HandleAnswer::UnpauseSwap {
                status: ResponseStatus::Success,
            }) && resp.messages@.len() == 0
        },
{
    if !bridge.config.is_owner(&env.message_sender) {
        return Err(ContractError::Unauthorized);
    }
    bridge.config.paused = false;
    Ok(
        HandleResponse {
            messages: Vec::new(),
            answer: HandleAnswer::UnpauseSwap { status: ResponseStatus::Success },
        },
    )
}

/// The deposit-burn flow: a whitelisted token contract (the caller,
/// `env.message_sender`) notifies of an incoming transfer of `amount`
/// from `sender`, to be bridged out to the destination carried in `msg`.
/// On success the transfer is appended to the caller's swap ledger with
/// the next nonce and one burn instruction is emitted; on any rejection
/// the state is left untouched and no ledger entry is produced.
pub fn burn_token(
    bridge: &mut Bridge,
    env: &Env,
    sender: String,
    amount: u128,
    msg: Option<String>,
) -> (r: Result<HandleResponse, ContractError>)
    requires
        old(bridge).wf(),
        msg is Some,
    ensures
        final(bridge).wf(),
        ({
            let chk = burn_check(
                old(bridge).config@,
                old(bridge).whitelist@,
                env.message_sender@,
                amount,
                msg->0@,
            );
            let entry = entry_for(old(bridge).whitelist@, env.message_sender@);
            let nonce = old(bridge).swaps.swaps_of(env.message_sender@).len() as u64;
            let rec = SwapV {
                destination: msg->0@,
                source: sender@,
                amount,
                token: env.message_sender@,
                nonce,
            };
            &&& (chk matches Some(e) ==> r == Err::<HandleResponse, ContractError>(e)
                && *final(bridge) == *old(bridge))
            &&& (chk is None ==> {
                &&& final(bridge).swaps.swaps_of(env.message_sender@) == old(bridge).swaps.swaps_of(env.message_sender@).push(rec)
                &&& forall|t: Seq<char>|
                    t != env.message_sender@ ==> #[trigger] final(bridge).swaps.swaps_of(t) == old(bridge).swaps.swaps_of(t)
                &&& final(bridge).config == old(bridge).config
                &&& final(bridge).whitelist == old(bridge).whitelist
                &&& final(bridge).mints == old(bridge).mints
                &&& r matches Ok(resp) && resp.answer == (HandleAnswer::Receive {
                    status: ResponseStatus::Success,
                    nonce,
                }) && resp.messages@.len() == 1 && addressed_to(resp.messages@[0], entry)
                    && is_burn(resp.messages@[0].msg, amount)
            })
        }),
{
    if bridge.config.paused {
        return Err(ContractError::Paused);
    }
    let params = match bridge.whitelist.get(&env.message_sender) {
        Ok(params) => params,
        Err(_) => {
            return Err(ContractError::UnknownToken);
        },
    };
    let destination = msg.unwrap();
    if let Err(e) = validate_address(destination.as_str()) {
        return Err(e);
    }
    if amount < params.minimum_amount {
        return Err(ContractError::BelowMinimum);
    }
    let source = sender;
    let token = env.message_sender.clone();
    let swap_store = Swap { destination, source, amount, token, nonce: 0 };
    let nonce = bridge.swaps.store(swap_store);
    let burn = TokenMsgs::Burn { amount, padding: None };
    let ins = Instruction {
        msg: burn,
        contract_addr: params.address,
        callback_code_hash: params.code_hash,
    };
    let mut messages: Vec<Instruction> = Vec::new();
    messages.push(ins);
    Ok(
        HandleResponse {
            messages,
            answer: HandleAnswer::Receive { status: ResponseStatus::Success, nonce },
        },
    )
}

/// The external-deposit credit flow: a relayer asserts that the deposit
/// identified by `identifier` happened on the external chain, asking for
/// `amount` of the whitelisted asset `token` to be minted to the
/// recipient `address`. The identifier is recorded before the mint
/// instruction is emitted, so that the same deposit can never be
/// credited twice; on any rejection the state is left untouched and no
/// mint instruction is produced.
pub fn mint_token(
    bridge: &mut Bridge,
    _env: &Env,
    address: String,
    identifier: String,
    amount: u128,
    token: String,
) -> (r: Result<HandleResponse, ContractError>)
    requires
        old(bridge).wf(),
    ensures
        final(bridge).wf(),
        ({
            let chk = mint_check(
                old(bridge).config@,
                old(bridge).whitelist@,
                old(bridge).mints@,
                token@,
                identifier@,
            );
            let entry = entry_for(old(bridge).whitelist@, token@);
            &&& (chk matches Some(e) ==> r == Err::<HandleResponse, ContractError>(e)
                && *final(bridge) == *old(bridge))
            &&& (chk is None ==> {
                &&& final(bridge).mints@ == old(bridge).mints@.push(
                    (MintV { identifier: identifier@, amount, address: address@ }),
                )
                &&& final(bridge).config == old(bridge).config
                &&& final(bridge).whitelist == old(bridge).whitelist
                &&& final(bridge).swaps == old(bridge).swaps
                &&& r matches Ok(resp) && resp.answer == (HandleAnswer::MintFromExtChain {
                    status: ResponseStatus::Success,
                }) && resp.messages@.len() == 1 && addressed_to(resp.messages@[0], entry)
                    && is_mint(resp.messages@[0].msg, amount, address@)
            })
        }),
{
    if bridge.config.paused {
        return Err(ContractError::Paused);
    }
    let params = match bridge.whitelist.get(&token) {
        Ok(params) => params,
        Err(_) => {
            return Err(ContractError::UnknownToken);
        },
    };
    let mint_store = Mint { identifier, amount, address: address.clone() };
    match bridge.mints.store(mint_store) {
        Ok(_) => {},
        Err(e) => {
            return Err(e);
        },
    }
    let mint_msg = TokenMsgs::Mint { amount, address, padding: None };
    let ins = Instruction {
        msg: mint_msg,
        contract_addr: params.address,
        callback_code_hash: params.code_hash,
    };
    let mut messages: Vec<Instruction> = Vec::new();
    messages.push(ins);
    Ok(
        HandleResponse {
            messages,
            answer: HandleAnswer::MintFromExtChain { status: ResponseStatus::Success },
        },
    )
}

/// Executes one command against the bridge. Exactly the contract of the
/// per-command function applies; the match below restates each one.
pub fn handle(bridge: &mut Bridge, env: &Env, msg: HandleMsg) -> (r: Result<
    HandleResponse,
    ContractError,
>)
    requires
        old(bridge).wf(),
        msg matches HandleMsg::Receive { msg: m, .. } ==> m is Some,
    ensures
        final(bridge).wf(),
        (match msg {
            HandleMsg::PauseSwap {  } => {
                &&& old(bridge).config@.owner != env.message_sender@ ==> r == Err::<
                    HandleResponse,
                    ContractError,
                >(ContractError::Unauthorized) && *final(bridge) == *old(bridge)
                &&& old(bridge).config@.owner == env.message_sender@ ==> {
                    &&& final(bridge).config@ == (StateV { paused: true, ..old(bridge).config@ })
                    &&& final(bridge).whitelist == old(bridge).whitelist
                    &&& final(bridge).swaps == old(bridge).swaps
                    &&& final(bridge).mints == old(bridge).mints
                    &&& r matches Ok(resp) && resp.answer == (HandleAnswer::PauseSwap {
                        status: ResponseStatus::Success,
                    }) && resp.messages@.len() == 0
                }
            },
            HandleMsg::UnpauseSwap {  } => {
                &&& old(bridge).config@.owner != env.message_sender@ ==> r == Err::<
                    HandleResponse,
                    ContractError,
                >(ContractError::Unauthorized) && *final(bridge) == *old(bridge)
                &&& old(bridge).config@.owner == env.message_sender@ ==> {
                    &&& final(bridge).config@ == (StateV { paused: false, ..old(bridge).config@ })
                    &&& final(bridge).whitelist == old(bridge).whitelist
                    &&& final(bridge).swaps == old(bridge).swaps
                    &&& final(bridge).mints == old(bridge).mints
                    &&& r matches Ok(resp) && resp.answer == (HandleAnswer::UnpauseSwap {
                        status: ResponseStatus::Success,
                    }) && resp.messages@.len() == 0
                }
            },
            HandleMsg::ChangeOwner { owner } => {
                &&& old(bridge).config@.owner != env.message_sender@ ==> r == Err::<
                    HandleResponse,
                    ContractError,
                >(ContractError::Unauthorized) && *final(bridge) == *old(bridge)
                &&& old(bridge).config@.owner == env.message_sender@ ==> {
                    &&& final(bridge).config@.owner == owner@
                    &&& final(bridge).config@.paused == old(bridge).config@.paused
                    &&& final(bridge).whitelist == old(bridge).whitelist
                    &&& final(bridge).swaps == old(bridge).swaps
                    &&& final(bridge).mints == old(bridge).mints
                    &&& r matches Ok(resp) && resp.answer == (HandleAnswer::ChangeOwner {
                        status: ResponseStatus::Success,
                    }) && resp.messages@.len() == 0
                }
            },
            HandleMsg::AddToken { address, code_hash, minimum_amount } => {
                let entry = ContractV { address: address@, code_hash: code_hash@, minimum_amount };
                &&& old(bridge).config@.owner != env.message_sender@ ==> r == Err::<
                    HandleResponse,
                    ContractError,
                >(ContractError::Unauthorized) && *final(bridge) == *old(bridge)
                &&& old(bridge).config@.owner == env.message_sender@ ==> {
                    &&& final(bridge).whitelist@ == add_entry(old(bridge).whitelist@, entry)
                    &&& final(bridge).config == old(bridge).config
                    &&& final(bridge).swaps == old(bridge).swaps
                    &&& final(bridge).mints == old(bridge).mints
                    &&& r matches Ok(resp) && resp.answer == (HandleAnswer::AddToken {
                        status: ResponseStatus::Success,
                    }) && resp.messages@.len() == 1 && addressed_to(resp.messages@[0], entry)
                        && is_register_receive(resp.messages@[0].msg, env.contract_code_hash@)
                }
            },
            HandleMsg::RemoveToken { address } => {
                &&& old(bridge).config@.owner != env.message_sender@ ==> r == Err::<
                    HandleResponse,
                    ContractError,
                >(ContractError::Unauthorized) && *final(bridge) == *old(bridge)
                &&& old(bridge).config@.owner == env.message_sender@ ==> {
                    &&& final(bridge).whitelist@ == remove_entry(old(bridge).whitelist@, address@)
                    &&& final(bridge).config == old(bridge).config
                    &&& final(bridge).swaps == old(bridge).swaps
                    &&& final(bridge).mints == old(bridge).mints
                    &&& r matches Ok(resp) && resp.answer == (HandleAnswer::RemoveToken {
                        status: ResponseStatus::Success,
                    }) && resp.messages@.len() == 0
                }
            },
            HandleMsg::MintFromExtChain { address, identifier, amount, token, .. } => {
                let chk = mint_check(
                    old(bridge).config@,
                    old(bridge).whitelist@,
                    old(bridge).mints@,
                    token@,
                    identifier@,
                );
                let entry = entry_for(old(bridge).whitelist@, token@);
                &&& chk matches Some(e) ==> r == Err::<HandleResponse, ContractError>(e) && *final(bridge)
                    == *old(bridge)
                &&& chk is None ==> {
                    &&& final(bridge).mints@ == old(bridge).mints@.push(
                        (MintV { identifier: identifier@, amount, address: address@ }),
                    )
                    &&& final(bridge).config == old(bridge).config
                    &&& final(bridge).whitelist == old(bridge).whitelist
                    &&& final(bridge).swaps == old(bridge).swaps
                    &&& r matches Ok(resp) && resp.answer == (HandleAnswer::MintFromExtChain {
                        status: ResponseStatus::Success,
                    }) && resp.messages@.len() == 1 && addressed_to(resp.messages@[0], entry)
                        && is_mint(resp.messages@[0].msg, amount, address@)
                }
            },
            HandleMsg::Receive { sender, msg: inner, amount } => {
                let chk = burn_check(
                    old(bridge).config@,
                    old(bridge).whitelist@,
                    env.message_sender@,
                    amount,
                    inner->0@,
                );
                let entry = entry_for(old(bridge).whitelist@, env.message_sender@);
                let nonce = old(bridge).swaps.swaps_of(env.message_sender@).len() as u64;
                let rec = SwapV {
                    destination: inner->0@,
                    source: sender@,
                    amount,
                    token: env.message_sender@,
                    nonce,
                };
                &&& chk matches Some(e) ==> r == Err::<HandleResponse, ContractError>(e) && *final(bridge)
                    == *old(bridge)
                &&& chk is None ==> {
                    &&& final(bridge).swaps.swaps_of(env.message_sender@) == old(
                        bridge,
                    ).swaps.swaps_of(env.message_sender@).push(rec)
                    &&& forall|t: Seq<char>|
                        t != env.message_sender@ ==> #[trigger] final(bridge).swaps.swaps_of(t)
                            == old(bridge).swaps.swaps_of(t)
                    &&& final(bridge).config == old(bridge).config
                    &&& final(bridge).whitelist == old(bridge).whitelist
                    &&& final(bridge).mints == old(bridge).mints
                    &&& r matches Ok(resp) && resp.answer == (HandleAnswer::Receive {
                        status: ResponseStatus::Success,
                        nonce,
                    }) && resp.messages@.len() == 1 && addressed_to(resp.messages@[0], entry)
                        && is_burn(resp.messages@[0].msg, amount)
                }
            },
        }),
{
    match msg {
        HandleMsg::PauseSwap {  } => pause_swap(bridge, env),
        HandleMsg::UnpauseSwap {  } => unpause_swap(bridge, env),
        HandleMsg::ChangeOwner { owner } => change_owner(bridge, env, owner),
        HandleMsg::AddToken { address, code_hash, minimum_amount } => add_token_contract(
            bridge,
            env,
            address,
            code_hash,
            minimum_amount,
        ),
        HandleMsg::RemoveToken { address } => remove_token_contract(bridge, env, address),
        HandleMsg::MintFromExtChain { address, identifier, amount, token, .. } => mint_token(
            bridge,
            env,
            address,
            identifier,
            amount,
            token,
        ),
        HandleMsg::Receive { sender, msg, amount } => burn_token(bridge, env, sender, amount, msg),
    }
}

/// Answers the swap query: the record of `token` at position `nonce`,
/// or `NotFound` when there is none.
pub fn query_swap(bridge: &Bridge, nonce: u64, token: String) -> (r: Result<
    QueryAnswer,
    ContractError,
>)
    requires
        bridge.wf(),
    ensures
        r is Ok <==> nonce < bridge.swaps.swaps_of(token@).len(),
        r matches Ok(a) ==> a matches QueryAnswer::Swap { result } && result@
            == bridge.swaps.swaps_of(token@)[nonce as int],
        r is Err ==> r == Err::<QueryAnswer, ContractError>(ContractError::NotFound),
{
    match bridge.swaps.get(&token, nonce) {
        Ok(swap) => Ok(QueryAnswer::Swap { result: swap }),
        Err(_) => Err(ContractError::NotFound),
    }
}

/// Answers the mint-status query: whether the identifier was credited.
pub fn query_mint(bridge: &Bridge, identifier: String) -> (r: Result<QueryAnswer, ContractError>)
    ensures
        r matches Ok(a) && a matches QueryAnswer::Mint { result } && result == has_id(
            bridge.mints@,
            identifier@,
        ),
{
    let result = bridge.mints.exists_id(&identifier);
    Ok(QueryAnswer::Mint { result })
}

/// Answers the token-list query: the whitelisted addresses, in insertion
/// order.
pub fn query_tokens(bridge: &Bridge) -> (r: Result<QueryAnswer, ContractError>)
    ensures
        r matches Ok(a) && a matches QueryAnswer::Tokens { result } && result@.len()
            == bridge.whitelist@.len() && (forall|k: int|
            0 <= k < bridge.whitelist@.len() ==> (#[trigger] result@[k])@
                == bridge.whitelist@[k].address),
{
    let tokens = bridge.whitelist.all();
    let mut result: Vec<String> = Vec::new();
    let mut i: usize = 0;
    while i < tokens.len()
        invariant
            0 <= i <= tokens@.len(),
            tokens@.map_values(|c: Contract| c@) == bridge.whitelist@,
            result@.len() == i,
            forall|k: int|
                0 <= k < i ==> (#[trigger] result@[k])@ == bridge.whitelist@[k].address,
        decreases tokens.len() - i,
    {
        result.push(tokens[i].address.clone());
        proof {
            assert(tokens@[i as int]@ == bridge.whitelist@[i as int]);
        }
        i = i + 1;
    }
    Ok(QueryAnswer::Tokens { result })
}

/// Answers one read-only query. Exactly the contract of the per-query
/// function applies; the match below restates each one.
pub fn query(bridge: &Bridge, msg: QueryMsg) -> (r: Result<QueryAnswer, ContractError>)
    requires
        bridge.wf(),
    ensures
        (match msg {
            QueryMsg::Swap { nonce, token } => {
                &&& r is Ok <==> nonce < bridge.swaps.swaps_of(token@).len()
                &&& r matches Ok(a) ==> a matches QueryAnswer::Swap { result } && result@
                    == bridge.swaps.swaps_of(token@)[nonce as int]
                &&& r is Err ==> r == Err::<QueryAnswer, ContractError>(ContractError::NotFound)
            },
            QueryMsg::MintById { identifier } => r matches Ok(a) && a matches QueryAnswer::Mint {
                result,
            } && result == has_id(bridge.mints@, identifier@),
            QueryMsg::Tokens {  } => r matches Ok(a) && a matches QueryAnswer::Tokens { result }
                && result@.len() == bridge.whitelist@.len() && (forall|k: int|
                0 <= k < bridge.whitelist@.len() ==> (#[trigger] result@[k])@
                    == bridge.whitelist@[k].address),
        }),
{
    match msg {
        QueryMsg::Swap { nonce, token } => query_swap(bridge, nonce, token),
        QueryMsg::MintById { identifier } => query_mint(bridge, identifier),
        QueryMsg::Tokens {  } => query_tokens(bridge),
    }
}

/// While the pause flag is up, both transactional flows are rejected
/// with `Paused`, whatever their other inputs.
pub proof fn lemma_paused_rejects_flows(
    config: StateV,
    whitelist: Seq<ContractV>,
    mints: Seq<MintV>,
    caller: Seq<char>,
    amount: u128,
    destination: Seq<char>,
    token: Seq<char>,
    identifier: Seq<char>,
)
    requires
        config.paused,
    ensures
        burn_check(config, whitelist, caller, amount, destination) == Some(ContractError::Paused),
        mint_check(config, whitelist, mints, token, identifier) == Some(ContractError::Paused),
{
}

/// While the pause flag is down, the flows succeed on every input that
/// passes the remaining gates: a whitelisted caller with a valid
/// destination and a sufficient amount can burn, and a fresh identifier
/// for a whitelisted asset can be credited. Together with
/// `lemma_paused_rejects_flows` and the contracts of `pause_swap` and
/// `unpause_swap` (which touch nothing but the flag), this says that
/// pausing halts both flows and unpausing restores them.
pub proof fn lemma_unpaused_flows_proceed(
    config: StateV,
    whitelist: Seq<ContractV>,
    mints: Seq<MintV>,
    caller: Seq<char>,
    amount: u128,
    destination: Seq<char>,
    token: Seq<char>,
    identifier: Seq<char>,
)
    requires
        !config.paused,
        contains_addr(whitelist, caller),
        valid_eth_address(destination),
        amount >= entry_for(whitelist, caller).minimum_amount,
        contains_addr(whitelist, token),
        !has_id(mints, identifier),
    ensures
        burn_check(config, whitelist, caller, amount, destination) is None,
        mint_check(config, whitelist, mints, token, identifier) is None,
{
}

/// Replay protection: once a credit for `identifier` has gone through
/// (extending the mint ledger with a record `m` for it), a further
/// credit with the same identifier is rejected with `AlreadyProcessed`
/// in every state that carries the extended ledger, for any target
/// asset that passes the earlier gates — so the mint instruction is
/// never duplicated.
pub proof fn lemma_credit_replay_rejected(
    mints: Seq<MintV>,
    m: MintV,
    config2: StateV,
    whitelist2: Seq<ContractV>,
    token2: Seq<char>,
)
    requires
        !config2.paused,
        contains_addr(whitelist2, token2),
    ensures
        mint_check(config2, whitelist2, mints.push(m), token2, m.identifier) == Some(
            ContractError::AlreadyProcessed,
        ),
{
    assert(mints.push(m)[mints.len() as int] == m);
}

} // verus!
