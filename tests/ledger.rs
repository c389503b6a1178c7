use tg_payments::amount::Uint256;
use layer_climb_proto::{authz::MsgExec, bank::MsgSend, Message};
use tg_payments::escrow::Coin;
use tg_payments::ledger::{reply, ContractError, CosmosMsg, Ledger, Response};
use tg_payments::msg::{Auth, InstantiateMsg, RegisterReceiveMsg, SendPaymentMsg, WavsPayload};

const CONTRACT: &str = "contract";

fn setup_contract_with_admin(admin: &str) -> Ledger {
    let msg = InstantiateMsg {
        allowed_denoms: vec!["untrn".to_string(), "uatom".to_string()],
        auth: Auth::Admin(admin.to_string()),
    };
    let (ledger, _) = Ledger::instantiate(msg, true).unwrap();
    ledger
}

fn register_msg(handle: &str, addr: &str) -> RegisterReceiveMsg {
    RegisterReceiveMsg { message_id: 1, tg_handle: handle.to_string(), chain_addr: addr.to_string() }
}

fn send_msg(from: &str, to: &str, amount: u128, denom: &str) -> SendPaymentMsg {
    send_big(from, to, Uint256::from(amount), denom)
}

fn send_big(from: &str, to: &str, amount: Uint256, denom: &str) -> SendPaymentMsg {
    SendPaymentMsg {
        message_id: 2,
        from_tg: from.to_string(),
        to_tg: to.to_string(),
        amount,
        denom: denom.to_string(),
    }
}

fn attr_pairs(resp: &Response) -> Vec<(String, String)> {
    resp.attributes.iter().map(|a| (a.key.clone(), a.value.clone())).collect()
}

fn coin(amount: u128, denom: &str) -> Coin {
    Coin { amount: Uint256::from(amount), denom: denom.to_string() }
}

/// Decodes a delegated transfer into (grantee, from, to, amount, denom).
fn decode_delegated(msg: &CosmosMsg) -> (String, String, String, String, String) {
    match msg {
        CosmosMsg::Any { type_url, value } => {
            assert_eq!(type_url, "/cosmos.authz.v1beta1.MsgExec");
            let exec = MsgExec::decode(value.as_slice()).unwrap();
            assert_eq!(exec.msgs.len(), 1);
            assert_eq!(exec.msgs[0].type_url, "/cosmos.bank.v1beta1.MsgSend");
            let send = MsgSend::decode(exec.msgs[0].value.as_slice()).unwrap();
            assert_eq!(send.amount.len(), 1);
            (
                exec.grantee,
                send.from_address,
                send.to_address,
                send.amount[0].amount.clone(),
                send.amount[0].denom.clone(),
            )
        }
        other => panic!("expected a delegated transfer, got {:?}", other),
    }
}

/// A ledger where `@bob` at `bob_addr` may send.
fn ledger_with_sender() -> Ledger {
    let mut ledger = setup_contract_with_admin("admin");
    ledger.register_receive("admin", register_msg("@bob", "bob_addr"), true).unwrap();
    ledger.register_send("bob_addr", "@bob".to_string()).unwrap();
    ledger
}

#[test]
fn test_instantiate_unit() {
    let msg = InstantiateMsg {
        allowed_denoms: vec!["untrn".to_string(), "uatom".to_string()],
        auth: Auth::Admin("admin".to_string()),
    };
    let (_, res) = Ledger::instantiate(msg, true).unwrap();
    assert_eq!(res.attributes.len(), 2);
    assert_eq!(res.attributes[0].key, "method");
    assert_eq!(res.attributes[0].value, "instantiate");
}

#[test]
fn test_instantiate_with_admin() {
    let ledger = setup_contract_with_admin("admin");
    let admin_response = ledger.admin();
    assert_eq!(admin_response.admin, Some("admin".to_string()));
}

#[test]
fn test_register_receive_creates_open_account() {
    let mut ledger = setup_contract_with_admin("admin");
    let user_addr = "user123";
    let tg_handle = "@alice";
    ledger.register_receive("admin", register_msg(tg_handle, user_addr), true).unwrap();
    assert_eq!(ledger.addr_by_tg(tg_handle).addr, Some(user_addr.to_string()));
    let tg_response = ledger.tg_by_addr(user_addr, true).unwrap();
    assert_eq!(tg_response.handle, None, "User should not be in FUNDED_ACCOUNTS yet");
}

#[test]
fn test_register_receive_prevents_duplicate_tg_handle() {
    let mut ledger = setup_contract_with_admin("admin");
    let tg_handle = "@alice";
    ledger.register_receive("admin", register_msg(tg_handle, "user1"), true).unwrap();
    let err = ledger.register_receive("admin", register_msg(tg_handle, "user2"), true).unwrap_err();
    assert!(
        err.to_string().contains(&format!("TG Handle {} is already registered", tg_handle)),
        "Expected TgAlreadyRegistered error, got: {}",
        err.to_string()
    );
    assert_eq!(ledger.addr_by_tg(tg_handle).addr, Some("user1".to_string()));
}

#[test]
fn test_register_receive_requires_admin() {
    let mut ledger = setup_contract_with_admin("admin");
    let err = ledger
        .register_receive("unauthorized", register_msg("@alice", "user123"), true)
        .unwrap_err();
    assert!(
        err.to_string().contains("Unauthorized"),
        "Expected Unauthorized error, got: {}",
        err.to_string()
    );
}

#[test]
fn test_query_nonexistent_accounts() {
    let ledger = setup_contract_with_admin("admin");
    assert_eq!(ledger.addr_by_tg("@nonexistent").addr, None);
    assert_eq!(ledger.tg_by_addr("nonexistent123", true).unwrap().handle, None);
}

#[test]
fn test_allowed_denoms_query() {
    let ledger = setup_contract_with_admin("admin");
    assert_eq!(ledger.allowed_denoms(), vec!["untrn".to_string(), "uatom".to_string()]);
}

#[test]
fn instantiate_with_service_manager() {
    let msg = InstantiateMsg { allowed_denoms: vec![], auth: Auth::ServiceManager("manager".to_string()) };
    let (ledger, res) = Ledger::instantiate(msg, true).unwrap();
    assert_eq!(ledger.admin().admin, None);
    assert_eq!(ledger.service_manager(), Some("manager".to_string()));
    assert_eq!(attr_pairs(&res)[1], ("service_manager".to_string(), "manager".to_string()));
}

#[test]
fn instantiate_rejects_invalid_auth_address() {
    let msg = InstantiateMsg { allowed_denoms: vec![], auth: Auth::Admin("bad".to_string()) };
    let err = Ledger::instantiate(msg, false).unwrap_err();
    assert!(matches!(err, ContractError::InvalidAddress(ref a) if a == "bad"));
}

#[test]
fn register_receive_rejects_invalid_address() {
    let mut ledger = setup_contract_with_admin("admin");
    let err = ledger.register_receive("admin", register_msg("@alice", "bad"), false).unwrap_err();
    assert_eq!(err.to_string(), "Invalid address: bad");
    assert_eq!(ledger.addr_by_tg("@alice").addr, None);
}

#[test]
fn register_receive_response_attributes() {
    let mut ledger = setup_contract_with_admin("admin");
    let res = ledger.register_receive("admin", register_msg("@alice", "a1"), true).unwrap();
    assert!(res.messages.is_empty());
    assert_eq!(
        attr_pairs(&res),
        vec![
            ("method".to_string(), "register_receive".to_string()),
            ("tg_handle".to_string(), "@alice".to_string()),
            ("chain_addr".to_string(), "a1".to_string()),
        ]
    );
}

#[test]
fn register_send_requires_matching_receive() {
    let mut ledger = setup_contract_with_admin("admin");
    let err = ledger.register_send("a1", "@alice".to_string()).unwrap_err();
    assert!(matches!(err, ContractError::Unauthorized));
    ledger.register_receive("admin", register_msg("@alice", "a1"), true).unwrap();
    let err = ledger.register_send("a2", "@alice".to_string()).unwrap_err();
    assert!(matches!(err, ContractError::Unauthorized));
    ledger.register_send("a1", "@alice".to_string()).unwrap();
    assert_eq!(ledger.tg_by_addr("a1", true).unwrap().handle, Some("@alice".to_string()));
}

#[test]
fn register_send_keeps_first_handle() {
    let mut ledger = setup_contract_with_admin("admin");
    ledger.register_receive("admin", register_msg("@alice", "a1"), true).unwrap();
    ledger.register_receive("admin", register_msg("@alias", "a1"), true).unwrap();
    ledger.register_send("a1", "@alice".to_string()).unwrap();
    let err = ledger.register_send("a1", "@alias".to_string()).unwrap_err();
    assert_eq!(err.to_string(), "Address a1 is already registered");
    assert_eq!(ledger.tg_by_addr("a1", true).unwrap().handle, Some("@alice".to_string()));
}

#[test]
fn tg_by_addr_rejects_invalid_address() {
    let ledger = setup_contract_with_admin("admin");
    assert!(matches!(ledger.tg_by_addr("bad", false), Err(ContractError::InvalidAddress(_))));
}

#[test]
fn send_payment_zero_amount_fails() {
    let mut ledger = ledger_with_sender();
    let err = ledger.send_payment("admin", CONTRACT, send_msg("@bob", "@alice", 0, "untrn")).unwrap_err();
    assert_eq!(err.to_string(), "Trying to send 0 tokens");
    assert!(ledger.pending_payments("@alice").is_empty());
}

#[test]
fn send_payment_unlisted_denom_fails() {
    let mut ledger = ledger_with_sender();
    let err = ledger.send_payment("admin", CONTRACT, send_msg("@bob", "@alice", 5, "uusd")).unwrap_err();
    assert_eq!(err.to_string(), "Token not whitelisted: uusd");
    let err = ledger.send_payment("admin", CONTRACT, send_msg("@bob", "@alice", 0, "uusd")).unwrap_err();
    assert!(matches!(err, ContractError::TokenNotWhitelisted { .. }));
}

#[test]
fn send_payment_requires_admin_and_registered_sender() {
    let mut ledger = ledger_with_sender();
    let err = ledger.send_payment("bob_addr", CONTRACT, send_msg("@bob", "@alice", 5, "untrn")).unwrap_err();
    assert!(matches!(err, ContractError::Unauthorized));
    ledger.register_receive("admin", register_msg("@carol", "carol_addr"), true).unwrap();
    let err = ledger.send_payment("admin", CONTRACT, send_msg("@carol", "@bob", 5, "untrn")).unwrap_err();
    assert!(matches!(err, ContractError::Unauthorized));
    let err = ledger.send_payment("admin", CONTRACT, send_msg("@nobody", "@bob", 5, "untrn")).unwrap_err();
    assert!(matches!(err, ContractError::Unauthorized));
}

#[test]
fn send_payment_to_registered_handle_is_delegated() {
    let mut ledger = ledger_with_sender();
    ledger.register_receive("admin", register_msg("@alice", "alice_addr"), true).unwrap();
    let res = ledger.send_payment("admin", CONTRACT, send_msg("@bob", "@alice", 200000, "untrn")).unwrap();
    assert_eq!(res.messages.len(), 1);
    let (grantee, from, to, amount, denom) = decode_delegated(&res.messages[0]);
    assert_eq!(grantee, CONTRACT);
    assert_eq!(from, "bob_addr");
    assert_eq!(to, "alice_addr");
    assert_eq!(amount, "200000");
    assert_eq!(denom, "untrn");
    assert_eq!(
        attr_pairs(&res),
        vec![
            ("method".to_string(), "send_payment".to_string()),
            ("from_tg".to_string(), "@bob".to_string()),
            ("to_tg".to_string(), "@alice".to_string()),
            ("amount".to_string(), "200000".to_string()),
            ("denom".to_string(), "untrn".to_string()),
        ]
    );
    assert!(ledger.pending_payments("@alice").is_empty());
}

#[test]
fn send_payment_to_unregistered_handle_goes_to_escrow() {
    let mut ledger = ledger_with_sender();
    let res = ledger.send_payment("admin", CONTRACT, send_msg("@bob", "@alice", 100, "untrn")).unwrap();
    assert_eq!(res.messages.len(), 1);
    let (grantee, from, to, amount, _) = decode_delegated(&res.messages[0]);
    assert_eq!(grantee, CONTRACT);
    assert_eq!(from, "bob_addr");
    assert_eq!(to, CONTRACT);
    assert_eq!(amount, "100");
    ledger.send_payment("admin", CONTRACT, send_msg("@bob", "@alice", 7, "uatom")).unwrap();
    ledger.send_payment("admin", CONTRACT, send_msg("@bob", "@alice", 50, "untrn")).unwrap();
    assert_eq!(ledger.pending_payments("@alice"), vec![coin(7, "uatom"), coin(150, "untrn")]);
}

#[test]
fn escrow_overflow_is_refused() {
    let mut ledger = ledger_with_sender();
    ledger.send_payment("admin", CONTRACT, send_msg("@bob", "@alice", u128::MAX, "untrn")).unwrap();
    ledger.send_payment("admin", CONTRACT, send_msg("@bob", "@alice", 1, "untrn")).unwrap();
    let two_128 = Uint256 { hi: 1, lo: 0 };
    assert_eq!(ledger.pending_payments("@alice"), vec![Coin { amount: two_128, denom: "untrn".to_string() }]);
    let max = Uint256 { hi: u128::MAX, lo: u128::MAX };
    let err = ledger.send_payment("admin", CONTRACT, send_big("@bob", "@alice", max, "untrn")).unwrap_err();
    assert!(matches!(err, ContractError::Overflow));
    assert_eq!(ledger.pending_payments("@alice"), vec![Coin { amount: two_128, denom: "untrn".to_string() }]);
}

#[test]
fn escrow_then_register_scenario() {
    let mut ledger = ledger_with_sender();
    ledger.send_payment("admin", CONTRACT, send_msg("@bob", "@alice", 100, "untrn")).unwrap();
    assert_eq!(ledger.pending_payments("@alice"), vec![coin(100, "untrn")]);
    let res = ledger.register_receive("admin", register_msg("@alice", "A1"), true).unwrap();
    assert_eq!(res.messages.len(), 1);
    match &res.messages[0] {
        CosmosMsg::BankSend { to_address, amount } => {
            assert_eq!(to_address, "A1");
            assert_eq!(amount, &vec![coin(100, "untrn")]);
        }
        other => panic!("expected a bank transfer, got {:?}", other),
    }
    assert!(ledger.pending_payments("@alice").is_empty());
    let res = ledger.send_payment("admin", CONTRACT, send_msg("@bob", "@alice", 3, "untrn")).unwrap();
    let (_, _, to, _, _) = decode_delegated(&res.messages[0]);
    assert_eq!(to, "A1");
    assert!(ledger.pending_payments("@alice").is_empty());
}

#[test]
fn envelope_requires_service_manager_and_validation() {
    let mut admin_ledger = setup_contract_with_admin("admin");
    let err = admin_ledger
        .wavs_handle_envelope(Ok(()), Ok(WavsPayload::Register(register_msg("@alice", "a1"))), CONTRACT, true)
        .unwrap_err();
    assert!(matches!(err, ContractError::Unauthorized));

    let msg = InstantiateMsg {
        allowed_denoms: vec!["untrn".to_string()],
        auth: Auth::ServiceManager("manager".to_string()),
    };
    let (mut ledger, _) = Ledger::instantiate(msg, true).unwrap();
    let err = ledger
        .wavs_handle_envelope(
            Err("bad signature".to_string()),
            Ok(WavsPayload::Register(register_msg("@alice", "a1"))),
            CONTRACT,
            true,
        )
        .unwrap_err();
    assert_eq!(err.to_string(), "Validation: bad signature");
    let err = ledger.wavs_handle_envelope(Ok(()), Err("not json".to_string()), CONTRACT, true).unwrap_err();
    assert_eq!(err.to_string(), "ABI decode: not json");
    assert_eq!(ledger.addr_by_tg("@alice").addr, None);

    ledger
        .wavs_handle_envelope(Ok(()), Ok(WavsPayload::Register(register_msg("@alice", "a1"))), CONTRACT, true)
        .unwrap();
    assert_eq!(ledger.addr_by_tg("@alice").addr, Some("a1".to_string()));
    ledger.register_send("a1", "@alice".to_string()).unwrap();
    let res = ledger
        .wavs_handle_envelope(
            Ok(()),
            Ok(WavsPayload::SendPayment(send_msg("@alice", "@dave", 9, "untrn"))),
            CONTRACT,
            true,
        )
        .unwrap();
    let (_, from, to, amount, _) = decode_delegated(&res.messages[0]);
    assert_eq!((from.as_str(), to.as_str(), amount.as_str()), ("a1", CONTRACT, "9"));
    assert_eq!(ledger.pending_payments("@dave"), vec![coin(9, "untrn")]);
}

#[test]
fn payload_message_id() {
    assert_eq!(WavsPayload::Register(register_msg("@a", "b")).message_id(), 1);
    assert_eq!(WavsPayload::SendPayment(send_msg("@a", "@b", 1, "x")).message_id(), 2);
}

#[test]
fn reply_is_unknown() {
    let err = reply(7).unwrap_err();
    assert_eq!(err.to_string(), "Unknown reply id: 7");
}

#[test]
fn send_payment_of_a_256_bit_amount() {
    let mut ledger = ledger_with_sender();
    ledger.register_receive("admin", register_msg("@alice", "alice_addr"), true).unwrap();
    let max = Uint256 { hi: u128::MAX, lo: u128::MAX };
    let res = ledger.send_payment("admin", CONTRACT, send_big("@bob", "@alice", max, "untrn")).unwrap();
    let (_, _, _, amount, _) = decode_delegated(&res.messages[0]);
    assert_eq!(amount, "115792089237316195423570985008687907853269984665640564039457584007913129639935");
}
