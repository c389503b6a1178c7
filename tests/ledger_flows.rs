use tg_payments::amount::Uint256;
use tg_payments::escrow::Coin;
use tg_payments::ledger::{CosmosMsg, Ledger};
use tg_payments::msg::{Auth, InstantiateMsg, RegisterReceiveMsg, SendPaymentMsg};

fn new_ledger() -> Ledger {
    let msg = InstantiateMsg {
        allowed_denoms: vec!["untrn".to_string(), "uatom".to_string()],
        auth: Auth::Admin("admin".to_string()),
    };
    Ledger::instantiate(msg, true).unwrap().0
}

fn register(ledger: &mut Ledger, sender: &str, handle: &str, addr: &str) -> Result<(), String> {
    let msg = RegisterReceiveMsg { message_id: 0, tg_handle: handle.to_string(), chain_addr: addr.to_string() };
    ledger.register_receive(sender, msg, true).map(|_| ()).map_err(|e| e.to_string())
}

#[test]
fn tg_contract_payments_get_admin() {
    let ledger = new_ledger();
    assert_eq!(ledger.admin().admin.unwrap(), "admin");
}

#[test]
fn register_receive_creates_open_account() {
    let mut ledger = new_ledger();
    register(&mut ledger, "admin", "@alice", "user123").unwrap();
    assert_eq!(ledger.addr_by_tg("@alice").addr.unwrap(), "user123");
    assert_eq!(ledger.tg_by_addr("user123", true).unwrap().handle, None, "User should not be in FUNDED_ACCOUNTS yet");
}

#[test]
fn register_receive_prevents_duplicate_tg_handle() {
    let mut ledger = new_ledger();
    register(&mut ledger, "admin", "@alice", "user1").unwrap();
    let err = register(&mut ledger, "admin", "@alice", "user2").unwrap_err();
    assert!(
        err.contains(&format!("TG Handle {} is already registered", "@alice")),
        "Expected TgAlreadyRegistered error, got: {}",
        err
    );
}

#[test]
fn register_receive_requires_admin() {
    let mut ledger = new_ledger();
    let err = register(&mut ledger, "unauthorized", "@alice", "user123").unwrap_err();
    assert!(err.contains("Unauthorized"), "Expected Unauthorized error, got: {}", err);
}

#[test]
fn query_nonexistent_accounts() {
    let ledger = new_ledger();
    assert!(ledger.addr_by_tg("@alice").addr.is_none(), "Expected no address for unregistered tg_handle");
    assert_eq!(ledger.tg_by_addr("nonexistent123", true).unwrap().handle, None);
}

#[test]
fn allowed_denoms() {
    let ledger = new_ledger();
    assert_eq!(ledger.allowed_denoms(), vec!["untrn".to_string(), "uatom".to_string()]);
}

#[test]
fn register_receives_open_account() {
    let mut ledger = new_ledger();
    register(&mut ledger, "admin", "@alice", "alice_addr").unwrap();
    assert_eq!(ledger.addr_by_tg("@alice").addr, Some("alice_addr".to_string()));
}

#[test]
fn send_payment_then_register_receiver() {
    let mut ledger = new_ledger();
    register(&mut ledger, "admin", "@alice", "alice_addr").unwrap();
    ledger.register_send("alice_addr", "@alice".to_string()).unwrap();
    let send = SendPaymentMsg {
        message_id: 0,
        from_tg: "@alice".to_string(),
        to_tg: "@bob".to_string(),
        amount: Uint256::from(200000u128),
        denom: "untrn".to_string(),
    };
    let res = ledger.send_payment("admin", "contract", send).unwrap();
    assert_eq!(res.messages.len(), 1, "alice pays exactly once");
    assert_eq!(ledger.pending_payments("@bob"), vec![Coin { amount: Uint256::from(200000u128), denom: "untrn".to_string() }]);
    let msg = RegisterReceiveMsg { message_id: 0, tg_handle: "@bob".to_string(), chain_addr: "bob_addr".to_string() };
    let res = ledger.register_receive("admin", msg, true).unwrap();
    match &res.messages[..] {
        [CosmosMsg::BankSend { to_address, amount }] => {
            assert_eq!(to_address, "bob_addr");
            assert_eq!(amount, &vec![Coin { amount: Uint256::from(200000u128), denom: "untrn".to_string() }]);
        }
        other => panic!("bob should have gotten the sent amount: {:?}", other),
    }
    assert!(ledger.pending_payments("@bob").is_empty());
}
