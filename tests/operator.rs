use tg_payments::amount::Uint256;
use layer_climb_address::CosmosAddr;
use tg_payments::bot::{TelegramBotCommand, TelegramBotError, TelegramWavsCommand, TelegramWavsCommandPrefix};
use tg_payments::cursor::{acquire_lock, atomic_read, get_offset, open_cas, release_lock, set_offset, swap,
    write_value, KvStore, KvStoreError};
use tg_payments::msg::WavsPayload;
use tg_payments::operator::{begin_cycle, finish_cycle, map_command_to_contract, parse_update, purge_offset};
use tg_payments::telegram::{TelegramChat, TelegramChatType, TelegramMessage, TelegramUpdate, TelegramUser};

fn address() -> String {
    CosmosAddr::new_bytes(vec![7u8; 20], "cosmos").unwrap().to_string()
}

fn message(text: Option<&str>, username: Option<&str>, chat_type: TelegramChatType, chat_id: i64) -> TelegramMessage {
    TelegramMessage {
        message_id: 42,
        message_thread_id: None,
        from: TelegramUser {
            id: 9,
            is_bot: false,
            first_name: "Alice".to_string(),
            username: username.map(|u| u.to_string()),
        },
        chat: TelegramChat {
            id: chat_id,
            chat_type,
            title: None,
            username: None,
            first_name: None,
            last_name: None,
        },
        date: 0,
        text: text.map(|t| t.to_string()),
        new_chat_members: None,
        left_chat_member: None,
    }
}

fn private(text: &str) -> TelegramMessage {
    message(Some(text), Some("@alice"), TelegramChatType::Private, 5)
}

fn update(id: i64, message: Option<TelegramMessage>, edited: Option<TelegramMessage>) -> TelegramUpdate {
    TelegramUpdate {
        update_id: id,
        message,
        edited_message: edited,
        channel_post: None,
        edited_channel_post: None,
        business_connection: None,
        business_message: None,
        edited_business_message: None,
        deleted_business_messages: None,
        callback_query: None,
        shipping_query: None,
        pre_checkout_query: None,
        purchased_paid_media: None,
        poll: None,
        poll_answer: None,
        my_chat_member: None,
        chat_member: None,
        chat_join_request: None,
        chat_boost: None,
        removed_chat_boost: None,
        message_reaction: None,
        message_reaction_count: None,
    }
}

#[test]
fn parses_send_command() {
    match TelegramWavsCommand::from_message(&private("/send  @bob 100\tuntrn ")) {
        Ok(TelegramWavsCommand::Send { handle, amount, denom }) => {
            assert_eq!(handle, "@bob");
            assert_eq!(amount, Uint256::from(100u128));
            assert_eq!(denom, "untrn");
        }
        other => panic!("unexpected {:?}", other),
    }
}

#[test]
fn send_with_bad_amount_is_parse_error() {
    match TelegramWavsCommand::from_message(&private("/send @bob lots untrn")) {
        Err(TelegramBotError::Parse(m)) => assert_eq!(m, "could not parse lots"),
        other => panic!("unexpected {:?}", other),
    }
}

#[test]
fn wrong_argument_count_is_format_error() {
    match TelegramWavsCommand::from_message(&private("/send @bob 5")) {
        Err(TelegramBotError::InvalidCommandFormat { prefix }) => {
            assert_eq!(prefix, TelegramWavsCommandPrefix::Send)
        }
        other => panic!("unexpected {:?}", other),
    }
}

#[test]
fn unknown_prefix_is_unknown_command() {
    match TelegramWavsCommand::from_message(&private("/dance now")) {
        Err(TelegramBotError::UnknownCommand(m)) => assert_eq!(m, "/dance"),
        other => panic!("unexpected {:?}", other),
    }
    match TelegramWavsCommand::from_message(&private("/admin reboot x")) {
        Err(TelegramBotError::UnknownCommand(m)) => assert_eq!(m, "/admin reboot"),
        other => panic!("unexpected {:?}", other),
    }
}

#[test]
fn empty_text_is_bad_command() {
    assert!(matches!(TelegramWavsCommand::from_message(&private("  ")), Err(TelegramBotError::BadCommand)));
    let m = message(None, Some("@alice"), TelegramChatType::Private, 5);
    let err = TelegramWavsCommand::from_message(&m).unwrap_err();
    assert!(err.only_respond_to_dm());
    assert!(!TelegramBotError::NotGroupChat.only_respond_to_dm());
}

#[test]
fn parses_receive_command() {
    let addr = address();
    let upper = addr.to_uppercase();
    match TelegramWavsCommand::from_message(&private(&format!("/receive {}", upper))) {
        Ok(TelegramWavsCommand::Receive { address }) => assert_eq!(address, addr),
        other => panic!("unexpected {:?}", other),
    }
    match TelegramWavsCommand::from_message(&private("/receive nonsense")) {
        Err(TelegramBotError::Parse(m)) => assert_eq!(m, "could not parse nonsense"),
        other => panic!("unexpected {:?}", other),
    }
}

#[test]
fn parses_admin_and_group_commands() {
    match TelegramWavsCommand::from_message(&private("/admin set-service http://x key1")) {
        Ok(TelegramWavsCommand::Admin(a)) => assert_eq!(a.admin_key(), "key1"),
        other => panic!("unexpected {:?}", other),
    }
    let group = message(Some("/groupId"), None, TelegramChatType::SuperGroup, -100);
    assert!(matches!(TelegramWavsCommand::from_message(&group), Ok(TelegramWavsCommand::GroupId { group_id: -100 })));
    let bad_group = message(Some("/groupId"), None, TelegramChatType::Group, 3);
    assert!(matches!(TelegramWavsCommand::from_message(&bad_group), Err(TelegramBotError::InvalidGroupId)));
    assert!(matches!(
        TelegramWavsCommand::from_message(&private("/groupId")),
        Err(TelegramBotError::NotGroupChat)
    ));
    assert!(matches!(TelegramWavsCommand::from_message(&private("/help extra")), Ok(TelegramWavsCommand::Help)));
}

#[test]
fn prefixes_round_trip() {
    for p in [
        TelegramWavsCommandPrefix::Start,
        TelegramWavsCommandPrefix::Help,
        TelegramWavsCommandPrefix::GroupId,
        TelegramWavsCommandPrefix::Receive,
        TelegramWavsCommandPrefix::Send,
        TelegramWavsCommandPrefix::Status,
        TelegramWavsCommandPrefix::Service,
    ] {
        assert_eq!(TelegramWavsCommandPrefix::parse(p.as_text()).unwrap(), p);
    }
    assert_eq!(TelegramWavsCommandPrefix::Send.format(), "<handle> <amount> <denom>");
    assert_eq!(TelegramWavsCommandPrefix::Receive.format(), "<address>");
    assert_eq!(TelegramWavsCommandPrefix::Help.format(), "");
    let p: TelegramWavsCommandPrefix = "/admin set-service".parse().unwrap();
    assert_eq!(p.format(), "<service_url> <admin-key>");
}

#[test]
fn commands_map_to_payloads() {
    let cmd = TelegramBotCommand::from_message(private("/send @bob 5 untrn")).unwrap();
    match map_command_to_contract(cmd) {
        Some(WavsPayload::SendPayment(m)) => {
            assert_eq!((m.message_id, m.from_tg.as_str(), m.to_tg.as_str()), (42, "@alice", "@bob"));
            assert_eq!((m.amount, m.denom.as_str()), (Uint256::from(5u128), "untrn"));
        }
        _ => panic!("expected a payment"),
    }
    let addr = address();
    let cmd = TelegramBotCommand::from_message(private(&format!("/receive {}", addr))).unwrap();
    match map_command_to_contract(cmd) {
        Some(WavsPayload::Register(m)) => {
            assert_eq!((m.tg_handle.as_str(), m.chain_addr.as_str()), ("@alice", addr.as_str()))
        }
        _ => panic!("expected a registration"),
    }
    let cmd = TelegramBotCommand::from_message(private("/help")).unwrap();
    assert!(map_command_to_contract(cmd).is_none());
    let anonymous = message(Some("/send @bob 5 untrn"), None, TelegramChatType::Private, 5);
    let cmd = TelegramBotCommand::from_message(anonymous).unwrap();
    assert!(map_command_to_contract(cmd).is_none());
}

#[test]
fn updates_use_edited_message_when_no_new_one() {
    let u = update(3, None, Some(private("/status")));
    assert!(matches!(parse_update(u).map(|c| c.command), Some(TelegramWavsCommand::Status)));
    assert!(parse_update(update(4, None, None)).is_none());
    assert!(parse_update(update(5, Some(private("hello")), None)).is_none());
}

#[test]
fn lock_is_exclusive() {
    let mut store = KvStore::new();
    let lock = acquire_lock(&mut store).unwrap();
    let second = acquire_lock(&mut store);
    assert!(matches!(second, Err(KvStoreError::KeyNotFound(_))));
    release_lock(&mut store, lock).unwrap();
    let again = acquire_lock(&mut store).unwrap();
    release_lock(&mut store, again).unwrap();
}

#[test]
fn concurrent_swaps_have_one_winner() {
    let mut store = KvStore::new();
    let first = open_cas(&store, "locks", "global_lock").unwrap();
    let second = open_cas(&store, "locks", "global_lock").unwrap();
    assert!(swap(&mut store, first, b"locked".to_vec()).is_ok());
    assert!(swap(&mut store, second, b"locked".to_vec()).is_err());
    assert_eq!(atomic_read(&store, "locks", "global_lock").unwrap(), b"locked".to_vec());
}

#[test]
fn offsets_round_trip() {
    let mut store = KvStore::new();
    assert_eq!(get_offset(&store).unwrap(), None);
    for n in [0i64, 1, 255, 256, 123456789, -1, i64::MIN, i64::MAX] {
        set_offset(&mut store, n).unwrap();
        assert_eq!(get_offset(&store).unwrap(), Some(n));
    }
    set_offset(&mut store, 0x0102030405060708).unwrap();
    assert_eq!(atomic_read(&store, "offsets", "latest_offset").unwrap(), vec![8, 7, 6, 5, 4, 3, 2, 1]);
    write_value(&mut store, "offsets", "latest_offset", &vec![1, 2, 3]).unwrap();
    assert!(matches!(get_offset(&store), Err(KvStoreError::ReadKey { .. })));
}

#[test]
fn cycle_advances_offset_and_releases_lock() {
    let mut store = KvStore::new();
    let (lock, offset) = begin_cycle(&mut store).unwrap().unwrap();
    assert_eq!(offset, None);
    assert!(begin_cycle(&mut store).unwrap().is_none());
    let payload = finish_cycle(&mut store, lock, Some(update(10, Some(private("/send @bob 5 untrn")), None))).unwrap();
    assert!(matches!(payload, Some(WavsPayload::SendPayment(_))));
    let (lock, offset) = begin_cycle(&mut store).unwrap().unwrap();
    assert_eq!(offset, Some(11));
    let payload = finish_cycle(&mut store, lock, Some(update(11, Some(private("no command")), None))).unwrap();
    assert!(payload.is_none());
    let (lock, offset) = begin_cycle(&mut store).unwrap().unwrap();
    assert_eq!(offset, Some(12));
    assert!(finish_cycle(&mut store, lock, None).unwrap().is_none());
    let (lock, offset) = begin_cycle(&mut store).unwrap().unwrap();
    assert_eq!(offset, Some(12));
    finish_cycle(&mut store, lock, None).unwrap();
}

#[test]
fn cycle_with_bad_offset_releases_lock() {
    let mut store = KvStore::new();
    write_value(&mut store, "offsets", "latest_offset", &vec![9]).unwrap();
    assert!(begin_cycle(&mut store).is_err());
    set_offset(&mut store, 4).unwrap();
    let (lock, offset) = begin_cycle(&mut store).unwrap().unwrap();
    assert_eq!(offset, Some(4));
    finish_cycle(&mut store, lock, None).unwrap();
}

#[test]
fn bot_error_texts() {
    let e = TelegramBotError::InvalidCommandFormat { prefix: TelegramWavsCommandPrefix::Send };
    assert_eq!(e.to_string(), "Invalid command format```Usage:\n/send <handle> <amount> <denom>```");
    assert_eq!(TelegramBotError::UnknownCommand("/x".to_string()).to_string(), "Unknown command: /x");
    assert_eq!(TelegramBotError::BadCommand.to_string(), "Bad command. Try `/help` for more information.");
}

#[test]
fn purge_skips_past_highest() {
    assert_eq!(purge_offset(&vec![]), None);
    assert_eq!(purge_offset(&vec![5, 9, 7]), Some(10));
    assert_eq!(purge_offset(&vec![-3]), Some(1));
}

#[test]
fn send_amounts_up_to_256_bits() {
    let max = "115792089237316195423570985008687907853269984665640564039457584007913129639935";
    match TelegramWavsCommand::from_message(&private(&format!("/send @bob {} untrn", max))) {
        Ok(TelegramWavsCommand::Send { amount, .. }) => {
            assert_eq!(amount, Uint256 { hi: u128::MAX, lo: u128::MAX });
            assert_eq!(amount.to_decimal(), max);
        }
        other => panic!("unexpected {:?}", other),
    }
    let above = "115792089237316195423570985008687907853269984665640564039457584007913129639936";
    assert!(matches!(
        TelegramWavsCommand::from_message(&private(&format!("/send @bob {} untrn", above))),
        Err(TelegramBotError::Parse(_))
    ));
    assert_eq!(Uint256::parse("+340282366920938463463374607431768211456"), Some(Uint256 { hi: 1, lo: 0 }));
    assert_eq!(Uint256::parse("+"), None);
    assert_eq!(Uint256::from(0u128).to_decimal(), "0");
}
