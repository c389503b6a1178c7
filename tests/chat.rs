use tg_payments::amount::Uint256;
use tg_payments::webhook::{admin_key_accepted, welcome_text, CommandResponse};
use tg_payments::bot::TelegramWavsCommand;
use tg_payments::kinds::{AuthKind, ComponentKind, ContractKind};
use tg_payments::state_machine::TGChatState;
use tg_payments::telegram::{escape_markdown_v2, TelegramResponseMethod, TelegramWebHookResponse};
use tg_payments::text::{decimal_string, parse_u128_bounded, split_words, trim};

#[test]
fn escapes_markdown() {
    assert_eq!(escape_markdown_v2("a_b*c `code` 1.5!"), "a\\_b\\*c code 1\\.5\\!");
    assert_eq!(escape_markdown_v2(""), "");
}

#[test]
fn webhook_response_escapes_text() {
    let r = TelegramWebHookResponse::new(-1001, "hi (there)".to_string());
    assert_eq!(r.chat_id, "-1001");
    assert_eq!(r.text, "hi \\(there\\)");
    assert_eq!(r.method, TelegramResponseMethod::SendMessge);
    assert_eq!(r.parse_mode, Some("MarkdownV2".to_string()));
}

#[test]
fn chat_dialogue_builds_send() {
    let s = TGChatState::Wait;
    assert_eq!(s.prompt(), None);
    let (s, c) = s.next_state("/send").unwrap();
    assert!(c.is_none());
    assert_eq!(s.prompt(), Some("Who would you like to send to?".to_string()));
    assert!(TGChatState::WavsSend.next_state("bob").is_err());
    let (s, _) = s.next_state("  @bob ").unwrap();
    assert_eq!(s.prompt(), Some("How much would you like to send to @bob?".to_string()));
    assert!(TGChatState::WavsSendHandle("@bob".to_string()).next_state("-3").is_err());
    let (s, _) = s.next_state("25").unwrap();
    assert_eq!(s.prompt(), Some("Which denom?".to_string()));
    let (s, c) = s.next_state(" untrn").unwrap();
    assert!(matches!(s, TGChatState::Wait));
    match c {
        Some(TelegramWavsCommand::Send { handle, amount, denom }) => {
            assert_eq!((handle.as_str(), amount, denom.as_str()), ("@bob", Uint256::from(25u128), "untrn"))
        }
        other => panic!("unexpected {:?}", other),
    }
}

#[test]
fn chat_dialogue_commands_interrupt() {
    let (s, c) = TGChatState::WavsReceive.next_state("/help").unwrap();
    assert!(matches!(s, TGChatState::Wait));
    assert!(matches!(c, Some(TelegramWavsCommand::Help)));
    let e = TGChatState::Wait.next_state("/nope").unwrap_err();
    assert_eq!(e, "unknown command: /nope");
    assert!(TGChatState::WavsReceive.next_state("not-an-address").is_err());
}

#[test]
fn kinds_have_names() {
    assert_eq!(ContractKind::Payments.as_str(), "payments");
    assert_eq!(AuthKind::User.as_str(), "user");
    assert_eq!(AuthKind::ServiceManager.as_str(), "service-manager");
    assert_eq!(ComponentKind::Operator.as_str(), "operator");
    assert_eq!(ComponentKind::Aggregator.as_str(), "aggregator");
}

#[test]
fn text_helpers() {
    assert_eq!(decimal_string(0), "0");
    assert_eq!(decimal_string(u128::MAX), u128::MAX.to_string());
    assert_eq!(parse_u128_bounded("+17", 100), Some(17));
    assert_eq!(parse_u128_bounded("101", 100), None);
    assert_eq!(parse_u128_bounded("", 100), None);
    assert_eq!(parse_u128_bounded("+", 100), None);
    assert_eq!(parse_u128_bounded("340282366920938463463374607431768211456", u128::MAX), None);
    assert_eq!(split_words(" a\u{3000}bc\n d "), vec!["a".to_string(), "bc".to_string(), "d".to_string()]);
    assert_eq!(trim("\t x y \n"), "x y");
}

#[test]
fn help_reply_lists_commands() {
    let s = format!(
        "*Available commands:*
                `{}` - Start interaction with the bot
                `{}` - Show this help message
                `{}` - Check if your account has been registered for receiving or sending payments
                `{}` - Get the current group chat ID
                `{} {}` - Register to receive WAVS payments at the specified address
                `{} {}` - Register to send WAVS payments to the specified handle
                `{}` - Get the current service information
                `{} {}` - Set the service information (admin only)
                ",
        "/start", "/help", "/status", "/groupId", "/receive", "<address>", "/send",
        "<handle> <amount> <denom>", "/service", "/admin set-service", "<service_url> <admin-key>"
    );
    let expected = s.lines().map(|line| line.trim()).collect::<Vec<&str>>().join("\n");
    assert_eq!(CommandResponse::Help.to_text(), expected);
}

#[test]
fn command_replies() {
    let send = CommandResponse::Send { handle: "@bob".to_string(), amount: Uint256::from(5u128), denom: "untrn".to_string() };
    assert_eq!(send.to_text(), "okay, you got it, sending 5 untrn to @bob");
    assert_eq!(CommandResponse::GroupId { group_id: -42 }.to_text(), "Group ID is -42");
    let status = CommandResponse::Status { address: None, first_name: "Ann".to_string() };
    assert_eq!(status.to_text(), "Hello, Ann! Your account is not registered yet.");
    assert!(welcome_text("Ann").starts_with("Welcome, Ann!\n\nSend `/help`"));
    assert!(welcome_text("Ann").ends_with("```Registration: /receive <address>```"));
    assert!(admin_key_accepted("k", "k"));
    assert!(!admin_key_accepted("", ""));
    assert!(!admin_key_accepted("k", "j"));
}
