use tg_payments::amount::Uint256;
use tg_payments::events::{classify, report_text, ConnectEvent, Event, RegistrationEvent, ReportEvent, SendPaymentEvent};
use tg_payments::ledger::Attribute;

fn event(ty: &str, attrs: &[(&str, &str)]) -> Event {
    Event {
        ty: ty.to_string(),
        attributes: attrs
            .iter()
            .map(|(k, v)| Attribute { key: k.to_string(), value: v.to_string() })
            .collect(),
    }
}

fn payment() -> SendPaymentEvent {
    SendPaymentEvent {
        from_tg_handle: "alice".to_string(),
        to_tg_handle: "bob".to_string(),
        from_address: "a1".to_string(),
        to_address: "b1".to_string(),
        amount: Uint256::from(500000u128),
        denom: "untrn".to_string(),
    }
}

#[test]
fn payment_event_round_trips() {
    let e = payment().to_event();
    assert_eq!(e.ty, "send-payment");
    assert_eq!(e.attributes[4].value, "500000");
    let back = SendPaymentEvent::from_event(&e).unwrap();
    assert_eq!(back.amount, Uint256::from(500000u128));
    assert_eq!(back.to_address, "b1");
}

#[test]
fn payment_event_errors() {
    let e = event("wasm-send-payment", &[("from-tg-handle", "a")]);
    assert_eq!(SendPaymentEvent::from_event(&e).unwrap_err(), "Missing attribute to-tg-handle");
    let e = event(
        "send-payment",
        &[
            ("from-tg-handle", "a"),
            ("to-tg-handle", "b"),
            ("from-address", "x"),
            ("to-address", "y"),
            ("amount", "ten"),
            ("denom", "d"),
        ],
    );
    assert_eq!(SendPaymentEvent::from_event(&e).unwrap_err(), "Invalid attribute amount: ten");
    let e = event("transfer", &[]);
    assert_eq!(
        SendPaymentEvent::from_event(&e).unwrap_err(),
        "Expected event type send-payment, found transfer"
    );
}

#[test]
fn registration_event_reads_last_value() {
    let e = event("wasm-registration", &[("tg-handle", "old"), ("address", "a1"), ("tg-handle", "new")]);
    let r = RegistrationEvent::from_event(&e).unwrap();
    assert_eq!((r.tg_handle.as_str(), r.address.as_str()), ("new", "a1"));
    let e = event("registration", &[("tg-handle", "x")]);
    assert_eq!(RegistrationEvent::from_event(&e).unwrap_err(), "Missing attribute address");
    let e = event("registration", &[("address", "x")]);
    assert_eq!(RegistrationEvent::from_event(&e).unwrap_err(), "Missing attribute tg-handle");
    let e = event("registration", &[]);
    assert_eq!(RegistrationEvent::from_event(&e).unwrap_err(), "Missing required attributes");
}

#[test]
fn classify_picks_the_one_kind() {
    let reg = RegistrationEvent { tg_handle: "h".to_string(), address: "a".to_string() }.to_event();
    assert!(matches!(classify(&reg), Some(ReportEvent::Registration(_))));
    let con = ConnectEvent { tg_handle: "h".to_string(), address: "a".to_string() }.to_event();
    assert!(matches!(classify(&con), Some(ReportEvent::Connect(_))));
    assert!(matches!(classify(&payment().to_event()), Some(ReportEvent::SendPayment(_))));
    assert!(classify(&event("other", &[("tg-handle", "h")])).is_none());
}

#[test]
fn report_texts() {
    let r = ReportEvent::Registration(RegistrationEvent { tg_handle: "alice".to_string(), address: "a1".to_string() });
    assert_eq!(report_text(&r), "New user registered!\nTelegram: @alice\nAddress: a1");
    let p = ReportEvent::SendPayment(payment());
    assert_eq!(
        report_text(&p),
        "Payment sent!\nFrom: @alice (a1)\nTo: @bob (b1)\nAmount: 500000 untrn"
    );
    let c = ReportEvent::Connect(ConnectEvent { tg_handle: "bob".to_string(), address: "b1".to_string() });
    assert_eq!(report_text(&c), "User connected!\nTelegram: @bob\nAddress: b1");
}
