//! The events that report registrations and payments to whoever watches the
//! chain, their attribute form, and reading them back from an event.

use vstd::prelude::*;
use crate::amount::{Uint256, max_amount};
use crate::ledger::Attribute;
use crate::text::{decimal_of, parse_unsigned, str_eq};

verus! {

/// A chain event: a type and its attributes, in order.
#[derive(Debug)]
pub struct Event {
    pub ty: String,
    pub attributes: Vec<Attribute>,
}

pub open spec fn attrs_view(v: Seq<Attribute>) -> Seq<(Seq<char>, Seq<char>)> {
    v.map_values(|a: Attribute| (a.key@, a.value@))
}

/// The value of the last attribute named `key`, if any.
pub open spec fn attr_value(attrs: Seq<(Seq<char>, Seq<char>)>, key: Seq<char>) -> Option<Seq<char>>
    decreases attrs.len(),
{
    if attrs.len() == 0 {
        None
    } else if attrs.last().0 == key {
        Some(attrs.last().1)
    } else {
        attr_value(attrs.drop_last(), key)
    }
}

/// An event of type `name` may also carry the `wasm-` prefix that contract
/// events get on chain.
pub open spec fn type_matches(ty: Seq<char>, name: Seq<char>) -> bool {
    ty == name || ty == "wasm-"@ + name
}

pub open spec fn wrong_type(ty: Seq<char>, name: Seq<char>) -> Seq<char> {
    "Expected event type "@ + name + ", found "@ + ty
}

pub open spec fn missing(key: Seq<char>) -> Seq<char> {
    "Missing attribute "@ + key
}

fn text(s: &str) -> (r: String)
    ensures
        r@ == s@,
{
    String::from_str(s)
}

fn cat(a: &str, b: &str) -> (r: String)
    ensures
        r@ == a@ + b@,
{
    let mut s = String::from_str(a);
    s.append(b);
    s
}

fn attr(key: &str, value: String) -> (r: Attribute)
    ensures
        r.key@ == key@,
        r.value@ == value@,
{
    Attribute { key: text(key), value }
}

/// The value of the last attribute named `key`.
fn find_attr(attrs: &Vec<Attribute>, key: &str) -> (r: Option<String>)
    ensures
        match r {
            Some(v) => attr_value(attrs_view(attrs@), key@) == Some(v@),
            None => attr_value(attrs_view(attrs@), key@) is None,
        },
{
    let mut i: usize = attrs.len();
    assert(attrs@.subrange(0, i as int) =~= attrs@);
    while i > 0
        invariant
            i <= attrs@.len(),
            attr_value(attrs_view(attrs@), key@) == attr_value(attrs_view(attrs@.subrange(0, i as int)), key@),
        decreases i,
    {
        let ghost pre = attrs_view(attrs@.subrange(0, i as int));
        assert(pre.last() == (attrs@[i - 1].key@, attrs@[i - 1].value@));
        if str_eq(attrs[i - 1].key.as_str(), key) {
            return Some(attrs[i - 1].value.clone());
        }
        assert(pre.drop_last() =~= attrs_view(attrs@.subrange(0, i - 1)));
        i = i - 1;
    }
    None
}

/// Whether `ty` is `name`, with or without the `wasm-` prefix.
fn type_is(ty: &str, name: &str) -> (r: bool)
    ensures
        r == type_matches(ty@, name@),
{
    if str_eq(ty, name) {
        return true;
    }
    let prefixed = cat("wasm-", name);
    str_eq(ty, prefixed.as_str())
}

fn wrong_type_text(ty: &str, name: &str) -> (r: String)
    ensures
        r@ == wrong_type(ty@, name@),
{
    let mut s = cat("Expected event type ", name);
    s.append(", found ");
    s.append(ty);
    s
}

fn missing_text(key: &str) -> (r: String)
    ensures
        r@ == missing(key@),
{
    cat("Missing attribute ", key)
}

/// What reading a registration-shaped event (a handle and an address) gives.
pub open spec fn read_handle_address(e: Seq<(Seq<char>, Seq<char>)>, ty: Seq<char>, name: Seq<char>) -> Result<
    (Seq<char>, Seq<char>),
    Seq<char>,
> {
    if !type_matches(ty, name) {
        Err(wrong_type(ty, name))
    } else {
        match (attr_value(e, "tg-handle"@), attr_value(e, "address"@)) {
            (Some(h), Some(a)) => Ok((h, a)),
            (Some(_), None) => Err(missing("address"@)),
            (None, Some(_)) => Err(missing("tg-handle"@)),
            (None, None) => Err("Missing required attributes"@),
        }
    }
}

fn handle_address(event: &Event, name: &str) -> (r: Result<(String, String), String>)
    ensures
        match r {
            Ok(p) => read_handle_address(attrs_view(event.attributes@), event.ty@, name@)
                == Ok::<(Seq<char>, Seq<char>), Seq<char>>((p.0@, p.1@)),
            Err(m) => read_handle_address(attrs_view(event.attributes@), event.ty@, name@)
                == Err::<(Seq<char>, Seq<char>), Seq<char>>(m@),
        },
{
    if !type_is(event.ty.as_str(), name) {
        return Err(wrong_type_text(event.ty.as_str(), name));
    }
    let tg_handle = find_attr(&event.attributes, "tg-handle");
    let address = find_attr(&event.attributes, "address");
    match (tg_handle, address) {
        (Some(tg_handle), Some(address)) => Ok((tg_handle, address)),
        (Some(_), None) => Err(missing_text("address")),
        (None, Some(_)) => Err(missing_text("tg-handle")),
        (None, None) => Err(text("Missing required attributes")),
    }
}

/// A handle registered to receive at an address.
#[derive(Debug)]
pub struct RegistrationEvent {
    pub tg_handle: String,
    pub address: String,
}

/// A handle connected to an address.
#[derive(Debug)]
pub struct ConnectEvent {
    pub tg_handle: String,
    pub address: String,
}

/// A payment between two handles.
#[derive(Debug)]
pub struct SendPaymentEvent {
    pub from_tg_handle: String,
    pub to_tg_handle: String,
    pub from_address: String,
    pub to_address: String,
    pub amount: Uint256,
    pub denom: String,
}

impl RegistrationEvent {
    pub fn to_event(self) -> (r: Event)
        ensures
            r.ty@ == "registration"@,
            attrs_view(r.attributes@) == seq![("tg-handle"@, self.tg_handle@), ("address"@, self.address@)],
    {
        let mut attributes: Vec<Attribute> = Vec::new();
        attributes.push(attr("tg-handle", self.tg_handle));
        attributes.push(attr("address", self.address));
        let r = Event { ty: text("registration"), attributes };
        assert(attrs_view(r.attributes@) =~= seq![("tg-handle"@, self.tg_handle@), ("address"@, self.address@)]);
        r
    }

    /// Reads a registration back from an event of type `registration`.
    pub fn from_event(event: &Event) -> (r: Result<RegistrationEvent, String>)
        ensures
            match r {
                Ok(e) => read_handle_address(attrs_view(event.attributes@), event.ty@, "registration"@)
                    == Ok::<(Seq<char>, Seq<char>), Seq<char>>((e.tg_handle@, e.address@)),
                Err(m) => read_handle_address(attrs_view(event.attributes@), event.ty@, "registration"@)
                    == Err::<(Seq<char>, Seq<char>), Seq<char>>(m@),
            },
    {
        let (tg_handle, address) = handle_address(event, "registration")?;
        Ok(RegistrationEvent { tg_handle, address })
    }
}

impl ConnectEvent {
    pub fn to_event(self) -> (r: Event)
        ensures
            r.ty@ == "connect"@,
            attrs_view(r.attributes@) == seq![("tg-handle"@, self.tg_handle@), ("address"@, self.address@)],
    {
        let mut attributes: Vec<Attribute> = Vec::new();
        attributes.push(attr("tg-handle", self.tg_handle));
        attributes.push(attr("address", self.address));
        let r = Event { ty: text("connect"), attributes };
        assert(attrs_view(r.attributes@) =~= seq![("tg-handle"@, self.tg_handle@), ("address"@, self.address@)]);
        r
    }

    /// Reads a connection back from an event of type `connect`.
    pub fn from_event(event: &Event) -> (r: Result<ConnectEvent, String>)
        ensures
            match r {
                Ok(e) => read_handle_address(attrs_view(event.attributes@), event.ty@, "connect"@)
                    == Ok::<(Seq<char>, Seq<char>), Seq<char>>((e.tg_handle@, e.address@)),
                Err(m) => read_handle_address(attrs_view(event.attributes@), event.ty@, "connect"@)
                    == Err::<(Seq<char>, Seq<char>), Seq<char>>(m@),
            },
    {
        let (tg_handle, address) = handle_address(event, "connect")?;
        Ok(ConnectEvent { tg_handle, address })
    }
}

pub struct PaymentView {
    pub from_tg_handle: Seq<char>,
    pub to_tg_handle: Seq<char>,
    pub from_address: Seq<char>,
    pub to_address: Seq<char>,
    pub amount: nat,
    pub denom: Seq<char>,
}

impl View for SendPaymentEvent {
    type V = PaymentView;

    open spec fn view(&self) -> PaymentView {
        PaymentView {
            from_tg_handle: self.from_tg_handle@,
            to_tg_handle: self.to_tg_handle@,
            from_address: self.from_address@,
            to_address: self.to_address@,
            amount: self.amount.value(),
            denom: self.denom@,
        }
    }
}

/// What reading a payment event gives: each attribute is looked for in
/// turn, and the first one missing, or an amount that is no number, is the
/// error.
pub open spec fn read_payment(e: Seq<(Seq<char>, Seq<char>)>, ty: Seq<char>) -> Result<PaymentView, Seq<char>> {
    if !type_matches(ty, "send-payment"@) {
        Err(wrong_type(ty, "send-payment"@))
    } else if attr_value(e, "from-tg-handle"@) is None {
        Err(missing("from-tg-handle"@))
    } else if attr_value(e, "to-tg-handle"@) is None {
        Err(missing("to-tg-handle"@))
    } else if attr_value(e, "from-address"@) is None {
        Err(missing("from-address"@))
    } else if attr_value(e, "to-address"@) is None {
        Err(missing("to-address"@))
    } else if attr_value(e, "amount"@) is None {
        Err(missing("amount"@))
    } else if parse_unsigned(attr_value(e, "amount"@)->0, max_amount()) is None {
        Err("Invalid attribute amount: "@ + attr_value(e, "amount"@)->0)
    } else if attr_value(e, "denom"@) is None {
        Err(missing("denom"@))
    } else {
        Ok(
            PaymentView {
                from_tg_handle: attr_value(e, "from-tg-handle"@)->0,
                to_tg_handle: attr_value(e, "to-tg-handle"@)->0,
                from_address: attr_value(e, "from-address"@)->0,
                to_address: attr_value(e, "to-address"@)->0,
                amount: parse_unsigned(attr_value(e, "amount"@)->0, max_amount())->0,
                denom: attr_value(e, "denom"@)->0,
            },
        )
    }
}

impl SendPaymentEvent {
    pub fn to_event(self) -> (r: Event)
        ensures
            r.ty@ == "send-payment"@,
            attrs_view(r.attributes@) == seq![
                ("from-tg-handle"@, self.from_tg_handle@),
                ("to-tg-handle"@, self.to_tg_handle@),
                ("from-address"@, self.from_address@),
                ("to-address"@, self.to_address@),
                ("amount"@, decimal_of(self.amount.value())),
                ("denom"@, self.denom@),
            ],
    {
        let mut attributes: Vec<Attribute> = Vec::new();
        attributes.push(attr("from-tg-handle", self.from_tg_handle));
        attributes.push(attr("to-tg-handle", self.to_tg_handle));
        attributes.push(attr("from-address", self.from_address));
        attributes.push(attr("to-address", self.to_address));
        attributes.push(attr("amount", self.amount.to_decimal()));
        attributes.push(attr("denom", self.denom));
        let r = Event { ty: text("send-payment"), attributes };
        assert(attrs_view(r.attributes@) =~= seq![
            ("from-tg-handle"@, self.from_tg_handle@),
            ("to-tg-handle"@, self.to_tg_handle@),
            ("from-address"@, self.from_address@),
            ("to-address"@, self.to_address@),
            ("amount"@, decimal_of(self.amount.value())),
            ("denom"@, self.denom@),
        ]);
        r
    }

    /// Reads a payment back from an event of type `send-payment`.
    pub fn from_event(event: &Event) -> (r: Result<SendPaymentEvent, String>)
        ensures
            match r {
                Ok(p) => read_payment(attrs_view(event.attributes@), event.ty@) == Ok::<PaymentView, Seq<char>>(p@),
                Err(m) => read_payment(attrs_view(event.attributes@), event.ty@) == Err::<PaymentView, Seq<char>>(m@),
            },
    {
        if !type_is(event.ty.as_str(), "send-payment") {
            return Err(wrong_type_text(event.ty.as_str(), "send-payment"));
        }
        let from_tg_handle = match find_attr(&event.attributes, "from-tg-handle") {
            Some(v) => v,
            None => {
                return Err(missing_text("from-tg-handle"));
            },
        };
        let to_tg_handle = match find_attr(&event.attributes, "to-tg-handle") {
            Some(v) => v,
            None => {
                return Err(missing_text("to-tg-handle"));
            },
        };
        let from_address = match find_attr(&event.attributes, "from-address") {
            Some(v) => v,
            None => {
                return Err(missing_text("from-address"));
            },
        };
        let to_address = match find_attr(&event.attributes, "to-address") {
            Some(v) => v,
            None => {
                return Err(missing_text("to-address"));
            },
        };
        let amount = match find_attr(&event.attributes, "amount") {
            Some(v) => match Uint256::parse(v.as_str()) {
                Some(n) => n,
                None => {
                    return Err(cat("Invalid attribute amount: ", v.as_str()));
                },
            },
            None => {
                return Err(missing_text("amount"));
            },
        };
        let denom = match find_attr(&event.attributes, "denom") {
            Some(v) => v,
            None => {
                return Err(missing_text("denom"));
            },
        };
        Ok(SendPaymentEvent { from_tg_handle, to_tg_handle, from_address, to_address, amount, denom })
    }
}

/// An event worth reporting.
#[derive(Debug)]
pub enum ReportEvent {
    Registration(RegistrationEvent),
    SendPayment(SendPaymentEvent),
    Connect(ConnectEvent),
}

/// A reported event as the operators' chat group reads it.
pub open spec fn report_text_spec(e: ReportEvent) -> Seq<char> {
    match e {
        ReportEvent::Connect(c) => "User connected!\nTelegram: @"@ + c.tg_handle@ + "\nAddress: "@
            + c.address@,
        ReportEvent::Registration(c) => "New user registered!\nTelegram: @"@ + c.tg_handle@
            + "\nAddress: "@ + c.address@,
        ReportEvent::SendPayment(p) => "Payment sent!\nFrom: @"@ + p.from_tg_handle@ + " ("@
            + p.from_address@ + ")\nTo: @"@ + p.to_tg_handle@ + " ("@ + p.to_address@
            + ")\nAmount: "@ + decimal_of(p.amount.value()) + " "@ + p.denom@,
    }
}

/// The chat message that reports `event`.
pub fn report_text(event: &ReportEvent) -> (r: String)
    ensures
        r@ == report_text_spec(*event),
{
    match event {
        ReportEvent::Connect(c) => {
            let mut s = cat("User connected!\nTelegram: @", c.tg_handle.as_str());
            s.append("\nAddress: ");
            s.append(c.address.as_str());
            s
        },
        ReportEvent::Registration(c) => {
            let mut s = cat("New user registered!\nTelegram: @", c.tg_handle.as_str());
            s.append("\nAddress: ");
            s.append(c.address.as_str());
            s
        },
        ReportEvent::SendPayment(p) => {
            let mut s = cat("Payment sent!\nFrom: @", p.from_tg_handle.as_str());
            s.append(" (");
            s.append(p.from_address.as_str());
            s.append(")\nTo: @");
            s.append(p.to_tg_handle.as_str());
            s.append(" (");
            s.append(p.to_address.as_str());
            s.append(")\nAmount: ");
            let amount = p.amount.to_decimal();
            s.append(amount.as_str());
            s.append(" ");
            s.append(p.denom.as_str());
            s
        },
    }
}

/// A report sent to the server, with the id of the event and the secret
/// that proves the sender is a component.
#[derive(Debug)]
pub struct ReportEventRequest {
    pub event: ReportEvent,
    pub event_id: Vec<u8>,
    pub secret: String,
}

/// Reads an event as exactly one of the reported kinds; an event that reads
/// as none, or as more than one, is not reported.
pub fn classify(event: &Event) -> (r: Option<ReportEvent>)
    ensures
        ({
            let reg = read_handle_address(attrs_view(event.attributes@), event.ty@, "registration"@);
            let pay = read_payment(attrs_view(event.attributes@), event.ty@);
            let con = read_handle_address(attrs_view(event.attributes@), event.ty@, "connect"@);
            let n = (if reg is Ok { 1int } else { 0int }) + (if pay is Ok { 1int } else { 0int }) + (
            if con is Ok { 1int } else { 0int });
            &&& r is Some <==> n == 1
            &&& r matches Some(ReportEvent::Registration(e)) ==> reg == Ok::<(Seq<char>, Seq<char>), Seq<char>>(
                (e.tg_handle@, e.address@),
            )
            &&& r matches Some(ReportEvent::SendPayment(e)) ==> pay == Ok::<PaymentView, Seq<char>>(e@)
            &&& r matches Some(ReportEvent::Connect(e)) ==> con == Ok::<(Seq<char>, Seq<char>), Seq<char>>(
                (e.tg_handle@, e.address@),
            )
        }),
{
    let as_registration = RegistrationEvent::from_event(event);
    let as_payment = SendPaymentEvent::from_event(event);
    let as_connect = ConnectEvent::from_event(event);
    match (as_registration, as_payment, as_connect) {
        (Ok(e), Err(_), Err(_)) => Some(ReportEvent::Registration(e)),
        (Err(_), Ok(e), Err(_)) => Some(ReportEvent::SendPayment(e)),
        (Err(_), Err(_), Ok(e)) => Some(ReportEvent::Connect(e)),
        _ => None,
    }
}

} // verus!
