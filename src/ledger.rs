//! The on-chain ledger: the registration table (handle to receiving address,
//! sending address to handle), the allow-list of denominations, the escrow
//! of handles that have not registered yet, and the payment engine.

use vstd::prelude::*;
use crate::amount::Uint256;
use crate::escrow::{Coin, PendingPayments, coins_view, deposit, room_for, sorted_denoms,
    all_positive, amount_of, lemma_deposit_amounts, lemma_deposit_nonempty};
use crate::msg::{Auth, InstantiateMsg, RegisterReceiveMsg, SendPaymentMsg, WavsPayload,
    CustomExecuteMsg, ChainAddrResponse, TgHandleResponse, AdminResponse};
use crate::proto::{msg_send_proto, msg_exec_proto, msg_send_type_url_spec, msg_exec_type_url_spec,
    encode_msg_send, encode_msg_exec, msg_send_type_url, msg_exec_type_url};
use crate::table::Table;
use crate::text::{decimal_of, decimal_string, str_eq};

verus! {

/// Why a ledger operation was refused. A refused operation changes nothing.
#[derive(Debug)]
pub enum ContractError {
    Unauthorized,
    ZeroSend,
    TgAlreadyRegistered(String),
    AddrAlreadyRegistered(String),
    TokenNotWhitelisted { token: String },
    InvalidAddress(String),
    /// An escrow balance would pass 2^256 − 1.
    Overflow,
    /// The manager service refused the envelope.
    Validation(String),
    /// The envelope's payload could not be decoded.
    AbiDecode(String),
    UnknownReplyId { id: u64 },
}

pub enum ErrorView {
    Unauthorized,
    ZeroSend,
    TgAlreadyRegistered(Seq<char>),
    AddrAlreadyRegistered(Seq<char>),
    TokenNotWhitelisted(Seq<char>),
    InvalidAddress(Seq<char>),
    Overflow,
    Validation(Seq<char>),
    AbiDecode(Seq<char>),
    UnknownReplyId(u64),
}

impl View for ContractError {
    type V = ErrorView;

    open spec fn view(&self) -> ErrorView {
        match self {
            ContractError::Unauthorized => ErrorView::Unauthorized,
            ContractError::ZeroSend => ErrorView::ZeroSend,
            ContractError::TgAlreadyRegistered(h) => ErrorView::TgAlreadyRegistered(h@),
            ContractError::AddrAlreadyRegistered(a) => ErrorView::AddrAlreadyRegistered(a@),
            ContractError::TokenNotWhitelisted { token } => ErrorView::TokenNotWhitelisted(token@),
            ContractError::InvalidAddress(a) => ErrorView::InvalidAddress(a@),
            ContractError::Overflow => ErrorView::Overflow,
            ContractError::Validation(m) => ErrorView::Validation(m@),
            ContractError::AbiDecode(m) => ErrorView::AbiDecode(m@),
            ContractError::UnknownReplyId { id } => ErrorView::UnknownReplyId(*id),
        }
    }
}

/// The text of an error, as a user reads it.
pub open spec fn error_text(e: ErrorView) -> Seq<char> {
    match e {
        ErrorView::Unauthorized => "Unauthorized"@,
        ErrorView::ZeroSend => "Trying to send 0 tokens"@,
        ErrorView::TgAlreadyRegistered(h) => "TG Handle "@ + h + " is already registered"@,
        ErrorView::AddrAlreadyRegistered(a) => "Address "@ + a + " is already registered"@,
        ErrorView::TokenNotWhitelisted(t) => "Token not whitelisted: "@ + t,
        ErrorView::InvalidAddress(a) => "Invalid address: "@ + a,
        ErrorView::Overflow => "Overflow"@,
        ErrorView::Validation(m) => "Validation: "@ + m,
        ErrorView::AbiDecode(m) => "ABI decode: "@ + m,
        ErrorView::UnknownReplyId(id) => "Unknown reply id: "@ + decimal_of(id as nat),
    }
}

fn concat3(a: &str, b: &str, c: &str) -> (r: String)
    ensures
        r@ == a@ + b@ + c@,
{
    let mut s = String::from_str(a);
    s.append(b);
    s.append(c);
    s
}

impl ContractError {
    /// The text of this error.
    pub fn to_string(&self) -> (r: String)
        ensures
            r@ == error_text(self@),
    {
        proof {
            reveal_strlit("");
            assert(forall|x: Seq<char>| x + ""@ =~= x);
        }
        match self {
            ContractError::Unauthorized => String::from_str("Unauthorized"),
            ContractError::ZeroSend => String::from_str("Trying to send 0 tokens"),
            ContractError::TgAlreadyRegistered(h) => concat3("TG Handle ", h.as_str(), " is already registered"),
            ContractError::AddrAlreadyRegistered(a) => concat3("Address ", a.as_str(), " is already registered"),
            ContractError::TokenNotWhitelisted { token } => concat3("Token not whitelisted: ", token.as_str(), ""),
            ContractError::InvalidAddress(a) => concat3("Invalid address: ", a.as_str(), ""),
            ContractError::Overflow => String::from_str("Overflow"),
            ContractError::Validation(m) => concat3("Validation: ", m.as_str(), ""),
            ContractError::AbiDecode(m) => concat3("ABI decode: ", m.as_str(), ""),
            ContractError::UnknownReplyId { id } => {
                let digits = decimal_string(*id as u128);
                concat3("Unknown reply id: ", digits.as_str(), "")
            },
        }
    }
}

/// A key and value recorded with a response, for those who watch the chain.
#[derive(Debug)]
pub struct Attribute {
    pub key: String,
    pub value: String,
}

/// A message the chain runs after the operation.
#[derive(Debug)]
pub enum CosmosMsg {
    /// The ledger pays `amount` out of its own funds to `to_address`.
    BankSend { to_address: String, amount: Vec<Coin> },
    /// An encoded protobuf message, identified by its type URL.
    Any { type_url: String, value: Vec<u8> },
}

pub enum MsgView {
    BankSend(Seq<char>, Seq<(Seq<char>, nat)>),
    Any(Seq<char>, Seq<u8>),
}

impl View for CosmosMsg {
    type V = MsgView;

    open spec fn view(&self) -> MsgView {
        match self {
            CosmosMsg::BankSend { to_address, amount } => MsgView::BankSend(
                to_address@,
                coins_view(amount@),
            ),
            CosmosMsg::Any { type_url, value } => MsgView::Any(type_url@, value@),
        }
    }
}

/// What a successful operation hands back to the chain.
#[derive(Debug)]
pub struct Response {
    pub messages: Vec<CosmosMsg>,
    pub attributes: Vec<Attribute>,
}

pub struct ResponseView {
    pub messages: Seq<MsgView>,
    pub attributes: Seq<(Seq<char>, Seq<char>)>,
}

impl View for Response {
    type V = ResponseView;

    open spec fn view(&self) -> ResponseView {
        ResponseView {
            messages: self.messages@.map_values(|m: CosmosMsg| m@),
            attributes: self.attributes@.map_values(|a: Attribute| (a.key@, a.value@)),
        }
    }
}

pub open spec fn opt_str(o: Option<String>) -> Option<Seq<char>> {
    match o {
        Some(s) => Some(s@),
        None => None,
    }
}

/// The ledger's state.
pub struct LedgerView {
    pub allowed_denoms: Seq<Seq<char>>,
    pub admin: Option<Seq<char>>,
    pub service_manager: Option<Seq<char>>,
    /// Handle to the address it receives at.
    pub open: Map<Seq<char>, Seq<char>>,
    /// Address to the handle it may send as.
    pub funded: Map<Seq<char>, Seq<char>>,
    /// Handle not yet registered to the funds held for it.
    pub pending: Map<Seq<char>, Seq<(Seq<char>, nat)>>,
}

impl LedgerView {
    /// Escrow exists only for unregistered handles, is sorted, never empty
    /// and never zero; a sending address is the receiving address of the
    /// handle it sends as.
    pub open spec fn consistent(self) -> bool {
        &&& forall|h: Seq<char>| #[trigger]
            self.pending.contains_key(h) ==> {
                &&& sorted_denoms(self.pending[h])
                &&& all_positive(self.pending[h])
                &&& self.pending[h].len() > 0
                &&& !self.open.contains_key(h)
            }
        &&& forall|a: Seq<char>| #[trigger]
            self.funded.contains_key(a) ==> self.open.contains_key(self.funded[a])
                && self.open[self.funded[a]] == a
    }
}

/// The funds held for `h`, none when it has no escrow.
pub open spec fn escrow_of(m: Map<Seq<char>, Seq<(Seq<char>, nat)>>, h: Seq<char>) -> Seq<
    (Seq<char>, nat),
> {
    if m.contains_key(h) {
        m[h]
    } else {
        Seq::empty()
    }
}

/// A transfer of `amount` of `denom` from `from` to `to`, run by `grantee`
/// under the allowance that `from` granted it.
pub open spec fn delegated_send(
    grantee: Seq<char>,
    from: Seq<char>,
    to: Seq<char>,
    amount: nat,
    denom: Seq<char>,
) -> MsgView {
    MsgView::Any(
        msg_exec_type_url_spec(),
        msg_exec_proto(
            grantee,
            msg_send_type_url_spec(),
            msg_send_proto(from, to, decimal_of(amount), denom),
        ),
    )
}

/// Registering `handle` to receive at `addr`: refused for an invalid
/// address or a handle that already has one; otherwise any escrow of the
/// handle is paid out to `addr` in the same step and removed.
pub open spec fn register_receive_spec(
    l: LedgerView,
    handle: Seq<char>,
    addr: Seq<char>,
    addr_valid: bool,
) -> Result<(LedgerView, ResponseView), ErrorView> {
    if !addr_valid {
        Err(ErrorView::InvalidAddress(addr))
    } else if l.open.contains_key(handle) {
        Err(ErrorView::TgAlreadyRegistered(handle))
    } else {
        Ok(
            (
                LedgerView {
                    open: l.open.insert(handle, addr),
                    pending: l.pending.remove(handle),
                    ..l
                },
                ResponseView {
                    messages: if l.pending.contains_key(handle) {
                        seq![MsgView::BankSend(addr, l.pending[handle])]
                    } else {
                        seq![]
                    },
                    attributes: seq![
                        ("method"@, "register_receive"@),
                        ("tg_handle"@, handle),
                        ("chain_addr"@, addr),
                    ],
                },
            ),
        )
    }
}

/// The address `sender` claims the right to send as `handle`: refused when
/// it already sends as another handle, or when `handle` does not receive at
/// `sender`.
pub open spec fn register_send_spec(l: LedgerView, sender: Seq<char>, handle: Seq<char>) -> Result<
    (LedgerView, ResponseView),
    ErrorView,
> {
    if l.funded.contains_key(sender) && l.funded[sender] != handle {
        Err(ErrorView::AddrAlreadyRegistered(sender))
    } else if !l.open.contains_key(handle) || l.open[handle] != sender {
        Err(ErrorView::Unauthorized)
    } else {
        Ok(
            (
                LedgerView { funded: l.funded.insert(sender, handle), ..l },
                ResponseView {
                    messages: seq![],
                    attributes: seq![
                        ("method"@, "register_send"@),
                        ("tg_handle"@, handle),
                        ("chain_addr"@, sender),
                    ],
                },
            ),
        )
    }
}

/// The handle `from` may send: it receives at some address, and that
/// address sends as `from`.
pub open spec fn can_send(l: LedgerView, from: Seq<char>) -> bool {
    l.open.contains_key(from) && l.funded.contains_key(l.open[from]) && l.funded[l.open[from]]
        == from
}

/// A payment, checked in order: the denomination is allowed, the amount is
/// not zero, the sender can send. A registered recipient is paid directly
/// from the sender; otherwise the amount goes into the recipient's escrow
/// and the sender pays the ledger (`contract`). Either way the sender pays
/// exactly once, through the allowance it granted the ledger.
pub open spec fn send_payment_spec(
    l: LedgerView,
    contract: Seq<char>,
    from: Seq<char>,
    to: Seq<char>,
    amount: nat,
    denom: Seq<char>,
) -> Result<(LedgerView, ResponseView), ErrorView> {
    if !l.allowed_denoms.contains(denom) {
        Err(ErrorView::TokenNotWhitelisted(denom))
    } else if amount == 0 {
        Err(ErrorView::ZeroSend)
    } else if !can_send(l, from) {
        Err(ErrorView::Unauthorized)
    } else if !l.open.contains_key(to) && !room_for(escrow_of(l.pending, to), denom, amount) {
        Err(ErrorView::Overflow)
    } else {
        let attributes = seq![
            ("method"@, "send_payment"@),
            ("from_tg"@, from),
            ("to_tg"@, to),
            ("amount"@, decimal_of(amount)),
            ("denom"@, denom),
        ];
        if l.open.contains_key(to) {
            Ok(
                (
                    l,
                    ResponseView {
                        messages: seq![delegated_send(contract, l.open[from], l.open[to], amount, denom)],
                        attributes,
                    },
                ),
            )
        } else {
            Ok(
                (
                    LedgerView {
                        pending: l.pending.insert(
                            to,
                            deposit(escrow_of(l.pending, to), denom, amount),
                        ),
                        ..l
                    },
                    ResponseView {
                        messages: seq![delegated_send(contract, l.open[from], contract, amount, denom)],
                        attributes,
                    },
                ),
            )
        }
    }
}

pub open spec fn is_admin(l: LedgerView, sender: Seq<char>) -> bool {
    l.admin == Some(sender)
}

/// How an operation ended: on success the new state and response are the
/// expected ones; on refusal the error is the expected one and the state is
/// unchanged.
pub open spec fn outcome(
    r: Result<Response, ContractError>,
    before: LedgerView,
    after: LedgerView,
    expected: Result<(LedgerView, ResponseView), ErrorView>,
) -> bool {
    match r {
        Ok(resp) => expected == Ok::<(LedgerView, ResponseView), ErrorView>((after, resp@)),
        Err(e) => expected == Err::<(LedgerView, ResponseView), ErrorView>(e@) && after == before,
    }
}

fn text(s: &str) -> (r: String)
    ensures
        r@ == s@,
{
    String::from_str(s)
}

fn attr(key: &str, value: String) -> (r: Attribute)
    ensures
        r.key@ == key@,
        r.value@ == value@,
{
    Attribute { key: text(key), value }
}

/// The delegated transfer message.
fn delegated_send_msg(grantee: &str, from: &str, to: &str, amount: Uint256, denom: &str) -> (r:
    CosmosMsg)
    ensures
        r@ == delegated_send(grantee@, from@, to@, amount.value(), denom@),
{
    let amount_text = amount.to_decimal();
    let inner = encode_msg_send(from, to, amount_text.as_str(), denom);
    let value = encode_msg_exec(grantee, msg_send_type_url(), inner);
    CosmosMsg::Any { type_url: msg_exec_type_url(), value }
}

/// A handle registers to receive at most once: after a registration of `h`
/// at `a1` succeeds, `h` receives at `a1`, and a second registration of `h`
/// at any valid address `a2` is refused as already registered.
pub proof fn lemma_register_receive_once(l: LedgerView, h: Seq<char>, a1: Seq<char>, a2: Seq<char>)
    ensures
        register_receive_spec(l, h, a1, true) matches Ok(p) ==> {
            &&& p.0.open[h] == a1
            &&& register_receive_spec(p.0, h, a2, true) == Err::<(LedgerView, ResponseView), ErrorView>(
                ErrorView::TgAlreadyRegistered(h),
            )
        },
{
}

/// An address `a` gains the right to send as `h` only if `h` receives at
/// `a`; an address that sends as no handle yet, asking for a handle that is
/// unregistered or receives elsewhere, is refused as unauthorized.
pub proof fn lemma_register_send_needs_receive(l: LedgerView, a: Seq<char>, h: Seq<char>)
    ensures
        register_send_spec(l, a, h) is Ok ==> l.open.contains_key(h) && l.open[h] == a,
        !l.funded.contains_key(a) && (!l.open.contains_key(h) || l.open[h] != a)
            ==> register_send_spec(l, a, h) == Err::<(LedgerView, ResponseView), ErrorView>(
            ErrorView::Unauthorized,
        ),
{
}

/// A payment to an unregistered handle `to` puts the amount in its escrow
/// and makes the sender pay once, to the ledger; registering `to` afterwards
/// succeeds, pays out the whole escrow to the new address in that same step,
/// and leaves no escrow for `to`.
pub proof fn lemma_escrow_then_register(
    l: LedgerView,
    contract: Seq<char>,
    from: Seq<char>,
    to: Seq<char>,
    amount: nat,
    denom: Seq<char>,
    addr: Seq<char>,
)
    requires
        l.consistent(),
        !l.open.contains_key(to),
        send_payment_spec(l, contract, from, to, amount, denom) is Ok,
    ensures
        send_payment_spec(l, contract, from, to, amount, denom) matches Ok(p1) && {
            let l1 = p1.0;
            &&& p1.1.messages == seq![delegated_send(contract, l.open[from], contract, amount, denom)]
            &&& l1.pending[to] == deposit(escrow_of(l.pending, to), denom, amount)
            &&& l1.open == l.open
            &&& l1.funded == l.funded
            &&& forall|x: Seq<char>| #![auto] amount_of(l1.pending[to], x) == amount_of(escrow_of(l.pending, to), x)
                + (if x == denom { amount } else { 0 })
            &&& register_receive_spec(l1, to, addr, true) matches Ok(p2) && {
                &&& p2.1.messages == seq![MsgView::BankSend(addr, l1.pending[to])]
                &&& !p2.0.pending.contains_key(to)
                &&& p2.0.open[to] == addr
            }
        },
{
    let e = escrow_of(l.pending, to);
    assert(sorted_denoms(e));
    assert forall|x: Seq<char>| #![auto] amount_of(deposit(e, denom, amount), x) == amount_of(e, x)
        + (if x == denom { amount } else { 0 }) by {
        lemma_deposit_amounts(e, denom, amount, x);
    }
}

/// A payment of zero in an allowed denomination is refused as such, and so
/// changes nothing and moves nothing.
pub proof fn lemma_zero_payment_refused(
    l: LedgerView,
    contract: Seq<char>,
    from: Seq<char>,
    to: Seq<char>,
    denom: Seq<char>,
)
    requires
        l.allowed_denoms.contains(denom),
    ensures
        send_payment_spec(l, contract, from, to, 0, denom) == Err::<(LedgerView, ResponseView), ErrorView>(
            ErrorView::ZeroSend,
        ),
{
}

/// A payment in a denomination outside the allow-list is refused as such.
pub proof fn lemma_unlisted_denom_refused(
    l: LedgerView,
    contract: Seq<char>,
    from: Seq<char>,
    to: Seq<char>,
    amount: nat,
    denom: Seq<char>,
)
    requires
        !l.allowed_denoms.contains(denom),
    ensures
        send_payment_spec(l, contract, from, to, amount, denom) == Err::<(LedgerView, ResponseView), ErrorView>(
            ErrorView::TokenNotWhitelisted(denom),
        ),
{
}

/// The ledger answers no reply: any reply id is unknown.
pub fn reply(id: u64) -> (r: Result<Response, ContractError>)
    ensures
        r matches Err(e) && e@ == ErrorView::UnknownReplyId(id),
{
    Err(ContractError::UnknownReplyId { id })
}

/// The ledger.
#[derive(Debug)]
pub struct Ledger {
    allowed_denoms: Vec<String>,
    admin: Option<String>,
    service_manager: Option<String>,
    open: Table<String>,
    funded: Table<String>,
    pending: Table<PendingPayments>,
}

impl View for Ledger {
    type V = LedgerView;

    closed spec fn view(&self) -> LedgerView {
        LedgerView {
            allowed_denoms: self.allowed_denoms@.map_values(|s: String| s@),
            admin: opt_str(self.admin),
            service_manager: opt_str(self.service_manager),
            open: self.open@,
            funded: self.funded@,
            pending: self.pending@,
        }
    }
}

impl Ledger {
    pub closed spec fn wf(&self) -> bool {
        &&& self.open.wf()
        &&& self.funded.wf()
        &&& self.pending.wf()
        &&& self@.consistent()
    }

    /// The state of a well-formed ledger is consistent, as the laws above
    /// assume of it.
    pub proof fn lemma_wf_consistent(&self)
        requires
            self.wf(),
        ensures
            self@.consistent(),
    {
    }

    /// Sets up a ledger with its allowed denominations and the account or
    /// manager service that authorizes the privileged operations.
    /// `auth_addr_valid` says whether the chain accepts that address.
    pub fn instantiate(msg: InstantiateMsg, auth_addr_valid: bool) -> (r: Result<
        (Ledger, Response),
        ContractError,
    >)
        ensures
            !auth_addr_valid ==> (r matches Err(e) && e@ == ErrorView::InvalidAddress(
                match msg.auth {
                    Auth::ServiceManager(a) => a@,
                    Auth::Admin(a) => a@,
                },
            )),
            auth_addr_valid ==> (r matches Ok(p) && {
                let l = p.0;
                let resp = p.1;
                &&& l.wf()
                &&& l@.allowed_denoms == msg.allowed_denoms@.map_values(|s: String| s@)
                &&& l@.open == Map::<Seq<char>, Seq<char>>::empty()
                &&& l@.funded == Map::<Seq<char>, Seq<char>>::empty()
                &&& l@.pending == Map::<Seq<char>, Seq<(Seq<char>, nat)>>::empty()
                &&& resp@.messages == Seq::<MsgView>::empty()
                &&& match msg.auth {
                    Auth::ServiceManager(a) => {
                        &&& l@.service_manager == Some(a@)
                        &&& l@.admin is None
                        &&& resp@.attributes == seq![
                            ("method"@, "instantiate"@),
                            ("service_manager"@, a@),
                        ]
                    },
                    Auth::Admin(a) => {
                        &&& l@.admin == Some(a@)
                        &&& l@.service_manager is None
                        &&& resp@.attributes == seq![("method"@, "instantiate"@), ("admin"@, a@)]
                    },
                }
            }),
    {
        let InstantiateMsg { allowed_denoms, auth } = msg;
        if !auth_addr_valid {
            return match auth {
                Auth::ServiceManager(a) => Err(ContractError::InvalidAddress(a)),
                Auth::Admin(a) => Err(ContractError::InvalidAddress(a)),
            };
        }
        let mut attributes: Vec<Attribute> = Vec::new();
        attributes.push(attr("method", text("instantiate")));
        let (admin, service_manager) = match auth {
            Auth::ServiceManager(a) => {
                attributes.push(attr("service_manager", a.clone()));
                (None, Some(a))
            },
            Auth::Admin(a) => {
                attributes.push(attr("admin", a.clone()));
                (Some(a), None)
            },
        };
        let l = Ledger {
            allowed_denoms,
            admin,
            service_manager,
            open: Table::new(),
            funded: Table::new(),
            pending: Table::new(),
        };
        let resp = Response { messages: Vec::new(), attributes };
        proof {
            assert(resp@.messages =~= Seq::<MsgView>::empty());
        }
        Ok((l, resp))
    }

    fn denom_allowed(&self, denom: &String) -> (r: bool)
        ensures
            r == self@.allowed_denoms.contains(denom@),
    {
        let mut i: usize = 0;
        while i < self.allowed_denoms.len()
            invariant
                i <= self.allowed_denoms@.len(),
                forall|k: int| 0 <= k < i ==> (#[trigger] self.allowed_denoms@[k])@ != denom@,
            decreases self.allowed_denoms.len() - i,
        {
            if str_eq(self.allowed_denoms[i].as_str(), denom.as_str()) {
                assert(self@.allowed_denoms[i as int] == denom@);
                return true;
            }
            i = i + 1;
        }
        proof {
            if self@.allowed_denoms.contains(denom@) {
                let k = choose|k: int|
                    0 <= k < self@.allowed_denoms.len() && self@.allowed_denoms[k] == denom@;
                assert(self.allowed_denoms@[k]@ == denom@);
            }
        }
        false
    }

    /// Registers `handle` to receive at `chain_addr`, whoever asked; pays out
    /// and removes the handle's escrow in the same step.
    fn apply_register_receive(&mut self, handle: String, chain_addr: String, chain_addr_valid: bool) -> (r:
        Result<Response, ContractError>)
        requires
            old(self).wf(),
        ensures
            final(self).wf(),
            outcome(
                r,
                old(self)@,
                final(self)@,
                register_receive_spec(old(self)@, handle@, chain_addr@, chain_addr_valid),
            ),
    {
        if !chain_addr_valid {
            return Err(ContractError::InvalidAddress(chain_addr));
        }
        if self.open.contains(handle.as_str()) {
            return Err(ContractError::TgAlreadyRegistered(handle));
        }
        let ghost pre = self@;
        self.open.insert(handle.clone(), chain_addr.clone());
        let mut messages: Vec<CosmosMsg> = Vec::new();
        match self.pending.remove(handle.as_str()) {
            Some(p) => {
                messages.push(CosmosMsg::BankSend { to_address: chain_addr.clone(), amount: p.balance() });
            },
            None => {},
        }
        let mut attributes: Vec<Attribute> = Vec::new();
        attributes.push(attr("method", text("register_receive")));
        attributes.push(attr("tg_handle", handle));
        attributes.push(attr("chain_addr", chain_addr));
        let resp = Response { messages, attributes };
        proof {
            let post = self@;
            assert forall|h: Seq<char>| #[trigger] post.pending.contains_key(h) implies {
                &&& sorted_denoms(post.pending[h])
                &&& all_positive(post.pending[h])
                &&& post.pending[h].len() > 0
                &&& !post.open.contains_key(h)
            } by {
                assert(pre.pending.contains_key(h));
            }
            assert forall|a: Seq<char>| #[trigger] post.funded.contains_key(a) implies post.open.contains_key(post.funded[a])
                && post.open[post.funded[a]] == a by {
                assert(pre.funded.contains_key(a));
            }
            let expected = register_receive_spec(pre, handle@, chain_addr@, chain_addr_valid);
            assert(resp@.attributes =~= seq![
                ("method"@, "register_receive"@),
                ("tg_handle"@, handle@),
                ("chain_addr"@, chain_addr@),
            ]);
            if pre.pending.contains_key(handle@) {
                assert(resp@.messages =~= seq![MsgView::BankSend(chain_addr@, pre.pending[handle@])]);
            } else {
                assert(resp@.messages =~= Seq::<MsgView>::empty());
            }
            assert(expected == Ok::<(LedgerView, ResponseView), ErrorView>((post, resp@)));
        }
        Ok(resp)
    }

    /// Registers `msg.tg_handle` to receive at `msg.chain_addr`; only the
    /// admin may call it. `chain_addr_valid` says whether the chain accepts
    /// the address.
    pub fn register_receive(&mut self, sender: &str, msg: RegisterReceiveMsg, chain_addr_valid: bool) -> (r:
        Result<Response, ContractError>)
        requires
            old(self).wf(),
        ensures
            final(self).wf(),
            outcome(
                r,
                old(self)@,
                final(self)@,
                if is_admin(old(self)@, sender@) {
                    register_receive_spec(old(self)@, msg.tg_handle@, msg.chain_addr@, chain_addr_valid)
                } else {
                    Err(ErrorView::Unauthorized)
                },
            ),
    {
        if !self.sender_is_admin(sender) {
            return Err(ContractError::Unauthorized);
        }
        self.apply_register_receive(msg.tg_handle, msg.chain_addr, chain_addr_valid)
    }

    /// The calling address `sender` claims the right to send as `tg_handle`.
    pub fn register_send(&mut self, sender: &str, tg_handle: String) -> (r: Result<Response, ContractError>)
        requires
            old(self).wf(),
        ensures
            final(self).wf(),
            outcome(r, old(self)@, final(self)@, register_send_spec(old(self)@, sender@, tg_handle@)),
    {
        let ghost pre = self@;
        match self.funded.get(sender) {
            Some(h) => {
                if !str_eq(h.as_str(), tg_handle.as_str()) {
                    return Err(ContractError::AddrAlreadyRegistered(text(sender)));
                }
            },
            None => {},
        }
        match self.open.get(tg_handle.as_str()) {
            Some(a) => {
                if !str_eq(a.as_str(), sender) {
                    return Err(ContractError::Unauthorized);
                }
            },
            None => {
                return Err(ContractError::Unauthorized);
            },
        }
        self.funded.insert(text(sender), tg_handle.clone());
        let mut attributes: Vec<Attribute> = Vec::new();
        attributes.push(attr("method", text("register_send")));
        attributes.push(attr("tg_handle", tg_handle));
        attributes.push(attr("chain_addr", text(sender)));
        let resp = Response { messages: Vec::new(), attributes };
        proof {
            let post = self@;
            assert forall|a: Seq<char>| #[trigger] post.funded.contains_key(a) implies post.open.contains_key(post.funded[a])
                && post.open[post.funded[a]] == a by {
                if a != sender@ {
                    assert(pre.funded.contains_key(a));
                }
            }
            assert(resp@.attributes =~= seq![
                ("method"@, "register_send"@),
                ("tg_handle"@, tg_handle@),
                ("chain_addr"@, sender@),
            ]);
            assert(resp@.messages =~= Seq::<MsgView>::empty());
        }
        Ok(resp)
    }

    /// Checks and carries out a payment, whoever asked.
    fn apply_send_payment(
        &mut self,
        contract_addr: &str,
        from_tg: String,
        to_tg: String,
        amount: Uint256,
        denom: String,
    ) -> (r: Result<Response, ContractError>)
        requires
            old(self).wf(),
        ensures
            final(self).wf(),
            outcome(
                r,
                old(self)@,
                final(self)@,
                send_payment_spec(old(self)@, contract_addr@, from_tg@, to_tg@, amount.value(), denom@),
            ),
    {
        let ghost pre = self@;
        if !self.denom_allowed(&denom) {
            return Err(ContractError::TokenNotWhitelisted { token: denom });
        }
        if amount.is_zero() {
            return Err(ContractError::ZeroSend);
        }
        let from_addr = match self.open.get(from_tg.as_str()) {
            Some(a) => a.clone(),
            None => {
                return Err(ContractError::Unauthorized);
            },
        };
        match self.funded.get(from_addr.as_str()) {
            Some(h) => {
                if !str_eq(h.as_str(), from_tg.as_str()) {
                    return Err(ContractError::Unauthorized);
                }
            },
            None => {
                return Err(ContractError::Unauthorized);
            },
        }
        let to_addr = match self.open.get(to_tg.as_str()) {
            Some(a) => a.clone(),
            None => {
                let room = match self.pending.get(to_tg.as_str()) {
                    Some(p) => p.has_room(&denom, amount),
                    None => true,
                };
                if !room {
                    return Err(ContractError::Overflow);
                }
                let mut p = match self.pending.remove(to_tg.as_str()) {
                    Some(p) => p,
                    None => PendingPayments::new(),
                };
                assert(p@ == escrow_of(pre.pending, to_tg@));
                p.add_payment(Coin { amount, denom: denom.clone() });
                proof {
                    lemma_deposit_nonempty(escrow_of(pre.pending, to_tg@), denom@, amount.value());
                }
                self.pending.insert(to_tg.clone(), p);
                text(contract_addr)
            },
        };
        let msg = delegated_send_msg(contract_addr, from_addr.as_str(), to_addr.as_str(), amount, denom.as_str());
        let mut messages: Vec<CosmosMsg> = Vec::new();
        messages.push(msg);
        let mut attributes: Vec<Attribute> = Vec::new();
        attributes.push(attr("method", text("send_payment")));
        attributes.push(attr("from_tg", from_tg));
        attributes.push(attr("to_tg", to_tg));
        attributes.push(attr("amount", amount.to_decimal()));
        attributes.push(attr("denom", denom));
        let resp = Response { messages, attributes };
        proof {
            let post = self@;
            assert forall|h: Seq<char>| #[trigger] post.pending.contains_key(h) implies {
                &&& sorted_denoms(post.pending[h])
                &&& all_positive(post.pending[h])
                &&& post.pending[h].len() > 0
                &&& !post.open.contains_key(h)
            } by {
                if h != to_tg@ {
                    assert(pre.pending.contains_key(h));
                }
            }
            assert(resp@.attributes =~= seq![
                ("method"@, "send_payment"@),
                ("from_tg"@, from_tg@),
                ("to_tg"@, to_tg@),
                ("amount"@, decimal_of(amount.value())),
                ("denom"@, denom@),
            ]);
            assert(resp@.messages =~= seq![msg@]);
            assert(from_addr@ == pre.open[from_tg@]);
            assert(can_send(pre, from_tg@));
            if pre.open.contains_key(to_tg@) {
                assert(to_addr@ == pre.open[to_tg@]);
                assert(post.pending =~= pre.pending);
                assert(post =~= pre);
            } else {
                assert(to_addr@ == contract_addr@);
                assert(room_for(escrow_of(pre.pending, to_tg@), denom@, amount.value()));
                assert(post.pending =~= pre.pending.insert(
                    to_tg@,
                    deposit(escrow_of(pre.pending, to_tg@), denom@, amount.value()),
                ));
            }
            assert(send_payment_spec(pre, contract_addr@, from_tg@, to_tg@, amount.value(), denom@)
                == Ok::<(LedgerView, ResponseView), ErrorView>((post, resp@)));
        }
        Ok(resp)
    }

    /// A payment from `msg.from_tg` to `msg.to_tg`; only the admin may call
    /// it. `contract_addr` is the ledger's own address, which holds escrow.
    pub fn send_payment(&mut self, sender: &str, contract_addr: &str, msg: SendPaymentMsg) -> (r:
        Result<Response, ContractError>)
        requires
            old(self).wf(),
        ensures
            final(self).wf(),
            outcome(
                r,
                old(self)@,
                final(self)@,
                if is_admin(old(self)@, sender@) {
                    send_payment_spec(
                        old(self)@,
                        contract_addr@,
                        msg.from_tg@,
                        msg.to_tg@,
                        msg.amount.value(),
                        msg.denom@,
                    )
                } else {
                    Err(ErrorView::Unauthorized)
                },
            ),
    {
        if !self.sender_is_admin(sender) {
            return Err(ContractError::Unauthorized);
        }
        self.apply_send_payment(contract_addr, msg.from_tg, msg.to_tg, msg.amount, msg.denom)
    }

    /// Runs a signed payload. `validation` is the manager service's answer
    /// on the envelope and `payload` its decoded content; the payload is
    /// trusted as the ledger's own request once the manager accepted it.
    pub fn wavs_handle_envelope(
        &mut self,
        validation: Result<(), String>,
        payload: Result<WavsPayload, String>,
        contract_addr: &str,
        chain_addr_valid: bool,
    ) -> (r: Result<Response, ContractError>)
        requires
            old(self).wf(),
        ensures
            final(self).wf(),
            outcome(
                r,
                old(self)@,
                final(self)@,
                if old(self)@.service_manager is None {
                    Err(ErrorView::Unauthorized)
                } else {
                    match validation {
                        Err(m) => Err(ErrorView::Validation(m@)),
                        Ok(_) => match payload {
                            Err(m) => Err(ErrorView::AbiDecode(m@)),
                            Ok(WavsPayload::Register(m)) => register_receive_spec(
                                old(self)@,
                                m.tg_handle@,
                                m.chain_addr@,
                                chain_addr_valid,
                            ),
                            Ok(WavsPayload::SendPayment(m)) => send_payment_spec(
                                old(self)@,
                                contract_addr@,
                                m.from_tg@,
                                m.to_tg@,
                                m.amount.value(),
                                m.denom@,
                            ),
                        },
                    }
                },
            ),
    {
        if self.service_manager.is_none() {
            return Err(ContractError::Unauthorized);
        }
        match validation {
            Err(m) => Err(ContractError::Validation(m)),
            Ok(_) => match payload {
                Err(m) => Err(ContractError::AbiDecode(m)),
                Ok(WavsPayload::Register(m)) => self.apply_register_receive(
                    m.tg_handle,
                    m.chain_addr,
                    chain_addr_valid,
                ),
                Ok(WavsPayload::SendPayment(m)) => self.apply_send_payment(
                    contract_addr,
                    m.from_tg,
                    m.to_tg,
                    m.amount,
                    m.denom,
                ),
            },
        }
    }

    /// Runs an operation named by the caller `sender`.
    pub fn execute(
        &mut self,
        sender: &str,
        contract_addr: &str,
        msg: CustomExecuteMsg,
        chain_addr_valid: bool,
    ) -> (r: Result<Response, ContractError>)
        requires
            old(self).wf(),
        ensures
            final(self).wf(),
            outcome(
                r,
                old(self)@,
                final(self)@,
                match msg {
                    CustomExecuteMsg::RegisterReceive(m) => if is_admin(old(self)@, sender@) {
                        register_receive_spec(old(self)@, m.tg_handle@, m.chain_addr@, chain_addr_valid)
                    } else {
                        Err(ErrorView::Unauthorized)
                    },
                    CustomExecuteMsg::SendPayment(m) => if is_admin(old(self)@, sender@) {
                        send_payment_spec(
                            old(self)@,
                            contract_addr@,
                            m.from_tg@,
                            m.to_tg@,
                            m.amount.value(),
                            m.denom@,
                        )
                    } else {
                        Err(ErrorView::Unauthorized)
                    },
                    CustomExecuteMsg::RegisterSend { tg_handle } => register_send_spec(
                        old(self)@,
                        sender@,
                        tg_handle@,
                    ),
                },
            ),
    {
        match msg {
            CustomExecuteMsg::RegisterReceive(m) => self.register_receive(sender, m, chain_addr_valid),
            CustomExecuteMsg::SendPayment(m) => self.send_payment(sender, contract_addr, m),
            CustomExecuteMsg::RegisterSend { tg_handle } => self.register_send(sender, tg_handle),
        }
    }

    /// The address `handle` receives at, if it registered one.
    pub fn addr_by_tg(&self, handle: &str) -> (r: ChainAddrResponse)
        requires
            self.wf(),
        ensures
            opt_str(r.addr) == (if self@.open.contains_key(handle@) {
                Some(self@.open[handle@])
            } else {
                None
            }),
    {
        match self.open.get(handle) {
            Some(a) => ChainAddrResponse { addr: Some(a.clone()) },
            None => ChainAddrResponse { addr: None },
        }
    }

    /// The handle `account` sends as, if it registered one. `account_valid`
    /// says whether the chain accepts the address.
    pub fn tg_by_addr(&self, account: &str, account_valid: bool) -> (r: Result<
        TgHandleResponse,
        ContractError,
    >)
        requires
            self.wf(),
        ensures
            !account_valid ==> (r matches Err(e) && e@ == ErrorView::InvalidAddress(account@)),
            account_valid ==> (r matches Ok(t) && opt_str(t.handle) == (if self@.funded.contains_key(account@) {
                Some(self@.funded[account@])
            } else {
                None
            })),
    {
        if !account_valid {
            return Err(ContractError::InvalidAddress(text(account)));
        }
        match self.funded.get(account) {
            Some(h) => Ok(TgHandleResponse { handle: Some(h.clone()) }),
            None => Ok(TgHandleResponse { handle: None }),
        }
    }

    /// The admin account, when the ledger has one.
    pub fn admin(&self) -> (r: AdminResponse)
        ensures
            opt_str(r.admin) == self@.admin,
    {
        match &self.admin {
            Some(a) => AdminResponse { admin: Some(a.clone()) },
            None => AdminResponse { admin: None },
        }
    }

    /// The manager service, when the ledger has one.
    pub fn service_manager(&self) -> (r: Option<String>)
        ensures
            opt_str(r) == self@.service_manager,
    {
        match &self.service_manager {
            Some(a) => Some(a.clone()),
            None => None,
        }
    }

    /// The denominations payments may use, in the order given at set-up.
    pub fn allowed_denoms(&self) -> (r: Vec<String>)
        ensures
            r@.map_values(|s: String| s@) == self@.allowed_denoms,
    {
        let mut r: Vec<String> = Vec::new();
        let mut i: usize = 0;
        while i < self.allowed_denoms.len()
            invariant
                i <= self.allowed_denoms@.len(),
                r@.len() == i,
                forall|k: int| 0 <= k < i ==> (#[trigger] r@[k])@ == self.allowed_denoms@[k]@,
            decreases self.allowed_denoms.len() - i,
        {
            r.push(self.allowed_denoms[i].clone());
            i = i + 1;
        }
        assert(r@.map_values(|s: String| s@) =~= self@.allowed_denoms);
        r
    }

    /// The funds held for `handle`, sorted by denomination; none when it has
    /// no escrow.
    pub fn pending_payments(&self, handle: &str) -> (r: Vec<Coin>)
        requires
            self.wf(),
        ensures
            coins_view(r@) == escrow_of(self@.pending, handle@),
    {
        match self.pending.get(handle) {
            Some(p) => p.coins(),
            None => {
                let r: Vec<Coin> = Vec::new();
                assert(coins_view(r@) =~= Seq::<(Seq<char>, nat)>::empty());
                r
            },
        }
    }

    fn sender_is_admin(&self, sender: &str) -> (r: bool)
        ensures
            r == is_admin(self@, sender@),
    {
        match &self.admin {
            Some(a) => str_eq(a.as_str(), sender),
            None => false,
        }
    }
}

} // verus!
