//! The messages the ledger takes and the answers its reads give.

use vstd::prelude::*;
use crate::amount::Uint256;

verus! {

/// Who may call the privileged operations.
pub enum Auth {
    /// Payloads come signed and are checked by this manager service.
    ServiceManager(String),
    /// This one account calls the privileged operations directly.
    Admin(String),
}

pub struct InstantiateMsg {
    pub allowed_denoms: Vec<String>,
    pub auth: Auth,
}

pub struct MigrateMsg {}

/// Register `tg_handle` to receive funds at `chain_addr`.
pub struct RegisterReceiveMsg {
    pub message_id: i64,
    pub tg_handle: String,
    pub chain_addr: String,
}

/// Send `amount` of `denom` from one handle to another.
pub struct SendPaymentMsg {
    pub message_id: i64,
    pub from_tg: String,
    pub to_tg: String,
    pub amount: Uint256,
    pub denom: String,
}

/// What a signed envelope carries.
pub enum WavsPayload {
    Register(RegisterReceiveMsg),
    SendPayment(SendPaymentMsg),
}

pub enum PayloadView {
    /// Message id, handle, address.
    Register(i64, Seq<char>, Seq<char>),
    /// Message id, sending handle, receiving handle, amount, denomination.
    SendPayment(i64, Seq<char>, Seq<char>, nat, Seq<char>),
}

impl View for WavsPayload {
    type V = PayloadView;

    open spec fn view(&self) -> PayloadView {
        match self {
            WavsPayload::Register(m) => PayloadView::Register(m.message_id, m.tg_handle@, m.chain_addr@),
            WavsPayload::SendPayment(m) => PayloadView::SendPayment(
                m.message_id,
                m.from_tg@,
                m.to_tg@,
                m.amount.value(),
                m.denom@,
            ),
        }
    }
}

impl WavsPayload {
    /// The id of the chat message the payload came from.
    pub fn message_id(&self) -> (r: i64)
        ensures
            r == match self {
                WavsPayload::Register(m) => m.message_id,
                WavsPayload::SendPayment(m) => m.message_id,
            },
    {
        match self {
            WavsPayload::Register(msg) => msg.message_id,
            WavsPayload::SendPayment(msg) => msg.message_id,
        }
    }
}

/// The ledger operations a caller names directly.
pub enum CustomExecuteMsg {
    /// Privileged.
    RegisterReceive(RegisterReceiveMsg),
    /// Privileged.
    SendPayment(SendPaymentMsg),
    /// Called by the chain account that wants to send as `tg_handle`.
    RegisterSend { tg_handle: String },
}

/// The ledger's reads.
pub enum CustomQueryMsg {
    AddrByTg { handle: String },
    TgByAddr { account: String },
    Admin {},
    PendingPayments { handle: String },
    AllowedDenoms {},
}

pub struct TgHandleResponse {
    pub handle: Option<String>,
}

pub struct ChainAddrResponse {
    pub addr: Option<String>,
}

pub struct AdminResponse {
    pub admin: Option<String>,
}

} // verus!
