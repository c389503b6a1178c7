//! Protobuf encoding of the chain messages that move funds on a sender's
//! behalf: a bank `MsgSend` wrapped in an authz `MsgExec`.

use vstd::prelude::*;
use layer_climb_proto::{authz::MsgExec, bank::MsgSend, Any, Coin as ProtoCoin, Message, Name};

verus! {

/// The protobuf bytes of a bank `MsgSend` of one coin.
pub uninterp spec fn msg_send_proto(
    from: Seq<char>,
    to: Seq<char>,
    amount: Seq<char>,
    denom: Seq<char>,
) -> Seq<u8>;

/// The protobuf bytes of an authz `MsgExec` that carries one message.
pub uninterp spec fn msg_exec_proto(grantee: Seq<char>, type_url: Seq<char>, value: Seq<u8>) -> Seq<u8>;

pub open spec fn msg_send_type_url_spec() -> Seq<char> {
    "/cosmos.bank.v1beta1.MsgSend"@
}

pub open spec fn msg_exec_type_url_spec() -> Seq<char> {
    "/cosmos.authz.v1beta1.MsgExec"@
}

/// Relies on prost's `Message::encode_to_vec` for layer_climb_proto's
/// `bank::MsgSend`: the encoding depends on the four fields alone.
#[verifier::external_body]
pub(crate) fn encode_msg_send(from: &str, to: &str, amount: &str, denom: &str) -> (r: Vec<u8>)
    ensures
        r@ == msg_send_proto(from@, to@, amount@, denom@),
{
    MsgSend {
        from_address: from.to_string(),
        to_address: to.to_string(),
        amount: vec![ProtoCoin { amount: amount.to_string(), denom: denom.to_string() }],
    }.encode_to_vec()
}

/// Relies on prost's `Message::encode_to_vec` for layer_climb_proto's
/// `authz::MsgExec` holding one `Any`: the encoding depends on the grantee
/// and the inner message's type URL and bytes alone.
#[verifier::external_body]
pub(crate) fn encode_msg_exec(grantee: &str, type_url: String, value: Vec<u8>) -> (r: Vec<u8>)
    ensures
        r@ == msg_exec_proto(grantee@, type_url@, value@),
{
    MsgExec { grantee: grantee.to_string(), msgs: vec![Any { type_url, value }] }.encode_to_vec()
}

/// Relies on prost's `Name::type_url` for `bank::MsgSend`, which is `/`
/// followed by its package `cosmos.bank.v1beta1` and its name `MsgSend`.
#[verifier::external_body]
pub(crate) fn msg_send_type_url() -> (r: String)
    ensures
        r@ == msg_send_type_url_spec(),
{
    MsgSend::type_url()
}

/// Relies on prost's `Name::type_url` for `authz::MsgExec`, which is `/`
/// followed by its package `cosmos.authz.v1beta1` and its name `MsgExec`.
#[verifier::external_body]
pub(crate) fn msg_exec_type_url() -> (r: String)
    ensures
        r@ == msg_exec_type_url_spec(),
{
    MsgExec::type_url()
}

} // verus!
