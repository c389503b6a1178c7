//! What the bot answers in chat: the reply to each command and the welcome
//! for new group members.

use vstd::prelude::*;
use crate::amount::Uint256;
use crate::text::{decimal_of, decimal_string};
use crate::telegram::{signed_decimal_of, signed_decimal_string};

verus! {

/// The outcome of a command, to be told to the user.
#[derive(Debug)]
pub enum CommandResponse {
    Start { link: String },
    /// The user's first name and, if registered, its address.
    Status { address: Option<String>, first_name: String },
    Receive { address: String },
    Send { handle: String, amount: Uint256, denom: String },
    GroupId { group_id: i64 },
    /// The service that was set, as a printed description.
    SetService { service: String },
    Help,
    Service { uri: String },
}

/// The list of commands, one per line.
pub open spec fn help_text() -> Seq<char> {
    "*Available commands:*\n`/start` - Start interaction with the bot\n`/help` - Show this help message\n`/status` - Check if your account has been registered for receiving or sending payments\n`/groupId` - Get the current group chat ID\n`/receive <address>` - Register to receive WAVS payments at the specified address\n`/send <handle> <amount> <denom>` - Register to send WAVS payments to the specified handle\n`/service` - Get the current service information\n`/admin set-service <service_url> <admin-key>` - Set the service information (admin only)\n"@
}

pub open spec fn response_text(r: CommandResponse) -> Seq<char> {
    match r {
        CommandResponse::Start { link } => "Welcome to the bot!\n\nJoin the group to start receiving and sending WAVS payments.\n\n"@
            + link@,
        CommandResponse::Status { address, first_name } => match address {
            Some(a) => "Hello, "@ + first_name@ + "! Your account is registered with address: "@ + a@,
            None => "Hello, "@ + first_name@ + "! Your account is not registered yet."@,
        },
        CommandResponse::Receive { address } => "okay, you got it, registered "@ + address@,
        CommandResponse::Send { handle, amount, denom } => "okay, you got it, sending "@ + decimal_of(amount.value()) + " "@ + denom@ + " to "@ + handle@,
        CommandResponse::GroupId { group_id } => "Group ID is "@ + signed_decimal_of(group_id as int),
        CommandResponse::SetService { service } => "```Service: "@ + service@ + "```"@,
        CommandResponse::Help => help_text(),
        CommandResponse::Service { uri } => "Service: "@ + uri@,
    }
}

fn cat(a: &str, b: &str) -> (r: String)
    ensures
        r@ == a@ + b@,
{
    let mut s = String::from_str(a);
    s.append(b);
    s
}

impl CommandResponse {
    /// The reply to send.
    pub fn to_text(&self) -> (r: String)
        ensures
            r@ == response_text(*self),
    {
        match self {
            CommandResponse::Start { link } => cat(
                "Welcome to the bot!\n\nJoin the group to start receiving and sending WAVS payments.\n\n",
                link.as_str(),
            ),
            CommandResponse::Status { address, first_name } => {
                let mut s = cat("Hello, ", first_name.as_str());
                match address {
                    Some(a) => {
                        s.append("! Your account is registered with address: ");
                        s.append(a.as_str());
                    },
                    None => {
                        s.append("! Your account is not registered yet.");
                    },
                }
                s
            },
            CommandResponse::Receive { address } => cat("okay, you got it, registered ", address.as_str()),
            CommandResponse::Send { handle, amount, denom } => {
                let digits = amount.to_decimal();
                let mut s = cat("okay, you got it, sending ", digits.as_str());
                s.append(" ");
                s.append(denom.as_str());
                s.append(" to ");
                s.append(handle.as_str());
                s
            },
            CommandResponse::GroupId { group_id } => {
                let digits = signed_decimal_string(*group_id);
                cat("Group ID is ", digits.as_str())
            },
            CommandResponse::SetService { service } => {
                let mut s = cat("```Service: ", service.as_str());
                s.append("```");
                s
            },
            CommandResponse::Help => String::from_str(
                "*Available commands:*\n`/start` - Start interaction with the bot\n`/help` - Show this help message\n`/status` - Check if your account has been registered for receiving or sending payments\n`/groupId` - Get the current group chat ID\n`/receive <address>` - Register to receive WAVS payments at the specified address\n`/send <handle> <amount> <denom>` - Register to send WAVS payments to the specified handle\n`/service` - Get the current service information\n`/admin set-service <service_url> <admin-key>` - Set the service information (admin only)\n",
            ),
            CommandResponse::Service { uri } => cat("Service: ", uri.as_str()),
        }
    }
}

/// The greeting for a member who joined the group.
pub open spec fn welcome_text_spec(first_name: Seq<char>) -> Seq<char> {
    "Welcome, "@ + first_name
        + "!\n\nSend `/help` to see all available commands.\n\nTo get started, send this command to register and receive any funds waiting for you!\n\n```Registration: /receive <address>```"@
}

pub fn welcome_text(first_name: &str) -> (r: String)
    ensures
        r@ == welcome_text_spec(first_name@),
{
    let mut s = cat("Welcome, ", first_name);
    s.append(
        "!\n\nSend `/help` to see all available commands.\n\nTo get started, send this command to register and receive any funds waiting for you!\n\n```Registration: /receive <address>```",
    );
    s
}

/// An admin command is allowed only when an admin key is configured and
/// the sender gave exactly that key.
pub fn admin_key_accepted(expected: &str, given: &str) -> (r: bool)
    ensures
        r == (expected@.len() > 0 && expected@ == given@),
{
    expected.unicode_len() > 0 && crate::text::str_eq(expected, given)
}

} // verus!
