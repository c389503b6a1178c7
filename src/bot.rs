//! Chat commands: the prefixes the bot knows, and how the text of a chat
//! message becomes a typed command or a typed error.

use vstd::prelude::*;
use crate::amount::{Uint256, max_amount};
use layer_climb_address::CosmosAddr;
use crate::telegram::{TelegramChatType, TelegramMessage};
use crate::text::{parse_unsigned, split_words, str_eq, words};

verus! {

#[derive(Clone, Copy, Debug, PartialEq, Eq, Structural)]
pub enum TelegramWavsAdminCommandPrefix {
    SetService,
}

/// The first word (or, for admin commands, two words) of a command.
#[derive(Clone, Copy, Debug, PartialEq, Eq, Structural)]
pub enum TelegramWavsCommandPrefix {
    Start,
    Help,
    GroupId,
    Receive,
    Send,
    Status,
    Admin(TelegramWavsAdminCommandPrefix),
    Service,
}

#[derive(Debug)]
pub enum TelegramWavsAdminCommand {
    SetService { service_url: String, admin_key: String },
}

/// A parsed command.
#[derive(Debug)]
pub enum TelegramWavsCommand {
    Start,
    Help,
    GroupId { group_id: i64 },
    /// Receive at this address, in its canonical lower-case form.
    Receive { address: String },
    Send { handle: String, amount: Uint256, denom: String },
    Admin(TelegramWavsAdminCommand),
    Service,
    Status,
}

/// A parsed command with the message it came in.
#[derive(Debug)]
pub struct TelegramBotCommand {
    pub command: TelegramWavsCommand,
    pub raw: TelegramMessage,
}

/// Why a message is no command, or a command could not be served.
#[derive(Debug)]
pub enum TelegramBotError {
    Unauthorized,
    NeedToStart,
    DirectMessageOnly,
    InvalidGroupId,
    UnknownCommand(String),
    InvalidCommandFormat { prefix: TelegramWavsCommandPrefix },
    BadCommand,
    Parse(String),
    NotGroupChat,
    Internal(String),
    SetService(String),
    ServiceNotSet,
    PaymentsContractNotSet,
    GetService(String),
    StatusAny(String),
    NoUsername,
}

pub enum CommandView {
    Start,
    Help,
    GroupId(i64),
    Receive(Seq<char>),
    Send(Seq<char>, nat, Seq<char>),
    SetService(Seq<char>, Seq<char>),
    Service,
    Status,
}

pub enum BotErrorView {
    Unauthorized,
    NeedToStart,
    DirectMessageOnly,
    InvalidGroupId,
    UnknownCommand(Seq<char>),
    InvalidCommandFormat(TelegramWavsCommandPrefix),
    BadCommand,
    Parse(Seq<char>),
    NotGroupChat,
    Internal(Seq<char>),
    SetService(Seq<char>),
    ServiceNotSet,
    PaymentsContractNotSet,
    GetService(Seq<char>),
    StatusAny(Seq<char>),
    NoUsername,
}

impl View for TelegramWavsCommand {
    type V = CommandView;

    open spec fn view(&self) -> CommandView {
        match self {
            TelegramWavsCommand::Start => CommandView::Start,
            TelegramWavsCommand::Help => CommandView::Help,
            TelegramWavsCommand::GroupId { group_id } => CommandView::GroupId(*group_id),
            TelegramWavsCommand::Receive { address } => CommandView::Receive(address@),
            TelegramWavsCommand::Send { handle, amount, denom } => CommandView::Send(
                handle@,
                amount.value(),
                denom@,
            ),
            TelegramWavsCommand::Admin(TelegramWavsAdminCommand::SetService { service_url, admin_key }) =>
                CommandView::SetService(service_url@, admin_key@),
            TelegramWavsCommand::Service => CommandView::Service,
            TelegramWavsCommand::Status => CommandView::Status,
        }
    }
}

impl View for TelegramBotError {
    type V = BotErrorView;

    open spec fn view(&self) -> BotErrorView {
        match self {
            TelegramBotError::Unauthorized => BotErrorView::Unauthorized,
            TelegramBotError::NeedToStart => BotErrorView::NeedToStart,
            TelegramBotError::DirectMessageOnly => BotErrorView::DirectMessageOnly,
            TelegramBotError::InvalidGroupId => BotErrorView::InvalidGroupId,
            TelegramBotError::UnknownCommand(s) => BotErrorView::UnknownCommand(s@),
            TelegramBotError::InvalidCommandFormat { prefix } => BotErrorView::InvalidCommandFormat(*prefix),
            TelegramBotError::BadCommand => BotErrorView::BadCommand,
            TelegramBotError::Parse(s) => BotErrorView::Parse(s@),
            TelegramBotError::NotGroupChat => BotErrorView::NotGroupChat,
            TelegramBotError::Internal(s) => BotErrorView::Internal(s@),
            TelegramBotError::SetService(s) => BotErrorView::SetService(s@),
            TelegramBotError::ServiceNotSet => BotErrorView::ServiceNotSet,
            TelegramBotError::PaymentsContractNotSet => BotErrorView::PaymentsContractNotSet,
            TelegramBotError::GetService(s) => BotErrorView::GetService(s@),
            TelegramBotError::StatusAny(s) => BotErrorView::StatusAny(s@),
            TelegramBotError::NoUsername => BotErrorView::NoUsername,
        }
    }
}

/// The text of an error, as the user reads it.
pub open spec fn bot_error_text(e: BotErrorView) -> Seq<char> {
    match e {
        BotErrorView::Unauthorized => "Unauthorized"@,
        BotErrorView::NeedToStart => "Message me `/start` to get started"@,
        BotErrorView::DirectMessageOnly => "This command can only be used in direct messages"@,
        BotErrorView::InvalidGroupId => "Invalid group id"@,
        BotErrorView::UnknownCommand(s) => "Unknown command: "@ + s,
        BotErrorView::InvalidCommandFormat(p) => "Invalid command format```Usage:\n"@ + prefix_text(p) + " "@
            + prefix_format(p) + "```"@,
        BotErrorView::BadCommand => "Bad command. Try `/help` for more information."@,
        BotErrorView::Parse(s) => "Parse: "@ + s,
        BotErrorView::NotGroupChat => "This is not a group chat ;)"@,
        BotErrorView::Internal(s) => "Internal: "@ + s,
        BotErrorView::SetService(s) => "Set service: "@ + s,
        BotErrorView::ServiceNotSet => "The service has not been set, contact an admin"@,
        BotErrorView::PaymentsContractNotSet => "The service does not have a payments contract, contact an admin"@,
        BotErrorView::GetService(s) => "Get service: "@ + s,
        BotErrorView::StatusAny(s) => "Error getting status: "@ + s,
        BotErrorView::NoUsername => "User does not have a username set"@,
    }
}

fn cat(a: &str, b: &str) -> (r: String)
    ensures
        r@ == a@ + b@,
{
    let mut s = String::from_str(a);
    s.append(b);
    s
}

impl TelegramBotError {
    /// The text of this error.
    pub fn to_string(&self) -> (r: String)
        ensures
            r@ == bot_error_text(self@),
    {
        match self {
            TelegramBotError::Unauthorized => String::from_str("Unauthorized"),
            TelegramBotError::NeedToStart => String::from_str("Message me `/start` to get started"),
            TelegramBotError::DirectMessageOnly => String::from_str("This command can only be used in direct messages"),
            TelegramBotError::InvalidGroupId => String::from_str("Invalid group id"),
            TelegramBotError::UnknownCommand(s) => cat("Unknown command: ", s.as_str()),
            TelegramBotError::InvalidCommandFormat { prefix } => {
                let mut s = cat("Invalid command format```Usage:\n", prefix.as_text());
                s.append(" ");
                s.append(prefix.format());
                s.append("```");
                s
            },
            TelegramBotError::BadCommand => String::from_str("Bad command. Try `/help` for more information."),
            TelegramBotError::Parse(s) => cat("Parse: ", s.as_str()),
            TelegramBotError::NotGroupChat => String::from_str("This is not a group chat ;)"),
            TelegramBotError::Internal(s) => cat("Internal: ", s.as_str()),
            TelegramBotError::SetService(s) => cat("Set service: ", s.as_str()),
            TelegramBotError::ServiceNotSet => String::from_str("The service has not been set, contact an admin"),
            TelegramBotError::PaymentsContractNotSet => String::from_str(
                "The service does not have a payments contract, contact an admin",
            ),
            TelegramBotError::GetService(s) => cat("Get service: ", s.as_str()),
            TelegramBotError::StatusAny(s) => cat("Error getting status: ", s.as_str()),
            TelegramBotError::NoUsername => String::from_str("User does not have a username set"),
        }
    }

    /// Whether the bot answers this error only in a direct chat.
    pub fn only_respond_to_dm(&self) -> (r: bool)
        ensures
            r == (self@ is BadCommand),
    {
        match self {
            TelegramBotError::BadCommand => true,
            _ => false,
        }
    }
}

impl TelegramWavsAdminCommand {
    /// The key the sender gave to prove it is an admin.
    pub fn admin_key(&self) -> (r: &str)
        ensures
            match self {
                TelegramWavsAdminCommand::SetService { admin_key, .. } => r@ == admin_key@,
            },
    {
        match self {
            TelegramWavsAdminCommand::SetService { admin_key, .. } => admin_key.as_str(),
        }
    }
}

/// The prefix that `s` names, if any.
pub open spec fn prefix_named(s: Seq<char>) -> Option<TelegramWavsCommandPrefix> {
    if s == "/start"@ {
        Some(TelegramWavsCommandPrefix::Start)
    } else if s == "/help"@ {
        Some(TelegramWavsCommandPrefix::Help)
    } else if s == "/groupId"@ {
        Some(TelegramWavsCommandPrefix::GroupId)
    } else if s == "/receive"@ {
        Some(TelegramWavsCommandPrefix::Receive)
    } else if s == "/send"@ {
        Some(TelegramWavsCommandPrefix::Send)
    } else if s == "/status"@ {
        Some(TelegramWavsCommandPrefix::Status)
    } else if s == "/admin set-service"@ {
        Some(TelegramWavsCommandPrefix::Admin(TelegramWavsAdminCommandPrefix::SetService))
    } else if s == "/service"@ {
        Some(TelegramWavsCommandPrefix::Service)
    } else {
        None
    }
}

/// How a prefix is written.
pub open spec fn prefix_text(p: TelegramWavsCommandPrefix) -> Seq<char> {
    match p {
        TelegramWavsCommandPrefix::Start => "/start"@,
        TelegramWavsCommandPrefix::Help => "/help"@,
        TelegramWavsCommandPrefix::GroupId => "/groupId"@,
        TelegramWavsCommandPrefix::Receive => "/receive"@,
        TelegramWavsCommandPrefix::Send => "/send"@,
        TelegramWavsCommandPrefix::Status => "/status"@,
        TelegramWavsCommandPrefix::Admin(_) => "/admin set-service"@,
        TelegramWavsCommandPrefix::Service => "/service"@,
    }
}

/// The arguments a prefix takes, as shown in usage help.
pub open spec fn prefix_format(p: TelegramWavsCommandPrefix) -> Seq<char> {
    match p {
        TelegramWavsCommandPrefix::Receive => "<address>"@,
        TelegramWavsCommandPrefix::Send => "<handle> <amount> <denom>"@,
        TelegramWavsCommandPrefix::Admin(_) => "<service_url> <admin-key>"@,
        _ => ""@,
    }
}

impl TelegramWavsCommandPrefix {
    /// The arguments this prefix takes, as shown in usage help.
    pub fn format(&self) -> (r: &'static str)
        ensures
            r@ == prefix_format(*self),
    {
        match self {
            TelegramWavsCommandPrefix::Start => "",
            TelegramWavsCommandPrefix::Help => "",
            TelegramWavsCommandPrefix::GroupId => "",
            TelegramWavsCommandPrefix::Receive => "<address>",
            TelegramWavsCommandPrefix::Send => "<handle> <amount> <denom>",
            TelegramWavsCommandPrefix::Status => "",
            TelegramWavsCommandPrefix::Admin(admin) => match admin {
                TelegramWavsAdminCommandPrefix::SetService => "<service_url> <admin-key>",
            },
            TelegramWavsCommandPrefix::Service => "",
        }
    }

    /// How this prefix is written in a message.
    pub fn as_text(&self) -> (r: &'static str)
        ensures
            r@ == prefix_text(*self),
    {
        match self {
            TelegramWavsCommandPrefix::Start => "/start",
            TelegramWavsCommandPrefix::Help => "/help",
            TelegramWavsCommandPrefix::GroupId => "/groupId",
            TelegramWavsCommandPrefix::Receive => "/receive",
            TelegramWavsCommandPrefix::Send => "/send",
            TelegramWavsCommandPrefix::Status => "/status",
            TelegramWavsCommandPrefix::Admin(_) => "/admin set-service",
            TelegramWavsCommandPrefix::Service => "/service",
        }
    }

    /// The prefix `s` names; an unknown one is an error that carries `s`.
    pub fn parse(s: &str) -> (r: Result<TelegramWavsCommandPrefix, TelegramBotError>)
        ensures
            match r {
                Ok(p) => prefix_named(s@) == Some(p),
                Err(e) => prefix_named(s@) is None && e@ == BotErrorView::UnknownCommand(s@),
            },
    {
        if str_eq(s, "/start") {
            Ok(TelegramWavsCommandPrefix::Start)
        } else if str_eq(s, "/help") {
            Ok(TelegramWavsCommandPrefix::Help)
        } else if str_eq(s, "/groupId") {
            Ok(TelegramWavsCommandPrefix::GroupId)
        } else if str_eq(s, "/receive") {
            Ok(TelegramWavsCommandPrefix::Receive)
        } else if str_eq(s, "/send") {
            Ok(TelegramWavsCommandPrefix::Send)
        } else if str_eq(s, "/status") {
            Ok(TelegramWavsCommandPrefix::Status)
        } else if str_eq(s, "/admin set-service") {
            Ok(TelegramWavsCommandPrefix::Admin(TelegramWavsAdminCommandPrefix::SetService))
        } else if str_eq(s, "/service") {
            Ok(TelegramWavsCommandPrefix::Service)
        } else {
            Err(TelegramBotError::UnknownCommand(String::from_str(s)))
        }
    }
}

impl std::str::FromStr for TelegramWavsCommandPrefix {
    type Err = TelegramBotError;

    fn from_str(s: &str) -> Result<TelegramWavsCommandPrefix, TelegramBotError> {
        TelegramWavsCommandPrefix::parse(s)
    }
}

/// A bech32 address that decodes, in its canonical lower-case form; none
/// for text that is no such address.
pub uninterp spec fn cosmos_addr_parse(s: Seq<char>) -> Option<Seq<char>>;

/// Relies on layer_climb_address's `CosmosAddr::from_str`, which decodes
/// bech32 and re-encodes it, and on its `Display`, which writes that
/// encoding; the outcome depends on the text alone.
#[verifier::external_body]
fn parse_cosmos_addr(s: &str) -> (r: Option<String>)
    ensures
        match r {
            Some(a) => cosmos_addr_parse(s@) == Some(a@),
            None => cosmos_addr_parse(s@) is None,
        },
{
    match s.parse::<CosmosAddr>() {
        Ok(a) => Some(a.to_string()),
        Err(_) => None,
    }
}

/// The message of an argument that does not parse.
pub open spec fn could_not_parse(arg: Seq<char>) -> Seq<char> {
    "could not parse "@ + arg
}

fn could_not_parse_text(arg: &str) -> (r: String)
    ensures
        r@ == could_not_parse(arg@),
{
    let mut s = String::from_str("could not parse ");
    s.append(arg);
    s
}

/// The command a known prefix and its arguments make.
pub open spec fn command_spec(
    p: TelegramWavsCommandPrefix,
    args: Seq<Seq<char>>,
    chat_type: TelegramChatType,
    chat_id: i64,
) -> Result<CommandView, BotErrorView> {
    match p {
        TelegramWavsCommandPrefix::Start => Ok(CommandView::Start),
        TelegramWavsCommandPrefix::Help => Ok(CommandView::Help),
        TelegramWavsCommandPrefix::Status => Ok(CommandView::Status),
        TelegramWavsCommandPrefix::Service => Ok(CommandView::Service),
        TelegramWavsCommandPrefix::Admin(_) => if args.len() == 2 {
            Ok(CommandView::SetService(args[0], args[1]))
        } else {
            Err(BotErrorView::InvalidCommandFormat(p))
        },
        TelegramWavsCommandPrefix::Send => if args.len() == 3 {
            match parse_unsigned(args[1], max_amount()) {
                Some(v) => Ok(CommandView::Send(args[0], v, args[2])),
                None => Err(BotErrorView::Parse(could_not_parse(args[1]))),
            }
        } else {
            Err(BotErrorView::InvalidCommandFormat(p))
        },
        TelegramWavsCommandPrefix::Receive => if args.len() == 1 {
            match cosmos_addr_parse(args[0]) {
                Some(a) => Ok(CommandView::Receive(a)),
                None => Err(BotErrorView::Parse(could_not_parse(args[0]))),
            }
        } else {
            Err(BotErrorView::InvalidCommandFormat(p))
        },
        TelegramWavsCommandPrefix::GroupId => if chat_type == TelegramChatType::Group || chat_type
            == TelegramChatType::SuperGroup || chat_type == TelegramChatType::Channel {
            if chat_id < 0 {
                Ok(CommandView::GroupId(chat_id))
            } else {
                Err(BotErrorView::InvalidGroupId)
            }
        } else {
            Err(BotErrorView::NotGroupChat)
        },
    }
}

/// The command a message's text makes: its first word picks the prefix
/// (`/admin` takes the next word with it), the other words are the
/// arguments.
pub open spec fn message_command(text: Option<Seq<char>>, chat_type: TelegramChatType, chat_id: i64) -> Result<
    CommandView,
    BotErrorView,
> {
    match text {
        None => Err(BotErrorView::BadCommand),
        Some(t) => {
            let w = words(t);
            if w.len() == 0 {
                Err(BotErrorView::BadCommand)
            } else if w[0] == "/admin"@ {
                if w.len() < 2 {
                    Err(BotErrorView::BadCommand)
                } else {
                    let name = "/admin "@ + w[1];
                    match prefix_named(name) {
                        Some(p) => command_spec(p, w.subrange(2, w.len() as int), chat_type, chat_id),
                        None => Err(BotErrorView::UnknownCommand(name)),
                    }
                }
            } else {
                match prefix_named(w[0]) {
                    Some(p) => command_spec(p, w.drop_first(), chat_type, chat_id),
                    None => Err(BotErrorView::UnknownCommand(w[0])),
                }
            }
        },
    }
}

pub open spec fn text_of(m: TelegramMessage) -> Option<Seq<char>> {
    match m.text {
        Some(t) => Some(t@),
        None => None,
    }
}

pub open spec fn result_view(r: Result<TelegramWavsCommand, TelegramBotError>) -> Result<CommandView, BotErrorView> {
    match r {
        Ok(c) => Ok(c@),
        Err(e) => Err(e@),
    }
}

impl TelegramWavsCommand {
    /// A receiving address as a command gives it: in canonical form, or
    /// none when `s` is no address.
    pub fn receive_address(s: &str) -> (r: Option<String>)
        ensures
            match r {
                Some(a) => cosmos_addr_parse(s@) == Some(a@),
                None => cosmos_addr_parse(s@) is None,
            },
    {
        parse_cosmos_addr(s)
    }

    /// Reads the command in a message.
    pub fn from_message(message: &TelegramMessage) -> (r: Result<TelegramWavsCommand, TelegramBotError>)
        ensures
            result_view(r) == message_command(text_of(*message), message.chat.chat_type, message.chat.id),
    {
        let text = match &message.text {
            Some(t) => t,
            None => {
                return Err(TelegramBotError::BadCommand);
            },
        };
        let ghost w = words(text@);
        let parts = split_words(text.as_str());
        assert(parts@.len() == w.len());
        if parts.len() == 0 {
            return Err(TelegramBotError::BadCommand);
        }
        assert(parts@[0]@ == w[0]);
        let first: usize;
        let prefix = if str_eq(parts[0].as_str(), "/admin") {
            if parts.len() < 2 {
                return Err(TelegramBotError::BadCommand);
            }
            assert(parts@[1]@ == w[1]);
            let mut name = String::from_str("/admin ");
            name.append(parts[1].as_str());
            first = 2;
            TelegramWavsCommandPrefix::parse(name.as_str())?
        } else {
            first = 1;
            TelegramWavsCommandPrefix::parse(parts[0].as_str())?
        };
        let n = parts.len() - first;
        let ghost args = w.subrange(first as int, w.len() as int);
        assert(first == 1 ==> args =~= w.drop_first());
        assert forall|k: int| 0 <= k < n implies (#[trigger] parts@[first + k])@ == args[k] by {
            assert(parts@.map_values(|s: String| s@)[first + k] == w[first + k]);
        }
        match prefix {
            TelegramWavsCommandPrefix::Start => Ok(TelegramWavsCommand::Start),
            TelegramWavsCommandPrefix::Help => Ok(TelegramWavsCommand::Help),
            TelegramWavsCommandPrefix::Status => Ok(TelegramWavsCommand::Status),
            TelegramWavsCommandPrefix::Service => Ok(TelegramWavsCommand::Service),
            TelegramWavsCommandPrefix::Admin(_) => {
                if n != 2 {
                    return Err(TelegramBotError::InvalidCommandFormat { prefix });
                }
                assert(parts@[first + 0int]@ == args[0]);
                assert(parts@[first + 1int]@ == args[1]);
                let service_url = parts[first].clone();
                let admin_key = parts[first + 1].clone();
                Ok(TelegramWavsCommand::Admin(TelegramWavsAdminCommand::SetService { service_url, admin_key }))
            },
            TelegramWavsCommandPrefix::Send => {
                if n != 3 {
                    return Err(TelegramBotError::InvalidCommandFormat { prefix });
                }
                assert(parts@[first + 0int]@ == args[0]);
                assert(parts@[first + 1int]@ == args[1]);
                assert(parts@[first + 2int]@ == args[2]);
                let amount = match Uint256::parse(parts[first + 1].as_str()) {
                    Some(v) => v,
                    None => {
                        return Err(TelegramBotError::Parse(could_not_parse_text(parts[first + 1].as_str())));
                    },
                };
                let handle = parts[first].clone();
                let denom = parts[first + 2].clone();
                Ok(TelegramWavsCommand::Send { handle, amount, denom })
            },
            TelegramWavsCommandPrefix::Receive => {
                if n != 1 {
                    return Err(TelegramBotError::InvalidCommandFormat { prefix });
                }
                assert(parts@[first + 0int]@ == args[0]);
                match parse_cosmos_addr(parts[first].as_str()) {
                    Some(address) => Ok(TelegramWavsCommand::Receive { address }),
                    None => Err(TelegramBotError::Parse(could_not_parse_text(parts[first].as_str()))),
                }
            },
            TelegramWavsCommandPrefix::GroupId => {
                let t = message.chat.chat_type;
                if t == TelegramChatType::Group || t == TelegramChatType::SuperGroup || t
                    == TelegramChatType::Channel {
                    if message.chat.id < 0 {
                        Ok(TelegramWavsCommand::GroupId { group_id: message.chat.id })
                    } else {
                        Err(TelegramBotError::InvalidGroupId)
                    }
                } else {
                    Err(TelegramBotError::NotGroupChat)
                }
            },
        }
    }
}

impl TelegramBotCommand {
    /// Reads the command in a message and keeps the message with it.
    pub fn from_message(message: TelegramMessage) -> (r: Result<TelegramBotCommand, TelegramBotError>)
        ensures
            match r {
                Ok(c) => message_command(text_of(message), message.chat.chat_type, message.chat.id)
                    == Ok::<CommandView, BotErrorView>(c.command@) && c.raw == message,
                Err(e) => message_command(text_of(message), message.chat.chat_type, message.chat.id)
                    == Err::<CommandView, BotErrorView>(e@),
            },
    {
        let command = TelegramWavsCommand::from_message(&message)?;
        Ok(TelegramBotCommand { command, raw: message })
    }
}

} // verus!
