//! A step-by-step dialogue that builds a command from several chat
//! messages: each state takes the next text and gives the next state, and a
//! command once one is complete.

use vstd::prelude::*;
use crate::amount::Uint256;
use crate::bot::{CommandView, TelegramWavsCommand, cosmos_addr_parse, could_not_parse};
use crate::text::{parse_unsigned, parse_u128_bounded, str_eq, trim, trimmed};

verus! {

#[derive(Debug)]
pub enum TGChatState {
    Wait,
    WavsReceive,
    WavsSend,
    WavsSendHandle(String),
    WavsSendHandleAmount(String, u64),
}

pub enum ChatStateView {
    Wait,
    WavsReceive,
    WavsSend,
    WavsSendHandle(Seq<char>),
    WavsSendHandleAmount(Seq<char>, u64),
}

impl View for TGChatState {
    type V = ChatStateView;

    open spec fn view(&self) -> ChatStateView {
        match self {
            TGChatState::Wait => ChatStateView::Wait,
            TGChatState::WavsReceive => ChatStateView::WavsReceive,
            TGChatState::WavsSend => ChatStateView::WavsSend,
            TGChatState::WavsSendHandle(h) => ChatStateView::WavsSendHandle(h@),
            TGChatState::WavsSendHandleAmount(h, a) => ChatStateView::WavsSendHandleAmount(h@, *a),
        }
    }
}

pub type StepView = Result<(ChatStateView, Option<CommandView>), Seq<char>>;

/// A step from the waiting state: a command word starts a dialogue or
/// gives a command at once.
pub open spec fn wait_step(text: Seq<char>) -> StepView {
    if text == "/start"@ {
        Ok((ChatStateView::Wait, Some(CommandView::Start)))
    } else if text == "/help"@ {
        Ok((ChatStateView::Wait, Some(CommandView::Help)))
    } else if text == "/status"@ {
        Ok((ChatStateView::Wait, Some(CommandView::Status)))
    } else if text == "/send"@ {
        Ok((ChatStateView::WavsSend, None))
    } else if text == "/receive"@ {
        Ok((ChatStateView::WavsReceive, None))
    } else {
        Err("unknown command: "@ + text)
    }
}

pub open spec fn starts_with_char(s: Seq<char>, c: char) -> bool {
    s.len() > 0 && s[0] == c
}

/// The step that `text` makes from state `s`. Text that starts with `/`
/// leaves any dialogue and is read as in the waiting state.
pub open spec fn next_state_spec(s: ChatStateView, text: Seq<char>) -> StepView {
    match s {
        ChatStateView::Wait => wait_step(text),
        _ => if starts_with_char(text, '/') {
            wait_step(text)
        } else {
            match s {
                ChatStateView::WavsReceive => match cosmos_addr_parse(text) {
                    Some(a) => Ok((ChatStateView::Wait, Some(CommandView::Receive(a)))),
                    None => Err(could_not_parse(text)),
                },
                ChatStateView::WavsSend => if starts_with_char(trimmed(text), '@') {
                    Ok((ChatStateView::WavsSendHandle(trimmed(text)), None))
                } else {
                    Err("Provide a telegram username, starting with @"@)
                },
                ChatStateView::WavsSendHandle(h) => match parse_unsigned(trimmed(text), u64::MAX as nat) {
                    Some(v) => Ok((ChatStateView::WavsSendHandleAmount(h, v as u64), None)),
                    None => Err(could_not_parse(trimmed(text))),
                },
                ChatStateView::WavsSendHandleAmount(h, a) => Ok(
                    (ChatStateView::Wait, Some(CommandView::Send(h, a as nat, trimmed(text)))),
                ),
                ChatStateView::Wait => wait_step(text),
            }
        },
    }
}

pub open spec fn step_view(r: Result<(TGChatState, Option<TelegramWavsCommand>), String>) -> StepView {
    match r {
        Ok(p) => Ok(
            (
                p.0@,
                match p.1 {
                    Some(c) => Some(c@),
                    None => None,
                },
            ),
        ),
        Err(e) => Err(e@),
    }
}

fn text(s: &str) -> (r: String)
    ensures
        r@ == s@,
{
    String::from_str(s)
}

fn joined(a: &str, b: &str) -> (r: String)
    ensures
        r@ == a@ + b@,
{
    let mut s = String::from_str(a);
    s.append(b);
    s
}

/// The address of a receive dialogue, parsed as the command reader does.
fn parse_address(s: &str) -> (r: Option<String>)
    ensures
        match r {
            Some(a) => cosmos_addr_parse(s@) == Some(a@),
            None => cosmos_addr_parse(s@) is None,
        },
{
    TelegramWavsCommand::receive_address(s)
}

fn wait_next(t: &str) -> (r: Result<(TGChatState, Option<TelegramWavsCommand>), String>)
    ensures
        step_view(r) == wait_step(t@),
{
    if str_eq(t, "/start") {
        Ok((TGChatState::Wait, Some(TelegramWavsCommand::Start)))
    } else if str_eq(t, "/help") {
        Ok((TGChatState::Wait, Some(TelegramWavsCommand::Help)))
    } else if str_eq(t, "/status") {
        Ok((TGChatState::Wait, Some(TelegramWavsCommand::Status)))
    } else if str_eq(t, "/send") {
        Ok((TGChatState::WavsSend, None))
    } else if str_eq(t, "/receive") {
        Ok((TGChatState::WavsReceive, None))
    } else {
        Err(joined("unknown command: ", t))
    }
}

impl TGChatState {
    /// The question to ask in this state, if any.
    pub fn prompt(&self) -> (r: Option<String>)
        ensures
            match self {
                TGChatState::Wait => r is None,
                TGChatState::WavsReceive => r matches Some(p) && p@
                    == "What blockchain address would you like to receive to?"@,
                TGChatState::WavsSend => r matches Some(p) && p@ == "Who would you like to send to?"@,
                TGChatState::WavsSendHandle(h) => r matches Some(p) && p@ == "How much would you like to send to "@
                    + h@ + "?"@,
                TGChatState::WavsSendHandleAmount(_, _) => r matches Some(p) && p@ == "Which denom?"@,
            },
    {
        match self {
            TGChatState::Wait => None,
            TGChatState::WavsReceive => Some(text("What blockchain address would you like to receive to?")),
            TGChatState::WavsSend => Some(text("Who would you like to send to?")),
            TGChatState::WavsSendHandle(handle) => {
                let mut s = joined("How much would you like to send to ", handle.as_str());
                s.append("?");
                Some(s)
            },
            TGChatState::WavsSendHandleAmount(_, _) => Some(text("Which denom?")),
        }
    }

    /// The step that `t` makes from this state.
    pub fn next_state(self, t: &str) -> (r: Result<(TGChatState, Option<TelegramWavsCommand>), String>)
        ensures
            step_view(r) == next_state_spec(self@, t@),
    {
        let is_command = t.unicode_len() > 0 && t.get_char(0) == '/';
        match self {
            TGChatState::Wait => wait_next(t),
            TGChatState::WavsReceive => {
                if is_command {
                    return wait_next(t);
                }
                match parse_address(t) {
                    Some(address) => Ok((TGChatState::Wait, Some(TelegramWavsCommand::Receive { address }))),
                    None => Err(joined("could not parse ", t)),
                }
            },
            TGChatState::WavsSend => {
                if is_command {
                    return wait_next(t);
                }
                let handle = trim(t);
                if !(handle.unicode_len() > 0 && handle.get_char(0) == '@') {
                    return Err(text("Provide a telegram username, starting with @"));
                }
                Ok((TGChatState::WavsSendHandle(text(handle)), None))
            },
            TGChatState::WavsSendHandle(handle) => {
                if is_command {
                    return wait_next(t);
                }
                let amount_text = trim(t);
                match parse_u128_bounded(amount_text, u64::MAX as u128) {
                    Some(v) => Ok((TGChatState::WavsSendHandleAmount(handle, v as u64), None)),
                    None => Err(joined("could not parse ", amount_text)),
                }
            },
            TGChatState::WavsSendHandleAmount(handle, amount) => {
                if is_command {
                    return wait_next(t);
                }
                let denom = trim(t);
                Ok(
                    (
                        TGChatState::Wait,
                        Some(TelegramWavsCommand::Send { handle, amount: Uint256::from_u128(amount as u128), denom: text(denom) }),
                    ),
                )
            },
        }
    }
}

} // verus!
