//! The chat platform's update and message records, as far as the ledger's
//! operator reads them, and the reply a webhook sends back.

use vstd::prelude::*;
use crate::text::{decimal_of, decimal_string};

verus! {

#[derive(Debug)]
pub struct TelegramUser {
    pub id: i64,
    pub is_bot: bool,
    pub first_name: String,
    pub username: Option<String>,
}

#[derive(Clone, Copy, Debug, PartialEq, Eq, Structural)]
pub enum TelegramChatType {
    Private,
    Group,
    SuperGroup,
    Channel,
}

#[derive(Debug)]
pub struct TelegramChat {
    pub id: i64,
    pub chat_type: TelegramChatType,
    pub title: Option<String>,
    pub username: Option<String>,
    pub first_name: Option<String>,
    pub last_name: Option<String>,
}

#[derive(Debug)]
pub struct TelegramMessage {
    pub message_id: i64,
    pub message_thread_id: Option<i64>,
    pub from: TelegramUser,
    pub chat: TelegramChat,
    pub date: u64,
    pub text: Option<String>,
    pub new_chat_members: Option<Vec<TelegramUser>>,
    pub left_chat_member: Option<TelegramUser>,
}

#[derive(Clone, Copy, Debug, PartialEq, Eq, Structural)]
pub enum TelegramResponseMethod {
    SendMessge,
}

/// The reply to a webhook call: a message to send to a chat.
#[derive(Debug)]
pub struct TelegramWebHookResponse {
    pub chat_id: String,
    pub method: TelegramResponseMethod,
    pub text: String,
    pub parse_mode: Option<String>,
}

/// The characters MarkdownV2 reserves.
pub open spec fn is_markdown_special(c: char) -> bool {
    c == '_' || c == '*' || c == '[' || c == ']' || c == '(' || c == ')' || c == '~' || c == '`'
        || c == '>' || c == '#' || c == '+' || c == '-' || c == '=' || c == '|' || c == '{' || c
        == '}' || c == '.' || c == '!'
}

/// `s` with its backticks dropped and every other reserved character
/// preceded by a backslash.
pub open spec fn markdown_escaped(s: Seq<char>) -> Seq<char>
    decreases s.len(),
{
    if s.len() == 0 {
        seq![]
    } else {
        let c = s.last();
        let rest = markdown_escaped(s.drop_last());
        if c == '`' {
            rest
        } else if is_markdown_special(c) {
            rest + seq!['\\', c]
        } else {
            rest.push(c)
        }
    }
}

/// Escapes `text` for MarkdownV2, dropping backticks.
pub fn escape_markdown_v2(text: &str) -> (r: String)
    ensures
        r@ == markdown_escaped(text@),
{
    let n = text.unicode_len();
    let mut out = String::from_str("");
    proof {
        reveal_strlit("");
    }
    let mut i: usize = 0;
    while i < n
        invariant
            n == text@.len(),
            i <= n,
            out@ == markdown_escaped(text@.subrange(0, i as int)),
        decreases n - i,
    {
        let c = text.get_char(i);
        let piece = text.substring_char(i, i + 1);
        let ghost pre = text@.subrange(0, i as int);
        assert(text@.subrange(0, i + 1).drop_last() =~= pre);
        assert(piece@ =~= seq![c]);
        if c == '`' {
        } else if c == '_' || c == '*' || c == '[' || c == ']' || c == '(' || c == ')' || c == '~'
            || c == '>' || c == '#' || c == '+' || c == '-' || c == '=' || c == '|' || c == '{'
            || c == '}' || c == '.' || c == '!' {
            let ghost before = out@;
            out.append(r"\");
            proof {
                reveal_strlit(r"\");
                assert(r"\"@ =~= seq!['\\']);
            }
            assert(out@ =~= before + seq!['\\']);
            out.append(piece);
            assert(out@ =~= markdown_escaped(pre) + seq!['\\', c]);
        } else {
            out.append(piece);
            assert(out@ =~= markdown_escaped(pre).push(c));
        }
        i = i + 1;
    }
    assert(text@.subrange(0, n as int) =~= text@);
    out
}

/// The decimal writing of a signed number.
pub open spec fn signed_decimal_of(n: int) -> Seq<char> {
    if n < 0 {
        seq!['-'] + decimal_of((-n) as nat)
    } else {
        decimal_of(n as nat)
    }
}

/// `n` written in decimal, as `n.to_string()` gives it.
pub fn signed_decimal_string(n: i64) -> (r: String)
    ensures
        r@ == signed_decimal_of(n as int),
{
    if n < 0 {
        let magnitude: u128 = (0i128 - n as i128) as u128;
        let digits = decimal_string(magnitude);
        let mut s = String::from_str("-");
        proof {
            reveal_strlit("-");
        }
        s.append(digits.as_str());
        assert(s@ =~= seq!['-'] + decimal_of((-n) as nat));
        s
    } else {
        decimal_string(n as u128)
    }
}

impl TelegramWebHookResponse {
    /// A MarkdownV2 message to `chat_id`, with `text` escaped.
    pub fn new(chat_id: i64, text: String) -> (r: TelegramWebHookResponse)
        ensures
            r.chat_id@ == signed_decimal_of(chat_id as int),
            r.method == TelegramResponseMethod::SendMessge,
            r.text@ == markdown_escaped(text@),
            r.parse_mode matches Some(m) && m@ == "MarkdownV2"@,
    {
        let text = escape_markdown_v2(text.as_str());
        TelegramWebHookResponse {
            chat_id: signed_decimal_string(chat_id),
            method: TelegramResponseMethod::SendMessge,
            text,
            parse_mode: Some(String::from_str("MarkdownV2")),
        }
    }
}

#[derive(Debug)]
pub struct TelegramWebHookInfo {
    pub url: String,
    pub has_custom_certificate: bool,
    pub pending_update_count: u64,
    pub ip_address: Option<String>,
    pub last_error_date: Option<u64>,
    pub last_error_message: Option<String>,
    pub last_synchronization_error_date: Option<u64>,
    pub max_connections: Option<u64>,
    pub allowed_updates: Option<Vec<String>>,
}

#[derive(Debug)]
pub struct TelegramCallbackQuery {
    pub id: String,
    pub from: TelegramUser,
    pub message: Option<TelegramMessage>,
    pub inline_message_id: Option<String>,
    pub chat_instance: String,
    pub data: Option<String>,
    pub game_short_name: Option<String>,
}

#[derive(Debug)]
pub struct TelegramMessageEntity {
    pub entity_type: String,
    pub offset: u64,
    pub length: u64,
    pub url: Option<String>,
    pub user: Option<TelegramUser>,
    pub language: Option<String>,
    pub custom_emoji_id: Option<String>,
}

#[derive(Debug)]
pub struct TelegramPoll {
    pub id: String,
    pub question: String,
    pub question_entities: Option<Vec<TelegramMessageEntity>>,
    pub options: Vec<TelegramPollOption>,
    pub total_voter_count: u64,
    pub is_closed: bool,
    pub is_anonymous: bool,
    pub poll_type: String,
    pub allows_multiple_answers: bool,
    pub correct_option_id: Option<u64>,
    pub explanation: Option<String>,
    pub explanation_entities: Option<Vec<TelegramMessageEntity>>,
    pub open_period: Option<u64>,
    pub close_date: Option<u64>,
}

#[derive(Debug)]
pub struct TelegramPollOption {
    pub text: String,
    pub text_entities: Option<Vec<TelegramMessageEntity>>,
    pub voter_count: u64,
}

#[derive(Debug)]
pub struct TelegramPollAnswer {
    pub poll_id: String,
    pub voter_chat: Option<TelegramChat>,
    pub user: Option<TelegramUser>,
    pub option_ids: Vec<u64>,
}

#[derive(Debug)]
pub struct TelegramBusinessConnection {
    pub id: String,
    pub user: TelegramUser,
    pub user_chat_id: i64,
    pub date: u64,
    pub can_reply: bool,
    pub is_enabled: bool,
}

#[derive(Debug)]
pub struct TelegramBusinessMessagesDeleted {
    pub business_connection_id: String,
    pub chat: TelegramChat,
    pub message_ids: Vec<i64>,
}

#[derive(Debug)]
pub struct TelegramShippingQuery {
    pub id: String,
    pub from: TelegramUser,
    pub invoice_payload: String,
    pub shipping_address: TelegramShippingAddress,
}

#[derive(Debug)]
pub struct TelegramShippingAddress {
    pub country_code: String,
    pub state: String,
    pub city: String,
    pub street_line1: String,
    pub street_line2: String,
    pub post_code: String,
}

#[derive(Debug)]
pub struct TelegramPreCheckoutQuery {
    pub id: String,
    pub from: TelegramUser,
    pub currency: String,
    pub total_amount: i64,
    pub invoice_payload: String,
    pub shipping_option_id: Option<String>,
    pub order_info: Option<TelegramOrderInfo>,
}

#[derive(Debug)]
pub struct TelegramOrderInfo {
    pub name: Option<String>,
    pub phone_number: Option<String>,
    pub email: Option<String>,
    pub shipping_address: Option<TelegramShippingAddress>,
}

#[derive(Debug)]
pub struct TelegramPaidMediaPurchased {
    pub from: TelegramUser,
    pub paid_media_payload: String,
}

#[derive(Debug)]
pub struct TelegramChatMemberUpdated {
    pub chat: TelegramChat,
    pub from: TelegramUser,
    pub date: u64,
    pub old_chat_member: TelegramChatMember,
    pub new_chat_member: TelegramChatMember,
    pub invite_link: Option<TelegramChatInviteLink>,
    pub via_join_request: Option<bool>,
    pub via_chat_folder_invite_link: Option<bool>,
}

#[derive(Debug)]
pub struct TelegramChatMember {
    pub status: String,
    pub user: TelegramUser,
}

#[derive(Debug)]
pub struct TelegramChatInviteLink {
    pub invite_link: String,
    pub creator: TelegramUser,
    pub creates_join_request: bool,
    pub is_primary: bool,
    pub is_revoked: bool,
}

#[derive(Debug)]
pub struct TelegramChatJoinRequest {
    pub chat: TelegramChat,
    pub from: TelegramUser,
    pub user_chat_id: i64,
    pub date: u64,
    pub bio: Option<String>,
    pub invite_link: Option<TelegramChatInviteLink>,
}

#[derive(Debug)]
pub struct TelegramChatBoostUpdated {
    pub chat: TelegramChat,
    pub boost: TelegramChatBoost,
}

#[derive(Debug)]
pub struct TelegramChatBoost {
    pub boost_id: String,
    pub add_date: u64,
    pub expiration_date: u64,
    pub source: TelegramChatBoostSource,
}

#[derive(Debug)]
pub struct TelegramChatBoostSource {
    pub source: String,
    pub user: Option<TelegramUser>,
}

#[derive(Debug)]
pub struct TelegramChatBoostRemoved {
    pub chat: TelegramChat,
    pub boost_id: String,
    pub remove_date: u64,
    pub source: TelegramChatBoostSource,
}

#[derive(Debug)]
pub struct TelegramMessageReactionUpdated {
    pub chat: TelegramChat,
    pub message_id: i64,
    pub user: Option<TelegramUser>,
    pub actor_chat: Option<TelegramChat>,
    pub date: u64,
    pub old_reaction: Vec<TelegramReactionType>,
    pub new_reaction: Vec<TelegramReactionType>,
}

#[derive(Debug)]
pub struct TelegramMessageReactionCountUpdated {
    pub chat: TelegramChat,
    pub message_id: i64,
    pub date: u64,
    pub reactions: Vec<TelegramReactionCount>,
}

#[derive(Debug)]
pub struct TelegramReactionType {
    pub reaction_type: String,
    pub emoji: Option<String>,
    pub custom_emoji_id: Option<String>,
}

#[derive(Debug)]
pub struct TelegramReactionCount {
    pub reaction_type: TelegramReactionType,
    pub total_count: u64,
}

/// One update from the chat platform. Inline queries, which carry
/// coordinates, are not kept: nothing here reads them.
#[derive(Debug)]
pub struct TelegramUpdate {
    pub update_id: i64,
    pub message: Option<TelegramMessage>,
    pub edited_message: Option<TelegramMessage>,
    pub channel_post: Option<TelegramMessage>,
    pub edited_channel_post: Option<TelegramMessage>,
    pub business_connection: Option<TelegramBusinessConnection>,
    pub business_message: Option<TelegramMessage>,
    pub edited_business_message: Option<TelegramMessage>,
    pub deleted_business_messages: Option<TelegramBusinessMessagesDeleted>,
    pub callback_query: Option<TelegramCallbackQuery>,
    pub shipping_query: Option<TelegramShippingQuery>,
    pub pre_checkout_query: Option<TelegramPreCheckoutQuery>,
    pub purchased_paid_media: Option<TelegramPaidMediaPurchased>,
    pub poll: Option<TelegramPoll>,
    pub poll_answer: Option<TelegramPollAnswer>,
    pub my_chat_member: Option<TelegramChatMemberUpdated>,
    pub chat_member: Option<TelegramChatMemberUpdated>,
    pub chat_join_request: Option<TelegramChatJoinRequest>,
    pub chat_boost: Option<TelegramChatBoostUpdated>,
    pub removed_chat_boost: Option<TelegramChatBoostRemoved>,
    pub message_reaction: Option<TelegramMessageReactionUpdated>,
    pub message_reaction_count: Option<TelegramMessageReactionCountUpdated>,
}

} // verus!
