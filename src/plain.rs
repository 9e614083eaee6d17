//! Reduced forms of an incoming line: sender and text of a private message,
//! or the server of a keepalive.
use vstd::prelude::*;
use vstd::string::*;
use crate::error::{ConnectorError, ErrorModel};
use crate::receive::{is_ping, parse_line};
use crate::text::{chars_of, contains_char, find_char, find_from, segment_is, substring, trim, trimmed_from};
use crate::types::{ChatBotEvent, CommandType, EventModel, KindModel, ReceiveEvent, strings_view};

verus! {

#[derive(Debug, Clone, PartialEq, Eq)]
pub struct MessageInfo {
    pub user: String,
    pub text: String,
}

#[derive(Debug, Clone, PartialEq, Eq)]
pub enum MessageType {
    UserMessage(MessageInfo),
    PingMessage(String),
}

pub enum MessageTypeModel {
    UserMessage(Seq<char>, Seq<char>),
    PingMessage(Seq<char>),
}

impl View for MessageType {
    type V = MessageTypeModel;

    open spec fn view(&self) -> MessageTypeModel {
        match self {
            MessageType::UserMessage(i) => MessageTypeModel::UserMessage(i.user@, i.text@),
            MessageType::PingMessage(s) => MessageTypeModel::PingMessage(s@),
        }
    }
}

/// `s` without its colons.
pub open spec fn without_colons(s: Seq<char>) -> Seq<char>
    decreases s.len(),
{
    if s.len() == 0 {
        s
    } else if s.last() == ':' {
        without_colons(s.drop_last())
    } else {
        without_colons(s.drop_last()).push(s.last())
    }
}

/// `PING ` and then the server, which starts one character later.
pub open spec fn full_ping_of(s: Seq<char>) -> Option<Seq<char>> {
    if s.len() >= 5 && s.subrange(0, 5) == "PING "@ {
        Some(s.subrange(if s.len() >= 6 { 6 } else { 5 }, s.len() as int))
    } else {
        None
    }
}

/// `:<user>!<info> PRIVMSG <channel> :<text>`: the user without colons and
/// the trimmed text; any other verb gives nothing.
pub open spec fn full_text_of(s: Seq<char>) -> Option<(Seq<char>, Seq<char>)> {
    match find_from(s, 0, '!') {
        None => None,
        Some(bang) => if exists|k: int| 0 <= k < bang && s[k] == ' ' {
            None
        } else {
            match find_from(s, bang + 1, ' ') {
                None => None,
                Some(info_end) => match find_from(s, info_end + 1, ' ') {
                    None => None,
                    Some(verb_end) => if s.subrange(info_end + 1, verb_end) != "PRIVMSG"@ {
                        None
                    } else {
                        match find_from(s, verb_end + 1, ' ') {
                            None => None,
                            Some(channel_end) => if channel_end + 1 < s.len() {
                                Some(
                                    (
                                        without_colons(s.subrange(0, bang)),
                                        trim(s.subrange(channel_end + 2, s.len() as int)),
                                    ),
                                )
                            } else {
                                None
                            },
                        }
                    },
                },
            }
        },
    }
}

pub open spec fn full_message_of(s: Seq<char>) -> Option<MessageTypeModel> {
    if s.len() > 0 && s[0] == ':' {
        match full_text_of(s) {
            Some((u, t)) => Some(MessageTypeModel::UserMessage(u, t)),
            None => None,
        }
    } else {
        match full_ping_of(s) {
            Some(p) => Some(MessageTypeModel::PingMessage(p)),
            None => None,
        }
    }
}

fn strip_colons(s: &str, v: &Vec<char>, end: usize) -> (r: String)
    requires
        v@ == s@,
        end <= v@.len(),
    ensures
        r@ == without_colons(s@.subrange(0, end as int)),
{
    let mut out = String::new();
    let mut k: usize = 0;
    assert(s@.subrange(0, 0) =~= Seq::<char>::empty());
    while k < end
        invariant
            k <= end <= v@.len(),
            v@ == s@,
            out@ == without_colons(s@.subrange(0, k as int)),
        decreases end - k,
    {
        let ghost pre = s@.subrange(0, k + 1);
        assert(pre.drop_last() =~= s@.subrange(0, k as int));
        assert(pre.last() == v@[k as int]);
        if v[k] != ':' {
            let one = substring(s, k, k + 1);
            out.append(one.as_str());
            assert(one@ =~= seq![v@[k as int]]);
            assert(out@ =~= without_colons(pre));
        }
        k = k + 1;
    }
    out
}

/// The server of a `PING ` line, read from one character after the space.
pub fn parse_full_ping_message(raw_message: &str) -> (r: Option<MessageType>)
    ensures
        r is None <==> full_ping_of(raw_message@) is None,
        r matches Some(m) ==> full_ping_of(raw_message@) matches Some(p)
            && m@ == MessageTypeModel::PingMessage(p),
{
    let v = chars_of(raw_message);
    let n = v.len();
    if n >= 5 && segment_is(&v, 0, 5, "PING ") {
        let start: usize = if n >= 6 {
            6
        } else {
            5
        };
        Some(MessageType::PingMessage(substring(raw_message, start, n)))
    } else {
        None
    }
}

/// Sender and trimmed text of a private message line.
pub fn parse_full_text_message(raw_message: &str) -> (r: Option<MessageType>)
    ensures
        r is None <==> full_text_of(raw_message@) is None,
        r matches Some(m) ==> full_text_of(raw_message@) matches Some(p)
            && m@ == MessageTypeModel::UserMessage(p.0, p.1),
{
    let v = chars_of(raw_message);
    let n = v.len();
    let bang = match find_char(&v, 0, '!') {
        None => return None,
        Some(j) => j,
    };
    proof {
        crate::text::lemma_find_from_bounds(v@, 0, '!');
    }
    if contains_char(&v, 0, bang, ' ') {
        return None;
    }
    let info_end = match find_char(&v, bang + 1, ' ') {
        None => return None,
        Some(j) => j,
    };
    proof {
        crate::text::lemma_find_from_bounds(v@, bang + 1, ' ');
    }
    let verb_end = match find_char(&v, info_end + 1, ' ') {
        None => return None,
        Some(j) => j,
    };
    proof {
        crate::text::lemma_find_from_bounds(v@, info_end + 1, ' ');
    }
    if !segment_is(&v, info_end + 1, verb_end, "PRIVMSG") {
        return None;
    }
    let channel_end = match find_char(&v, verb_end + 1, ' ') {
        None => return None,
        Some(j) => j,
    };
    proof {
        crate::text::lemma_find_from_bounds(v@, verb_end + 1, ' ');
    }
    if channel_end + 1 < n {
        let user = strip_colons(raw_message, &v, bang);
        let text = trimmed_from(raw_message, &v, channel_end + 2);
        Some(MessageType::UserMessage(MessageInfo { user, text }))
    } else {
        None
    }
}

/// A private message's sender and text, or a keepalive's server.
pub fn parse_full_message(raw_message: &str) -> (r: Option<MessageType>)
    ensures
        r is None <==> full_message_of(raw_message@) is None,
        r matches Some(m) ==> full_message_of(raw_message@) == Some(m@),
{
    let v = chars_of(raw_message);
    if v.len() > 0 && v[0] == ':' {
        return parse_full_text_message(raw_message);
    }
    parse_full_ping_message(raw_message)
}

/// The server named by a keepalive line.
#[derive(Debug, Clone, PartialEq, Eq)]
pub struct PingMessage(pub String);

/// What a user's message holds.
#[derive(Debug, Clone, PartialEq, Eq)]
pub enum MessageContent {
    Text(String),
    Command(CommandType, Vec<String>),
}

/// A text or a command, with its sender.
#[derive(Debug, Clone, PartialEq, Eq)]
pub struct UserMessage {
    pub content: MessageContent,
    pub user_name: String,
}

#[derive(Debug, Clone, PartialEq, Eq)]
pub enum TwitchChatMessage {
    PingMessage(PingMessage),
    UserMessage(UserMessage),
}

pub enum ChatMessageModel {
    Ping(Seq<char>),
    Text(Seq<char>, Seq<char>),
    Command(KindModel, Seq<Seq<char>>, Seq<char>),
}

impl View for UserMessage {
    type V = ChatMessageModel;

    open spec fn view(&self) -> ChatMessageModel {
        match &self.content {
            MessageContent::Text(t) => ChatMessageModel::Text(t@, self.user_name@),
            MessageContent::Command(k, o) => ChatMessageModel::Command(
                k@,
                strings_view(o@),
                self.user_name@,
            ),
        }
    }
}

impl View for TwitchChatMessage {
    type V = ChatMessageModel;

    open spec fn view(&self) -> ChatMessageModel {
        match self {
            TwitchChatMessage::PingMessage(p) => ChatMessageModel::Ping(p.0@),
            TwitchChatMessage::UserMessage(m) => m@,
        }
    }
}

/// The text or command that a line carries, with its sender.
pub open spec fn user_message_of(s: Seq<char>) -> Option<ChatMessageModel> {
    match parse_line(s) {
        Some(EventModel::Text { text, user }) => Some(ChatMessageModel::Text(text, user.name)),
        Some(EventModel::Command { kind, options, user }) => Some(
            ChatMessageModel::Command(kind, options, user.name),
        ),
        _ => None,
    }
}

/// A line that starts with `:` as a user's text or command; any other
/// line as `PING :<server>`. `None` where the line is neither.
pub open spec fn chat_message_of(s: Seq<char>) -> Option<ChatMessageModel> {
    if s.len() > 0 && s[0] == ':' {
        user_message_of(s)
    } else if is_ping(s) {
        Some(ChatMessageModel::Ping(s.subrange(6, s.len() as int)))
    } else {
        None
    }
}

impl PingMessage {
    /// The server of a `PING :<server>` line.
    pub fn from_str(s: &str) -> (r: Result<Self, ConnectorError>)
        ensures
            r is Ok <==> is_ping(s@),
            r matches Ok(p) ==> p.0@ == s@.subrange(6, s@.len() as int),
            r matches Err(e) ==> e@ == ErrorModel::MessageReceiveFailed(
                "Bad ping message syntax"@,
            ),
    {
        let v = chars_of(s);
        if v.len() >= 6 && segment_is(&v, 0, 6, "PING :") {
            Ok(PingMessage(substring(s, 6, v.len())))
        } else {
            Err(ConnectorError::MessageReceiveFailed(String::from_str("Bad ping message syntax")))
        }
    }
}

impl UserMessage {
    /// The text or command of a line, with its sender.
    pub fn from_str(s: &str) -> (r: Result<Self, ConnectorError>)
        ensures
            r is Ok <==> user_message_of(s@) is Some,
            r matches Ok(m) ==> user_message_of(s@) == Some(m@),
            r matches Err(e) ==> e@ == ErrorModel::MessageReceiveFailed(
                "Unexpected message syntax"@,
            ),
    {
        match ReceiveEvent::parse_from_message(s) {
            Some(ReceiveEvent::ChatBotEvent(ChatBotEvent::TextMessage(m))) => Ok(
                UserMessage { content: MessageContent::Text(m.text), user_name: m.user.name },
            ),
            Some(ReceiveEvent::ChatBotEvent(ChatBotEvent::Command(c))) => Ok(
                UserMessage {
                    content: MessageContent::Command(c.kind, c.options),
                    user_name: c.user.name,
                },
            ),
            _ => Err(
                ConnectorError::MessageReceiveFailed(String::from_str("Unexpected message syntax")),
            ),
        }
    }
}

impl TwitchChatMessage {
    /// A user's text or command, or a keepalive.
    pub fn from_str(s: &str) -> (r: Result<Self, ConnectorError>)
        ensures
            r is Ok <==> chat_message_of(s@) is Some,
            r matches Ok(m) ==> chat_message_of(s@) == Some(m@),
            r matches Err(e) ==> e@ == ErrorModel::MessageReceiveFailed(
                if s@.len() > 0 && s@[0] == ':' {
                    "Unexpected message syntax"@
                } else {
                    "Bad ping message syntax"@
                },
            ),
    {
        let v = chars_of(s);
        if v.len() > 0 && v[0] == ':' {
            match UserMessage::from_str(s) {
                Ok(m) => Ok(TwitchChatMessage::UserMessage(m)),
                Err(e) => Err(e),
            }
        } else {
            match PingMessage::from_str(s) {
                Ok(p) => Ok(TwitchChatMessage::PingMessage(p)),
                Err(e) => Err(e),
            }
        }
    }
}

} // verus!
