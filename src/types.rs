//! The typed events that incoming lines turn into, and their models.
use vstd::prelude::*;

verus! {

/// A named privilege marker with a numeric level.
#[derive(Debug, Clone, PartialEq, Eq, Hash)]
pub struct Badge {
    pub name: String,
    pub level: u16,
}

/// The sender of a message, with the badges read from its `badges` tag.
#[derive(Debug, Clone, PartialEq, Eq)]
pub struct UserInfo {
    pub name: String,
    pub badges: Vec<Badge>,
}

#[derive(Debug, Clone, PartialEq, Eq)]
pub enum CommandType {
    Help,
    Info,
    NewCommand,
    RemoveCommand,
    Slap,
    Discord,
    Dynamic(String),
    NewRepeating,
    RemoveRepeating,
}

#[derive(Debug, Clone, PartialEq, Eq)]
pub struct Command {
    pub kind: CommandType,
    pub options: Vec<String>,
    pub user: UserInfo,
}

#[derive(Debug, Clone, PartialEq, Eq)]
pub struct TextMessage {
    pub text: String,
    pub user: UserInfo,
}

/// What the chat logic receives.
#[derive(Debug, Clone, PartialEq, Eq)]
pub enum ChatBotEvent {
    TextMessage(TextMessage),
    Command(Command),
    Part(String),
    Join(String),
}

/// An event for the connection itself; it never reaches the chat logic.
#[derive(Debug, Clone, PartialEq, Eq)]
pub enum ConnectorEvent {
    Ping(String),
}

/// One parsed incoming line.
#[derive(Debug, Clone, PartialEq, Eq)]
pub enum ReceiveEvent {
    ChatBotEvent(ChatBotEvent),
    ConnectorEvent(ConnectorEvent),
}

pub struct BadgeModel {
    pub name: Seq<char>,
    pub level: u16,
}

pub struct UserModel {
    pub name: Seq<char>,
    pub badges: Seq<BadgeModel>,
}

pub enum KindModel {
    Help,
    Info,
    NewCommand,
    RemoveCommand,
    Slap,
    Discord,
    Dynamic(Seq<char>),
    NewRepeating,
    RemoveRepeating,
}

/// The model of a parsed line: the chat events, and the keepalive.
pub enum EventModel {
    Text { text: Seq<char>, user: UserModel },
    Command { kind: KindModel, options: Seq<Seq<char>>, user: UserModel },
    Join(Seq<char>),
    Part(Seq<char>),
    Ping(Seq<char>),
}

pub open spec fn strings_view(v: Seq<String>) -> Seq<Seq<char>> {
    v.map_values(|s: String| s@)
}

impl View for Badge {
    type V = BadgeModel;

    open spec fn view(&self) -> BadgeModel {
        BadgeModel { name: self.name@, level: self.level }
    }
}

impl View for UserInfo {
    type V = UserModel;

    open spec fn view(&self) -> UserModel {
        UserModel { name: self.name@, badges: self.badges@.map_values(|b: Badge| b@) }
    }
}

impl View for CommandType {
    type V = KindModel;

    open spec fn view(&self) -> KindModel {
        match self {
            CommandType::Help => KindModel::Help,
            CommandType::Info => KindModel::Info,
            CommandType::NewCommand => KindModel::NewCommand,
            CommandType::RemoveCommand => KindModel::RemoveCommand,
            CommandType::Slap => KindModel::Slap,
            CommandType::Discord => KindModel::Discord,
            CommandType::Dynamic(name) => KindModel::Dynamic(name@),
            CommandType::NewRepeating => KindModel::NewRepeating,
            CommandType::RemoveRepeating => KindModel::RemoveRepeating,
        }
    }
}

impl View for ChatBotEvent {
    type V = EventModel;

    open spec fn view(&self) -> EventModel {
        match self {
            ChatBotEvent::TextMessage(m) => EventModel::Text { text: m.text@, user: m.user@ },
            ChatBotEvent::Command(c) => EventModel::Command {
                kind: c.kind@,
                options: strings_view(c.options@),
                user: c.user@,
            },
            ChatBotEvent::Part(u) => EventModel::Part(u@),
            ChatBotEvent::Join(u) => EventModel::Join(u@),
        }
    }
}

impl View for ReceiveEvent {
    type V = EventModel;

    open spec fn view(&self) -> EventModel {
        match self {
            ReceiveEvent::ChatBotEvent(e) => e@,
            ReceiveEvent::ConnectorEvent(ConnectorEvent::Ping(server)) => EventModel::Ping(
                server@,
            ),
        }
    }
}

impl TextMessage {
    pub fn new(text: &str, user: UserInfo) -> (r: Self)
        ensures
            r.text@ == text@,
            r.user == user,
    {
        TextMessage { text: text.to_owned(), user }
    }
}

impl UserInfo {
    /// True when the user carries a `broadcaster` or `moderator` badge.
    pub fn has_elevated_rights(&self) -> (r: bool)
        ensures
            r == exists|i: int|
                0 <= i < self.badges@.len() && is_elevated_badge(#[trigger] self.badges@[i].name@),
    {
        let mut i: usize = 0;
        while i < self.badges.len()
            invariant
                i <= self.badges@.len(),
                forall|k: int| 0 <= k < i ==> !is_elevated_badge(#[trigger] self.badges@[k].name@),
            decreases self.badges@.len() - i,
        {
            let name = self.badges[i].name.as_str();
            if crate::text::str_eq(name, "broadcaster") || crate::text::str_eq(name, "moderator") {
                return true;
            }
            i = i + 1;
        }
        false
    }
}

pub open spec fn is_elevated_badge(name: Seq<char>) -> bool {
    name == "broadcaster"@ || name == "moderator"@
}

} // verus!
