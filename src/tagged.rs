//! Events that keep a line's raw tags and the raw command name, for chat
//! logic that reads the tags itself.
use vstd::prelude::*;
use crate::receive::{
    after_first, is_ping, scan, scan_line, tag_lookup, tags_view, find_tag, Scan, Tags, Verb,
    VerbModel,
};
use crate::text::{chars_of, segment_is, split, split_str, substring, trim, trimmed_from};
use crate::types::strings_view;

verus! {

/// A command as typed: its name, its options and who sent it.
#[derive(Debug, Clone, PartialEq, Eq)]
pub struct Command {
    pub name: String,
    pub options: Vec<String>,
    pub user_name: String,
    pub tags: Tags,
}

/// A chat text with its sender and the line's tags.
#[derive(Debug, Clone, PartialEq, Eq)]
pub struct TextMessage {
    pub text: String,
    pub user_name: String,
    pub tags: Tags,
}

#[derive(Debug, Clone, PartialEq, Eq)]
pub enum EventContent {
    TextMessage(TextMessage),
    Command(Command),
    Part(String),
    Join(String),
}

#[derive(Debug, Clone, PartialEq, Eq)]
pub enum InternalEventContent {
    Ping(String),
}

/// A line read by a connection: for the connection itself, or for the chat.
#[derive(Debug, Clone, PartialEq, Eq)]
pub enum TwitchChatInternalEvent {
    Internal(InternalEventContent),
    External(EventContent),
}

pub type TagsModel = Seq<(Seq<char>, Seq<char>)>;

pub enum ContentModel {
    Text { text: Seq<char>, user_name: Seq<char>, tags: TagsModel },
    Command { name: Seq<char>, options: Seq<Seq<char>>, user_name: Seq<char>, tags: TagsModel },
    Part(Seq<char>),
    Join(Seq<char>),
}

pub enum InternalModel {
    Ping(Seq<char>),
    External(ContentModel),
}

impl View for EventContent {
    type V = ContentModel;

    open spec fn view(&self) -> ContentModel {
        match self {
            EventContent::TextMessage(m) => ContentModel::Text {
                text: m.text@,
                user_name: m.user_name@,
                tags: tags_view(m.tags@),
            },
            EventContent::Command(c) => ContentModel::Command {
                name: c.name@,
                options: strings_view(c.options@),
                user_name: c.user_name@,
                tags: tags_view(c.tags@),
            },
            EventContent::Part(u) => ContentModel::Part(u@),
            EventContent::Join(u) => ContentModel::Join(u@),
        }
    }
}

impl View for TwitchChatInternalEvent {
    type V = InternalModel;

    open spec fn view(&self) -> InternalModel {
        match self {
            TwitchChatInternalEvent::Internal(InternalEventContent::Ping(s)) => InternalModel::Ping(
                s@,
            ),
            TwitchChatInternalEvent::External(e) => InternalModel::External(e@),
        }
    }
}

/// `text` split at spaces: the first word names the command, the rest are
/// its options. An empty text is no command.
pub open spec fn command_parts(text: Seq<char>) -> Option<(Seq<char>, Seq<Seq<char>>)> {
    if text.len() == 0 {
        None
    } else {
        let words = split(text, ' ');
        Some((words[0], words.drop_first()))
    }
}

/// `p` occurs in `s`.
pub open spec fn contains_seq(s: Seq<char>, p: Seq<char>) -> bool {
    exists|i: int| 0 <= i && i + p.len() <= s.len() && #[trigger] s.subrange(i, i + p.len()) == p
}

/// The tagged event of a line; a command keeps its name without the `!`.
pub open spec fn content_of(s: Seq<char>) -> Option<ContentModel> {
    match scan_line(s) {
        None => None,
        Some(sc) => match sc.verb {
            VerbModel::Join => Some(ContentModel::Join(sc.user)),
            VerbModel::Part => Some(ContentModel::Part(sc.user)),
            VerbModel::Privmsg(b) => {
                let body = trim(s.subrange(b, s.len() as int));
                if s[b] == '!' {
                    match command_parts(after_first(body)) {
                        Some(c) => Some(
                            ContentModel::Command {
                                name: c.0,
                                options: c.1,
                                user_name: sc.user,
                                tags: sc.tags,
                            },
                        ),
                        None => None,
                    }
                } else {
                    Some(ContentModel::Text { text: body, user_name: sc.user, tags: sc.tags })
                }
            },
        },
    }
}

/// The event of a line that starts with `:`, or the keepalive of a line
/// that starts with `PING :`.
pub open spec fn internal_of(s: Seq<char>) -> Option<InternalModel> {
    if s.len() > 0 && s[0] == ':' {
        match content_of(s) {
            Some(c) => Some(InternalModel::External(c)),
            None => None,
        }
    } else if is_ping(s) {
        Some(InternalModel::Ping(s.subrange(6, s.len() as int)))
    } else {
        None
    }
}

/// `p` occurs in `s`.
pub fn contains_str(s: &str, p: &str) -> (r: bool)
    ensures
        r == contains_seq(s@, p@),
{
    let v = chars_of(s);
    let pv = chars_of(p);
    let m = pv.len();
    let n = v.len();
    if m > n {
        return false;
    }
    if m == 0 {
        assert(p@.len() == 0);
        assert(s@.subrange(0, 0 + p@.len() as int) =~= p@);
        return true;
    }
    let mut i: usize = 0;
    while i <= n - m
        invariant
            1 <= m <= n,
            n == v@.len(),
            m == p@.len(),
            v@ == s@,
            forall|k: int| 0 <= k < i ==> #[trigger] s@.subrange(k, k + m) != p@,
        decreases n - m + 1 - i,
    {
        if segment_is(&v, i, i + m, p) {
            return true;
        }
        i = i + 1;
    }
    assert forall|k: int| 0 <= k && k + p@.len() <= s@.len() implies #[trigger] s@.subrange(
        k,
        k + p@.len(),
    ) != p@ by {
        assert(k < i);
    }
    false
}

impl Command {
    /// The command written in `text`: first word the name, the rest options.
    pub fn new(text: &str, user_name: &str, tags: Tags) -> (r: Option<Self>)
        ensures
            r is None <==> command_parts(text@) is None,
            r matches Some(c) ==> command_parts(text@) == Some((c.name@, strings_view(c.options@)))
                && c.user_name@ == user_name@ && c.tags == tags,
    {
        if text.is_empty() {
            return None;
        }
        let words = split_str(text, ' ');
        proof {
            crate::text::lemma_split_nonempty(text@, ' ');
        }
        let name = words[0].clone();
        let mut options: Vec<String> = Vec::new();
        let mut i: usize = 1;
        while i < words.len()
            invariant
                1 <= i <= words@.len(),
                strings_view(words@) == split(text@, ' '),
                strings_view(options@) =~= split(text@, ' ').subrange(1, i as int),
            decreases words@.len() - i,
        {
            let ghost before = strings_view(options@);
            let w = words[i].clone();
            assert(w@ == split(text@, ' ')[i as int]);
            options.push(w);
            assert(strings_view(options@) =~= before.push(w@));
            assert(split(text@, ' ').subrange(1, i + 1) =~= split(text@, ' ').subrange(
                1,
                i as int,
            ).push(w@));
            i = i + 1;
        }
        assert(split(text@, ' ').subrange(1, words@.len() as int) =~= split(text@, ' ').drop_first());
        assert(name@ == split(text@, ' ')[0]);
        Some(Command { name, options, user_name: user_name.to_owned(), tags })
    }

    /// True when the `badges` tag mentions `broadcaster` or `moderator`.
    pub fn is_from_a_mod(&self) -> (r: bool)
        ensures
            r == match tag_lookup(tags_view(self.tags@), "badges"@) {
                Some(b) => contains_seq(b, "broadcaster"@) || contains_seq(b, "moderator"@),
                None => false,
            },
    {
        match find_tag(&self.tags, "badges") {
            Some(badges) => contains_str(badges.as_str(), "broadcaster") || contains_str(
                badges.as_str(),
                "moderator",
            ),
            None => false,
        }
    }
}

impl TextMessage {
    pub fn new(text: &str, user_name: &str, tags: Tags) -> (r: Self)
        ensures
            r.text@ == text@,
            r.user_name@ == user_name@,
            r.tags == tags,
    {
        TextMessage { text: text.to_owned(), user_name: user_name.to_owned(), tags }
    }
}

impl EventContent {
    /// The tagged event of one line, if it gives one.
    pub fn new(message: &str) -> (r: Option<Self>)
        ensures
            r is None <==> content_of(message@) is None,
            r matches Some(e) ==> content_of(message@) == Some(e@),
    {
        let v = chars_of(message);
        let sc = match scan(message, &v) {
            None => return None,
            Some(sc) => sc,
        };
        let Scan { tags, user, verb } = sc;
        match verb {
            Verb::Join => Some(EventContent::Join(user)),
            Verb::Part => Some(EventContent::Part(user)),
            Verb::Privmsg(b) => {
                let body = trimmed_from(message, &v, b);
                if v[b] == '!' {
                    let n = chars_of(body.as_str()).len();
                    let rest = if n > 0 {
                        substring(body.as_str(), 1, n)
                    } else {
                        String::new()
                    };
                    assert(rest@ =~= after_first(body@));
                    match Command::new(rest.as_str(), user.as_str(), tags) {
                        Some(c) => Some(EventContent::Command(c)),
                        None => None,
                    }
                } else {
                    Some(EventContent::TextMessage(TextMessage { text: body, user_name: user, tags }))
                }
            },
        }
    }
}

impl TwitchChatInternalEvent {
    /// The event of a line that starts with `:`, or the keepalive of a
    /// `PING :<server>` line.
    pub fn new(s: &str) -> (r: Option<Self>)
        ensures
            r is None <==> internal_of(s@) is None,
            r matches Some(e) ==> internal_of(s@) == Some(e@),
    {
        let v = chars_of(s);
        if v.len() > 0 && v[0] == ':' {
            match EventContent::new(s) {
                Some(e) => Some(TwitchChatInternalEvent::External(e)),
                None => None,
            }
        } else if v.len() >= 6 && segment_is(&v, 0, 6, "PING :") {
            Some(
                TwitchChatInternalEvent::Internal(
                    InternalEventContent::Ping(substring(s, 6, v.len())),
                ),
            )
        } else {
            None
        }
    }
}

} // verus!
