//! A compact scanner of private messages and keepalives that keeps the
//! server's text as it is: no trimming, and the keepalive's argument with
//! its leading colon.
use vstd::prelude::*;
use crate::plain::MessageInfo;
use crate::text::{chars_of, contains_char, find_char, find_from, segment_is, substring};

verus! {

#[derive(Debug, Clone, PartialEq, Eq)]
pub enum MessageType {
    PrivateMessage(MessageInfo),
    PingMessage(String),
}

pub enum CompactModel {
    PrivateMessage(Seq<char>, Seq<char>),
    PingMessage(Seq<char>),
}

impl View for MessageType {
    type V = CompactModel;

    open spec fn view(&self) -> CompactModel {
        match self {
            MessageType::PrivateMessage(i) => CompactModel::PrivateMessage(i.user@, i.text@),
            MessageType::PingMessage(s) => CompactModel::PingMessage(s@),
        }
    }
}

/// From index `i` on, with `token` the non-space characters read so far:
/// at the first space where `token` spells `PING`, the rest of the line.
pub open spec fn ping_scan(s: Seq<char>, i: int, token: Seq<char>) -> Option<Seq<char>>
    decreases s.len() - i,
{
    if i < 0 || i >= s.len() {
        None
    } else if s[i] == ' ' {
        if token == "PING"@ {
            Some(s.subrange(i + 1, s.len() as int))
        } else {
            ping_scan(s, i + 1, token)
        }
    } else {
        ping_scan(s, i + 1, token.push(s[i]))
    }
}

/// `:<user>!<info> PRIVMSG <channel> <text>`: the user, and what follows
/// the channel after two more characters.
pub open spec fn private_scan(s: Seq<char>) -> Option<(Seq<char>, Seq<char>)> {
    match find_from(s, 1, '!') {
        None => None,
        Some(bang) => if exists|k: int| 1 <= k < bang && s[k] == ' ' {
            None
        } else {
            match find_from(s, bang + 1, ' ') {
                None => None,
                Some(info_end) => match find_from(s, info_end + 1, ' ') {
                    None => None,
                    Some(verb_end) => if s.subrange(info_end + 1, verb_end) != "PRIVMSG"@ {
                        None
                    } else {
                        let start = match find_from(s, verb_end + 1, ' ') {
                            Some(channel_end) => if channel_end + 2 <= s.len() {
                                channel_end + 2
                            } else {
                                s.len() as int
                            },
                            None => s.len() as int,
                        };
                        Some((s.subrange(1, bang), s.subrange(start, s.len() as int)))
                    },
                },
            }
        },
    }
}

pub open spec fn message_of(s: Seq<char>) -> Option<CompactModel> {
    if s.len() == 0 {
        None
    } else if s[0] == ':' {
        match private_scan(s) {
            Some((u, t)) => Some(CompactModel::PrivateMessage(u, t)),
            None => None,
        }
    } else {
        match ping_scan(s, 1, seq![s[0]]) {
            Some(p) => Some(CompactModel::PingMessage(p)),
            None => None,
        }
    }
}

fn scan_ping(s: &str, v: &Vec<char>) -> (r: Option<String>)
    requires
        v@ == s@,
        v@.len() > 0,
    ensures
        r is None <==> ping_scan(s@, 1, seq![s@[0]]) is None,
        r matches Some(p) ==> ping_scan(s@, 1, seq![s@[0]]) == Some(p@),
{
    let n = v.len();
    let mut token = substring(s, 0, 1);
    assert(token@ =~= seq![s@[0]]);
    let mut i: usize = 1;
    while i < n
        invariant
            1 <= i <= n,
            n == v@.len(),
            v@ == s@,
            ping_scan(s@, 1, seq![s@[0]]) == ping_scan(s@, i as int, token@),
        decreases n - i,
    {
        if v[i] == ' ' {
            if crate::text::str_eq(token.as_str(), "PING") {
                return Some(substring(s, i + 1, n));
            }
        } else {
            let one = substring(s, i, i + 1);
            let ghost t0 = token@;
            assert(one@ =~= seq![v@[i as int]]);
            token.append(one.as_str());
            assert(token@ =~= t0.push(v@[i as int]));
        }
        i = i + 1;
    }
    None
}

fn scan_private(s: &str, v: &Vec<char>) -> (r: Option<MessageInfo>)
    requires
        v@ == s@,
        v@.len() > 0,
    ensures
        r is None <==> private_scan(s@) is None,
        r matches Some(m) ==> private_scan(s@) == Some((m.user@, m.text@)),
{
    let n = v.len();
    let bang = match find_char(v, 1, '!') {
        None => return None,
        Some(j) => j,
    };
    proof {
        crate::text::lemma_find_from_bounds(v@, 1, '!');
    }
    if contains_char(v, 1, bang, ' ') {
        return None;
    }
    let info_end = match find_char(v, bang + 1, ' ') {
        None => return None,
        Some(j) => j,
    };
    proof {
        crate::text::lemma_find_from_bounds(v@, bang + 1, ' ');
    }
    let verb_end = match find_char(v, info_end + 1, ' ') {
        None => return None,
        Some(j) => j,
    };
    proof {
        crate::text::lemma_find_from_bounds(v@, info_end + 1, ' ');
    }
    if !segment_is(v, info_end + 1, verb_end, "PRIVMSG") {
        return None;
    }
    proof {
        crate::text::lemma_find_from_bounds(v@, verb_end + 1, ' ');
    }
    let start = match find_char(v, verb_end + 1, ' ') {
        Some(channel_end) => if channel_end + 1 < n {
            channel_end + 2
        } else {
            n
        },
        None => n,
    };
    Some(MessageInfo { user: substring(s, 1, bang), text: substring(s, start, n) })
}

/// A private message's sender and the text after its channel, or the
/// argument of a keepalive, colon included.
pub fn parse_message(raw_message: &str) -> (r: Option<MessageType>)
    ensures
        r is None <==> message_of(raw_message@) is None,
        r matches Some(m) ==> message_of(raw_message@) == Some(m@),
{
    let v = chars_of(raw_message);
    if v.len() == 0 {
        return None;
    }
    if v[0] == ':' {
        match scan_private(raw_message, &v) {
            Some(info) => Some(MessageType::PrivateMessage(info)),
            None => None,
        }
    } else {
        match scan_ping(raw_message, &v) {
            Some(p) => Some(MessageType::PingMessage(p)),
            None => None,
        }
    }
}

} // verus!
