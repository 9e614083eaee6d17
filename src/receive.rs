//! Parsing of one incoming protocol line into at most one event.
//!
//! A line is `PING :<server>`, or an optional tag block `@k=v;k=v` and a
//! space, then `:<user>!<info> <VERB> ...`. `JOIN` and `PART` name the user;
//! `PRIVMSG #<channel> :<body>` carries a text or, when the body starts with
//! `!`, a command. Anything else gives no event.
use vstd::prelude::*;
use crate::text::{
    chars_of, contains_char, find_char, find_from, lemma_split_nonempty, parse_u16,
    parse_u16_str, segment_is, split, split_str, str_eq, substring, trim, trimmed_from,
};
use crate::types::{
    Badge, BadgeModel, ChatBotEvent, Command, CommandType, ConnectorEvent, EventModel, KindModel,
    ReceiveEvent, TextMessage, UserInfo, UserModel, strings_view,
};

verus! {

/// Tags in the order in which the line lists them.
pub type Tags = Vec<(String, String)>;

pub open spec fn tags_view(t: Seq<(String, String)>) -> Seq<(Seq<char>, Seq<char>)> {
    t.map_values(|p: (String, String)| (p.0@, p.1@))
}

/// `key=value`; a missing value is empty, and text after a second `=` is dropped.
pub open spec fn tag_pair(piece: Seq<char>) -> (Seq<char>, Seq<char>) {
    let parts = split(piece, '=');
    (parts[0], if parts.len() > 1 { parts[1] } else { Seq::<char>::empty() })
}

pub open spec fn tags_of(s: Seq<char>) -> Seq<(Seq<char>, Seq<char>)> {
    split(s, ';').map_values(|p: Seq<char>| tag_pair(p))
}

/// The value of the last tag named `key`.
pub open spec fn tag_lookup(tags: Seq<(Seq<char>, Seq<char>)>, key: Seq<char>) -> Option<Seq<char>>
    decreases tags.len(),
{
    if tags.len() == 0 {
        None
    } else if tags.last().0 == key {
        Some(tags.last().1)
    } else {
        tag_lookup(tags.drop_last(), key)
    }
}

/// `name/level`; a level that is missing or does not parse is 0.
pub open spec fn badge_of(piece: Seq<char>) -> BadgeModel {
    let parts = split(piece, '/');
    BadgeModel {
        name: parts[0],
        level: if parts.len() > 1 {
            match parse_u16(parts[1]) {
                Some(n) => n,
                None => 0,
            }
        } else {
            0
        },
    }
}

/// `bs` with `b` added unless it is there already.
pub open spec fn add_badge(bs: Seq<BadgeModel>, b: BadgeModel) -> Seq<BadgeModel> {
    if bs.contains(b) {
        bs
    } else {
        bs.push(b)
    }
}

/// The distinct badges of the listed pieces, in the order of first mention.
pub open spec fn badge_set(pieces: Seq<Seq<char>>) -> Seq<BadgeModel>
    decreases pieces.len(),
{
    if pieces.len() == 0 {
        Seq::empty()
    } else {
        add_badge(badge_set(pieces.drop_last()), badge_of(pieces.last()))
    }
}

/// The badges listed, comma-separated, in the `badges` tag.
pub open spec fn badges_of(tags: Seq<(Seq<char>, Seq<char>)>) -> Seq<BadgeModel> {
    match tag_lookup(tags, "badges"@) {
        Some(v) => if v.len() == 0 {
            Seq::<BadgeModel>::empty()
        } else {
            badge_set(split(v, ','))
        },
        None => Seq::<BadgeModel>::empty(),
    }
}

/// The fixed table of command names; any other name is dynamic.
pub open spec fn kind_of(name: Seq<char>) -> KindModel {
    if name == "help"@ {
        KindModel::Help
    } else if name == "info"@ {
        KindModel::Info
    } else if name == "newcommand"@ {
        KindModel::NewCommand
    } else if name == "removecommand"@ {
        KindModel::RemoveCommand
    } else if name == "slap"@ {
        KindModel::Slap
    } else if name == "discord"@ {
        KindModel::Discord
    } else if name == "newrepeating"@ {
        KindModel::NewRepeating
    } else if name == "removerepeating"@ {
        KindModel::RemoveRepeating
    } else {
        KindModel::Dynamic(name)
    }
}

/// A word without its first character.
pub open spec fn after_first(w: Seq<char>) -> Seq<char> {
    if w.len() == 0 {
        w
    } else {
        w.drop_first()
    }
}

/// A command body `!name opt1 opt2 ...`: the name after its first
/// character, and the space-separated options. A lone `!` is no command.
pub open spec fn command_of(body: Seq<char>) -> Option<(KindModel, Seq<Seq<char>>)> {
    if body == "!"@ {
        None
    } else {
        let words = split(body, ' ');
        Some((kind_of(after_first(words[0])), words.drop_first()))
    }
}

/// What follows the prefix of a line.
pub enum VerbModel {
    Join,
    Part,
    /// A private message whose body starts at this index.
    Privmsg(int),
}

/// The parts shared by every user line: tags, user name and verb.
pub struct ScanModel {
    pub tags: Seq<(Seq<char>, Seq<char>)>,
    pub user: Seq<char>,
    pub verb: VerbModel,
}

/// The verb and its arguments, once the user name ends at `bang`.
pub open spec fn scan_verb(s: Seq<char>, bang: int) -> Option<VerbModel> {
    match find_from(s, bang + 1, ' ') {
        None => None,
        Some(info_end) => match find_from(s, info_end + 1, ' ') {
            None => None,
            Some(verb_end) => {
                let token = s.subrange(info_end + 1, verb_end);
                if token == "JOIN"@ {
                    Some(VerbModel::Join)
                } else if token == "PART"@ {
                    Some(VerbModel::Part)
                } else if token == "PRIVMSG"@ {
                    match find_from(s, verb_end + 1, ':') {
                        Some(col) => if col + 1 < s.len() {
                            Some(VerbModel::Privmsg(col + 1))
                        } else {
                            None
                        },
                        None => None,
                    }
                } else {
                    None
                }
            },
        },
    }
}

/// User name from `start` up to `!`, with no space in it, then the verb.
pub open spec fn scan_user(
    s: Seq<char>,
    tags: Seq<(Seq<char>, Seq<char>)>,
    start: int,
) -> Option<ScanModel> {
    match find_from(s, start, '!') {
        None => None,
        Some(bang) => if exists|k: int| start <= k < bang && s[k] == ' ' {
            None
        } else {
            match scan_verb(s, bang) {
                Some(verb) => Some(ScanModel { tags, user: s.subrange(start, bang), verb }),
                None => None,
            }
        },
    }
}

/// The shared front of a user line.
pub open spec fn scan_line(s: Seq<char>) -> Option<ScanModel> {
    if s.len() == 0 {
        None
    } else if s[0] == '@' {
        match find_from(s, 1, ' ') {
            None => None,
            Some(sp) => if sp + 1 < s.len() && s[sp + 1] == ':' {
                scan_user(s, tags_of(s.subrange(1, sp)), sp + 2)
            } else {
                None
            },
        }
    } else if s[0] == ':' {
        scan_user(s, Seq::empty(), 1)
    } else {
        None
    }
}

pub open spec fn is_ping(s: Seq<char>) -> bool {
    s.len() >= 6 && s.subrange(0, 6) == "PING :"@
}

/// The event that a line gives, if any.
pub open spec fn parse_line(s: Seq<char>) -> Option<EventModel> {
    if is_ping(s) {
        Some(EventModel::Ping(s.subrange(6, s.len() as int)))
    } else {
        match scan_line(s) {
            None => None,
            Some(sc) => match sc.verb {
                VerbModel::Join => Some(EventModel::Join(sc.user)),
                VerbModel::Part => Some(EventModel::Part(sc.user)),
                VerbModel::Privmsg(b) => {
                    let user = UserModel { name: sc.user, badges: badges_of(sc.tags) };
                    let body = trim(s.subrange(b, s.len() as int));
                    if s[b] == '!' {
                        match command_of(body) {
                            Some(c) => Some(
                                EventModel::Command { kind: c.0, options: c.1, user },
                            ),
                            None => None,
                        }
                    } else {
                        Some(EventModel::Text { text: body, user })
                    }
                },
            },
        }
    }
}

/// Tags of a tag block `k=v;k=v`, in order.
pub fn parse_tags(tags_string: &str) -> (r: Tags)
    ensures
        tags_view(r@) == tags_of(tags_string@),
{
    let pieces = split_str(tags_string, ';');
    let mut out: Tags = Vec::new();
    let mut i: usize = 0;
    while i < pieces.len()
        invariant
            i <= pieces@.len(),
            strings_view(pieces@) == split(tags_string@, ';'),
            tags_view(out@) =~= split(tags_string@, ';').subrange(0, i as int).map_values(
                |p: Seq<char>| tag_pair(p),
            ),
        decreases pieces@.len() - i,
    {
        let parts = split_str(pieces[i].as_str(), '=');
        proof {
            lemma_split_nonempty(pieces@[i as int]@, '=');
        }
        let key = parts[0].clone();
        let value = if parts.len() > 1 {
            parts[1].clone()
        } else {
            String::new()
        };
        let ghost pi = pieces@[i as int]@;
        let ghost before = tags_view(out@);
        assert(pi == split(tags_string@, ';')[i as int]);
        assert(strings_view(parts@)[0] == parts@[0]@);
        assert(parts@.len() > 1 ==> strings_view(parts@)[1] == parts@[1]@);
        assert((key@, value@) == tag_pair(pi));
        out.push((key, value));
        assert(tags_view(out@) =~= before.push(tag_pair(pi)));
        assert(split(tags_string@, ';').subrange(0, i + 1) =~= split(tags_string@, ';').subrange(
            0,
            i as int,
        ).push(pi));
        i = i + 1;
    }
    out
}

/// The value of the last tag named `key`.
pub fn find_tag<'a>(tags: &'a Tags, key: &str) -> (r: Option<&'a String>)
    ensures
        r matches Some(v) ==> tag_lookup(tags_view(tags@), key@) == Some(v@),
        r is None ==> tag_lookup(tags_view(tags@), key@) is None,
{
    let mut i = tags.len();
    assert(tags@.subrange(0, i as int) =~= tags@);
    while i > 0
        invariant
            i <= tags@.len(),
            tag_lookup(tags_view(tags@), key@) == tag_lookup(
                tags_view(tags@.subrange(0, i as int)),
                key@,
            ),
        decreases i,
    {
        let ghost pre = tags_view(tags@.subrange(0, i as int));
        assert(tags_view(tags@.subrange(0, i - 1)) =~= pre.drop_last());
        if str_eq(tags[i - 1].0.as_str(), key) {
            return Some(&tags[i - 1].1);
        }
        i = i - 1;
    }
    None
}

/// A badge from `name/level`.
pub fn parse_badge(piece: &str) -> (r: Badge)
    ensures
        r@ == badge_of(piece@),
{
    let parts = split_str(piece, '/');
    proof {
        lemma_split_nonempty(piece@, '/');
    }
    let name = parts[0].clone();
    let level = if parts.len() > 1 {
        match parse_u16_str(parts[1].as_str()) {
            Some(n) => n,
            None => 0,
        }
    } else {
        0
    };
    Badge { name, level }
}

/// `b` is among `bs`.
fn has_badge(bs: &Vec<Badge>, b: &Badge) -> (r: bool)
    ensures
        r == bs@.map_values(|x: Badge| x@).contains(b@),
{
    let ghost view = bs@.map_values(|x: Badge| x@);
    let mut j: usize = 0;
    while j < bs.len()
        invariant
            j <= bs@.len(),
            view == bs@.map_values(|x: Badge| x@),
            forall|k: int| 0 <= k < j ==> view[k] != b@,
        decreases bs@.len() - j,
    {
        if bs[j].level == b.level && str_eq(bs[j].name.as_str(), b.name.as_str()) {
            assert(view[j as int] == b@);
            return true;
        }
        j = j + 1;
    }
    false
}

/// The distinct badges listed in the `badges` tag, in the order of first
/// mention; none when the tag is absent or empty.
pub fn get_badges(tags: &Tags) -> (r: Vec<Badge>)
    ensures
        r@.map_values(|b: Badge| b@) == badges_of(tags_view(tags@)),
{
    let mut out: Vec<Badge> = Vec::new();
    match find_tag(tags, "badges") {
        None => out,
        Some(value) => {
            if value.as_str().is_empty() {
                assert(out@.map_values(|b: Badge| b@) =~= Seq::<BadgeModel>::empty());
                return out;
            }
            let pieces = split_str(value.as_str(), ',');
            let mut i: usize = 0;
            assert(split(value@, ',').subrange(0, 0) =~= Seq::<Seq<char>>::empty());
            assert(out@.map_values(|b: Badge| b@) =~= Seq::<BadgeModel>::empty());
            while i < pieces.len()
                invariant
                    i <= pieces@.len(),
                    strings_view(pieces@) == split(value@, ','),
                    out@.map_values(|b: Badge| b@) == badge_set(
                        split(value@, ',').subrange(0, i as int),
                    ),
                decreases pieces@.len() - i,
            {
                let b = parse_badge(pieces[i].as_str());
                let ghost pi = pieces@[i as int]@;
                let ghost before = out@.map_values(|b: Badge| b@);
                let ghost pre = split(value@, ',').subrange(0, i + 1);
                assert(pi == split(value@, ',')[i as int]);
                assert(pre.drop_last() =~= split(value@, ',').subrange(0, i as int));
                assert(pre.last() == pi);
                if !has_badge(&out, &b) {
                    out.push(b);
                    assert(out@.map_values(|b: Badge| b@) =~= before.push(badge_of(pi)));
                }
                i = i + 1;
            }
            assert(split(value@, ',').subrange(0, pieces@.len() as int) =~= split(value@, ','));
            out
        },
    }
}

/// The command kind for a name without its leading `!`.
pub fn parse_command_kind(command_name: &str) -> (r: CommandType)
    ensures
        r@ == kind_of(command_name@),
{
    if str_eq(command_name, "help") {
        CommandType::Help
    } else if str_eq(command_name, "info") {
        CommandType::Info
    } else if str_eq(command_name, "newcommand") {
        CommandType::NewCommand
    } else if str_eq(command_name, "removecommand") {
        CommandType::RemoveCommand
    } else if str_eq(command_name, "slap") {
        CommandType::Slap
    } else if str_eq(command_name, "discord") {
        CommandType::Discord
    } else if str_eq(command_name, "newrepeating") {
        CommandType::NewRepeating
    } else if str_eq(command_name, "removerepeating") {
        CommandType::RemoveRepeating
    } else {
        CommandType::Dynamic(command_name.to_owned())
    }
}

/// Kind and options of a command body `!name opt1 opt2 ...`.
pub fn parse_command_from_message(message: &str) -> (r: Option<(CommandType, Vec<String>)>)
    ensures
        r is None <==> command_of(message@) is None,
        r matches Some(c) ==> command_of(message@) == Some((c.0@, strings_view(c.1@))),
{
    if str_eq(message, "!") {
        return None;
    }
    let words = split_str(message, ' ');
    proof {
        lemma_split_nonempty(message@, ' ');
    }
    let first = words[0].as_str();
    let n = chars_of(first).len();
    let name = if n > 0 {
        substring(first, 1, n)
    } else {
        String::new()
    };
    assert(words@[0]@ == split(message@, ' ')[0]);
    assert(name@ =~= after_first(words@[0]@));
    let kind = parse_command_kind(name.as_str());
    let mut options: Vec<String> = Vec::new();
    let mut i: usize = 1;
    while i < words.len()
        invariant
            1 <= i <= words@.len(),
            strings_view(words@) == split(message@, ' '),
            strings_view(options@) =~= split(message@, ' ').subrange(1, i as int),
        decreases words@.len() - i,
    {
        let ghost before = strings_view(options@);
        let w = words[i].clone();
        assert(w@ == split(message@, ' ')[i as int]);
        options.push(w);
        assert(strings_view(options@) =~= before.push(w@));
        assert(split(message@, ' ').subrange(1, i + 1) =~= split(message@, ' ').subrange(
            1,
            i as int,
        ).push(w@));
        i = i + 1;
    }
    assert(split(message@, ' ').subrange(1, words@.len() as int) =~= split(
        message@,
        ' ',
    ).drop_first());
    Some((kind, options))
}

/// What follows a user line's prefix, in executable form.
pub enum Verb {
    Join,
    Part,
    Privmsg(usize),
}

pub struct Scan {
    pub tags: Tags,
    pub user: String,
    pub verb: Verb,
}

pub open spec fn scan_matches(r: Scan, m: ScanModel) -> bool {
    &&& tags_view(r.tags@) == m.tags
    &&& r.user@ == m.user
    &&& match (r.verb, m.verb) {
        (Verb::Join, VerbModel::Join) => true,
        (Verb::Part, VerbModel::Part) => true,
        (Verb::Privmsg(b), VerbModel::Privmsg(mb)) => b == mb,
        _ => false,
    }
}

fn scan_verb_exec(v: &Vec<char>, bang: usize) -> (r: Option<Verb>)
    requires
        bang < v@.len(),
    ensures
        r is None <==> scan_verb(v@, bang as int) is None,
        r matches Some(x) ==> match (x, scan_verb(v@, bang as int)->0) {
            (Verb::Join, VerbModel::Join) => true,
            (Verb::Part, VerbModel::Part) => true,
            (Verb::Privmsg(b), VerbModel::Privmsg(mb)) => b == mb,
            _ => false,
        },
{
    let n = v.len();
    let info_end = match find_char(v, bang + 1, ' ') {
        None => return None,
        Some(j) => j,
    };
    proof {
        crate::text::lemma_find_from_bounds(v@, bang + 1, ' ');
    }
    let verb_end = match find_char(v, info_end + 1, ' ') {
        None => return None,
        Some(j) => j,
    };
    proof {
        crate::text::lemma_find_from_bounds(v@, info_end + 1, ' ');
    }
    if segment_is(v, info_end + 1, verb_end, "JOIN") {
        Some(Verb::Join)
    } else if segment_is(v, info_end + 1, verb_end, "PART") {
        Some(Verb::Part)
    } else if segment_is(v, info_end + 1, verb_end, "PRIVMSG") {
        let col = match find_char(v, verb_end + 1, ':') {
            None => return None,
            Some(j) => j,
        };
        proof {
            crate::text::lemma_find_from_bounds(v@, verb_end + 1, ':');
        }
        if col + 1 < v.len() {
            Some(Verb::Privmsg(col + 1))
        } else {
            None
        }
    } else {
        None
    }
}

fn scan_user_exec(s: &str, v: &Vec<char>, tags: Tags, start: usize) -> (r: Option<Scan>)
    requires
        v@ == s@,
        start <= v@.len(),
    ensures
        r is None <==> scan_user(v@, tags_view(tags@), start as int) is None,
        r matches Some(x) ==> scan_matches(x, scan_user(v@, tags_view(tags@), start as int)->0),
{
    let bang = match find_char(v, start, '!') {
        None => return None,
        Some(j) => j,
    };
    proof {
        crate::text::lemma_find_from_bounds(v@, start as int, '!');
    }
    if contains_char(v, start, bang, ' ') {
        return None;
    }
    match scan_verb_exec(v, bang) {
        None => None,
        Some(verb) => Some(Scan { tags, user: substring(s, start, bang), verb }),
    }
}

/// Tags, user name and verb of a user line.
pub fn scan(s: &str, v: &Vec<char>) -> (r: Option<Scan>)
    requires
        v@ == s@,
    ensures
        r is None <==> scan_line(s@) is None,
        r matches Some(x) ==> scan_matches(x, scan_line(s@)->0),
{
    if v.len() == 0 {
        return None;
    }
    if v[0] == '@' {
        let sp = match find_char(v, 1, ' ') {
            None => return None,
            Some(j) => j,
        };
        proof {
            crate::text::lemma_find_from_bounds(v@, 1, ' ');
        }
        if sp + 1 < v.len() && v[sp + 1] == ':' {
            let tags = parse_tags(substring(s, 1, sp).as_str());
            scan_user_exec(s, v, tags, sp + 2)
        } else {
            None
        }
    } else if v[0] == ':' {
        let tags: Tags = Vec::new();
        assert(tags_view(tags@) =~= Seq::empty());
        scan_user_exec(s, v, tags, 1)
    } else {
        None
    }
}

impl ConnectorEvent {
    /// The keepalive event of a `PING :<server>` line.
    pub fn new(s: &str) -> (r: Option<Self>)
        ensures
            r is Some <==> is_ping(s@),
            r matches Some(ConnectorEvent::Ping(server)) ==> server@ == s@.subrange(
                6,
                s@.len() as int,
            ),
    {
        let v = chars_of(s);
        if v.len() >= 6 && segment_is(&v, 0, 6, "PING :") {
            Some(ConnectorEvent::Ping(substring(s, 6, v.len())))
        } else {
            None
        }
    }
}

impl ReceiveEvent {
    /// The event that one line gives; `None` for every line that is not
    /// one of the recognised shapes.
    pub fn parse_from_message(message: &str) -> (r: Option<Self>)
        ensures
            r is None <==> parse_line(message@) is None,
            r matches Some(e) ==> parse_line(message@) == Some(e@),
    {
        if let Some(ping) = ConnectorEvent::new(message) {
            return Some(ReceiveEvent::ConnectorEvent(ping));
        }
        let v = chars_of(message);
        let sc = match scan(message, &v) {
            None => return None,
            Some(sc) => sc,
        };
        let Scan { tags, user, verb } = sc;
        match verb {
            Verb::Join => Some(ReceiveEvent::ChatBotEvent(ChatBotEvent::Join(user))),
            Verb::Part => Some(ReceiveEvent::ChatBotEvent(ChatBotEvent::Part(user))),
            Verb::Privmsg(b) => {
                let badges = get_badges(&tags);
                let user_info = UserInfo { name: user, badges };
                let body = trimmed_from(message, &v, b);
                if v[b] == '!' {
                    match parse_command_from_message(body.as_str()) {
                        None => None,
                        Some((kind, options)) => Some(
                            ReceiveEvent::ChatBotEvent(
                                ChatBotEvent::Command(Command { kind, options, user: user_info }),
                            ),
                        ),
                    }
                } else {
                    Some(
                        ReceiveEvent::ChatBotEvent(
                            ChatBotEvent::TextMessage(TextMessage { text: body, user: user_info }),
                        ),
                    )
                }
            },
        }
    }
}

} // verus!
