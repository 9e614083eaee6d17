//! Properties that relate several operations of the library, proved over
//! the same spec functions that the operations' contracts use.
use vstd::prelude::*;
use crate::connection::{
    login_model, session_advance, ConnectionModel, SessionActionModel, SessionEventModel,
};
use crate::dispenser::{
    advance, begin, with_phase, ActionModel, DispenserModel, EventModel, PhaseModel,
};
use crate::receive::{
    badge_of, badge_set, is_ping, parse_line, scan_line, scan_verb,
};
use crate::send::{render, FrameModel};
use crate::text::{find_from, trim, ws_end, ws_start, is_ws};
use crate::types::{EventModel as LineEvent, UserModel};

verus! {

/// With a held token that the server still accepts, two requests for a
/// token in a row each make exactly one validation call and no renewal
/// call: each asks to validate the held token, is answered with status 200,
/// and hands that token out. Both tokens are unchanged afterwards. A
/// dispenser holds a token once a pair has been loaded or obtained
/// (`authorized`); without one, a request starts the authorization.
pub proof fn lemma_valid_token_is_handed_out_unchanged(
    d: DispenserModel,
    first_body: Seq<char>,
    second_body: Seq<char>,
)
    requires
        d.authorized,
    ensures
        ({
            let (d1, a1) = begin(d);
            let (d2, a2) = advance(d1, EventModel::Status(200, first_body));
            let (d3, a3) = begin(d2);
            let (d4, a4) = advance(d3, EventModel::Status(200, second_body));
            &&& a1 == ActionModel::Validate(d.access)
            &&& a2 == ActionModel::Done(d.access)
            &&& a3 == ActionModel::Validate(d.access)
            &&& a4 == ActionModel::Done(d.access)
            &&& d2 == with_phase(d, PhaseModel::Idle)
            &&& d4 == d2
            &&& d4.access == d.access
            &&& d4.refresh == d.refresh
        }),
{
    let (d1, a1) = begin(d);
    let (d2, a2) = advance(d1, EventModel::Status(200, first_body));
    assert(d2 =~= with_phase(d, PhaseModel::Idle));
    let (d3, a3) = begin(d2);
    let (d4, a4) = advance(d3, EventModel::Status(200, second_body));
    assert(d4 =~= d2);
}

/// Once a token arrives, the connection sends exactly the five login frames,
/// in the order password, nick, join, `membership` capability, `tags`
/// capability, and only then runs the loops that carry chat traffic.
pub proof fn lemma_login_frames_come_first(c: ConnectionModel, token: Seq<char>)
    requires
        c.phase is Authorizing,
    ensures
        ({
            let (c1, a1) = session_advance(c, SessionEventModel::Token(token));
            let (c2, a2) = session_advance(c1, SessionEventModel::Sent);
            let (c3, a3) = session_advance(c2, SessionEventModel::Sent);
            let (c4, a4) = session_advance(c3, SessionEventModel::Sent);
            let (c5, a5) = session_advance(c4, SessionEventModel::Sent);
            let (c6, a6) = session_advance(c5, SessionEventModel::Sent);
            &&& a1 == SessionActionModel::Send(
                render(FrameModel::ProvideLoginPassword(token)),
            )
            &&& a2 == SessionActionModel::Send(
                render(FrameModel::ProvideLoginUserName(c.user_name)),
            )
            &&& a3 == SessionActionModel::Send(render(FrameModel::JoinChannel(c.channel)))
            &&& a4 == SessionActionModel::Send(
                render(FrameModel::RequestCapabilities("membership"@)),
            )
            &&& a5 == SessionActionModel::Send(render(FrameModel::RequestCapabilities("tags"@)))
            &&& a6 == SessionActionModel::Run
            &&& c6.phase is Running
        }),
{
    let login = login_model(token, c.user_name, c.channel);
    assert(login.len() == 5);
}

/// The incoming line that carries a sent private message, as the server
/// relays it: the sender's prefix, then the rendered frame.
pub open spec fn relayed(
    user: Seq<char>,
    host: Seq<char>,
    channel: Seq<char>,
    text: Seq<char>,
) -> Seq<char> {
    ":"@ + user + "!"@ + host + " "@ + render(FrameModel::PrivateMessage(channel, text))
}

proof fn lemma_find_from_at(s: Seq<char>, from: int, j: int, c: char)
    requires
        0 <= from <= j < s.len(),
        s[j] == c,
        forall|k: int| from <= k < j ==> s[k] != c,
    ensures
        find_from(s, from, c) == Some(j),
    decreases j - from,
{
    if from < j {
        lemma_find_from_at(s, from + 1, j, c);
    }
}

proof fn lemma_trim_of_trimmed(t: Seq<char>)
    requires
        t.len() > 0,
        !is_ws(t[0]),
        !is_ws(t.last()),
    ensures
        trim(t) == t,
{
    assert(ws_end(t, t.len() as int) == t.len());
    assert(ws_start(t, 0, t.len() as int) == 0);
    assert(t.subrange(0, t.len() as int) =~= t);
}

/// A text message that is rendered into a frame and relayed back by the
/// server parses as the same text from the sending user, with no badges.
/// The user name holds no space and no `!`, the host no space, the channel
/// no `:`; the text is not empty, starts with no `!` and neither starts nor
/// ends with whitespace.
pub proof fn lemma_render_then_parse(
    user: Seq<char>,
    host: Seq<char>,
    channel: Seq<char>,
    text: Seq<char>,
)
    requires
        forall|k: int| 0 <= k < user.len() ==> user[k] != ' ' && user[k] != '!',
        forall|k: int| 0 <= k < host.len() ==> host[k] != ' ',
        forall|k: int| 0 <= k < channel.len() ==> channel[k] != ':',
        text.len() > 0,
        text[0] != '!',
        !is_ws(text[0]),
        !is_ws(text.last()),
    ensures
        parse_line(relayed(user, host, channel, text)) == Some(
            LineEvent::Text {
                text,
                user: UserModel { name: user, badges: Seq::empty() },
            },
        ),
{
    reveal_strlit(":");
    reveal_strlit("!");
    reveal_strlit(" ");
    reveal_strlit("PRIVMSG #");
    reveal_strlit(" :");
    reveal_strlit("PING :");
    reveal_strlit("PRIVMSG");
    reveal_strlit("JOIN");
    reveal_strlit("PART");
    let s = relayed(user, host, channel, text);
    let u = user.len() as int;
    let h = host.len() as int;
    let c = channel.len() as int;
    let bang = 1 + u;
    let info_end = bang + 1 + h;
    let verb_end = info_end + 8;
    let col = verb_end + 2 + c + 1;
    assert(s.len() == col + 1 + text.len());
    assert(s =~= seq![':'] + user + seq!['!'] + host + seq![' '] + seq![
        'P',
        'R',
        'I',
        'V',
        'M',
        'S',
        'G',
        ' ',
        '#',
    ] + channel + seq![' ', ':'] + text);
    assert(s[0] == ':');
    assert(!is_ping(s)) by {
        assert(s.subrange(0, 6)[0] == ':');
    }
    assert forall|k: int| 1 <= k < bang implies s[k] != '!' && s[k] != ' ' by {
        assert(s[k] == user[k - 1]);
    }
    assert(s[bang] == '!');
    lemma_find_from_at(s, 1, bang, '!');
    assert forall|k: int| bang + 1 <= k < info_end implies s[k] != ' ' by {
        assert(s[k] == host[k - bang - 1]);
    }
    assert(s[info_end] == ' ');
    lemma_find_from_at(s, bang + 1, info_end, ' ');
    assert(s[verb_end] == ' ');
    lemma_find_from_at(s, info_end + 1, verb_end, ' ');
    assert(s.subrange(info_end + 1, verb_end) =~= "PRIVMSG"@);
    assert forall|k: int| verb_end + 1 <= k < col implies s[k] != ':' by {
        if verb_end + 2 <= k < verb_end + 2 + c {
            assert(s[k] == channel[k - verb_end - 2]);
        }
    }
    assert(s[col] == ':');
    lemma_find_from_at(s, verb_end + 1, col, ':');
    assert(s.subrange(col + 1, s.len() as int) =~= text);
    lemma_trim_of_trimmed(text);
    assert(s.subrange(1, bang) =~= user);
    assert(scan_line(s) is Some);
}

/// Lines in none of the recognised shapes give no event: a line that
/// starts with neither `@`, `:` nor `PING :`, and a line whose user
/// segment holds a space before any `!`.
pub proof fn lemma_malformed_lines_give_nothing(s: Seq<char>)
    ensures
        s.len() > 0 && s[0] != '@' && s[0] != ':' && !is_ping(s) ==> parse_line(s) is None,
        s.len() > 0 && s[0] == ':' && (exists|k: int|
            1 <= k < s.len() && s[k] == ' ' && forall|m: int| 1 <= m < k ==> s[m] != '!')
            ==> parse_line(s) is None,
{
    reveal_strlit("PING :");
    if s.len() > 0 && s[0] == ':' {
        assert(!is_ping(s)) by {
            if s.len() >= 6 {
                assert(s.subrange(0, 6)[0] == ':');
            }
        }
        crate::text::lemma_find_from_bounds(s, 1, '!');
        if exists|k: int|
            1 <= k < s.len() && s[k] == ' ' && forall|m: int| 1 <= m < k ==> s[m] != '!' {
            let k = choose|k: int|
                1 <= k < s.len() && s[k] == ' ' && forall|m: int| 1 <= m < k ==> s[m] != '!';
            match find_from(s, 1, '!') {
                Some(bang) => {
                    if bang <= k {
                        assert(s[bang] == '!');
                    }
                    assert(1 <= k < bang && s[k] == ' ');
                },
                None => {},
            }
        }
    }
}

/// A user line whose command word, between the second and third spaces
/// after the user name, is none of `JOIN`, `PART` and `PRIVMSG` gives no event.
pub proof fn lemma_unknown_command_word_gives_nothing(s: Seq<char>, bang: int)
    requires
        s.len() > 0,
        s[0] == ':',
        find_from(s, 1, '!') == Some(bang),
        find_from(s, bang + 1, ' ') matches Some(info_end) && find_from(s, info_end + 1, ' ')
            matches Some(verb_end) && s.subrange(info_end + 1, verb_end) != "JOIN"@
            && s.subrange(info_end + 1, verb_end) != "PART"@
            && s.subrange(info_end + 1, verb_end) != "PRIVMSG"@,
    ensures
        parse_line(s) is None,
{
    reveal_strlit("PING :");
    assert(!is_ping(s)) by {
        if s.len() >= 6 {
            assert(s.subrange(0, 6)[0] == ':');
        }
    }
    assert(scan_verb(s, bang) is None);
}

/// The badges of a message form a set: no badge appears twice.
pub proof fn lemma_badges_are_distinct(pieces: Seq<Seq<char>>)
    ensures
        forall|i: int, j: int|
            0 <= i < j < badge_set(pieces).len() ==> badge_set(pieces)[i] != badge_set(pieces)[j],
    decreases pieces.len(),
{
    if pieces.len() > 0 {
        lemma_badges_are_distinct(pieces.drop_last());
        let rest = badge_set(pieces.drop_last());
        let b = badge_of(pieces.last());
        if !rest.contains(b) {
            assert forall|i: int, j: int|
                0 <= i < j < rest.push(b).len() implies rest.push(b)[i] != rest.push(b)[j] by {
                if j == rest.len() {
                    assert(rest[i] == rest.push(b)[i]);
                }
            }
        }
    }
}

} // verus!

