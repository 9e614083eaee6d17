//! One use of the transport, and the loop that reopens it.
//!
//! Incoming frames are cut into lines and parsed; outgoing chat text and
//! keepalive answers are framed. The [`Connection`] state machine decides
//! the order of the work: open, get a token, send the five login frames,
//! run the inbound and outbound loops, and on any end or failure close the
//! transport and open it again.
use vstd::prelude::*;
use crate::receive::parse_line;
use crate::send::{frames_view, get_login_tasks, login_frames, render, FrameModel, SendTask};
use crate::text::{split, split_str, substring, chars_of};
use crate::types::{ConnectorEvent, EventModel, ReceiveEvent};

verus! {

pub open spec fn strip_cr(l: Seq<char>) -> Seq<char> {
    if l.len() > 0 && l.last() == '\r' {
        l.drop_last()
    } else {
        l
    }
}

/// The lines of a frame, as `str::lines` yields them: cut at `\n`, a `\r`
/// before the `\n` dropped, and no empty line after a final `\n`.
pub open spec fn lines_of(t: Seq<char>) -> Seq<Seq<char>> {
    let p = split(t, '\n');
    let n = p.len() as int;
    let kept = if p[n - 1].len() == 0 {
        n - 1
    } else {
        n
    };
    Seq::new(kept as nat, |i: int| if i < n - 1 { strip_cr(p[i]) } else { p[i] })
}

/// The events of the lines that give one, in order.
pub open spec fn parsed_lines(ls: Seq<Seq<char>>) -> Seq<EventModel>
    decreases ls.len(),
{
    if ls.len() == 0 {
        Seq::empty()
    } else {
        let rest = parsed_lines(ls.drop_last());
        match parse_line(ls.last()) {
            Some(e) => rest.push(e),
            None => rest,
        }
    }
}

pub open spec fn events_view(v: Seq<ReceiveEvent>) -> Seq<EventModel> {
    v.map_values(|e: ReceiveEvent| e@)
}

/// The lines of a received frame.
pub fn frame_lines(text: &str) -> (r: Vec<String>)
    ensures
        r@.map_values(|l: String| l@) == lines_of(text@),
{
    let pieces = split_str(text, '\n');
    proof {
        crate::text::lemma_split_nonempty(text@, '\n');
    }
    let n = pieces.len();
    let ghost p = split(text@, '\n');
    assert(pieces@.map_values(|l: String| l@) == p);
    let last_empty = pieces[n - 1].as_str().is_empty();
    let kept = if last_empty {
        n - 1
    } else {
        n
    };
    let mut out: Vec<String> = Vec::new();
    let mut i: usize = 0;
    while i < kept
        invariant
            kept <= n,
            n == pieces@.len(),
            p == pieces@.map_values(|l: String| l@),
            kept == if p[n - 1].len() == 0 {
                n - 1
            } else {
                n as int
            },
            i <= kept,
            out@.map_values(|l: String| l@) =~= lines_of(text@).subrange(0, i as int),
            p == split(text@, '\n'),
        decreases kept - i,
    {
        let piece = pieces[i].as_str();
        let ghost before = out@.map_values(|l: String| l@);
        assert(piece@ == p[i as int]);
        let line = if i + 1 < n {
            let cs = chars_of(piece);
            if cs.len() > 0 && cs[cs.len() - 1] == '\r' {
                substring(piece, 0, cs.len() - 1)
            } else {
                piece.to_owned()
            }
        } else {
            piece.to_owned()
        };
        proof {
            if i + 1 < n {
                if piece@.len() > 0 && piece@.last() == '\r' {
                    assert(line@ =~= piece@.drop_last());
                }
            }
        }
        assert(line@ == lines_of(text@)[i as int]);
        out.push(line);
        assert(out@.map_values(|l: String| l@) =~= before.push(line@));
        i = i + 1;
    }
    out
}

/// The events of every line of a received frame, in order.
pub fn handle_frame(text: &str) -> (r: Vec<ReceiveEvent>)
    ensures
        events_view(r@) == parsed_lines(lines_of(text@)),
{
    let lines = frame_lines(text);
    let ghost ls = lines_of(text@);
    let mut out: Vec<ReceiveEvent> = Vec::new();
    let mut i: usize = 0;
    assert(ls.subrange(0, 0) =~= Seq::<Seq<char>>::empty());
    while i < lines.len()
        invariant
            i <= lines@.len(),
            lines@.map_values(|l: String| l@) == ls,
            events_view(out@) == parsed_lines(ls.subrange(0, i as int)),
        decreases lines@.len() - i,
    {
        let ghost before = events_view(out@);
        let ghost pre = ls.subrange(0, i + 1);
        assert(pre.drop_last() =~= ls.subrange(0, i as int));
        assert(pre.last() == lines@[i as int]@);
        match ReceiveEvent::parse_from_message(lines[i].as_str()) {
            Some(e) => {
                out.push(e);
                assert(events_view(out@) =~= before.push(e@));
            },
            None => {},
        }
        i = i + 1;
    }
    assert(ls.subrange(0, lines@.len() as int) =~= ls);
    out
}

/// The frame that carries chat text to the channel.
pub fn frame_chat_message(channel: &str, message: &str) -> (r: String)
    ensures
        r@ == render(FrameModel::PrivateMessage(channel@, message@)),
{
    SendTask::PrivateMessage(channel.to_owned(), message.to_owned()).to_string()
}

/// The answer to a connection event: a keepalive gets a `Pong`.
pub fn frame_internal(event: &ConnectorEvent) -> (r: String)
    ensures
        r@ == render(FrameModel::Pong),
{
    match event {
        ConnectorEvent::Ping(_) => SendTask::Pong.to_string(),
    }
}

/// The login frames' texts, in order.
pub fn login_texts(token: &str, user_name: &str, channel: &str) -> (r: Vec<String>)
    ensures
        r@.map_values(|s: String| s@) == login_frames(token@, user_name@, channel@).map_values(
            |f: FrameModel| render(f),
        ),
{
    let tasks = get_login_tasks(token, user_name, channel);
    let ghost fs = login_frames(token@, user_name@, channel@);
    let mut out: Vec<String> = Vec::new();
    let mut i: usize = 0;
    while i < tasks.len()
        invariant
            i <= tasks@.len(),
            frames_view(tasks@) == fs,
            out@.map_values(|s: String| s@) =~= fs.subrange(0, i as int).map_values(
                |f: FrameModel| render(f),
            ),
        decreases tasks@.len() - i,
    {
        let ghost before = out@.map_values(|s: String| s@);
        let t = tasks[i].to_string();
        assert(tasks@[i as int]@ == fs[i as int]);
        out.push(t);
        assert(out@.map_values(|s: String| s@) =~= before.push(render(fs[i as int])));
        assert(fs.subrange(0, i + 1) =~= fs.subrange(0, i as int).push(fs[i as int]));
        i = i + 1;
    }
    assert(fs.subrange(0, tasks@.len() as int) =~= fs);
    out
}

#[derive(Debug, Clone, PartialEq, Eq)]
pub enum SessionPhase {
    /// Waiting for the transport to open.
    Opening,
    /// Waiting for an access token.
    Authorizing,
    /// This many login frames have been sent.
    LoggingIn(usize),
    /// The inbound and outbound loops run.
    Running,
    /// Waiting for the transport to close.
    Closing,
}

/// What the connection asks its caller to do next.
#[derive(Debug, Clone, PartialEq, Eq)]
pub enum SessionAction {
    Open,
    GetToken,
    Send(String),
    /// Run the inbound and outbound loops until the first of them ends.
    Run,
    Close,
}

/// The outcome of the last action.
#[derive(Debug, Clone, PartialEq, Eq)]
pub enum SessionEvent {
    Opened,
    OpenFailed(String),
    Token(String),
    TokenFailed(String),
    Sent,
    SendFailed(String),
    /// One of the two loops ended, cleanly or not.
    Ended,
    Closed,
}

pub enum SessionPhaseModel {
    Opening,
    Authorizing,
    LoggingIn(nat),
    Running,
    Closing,
}

pub enum SessionActionModel {
    Open,
    GetToken,
    Send(Seq<char>),
    Run,
    Close,
}

pub enum SessionEventModel {
    Opened,
    OpenFailed,
    Token(Seq<char>),
    TokenFailed,
    Sent,
    SendFailed,
    Ended,
    Closed,
}

pub struct ConnectionModel {
    pub user_name: Seq<char>,
    pub channel: Seq<char>,
    pub phase: SessionPhaseModel,
    pub login: Seq<Seq<char>>,
}

/// Connects a bot user to a channel, again and again. A transport that ends
/// or fails is reopened at once, with no wait in between.
#[derive(Debug, Clone)]
pub struct Connection {
    pub user_name: String,
    pub channel: String,
    pub phase: SessionPhase,
    /// The login frames of the current token.
    pub login: Vec<String>,
}

impl View for SessionPhase {
    type V = SessionPhaseModel;

    open spec fn view(&self) -> SessionPhaseModel {
        match self {
            SessionPhase::Opening => SessionPhaseModel::Opening,
            SessionPhase::Authorizing => SessionPhaseModel::Authorizing,
            SessionPhase::LoggingIn(k) => SessionPhaseModel::LoggingIn(*k as nat),
            SessionPhase::Running => SessionPhaseModel::Running,
            SessionPhase::Closing => SessionPhaseModel::Closing,
        }
    }
}

impl View for SessionAction {
    type V = SessionActionModel;

    open spec fn view(&self) -> SessionActionModel {
        match self {
            SessionAction::Open => SessionActionModel::Open,
            SessionAction::GetToken => SessionActionModel::GetToken,
            SessionAction::Send(t) => SessionActionModel::Send(t@),
            SessionAction::Run => SessionActionModel::Run,
            SessionAction::Close => SessionActionModel::Close,
        }
    }
}

impl View for SessionEvent {
    type V = SessionEventModel;

    open spec fn view(&self) -> SessionEventModel {
        match self {
            SessionEvent::Opened => SessionEventModel::Opened,
            SessionEvent::OpenFailed(_) => SessionEventModel::OpenFailed,
            SessionEvent::Token(t) => SessionEventModel::Token(t@),
            SessionEvent::TokenFailed(_) => SessionEventModel::TokenFailed,
            SessionEvent::Sent => SessionEventModel::Sent,
            SessionEvent::SendFailed(_) => SessionEventModel::SendFailed,
            SessionEvent::Ended => SessionEventModel::Ended,
            SessionEvent::Closed => SessionEventModel::Closed,
        }
    }
}

impl View for Connection {
    type V = ConnectionModel;

    open spec fn view(&self) -> ConnectionModel {
        ConnectionModel {
            user_name: self.user_name@,
            channel: self.channel@,
            phase: self.phase@,
            login: self.login@.map_values(|s: String| s@),
        }
    }
}

/// The texts of the login frames for a token.
pub open spec fn login_model(token: Seq<char>, user_name: Seq<char>, channel: Seq<char>) -> Seq<
    Seq<char>,
> {
    login_frames(token, user_name, channel).map_values(|f: FrameModel| render(f))
}

pub open spec fn in_phase(c: ConnectionModel, p: SessionPhaseModel) -> ConnectionModel {
    ConnectionModel { phase: p, ..c }
}

/// What the connection does with the outcome of its last action.
pub open spec fn session_advance(c: ConnectionModel, e: SessionEventModel) -> (
    ConnectionModel,
    SessionActionModel,
) {
    let close = (in_phase(c, SessionPhaseModel::Closing), SessionActionModel::Close);
    match (c.phase, e) {
        (_, SessionEventModel::Closed) => (
            in_phase(c, SessionPhaseModel::Opening),
            SessionActionModel::Open,
        ),
        (SessionPhaseModel::Opening, SessionEventModel::Opened) => (
            in_phase(c, SessionPhaseModel::Authorizing),
            SessionActionModel::GetToken,
        ),
        (SessionPhaseModel::Authorizing, SessionEventModel::Token(t)) => {
            let login = login_model(t, c.user_name, c.channel);
            (
                ConnectionModel { phase: SessionPhaseModel::LoggingIn(1), login, ..c },
                SessionActionModel::Send(login[0]),
            )
        },
        (SessionPhaseModel::LoggingIn(k), SessionEventModel::Sent) => if k < c.login.len() {
            (in_phase(c, SessionPhaseModel::LoggingIn(k + 1)), SessionActionModel::Send(c.login[k as int]))
        } else {
            (in_phase(c, SessionPhaseModel::Running), SessionActionModel::Run)
        },
        _ => close,
    }
}

impl Connection {
    /// A connection of this bot user to this channel; its first action is
    /// to open the transport.
    pub fn new(user_name: &str, channel: &str) -> (r: (Self, SessionAction))
        ensures
            r.0@.user_name == user_name@,
            r.0@.channel == channel@,
            r.0@.phase == SessionPhaseModel::Opening,
            r.0@.login.len() == 0,
            r.1@ == SessionActionModel::Open,
    {
        let c = Connection {
            user_name: user_name.to_owned(),
            channel: channel.to_owned(),
            phase: SessionPhase::Opening,
            login: Vec::new(),
        };
        assert(c@.login =~= Seq::<Seq<char>>::empty());
        (c, SessionAction::Open)
    }

    /// Takes the outcome of the last action and says what comes next.
    pub fn step(&mut self, event: SessionEvent) -> (r: SessionAction)
        ensures
            (final(self)@, r@) == session_advance(old(self)@, event@),
    {
        let ghost c0 = self@;
        match event {
            SessionEvent::Closed => {
                self.phase = SessionPhase::Opening;
                return SessionAction::Open;
            },
            _ => {},
        }
        match (&self.phase, event) {
            (SessionPhase::Opening, SessionEvent::Opened) => {
                self.phase = SessionPhase::Authorizing;
                SessionAction::GetToken
            },
            (SessionPhase::Authorizing, SessionEvent::Token(t)) => {
                let login = login_texts(t.as_str(), self.user_name.as_str(), self.channel.as_str());
                assert(login_frames(t@, c0.user_name, c0.channel).len() == 5);
                assert(login@.map_values(|s: String| s@).len() == login@.len());
                let first = login[0].clone();
                self.login = login;
                self.phase = SessionPhase::LoggingIn(1);
                assert(self@.login =~= login_model(t@, c0.user_name, c0.channel));
                SessionAction::Send(first)
            },
            (SessionPhase::LoggingIn(k), SessionEvent::Sent) => {
                let k = *k;
                if k < self.login.len() {
                    let next = self.login[k].clone();
                    self.phase = SessionPhase::LoggingIn(k + 1);
                    SessionAction::Send(next)
                } else {
                    self.phase = SessionPhase::Running;
                    SessionAction::Run
                }
            },
            _ => {
                self.phase = SessionPhase::Closing;
                SessionAction::Close
            },
        }
    }
}

} // verus!
