//! Outgoing frames and their one canonical text each.
use vstd::prelude::*;
use vstd::string::*;

verus! {

/// One outgoing protocol frame.
#[derive(Debug, Clone, PartialEq, Eq)]
pub enum SendTask {
    PrivateMessage(String, String),
    ProvideLoginPassword(String),
    ProvideLoginUserName(String),
    JoinChannel(String),
    RequestCapabilities(String),
    Pong,
}

pub enum FrameModel {
    PrivateMessage(Seq<char>, Seq<char>),
    ProvideLoginPassword(Seq<char>),
    ProvideLoginUserName(Seq<char>),
    JoinChannel(Seq<char>),
    RequestCapabilities(Seq<char>),
    Pong,
}

impl View for SendTask {
    type V = FrameModel;

    open spec fn view(&self) -> FrameModel {
        match self {
            SendTask::PrivateMessage(c, m) => FrameModel::PrivateMessage(c@, m@),
            SendTask::ProvideLoginPassword(p) => FrameModel::ProvideLoginPassword(p@),
            SendTask::ProvideLoginUserName(u) => FrameModel::ProvideLoginUserName(u@),
            SendTask::JoinChannel(c) => FrameModel::JoinChannel(c@),
            SendTask::RequestCapabilities(n) => FrameModel::RequestCapabilities(n@),
            SendTask::Pong => FrameModel::Pong,
        }
    }
}

/// The text of a frame.
pub open spec fn render(f: FrameModel) -> Seq<char> {
    match f {
        FrameModel::PrivateMessage(c, m) => "PRIVMSG #"@ + c + " :"@ + m,
        FrameModel::ProvideLoginPassword(p) => "PASS oauth:"@ + p,
        FrameModel::ProvideLoginUserName(u) => "NICK "@ + u,
        FrameModel::JoinChannel(c) => "JOIN #"@ + c,
        FrameModel::RequestCapabilities(n) => "CAP REQ :twitch.tv/"@ + n,
        FrameModel::Pong => "PONG :tmi.twitch.tv"@,
    }
}

/// The frames that log in, in the order in which they are sent:
/// password, nick, join, then the `membership` and `tags` capabilities.
pub open spec fn login_frames(
    password: Seq<char>,
    user_name: Seq<char>,
    channel: Seq<char>,
) -> Seq<FrameModel> {
    seq![
        FrameModel::ProvideLoginPassword(password),
        FrameModel::ProvideLoginUserName(user_name),
        FrameModel::JoinChannel(channel),
        FrameModel::RequestCapabilities("membership"@),
        FrameModel::RequestCapabilities("tags"@),
    ]
}

pub open spec fn frames_view(v: Seq<SendTask>) -> Seq<FrameModel> {
    v.map_values(|t: SendTask| t@)
}

impl SendTask {
    /// The frame's text.
    pub fn to_string(&self) -> (r: String)
        ensures
            r@ == render(self@),
    {
        match self {
            SendTask::PrivateMessage(channel, message) => {
                let mut s = String::from_str("PRIVMSG #");
                s.append(channel.as_str());
                s.append(" :");
                s.append(message.as_str());
                s
            },
            SendTask::ProvideLoginPassword(password) => {
                let mut s = String::from_str("PASS oauth:");
                s.append(password.as_str());
                s
            },
            SendTask::ProvideLoginUserName(user_name) => {
                let mut s = String::from_str("NICK ");
                s.append(user_name.as_str());
                s
            },
            SendTask::JoinChannel(channel) => {
                let mut s = String::from_str("JOIN #");
                s.append(channel.as_str());
                s
            },
            SendTask::RequestCapabilities(capability_name) => {
                let mut s = String::from_str("CAP REQ :twitch.tv/");
                s.append(capability_name.as_str());
                s
            },
            SendTask::Pong => String::from_str("PONG :tmi.twitch.tv"),
        }
    }
}

/// The login frames for a token, a bot user and a channel.
pub fn get_login_tasks(password: &str, user_name: &str, channel: &str) -> (r: Vec<SendTask>)
    ensures
        frames_view(r@) == login_frames(password@, user_name@, channel@),
{
    let r = vec![
        SendTask::ProvideLoginPassword(password.to_owned()),
        SendTask::ProvideLoginUserName(user_name.to_owned()),
        SendTask::JoinChannel(channel.to_owned()),
        SendTask::RequestCapabilities(String::from_str("membership")),
        SendTask::RequestCapabilities(String::from_str("tags")),
    ];
    assert(frames_view(r@) =~= login_frames(password@, user_name@, channel@));
    r
}

} // verus!
