use chatbot::connection::{
    frame_chat_message, frame_internal, frame_lines, handle_frame, login_texts, Connection,
    SessionAction, SessionEvent,
};
use chatbot::types::{ChatBotEvent, ConnectorEvent, ReceiveEvent};

fn logged_in(conn: &mut Connection) -> Vec<String> {
    assert_eq!(conn.step(SessionEvent::Opened), SessionAction::GetToken);
    let mut sent = Vec::new();
    let mut action = conn.step(SessionEvent::Token("ACCESS_TOKEN".to_owned()));
    while let SessionAction::Send(text) = action {
        sent.push(text);
        action = conn.step(SessionEvent::Sent);
    }
    assert_eq!(action, SessionAction::Run);
    sent
}

#[test]
fn sends_login_data_at_the_beginning() {
    let (mut conn, first) = Connection::new("botname", "channelname");
    assert_eq!(first, SessionAction::Open);
    let sent = logged_in(&mut conn);
    assert_eq!(sent.len(), 5);
    assert_eq!(sent[0], "PASS oauth:ACCESS_TOKEN");
    assert_eq!(sent[1], "NICK botname");
    assert_eq!(sent[2], "JOIN #channelname");
    assert_eq!(sent[3], "CAP REQ :twitch.tv/membership");
    assert_eq!(sent[4], "CAP REQ :twitch.tv/tags");
    assert_eq!(
        frame_chat_message("channelname", "Hello, world!"),
        "PRIVMSG #channelname :Hello, world!"
    );
}

#[test]
fn responds_with_pong_to_ping() {
    let events = handle_frame("PING :tmi.twitch.tv");
    assert_eq!(events.len(), 1);
    match &events[0] {
        ReceiveEvent::ConnectorEvent(ping) => assert_eq!(frame_internal(ping), "PONG :tmi.twitch.tv"),
        other => panic!("unexpected {:?}", other),
    }
}

#[test]
fn every_end_reconnects() {
    let (mut conn, _) = Connection::new("bot", "chan");
    logged_in(&mut conn);
    assert_eq!(conn.step(SessionEvent::Ended), SessionAction::Close);
    assert_eq!(conn.step(SessionEvent::Closed), SessionAction::Open);
    assert_eq!(conn.step(SessionEvent::OpenFailed("refused".to_owned())), SessionAction::Close);
    assert_eq!(conn.step(SessionEvent::Closed), SessionAction::Open);
    assert_eq!(conn.step(SessionEvent::Opened), SessionAction::GetToken);
    assert_eq!(conn.step(SessionEvent::TokenFailed("no token".to_owned())), SessionAction::Close);
    assert_eq!(conn.step(SessionEvent::Closed), SessionAction::Open);
    assert_eq!(conn.step(SessionEvent::Opened), SessionAction::GetToken);
    assert_eq!(
        conn.step(SessionEvent::Token("t2".to_owned())),
        SessionAction::Send("PASS oauth:t2".to_owned())
    );
    assert_eq!(conn.step(SessionEvent::SendFailed("broken pipe".to_owned())), SessionAction::Close);
}

#[test]
fn frames_are_cut_into_lines() {
    assert_eq!(frame_lines(""), Vec::<String>::new());
    assert_eq!(frame_lines("a\r\nb\n"), vec!["a", "b"]);
    assert_eq!(frame_lines("a\n\nb\r"), vec!["a", "", "b\r"]);
    assert_eq!(frame_lines("\n"), vec![""]);
}

#[test]
fn a_frame_batches_several_lines() {
    let events = handle_frame(
        ":a!a@h JOIN #c\r\nPING :tmi.twitch.tv\r\ngarbage\r\n:b!b@h PRIVMSG #c :hi\r\n",
    );
    assert_eq!(events.len(), 3);
    assert_eq!(events[0], ReceiveEvent::ChatBotEvent(ChatBotEvent::Join("a".to_owned())));
    assert_eq!(
        events[1],
        ReceiveEvent::ConnectorEvent(ConnectorEvent::Ping("tmi.twitch.tv".to_owned()))
    );
    match &events[2] {
        ReceiveEvent::ChatBotEvent(ChatBotEvent::TextMessage(m)) => {
            assert_eq!(m.text, "hi");
            assert_eq!(m.user.name, "b");
        }
        other => panic!("unexpected {:?}", other),
    }
}

#[test]
fn rendered_message_parses_back() {
    let frame = frame_chat_message("chan", "hi there");
    let line = format!(":u!u@u.tmi.twitch.tv {}", frame);
    match ReceiveEvent::parse_from_message(&line) {
        Some(ReceiveEvent::ChatBotEvent(ChatBotEvent::TextMessage(m))) => {
            assert_eq!(m.text, "hi there");
            assert_eq!(m.user.name, "u");
            assert!(m.user.badges.is_empty());
        }
        other => panic!("unexpected {:?}", other),
    }
}

#[test]
fn login_texts_for_a_token() {
    assert_eq!(
        login_texts("t", "u", "c"),
        vec!["PASS oauth:t", "NICK u", "JOIN #c", "CAP REQ :twitch.tv/membership", "CAP REQ :twitch.tv/tags"]
    );
}
