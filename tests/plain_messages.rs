use chatbot::compact::{parse_message, MessageType as Compact};
use chatbot::plain::{MessageInfo, parse_full_message, MessageContent, MessageType, PingMessage, TwitchChatMessage};
use chatbot::types::CommandType;

#[test]
fn parsing_parsing_private_messages() {
    let raw_message = ":carkhy!carkhy@carkhy.tmi.twitch.tv PRIVMSG #captaincallback :a function that takes a string and returns the message";
    let parsed = parse_full_message(raw_message);
    assert!(parsed.is_some());
    if let MessageType::UserMessage(info) = parsed.unwrap() {
        assert_eq!(info.user, "carkhy");
        assert_eq!(info.text, "a function that takes a string and returns the message");
    } else {
        assert!(false);
    }
}

#[test]
fn parsing_private_messages_with_trailing_newlines() {
    let raw_message = ":carkhy!carkhy@carkhy.tmi.twitch.tv PRIVMSG #captaincallback :a function that takes a string and returns the message\n";
    let parsed = parse_full_message(raw_message);
    assert!(parsed.is_some());
    if let MessageType::UserMessage(info) = parsed.unwrap() {
        assert_eq!(info.user, "carkhy");
        assert_eq!(info.text, "a function that takes a string and returns the message");
    } else {
        assert!(false);
    }
}

#[test]
fn parsing_parsing_ping_messages() {
    let ping_message = "PING :tmi.twitch.tv";
    let parsed = parse_full_message(ping_message);
    assert!(parsed.is_some());
    if let MessageType::PingMessage(server) = parsed.unwrap() {
        assert_eq!(server, "tmi.twitch.tv");
    } else {
        assert!(false);
    }
}

#[test]
fn parsing_collect_after_skipping_past_the_end() {
    let s = String::from("bleh");
    let iter = s.chars().skip(35);
    let s2: String = iter.collect();
    assert_eq!(s2, "");
}

#[test]
fn parsing_slice_starting_at_len() {
    let s = String::from("bleh");
    let slice = &s[s.len()..];
    assert_eq!(slice, "");
}

#[test]
fn proxies_collect_after_skipping_past_the_end() {
    let s = String::from("bleh");
    let iter = s.chars().skip(35);
    let s2: String = iter.collect();
    assert_eq!(s2, "");
}

#[test]
fn proxies_slice_starting_at_len() {
    let s = String::from("bleh");
    let slice = &s[s.len()..];
    assert_eq!(slice, "");
}

#[test]
fn twitch_chat_message_collect_after_skipping_past_the_end() {
    let s = String::from("bleh");
    let iter = s.chars().skip(35);
    let s2: String = iter.collect();
    assert_eq!(s2, "");
}

#[test]
fn twitch_chat_message_slice_starting_at_len() {
    let s = String::from("bleh");
    let slice = &s[s.len()..];
    assert_eq!(slice, "");
}

#[test]
fn twitch_chat_message_parsing_user_messages() {
    let raw_message = ":carkhy!carkhy@carkhy.tmi.twitch.tv PRIVMSG #captaincallback :a function that takes a string and returns the message";
    let parsed = TwitchChatMessage::from_str(raw_message);
    assert!(parsed.is_ok());
    if let TwitchChatMessage::UserMessage(user_message) = parsed.unwrap() {
        assert_eq!(user_message.user_name, "carkhy");
        if let MessageContent::Text(text) = user_message.content {
            assert_eq!(text, "a function that takes a string and returns the message");
        } else {
            unreachable!();
        }
    } else {
        unreachable!();
    }
}

#[test]
fn twitch_chat_message_parsing_user_messages_with_trailing_newlines() {
    let raw_message = ":carkhy!carkhy@carkhy.tmi.twitch.tv PRIVMSG #captaincallback :a function that takes a string and returns the message\n";
    let parsed = TwitchChatMessage::from_str(raw_message);
    assert!(parsed.is_ok());
    if let TwitchChatMessage::UserMessage(user_message) = parsed.unwrap() {
        assert_eq!(user_message.user_name, "carkhy");
        if let MessageContent::Text(text) = user_message.content {
            assert_eq!(text, "a function that takes a string and returns the message");
        } else {
            unreachable!();
        }
    } else {
        unreachable!();
    }
}

#[test]
fn twitch_chat_message_parsing_ping_messages() {
    let ping_message = "PING :tmi.twitch.tv";
    let parsed = TwitchChatMessage::from_str(ping_message);
    assert!(parsed.is_ok());
    if let TwitchChatMessage::PingMessage(server) = parsed.unwrap() {
        assert_eq!(server.0, "tmi.twitch.tv");
    } else {
        unreachable!();
    }
}

#[test]
fn chat_message_of_a_command_and_of_bad_lines() {
    assert_eq!(
        TwitchChatMessage::from_str(":u!u@h PRIVMSG #c :!slap x"),
        Ok(TwitchChatMessage::UserMessage(chatbot::plain::UserMessage {
            content: MessageContent::Command(CommandType::Slap, vec!["x".to_owned()]),
            user_name: "u".to_owned(),
        }))
    );
    assert!(TwitchChatMessage::from_str(":u!u@h JOIN #c").is_err());
    assert!(TwitchChatMessage::from_str("PONG :x").is_err());
    assert!(PingMessage::from_str("PING x").is_err());
}

#[test]
fn full_message_skips_colons_in_user_and_other_verbs() {
    assert_eq!(parse_full_message(":carkhy!c@h JOIN #chan"), None);
    assert_eq!(parse_full_message(":c u!c@h PRIVMSG #chan :x"), None);
    assert_eq!(parse_full_message("PING x"), Some(MessageType::PingMessage(String::new())));
    assert_eq!(parse_full_message("PONG :x"), None);
}

#[test]
fn user_message_of_a_text_line() {
    let m = chatbot::plain::UserMessage::from_str(":u!u@h PRIVMSG #c :hi").unwrap();
    assert_eq!(m.user_name, "u");
    assert_eq!(m.content, MessageContent::Text("hi".to_owned()));
    assert!(chatbot::plain::UserMessage::from_str("PING :x").is_err());
}

#[test]
fn proxies_parsing_private_messages() {
    let raw_message = ":carkhy!carkhy@carkhy.tmi.twitch.tv PRIVMSG #captaincallback :a function that takes a string and returns the message";
    assert_eq!(
        parse_message(raw_message).unwrap(),
        Compact::PrivateMessage(MessageInfo {
            user: "carkhy".to_string(),
            text: "a function that takes a string and returns the message".to_string()
        })
    );
}

#[test]
fn proxies_parsing_ping_messages() {
    let ping_message = "PING :tmi.twitch.tv";
    assert_eq!(
        parse_message(ping_message).unwrap(),
        Compact::PingMessage(":tmi.twitch.tv".to_owned())
    );
}

#[test]
fn compact_scanner_edge_cases() {
    assert_eq!(parse_message(""), None);
    assert_eq!(parse_message("PONG :x"), None);
    assert_eq!(parse_message("PI NG x"), Some(Compact::PingMessage("x".to_owned())));
    assert_eq!(parse_message(":u!u@h JOIN #c"), None);
    assert_eq!(parse_message(":u u!u@h PRIVMSG #c :x"), None);
    match parse_message(":u!u@h PRIVMSG #c") {
        Some(Compact::PrivateMessage(info)) => {
            assert_eq!(info.user, "u");
            assert_eq!(info.text, "");
        }
        other => panic!("unexpected {:?}", other),
    }
}

#[test]
fn chat_message_errors_name_the_shape() {
    assert_eq!(
        TwitchChatMessage::from_str(":u!u@h JOIN #c"),
        Err(chatbot::error::ConnectorError::MessageReceiveFailed("Unexpected message syntax".to_owned()))
    );
    assert_eq!(
        TwitchChatMessage::from_str("PONG :x"),
        Err(chatbot::error::ConnectorError::MessageReceiveFailed("Bad ping message syntax".to_owned()))
    );
}
