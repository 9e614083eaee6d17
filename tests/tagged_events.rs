use chatbot::receive::parse_tags;
use chatbot::tagged::{
    Command, EventContent, InternalEventContent, TextMessage, TwitchChatInternalEvent,
};
use chatbot::types::ConnectorEvent;

fn tags(pairs: &[(&str, &str)]) -> Vec<(String, String)> {
    pairs
        .iter()
        .map(|(k, v)| (k.to_string(), v.to_string()))
        .collect()
}

#[test]
fn parsing_help_command_in_command_parser_without_options() {
    let raw_command = "help";
    let expected_command = "help";
    let expected_tags = tags(&[("tag1", "something"), ("tag2", "")]);
    let parsed = Command::new(raw_command, "testuser", expected_tags).unwrap();
    assert_eq!(parsed.name, expected_command);
    assert_eq!(parsed.user_name, "testuser");
    assert_eq!(parsed.options, Vec::<String>::new());
}

#[test]
fn parsing_command_in_command_parser_with_options() {
    let raw_command = "help option1 option2";
    let expected_command_type = "help";
    let expected_options = vec!["option1".to_owned(), "option2".to_owned()];
    let expected_tags = tags(&[("tag1", "something"), ("tag2", "")]);
    let parsed = Command::new(raw_command, "testuser", expected_tags).unwrap();
    assert_eq!(parsed.name, expected_command_type);
    assert_eq!(parsed.user_name, "testuser");
    assert_eq!(parsed.options, expected_options);
}

#[test]
fn command_parsing_slap_command() {
    let raw_command = "slap captaincallback";
    let expected_command = "slap";
    let parsed = Command::new(raw_command, "carkhy", Vec::new()).unwrap();
    assert_eq!(parsed.name, expected_command);
    assert_eq!(parsed.user_name, "carkhy");
    assert_eq!(parsed.options, vec!["captaincallback"]);
}

#[test]
fn parsing_empty_command() {
    let raw_command = "";
    println!("{:#?}", Command::new(raw_command, "carkhy", Vec::new()));
    assert!(matches!(Command::new(raw_command, "carkhy", Vec::new()), None));
}

#[test]
fn ensure_is_from_a_mod_works() {
    let raw = "foo";
    let parsed = Command::new(raw, "user", Vec::new()).unwrap();
    assert!(!parsed.is_from_a_mod());

    let t = tags(&[("badges", "someotherbadge/2,broadcaster/1")]);
    let parsed = Command::new(raw, "user", t).unwrap();
    assert!(parsed.is_from_a_mod());

    let t = tags(&[("badges", "someotherbadge/2,moderator/1")]);
    let parsed = Command::new(raw, "user", t).unwrap();
    assert!(parsed.is_from_a_mod());
}

fn user_message_helper(raw_message: &str, user_name: &str, expected: &str, expected_tags: &[(String, String)]) {
    let parsed = EventContent::new(raw_message);
    assert!(parsed.is_some());
    if let EventContent::TextMessage(user_message) = parsed.unwrap() {
        assert_eq!(user_message.user_name, user_name);
        assert_eq!(user_message.text, expected);
        assert_eq!(user_message.tags, expected_tags);
    } else {
        unreachable!();
    }
}

#[test]
fn event_content_parsing_user_messages() {
    let raw_message = "@tag1=something;tag2= :carkhy!carkhy@carkhy.tmi.twitch.tv PRIVMSG #captaincallback :a function that takes a string and returns the message";
    let expected_tags = tags(&[("tag1", "something"), ("tag2", "")]);
    user_message_helper(
        raw_message,
        "carkhy",
        "a function that takes a string and returns the message",
        &expected_tags,
    );
}

#[test]
fn event_content_parsing_user_messages_with_trailing_newlines() {
    let raw_message = "@tag1=something;tag2= :carkhy!carkhy@carkhy.tmi.twitch.tv PRIVMSG #captaincallback :a function that takes a string and returns the message\n";
    let expected_tags = tags(&[("tag1", "something"), ("tag2", "")]);
    user_message_helper(
        raw_message,
        "carkhy",
        "a function that takes a string and returns the message",
        &expected_tags,
    );
}

fn command_helper(raw_message: &str, expected_command: &str, expected_user_name: &str, expected_tags: &[(String, String)]) {
    let parsed = EventContent::new(raw_message);
    assert!(parsed.is_some());
    if let EventContent::Command(command) = parsed.unwrap() {
        assert_eq!(command.name, expected_command);
        assert_eq!(command.user_name, expected_user_name);
        assert_eq!(command.options, Vec::<String>::new());
        assert_eq!(command.tags, expected_tags);
    } else {
        unreachable!();
    }
}

#[test]
fn parsing_help_command_in_event_parser() {
    let raw_message = "@tag1=something;tag2= :carkhy!carkhy@carkhy.tmi.twitch.tv PRIVMSG #captaincallback :!help";
    let expected_tags = tags(&[("tag1", "something"), ("tag2", "")]);
    command_helper(raw_message, "help", "carkhy", &expected_tags);
}

#[test]
fn parsing_info_command_in_event_parser() {
    let raw_message = "@tag1=something;tag2= :carkhy!carkhy@carkhy.tmi.twitch.tv PRIVMSG #captaincallback :!info";
    let expected_tags = tags(&[("tag1", "something"), ("tag2", "")]);
    command_helper(raw_message, "info", "carkhy", &expected_tags);
}

#[test]
fn parsing_join_message() {
    let raw_message = ":carkhy!carkhy@carkhy.tmi.twitch.tv JOIN #captaincallback";
    let expected_user = "carkhy".to_owned();
    let parsed = EventContent::new(raw_message);
    assert!(parsed.is_some());
    if let EventContent::Join(user) = parsed.unwrap() {
        assert_eq!(user, expected_user);
    } else {
        unreachable!();
    }
}

#[test]
fn parsing_part_message() {
    let raw_message = ":carkhy!carkhy@carkhy.tmi.twitch.tv PART #captaincallback";
    let expected_user = "carkhy".to_owned();
    let parsed = EventContent::new(raw_message);
    assert!(parsed.is_some());
    if let EventContent::Part(user) = parsed.unwrap() {
        assert_eq!(user, expected_user);
    } else {
        unreachable!();
    }
}

#[test]
fn event_parses_ping_messages_correctly() {
    let ping_message = "PING :tmi.twitch.tv";
    let parsed = ConnectorEvent::new(ping_message);
    assert!(parsed.is_some());
    assert!(matches!(parsed.unwrap(), ConnectorEvent::Ping(_)));

    let parsed = TwitchChatInternalEvent::new(ping_message);
    assert!(parsed.is_some());
    if let TwitchChatInternalEvent::Internal(InternalEventContent::Ping(server)) = parsed.unwrap() {
        assert_eq!(server, "tmi.twitch.tv");
    } else {
        unreachable!();
    }
}

#[test]
fn skips_non_ping_messages() {
    let message = "Some other message";
    let parsed = ConnectorEvent::new(message);
    assert!(parsed.is_none());
}

#[test]
fn parses_other_messages_starting_with_colon_correctly() {
    let message = ":Some other message";
    let parsed = TwitchChatInternalEvent::new(message);
    assert!(parsed.is_none());
}

#[test]
fn parses_other_messages_starting_without_colon_correctly() {
    let message = "Some other message";
    let parsed = TwitchChatInternalEvent::new(message);
    assert!(parsed.is_none());
}

#[test]
fn tags_keep_order_and_default_to_empty_values() {
    assert_eq!(
        parse_tags("a=1;b;c=x=y;;d="),
        tags(&[("a", "1"), ("b", ""), ("c", "x"), ("", ""), ("d", "")])
    );
}

#[test]
fn tagged_text_message_new_keeps_fields() {
    let m = TextMessage::new("hi", "u", tags(&[("k", "v")]));
    assert_eq!(m.text, "hi");
    assert_eq!(m.user_name, "u");
    assert_eq!(m.tags, tags(&[("k", "v")]));
}

#[test]
fn external_event_of_a_colon_line() {
    let parsed = TwitchChatInternalEvent::new(":u!u@h JOIN #c");
    assert_eq!(
        parsed,
        Some(TwitchChatInternalEvent::External(EventContent::Join("u".to_owned())))
    );
}
