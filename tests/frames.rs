use chatbot::send::{get_login_tasks, SendTask};

#[test]
fn send_prints_private_messages_correctly() {
    let task = SendTask::PrivateMessage("channelname".to_string(), "Message".to_string());
    assert_eq!(task.to_string(), "PRIVMSG #channelname :Message");
}

#[test]
fn send_prints_login_password_messages_correctly() {
    let task = SendTask::ProvideLoginPassword("admin123".to_string());
    assert_eq!(task.to_string(), "PASS oauth:admin123");
}

#[test]
fn send_prints_login_username_messages_correctly() {
    let task = SendTask::ProvideLoginUserName("user123".to_string());
    assert_eq!(task.to_string(), "NICK user123");
}

#[test]
fn send_prints_join_channel_messages_correctly() {
    let task = SendTask::JoinChannel("channel123".to_string());
    assert_eq!(task.to_string(), "JOIN #channel123");
}

#[test]
fn send_prints_request_capabilities_messages_correctly() {
    let task = SendTask::RequestCapabilities("capability123".to_string());
    assert_eq!(task.to_string(), "CAP REQ :twitch.tv/capability123");
}

#[test]
fn send_prints_pong_messages_correctly() {
    let task = SendTask::Pong;
    assert_eq!(task.to_string(), "PONG :tmi.twitch.tv");
}

#[test]
fn task_prints_private_messages_correctly() {
    let task = SendTask::PrivateMessage("channelname".to_owned(), "Message".to_owned());
    assert_eq!(task.to_string(), "PRIVMSG #channelname :Message");
}

#[test]
fn task_prints_login_password_messages_correctly() {
    let task = SendTask::ProvideLoginPassword("admin123".to_owned());
    assert_eq!(task.to_string(), "PASS oauth:admin123");
}

#[test]
fn task_prints_login_username_messages_correctly() {
    let task = SendTask::ProvideLoginUserName("user123".to_owned());
    assert_eq!(task.to_string(), "NICK user123");
}

#[test]
fn task_prints_join_channel_messages_correctly() {
    let task = SendTask::JoinChannel("channel123".to_owned());
    assert_eq!(task.to_string(), "JOIN #channel123");
}

#[test]
fn task_prints_request_capabilities_messages_correctly() {
    let task = SendTask::RequestCapabilities("capability123".to_owned());
    assert_eq!(task.to_string(), "CAP REQ :twitch.tv/capability123");
}

#[test]
fn task_prints_pong_messages_correctly() {
    let task = SendTask::Pong;
    assert_eq!(task.to_string(), "PONG :tmi.twitch.tv");
}

#[test]
fn private_message_renders_as_privmsg() {
    let task = SendTask::PrivateMessage("chan".to_owned(), "hi".to_owned());
    assert_eq!(task.to_string(), "PRIVMSG #chan :hi");
}

#[test]
fn login_tasks_are_five_in_fixed_order() {
    let tasks = get_login_tasks("tok", "bot", "chan");
    let texts: Vec<String> = tasks.iter().map(|t| t.to_string()).collect();
    assert_eq!(
        texts,
        vec![
            "PASS oauth:tok",
            "NICK bot",
            "JOIN #chan",
            "CAP REQ :twitch.tv/membership",
            "CAP REQ :twitch.tv/tags",
        ]
    );
}

#[test]
fn empty_fields_render_as_bare_prefixes() {
    assert_eq!(
        SendTask::PrivateMessage(String::new(), String::new()).to_string(),
        "PRIVMSG # :"
    );
    assert_eq!(SendTask::JoinChannel(String::new()).to_string(), "JOIN #");
}
