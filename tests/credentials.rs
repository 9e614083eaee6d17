use chatbot::auth::{
    access_token_is_valid, classify_token_response, create_authorize_url, create_code_uri,
    create_refresh_uri, create_url_with_query_params, extract_code_from_url, token_response,
};
use chatbot::dispenser::{AccessTokenDispenser, Action, Event};
use chatbot::error::ConnectorError;
use chatbot::retry::{ExponentialRetryManager, RetryPolicy};

#[test]
fn auth_getting_code_out_of_url() {
    let url1 = "https://localhost:3030/?code=y6gdw1g6vfi07y1otcpn5abfzb94n9&scope=chat%3Aread+chat%3Aedit";
    let url2 = "/?code=y6gdw1g6vfi07y1otcpn5abfzb94n9&scope=chat%3Aread+chat%3Aedit";
    let code = "y6gdw1g6vfi07y1otcpn5abfzb94n9";
    assert_eq!(extract_code_from_url(url1), Some(code.to_owned()));
    assert_eq!(extract_code_from_url(url2), Some(code.to_owned()));
}

#[test]
fn proxies_getting_code_out_of_url() {
    let url = "https://localhost:3030/?code=y6gdw1g6vfi07y1otcpn5abfzb94n9&scope=chat%3Aread+chat%3Aedit";
    let code = "y6gdw1g6vfi07y1otcpn5abfzb94n9";
    assert_eq!(extract_code_from_url(url), Some(code.to_owned()));
}

#[test]
fn code_is_read_up_to_the_next_parameter() {
    assert_eq!(extract_code_from_url("/?code=abc"), Some("abc".to_owned()));
    assert_eq!(extract_code_from_url("/?scope=x&code=abc&y=1"), Some("abc".to_owned()));
    assert_eq!(extract_code_from_url("/?xcode=abc"), None);
    assert_eq!(extract_code_from_url("/?code=&scope=x"), None);
    assert_eq!(extract_code_from_url("/?error=access_denied"), None);
}

#[test]
fn auth_creating_url_with_query_params() {
    let query_params = vec![
        ("param1".to_owned(), "firstvalue".to_owned()),
        ("param2".to_owned(), "secondvalue".to_owned()),
    ];
    let base = "https://testserver.com";
    let generated_uri = create_url_with_query_params(base, &query_params);
    assert!(generated_uri.starts_with(base));
    assert!(generated_uri.contains("param1=firstvalue"));
    assert!(generated_uri.contains("param2=secondvalue"));
    assert_eq!(generated_uri.len(), base.len() + 37);
    assert_eq!(generated_uri, "https://testserver.com?param1=firstvalue&param2=secondvalue");
}

#[test]
fn token_request_uris() {
    assert_eq!(
        create_refresh_uri("id", "secret", "rt"),
        "https://id.twitch.tv/oauth2/token?client_id=id&client_secret=secret&refresh_token=rt&grant_type=refresh_token"
    );
    assert_eq!(
        create_code_uri("id", "secret", "c0de"),
        "https://id.twitch.tv/oauth2/token?client_id=id&client_secret=secret&code=c0de&grant_type=authorization_code&redirect_uri=https://localhost:3030"
    );
    assert_eq!(
        create_authorize_url("id"),
        "https://id.twitch.tv/oauth2/authorize?client_id=id&redirect_uri=https://localhost:3030&response_type=code&scope=chat:read%20chat:edit"
    );
}

#[test]
fn validation_statuses() {
    assert_eq!(access_token_is_valid(200), Ok(true));
    assert_eq!(access_token_is_valid(401), Ok(false));
    assert_eq!(access_token_is_valid(500), Err(ConnectorError::UnexpectedStatus(500)));
}

#[test]
fn token_answers_are_classified() {
    let ok = r#"{"access_token":"a1","refresh_token":"r1","scope":[]}"#;
    assert_eq!(token_response(200, ok), Ok(("a1".to_owned(), "r1".to_owned())));
    let no_refresh = r#"{"access_token":"a1"}"#;
    assert_eq!(
        token_response(200, no_refresh),
        Err(ConnectorError::MissingResponseJSONField(
            "refresh_token".to_owned(),
            no_refresh.to_owned()
        ))
    );
    let no_access = r#"{"refresh_token":"r1"}"#;
    assert_eq!(
        token_response(200, no_access),
        Err(ConnectorError::MissingResponseJSONField(
            "access_token".to_owned(),
            no_access.to_owned()
        ))
    );
    assert_eq!(
        token_response(200, "not json"),
        Err(ConnectorError::MalformedJson("not json".to_owned()))
    );
    assert_eq!(
        token_response(400, r#"{"status":400,"message":"Invalid refresh token"}"#),
        Err(ConnectorError::HTTP400("Invalid refresh token".to_owned()))
    );
    assert_eq!(
        token_response(403, r#"{"message":"forbidden"}"#),
        Err(ConnectorError::HTTP403("forbidden".to_owned()))
    );
    assert_eq!(token_response(400, "<html>"), Err(ConnectorError::HTTP400(String::new())));
    assert_eq!(token_response(404, ""), Err(ConnectorError::HTTP404));
    assert_eq!(token_response(502, ""), Err(ConnectorError::UnexpectedStatus(502)));
}

#[test]
fn classification_from_given_fields() {
    let s = |x: &str| Some(Some(x.to_owned()));
    assert_eq!(
        classify_token_response(200, "b", s("a"), s("r"), None),
        Ok(("a".to_owned(), "r".to_owned()))
    );
    assert_eq!(
        classify_token_response(200, "b", Some(None), s("r"), None),
        Err(ConnectorError::MissingResponseJSONField("access_token".to_owned(), "b".to_owned()))
    );
    assert_eq!(
        classify_token_response(200, "b", None, None, None),
        Err(ConnectorError::MalformedJson("b".to_owned()))
    );
    assert_eq!(
        classify_token_response(403, "b", None, None, s("m")),
        Err(ConnectorError::HTTP403("m".to_owned()))
    );
}

#[test]
fn backoff_doubles_then_gives_up() {
    let mut policy = ExponentialRetryManager::new(Some(1), Some(3));
    assert_eq!(policy.handle(0, "e"), RetryPolicy::WaitRetry(1));
    assert_eq!(policy.handle(1, "e"), RetryPolicy::WaitRetry(2));
    assert_eq!(policy.handle(2, "e"), RetryPolicy::WaitRetry(4));
    assert_eq!(policy.handle(3, "e"), RetryPolicy::ForwardError("e"));
}

#[test]
fn backoff_defaults() {
    let policy = ExponentialRetryManager::new(None, None);
    assert_eq!(policy.init_wait_time, 1);
    assert_eq!(policy.max_num_attempts, 3);
    let mut policy = ExponentialRetryManager::new(Some(5), Some(0));
    assert_eq!(policy.handle(0, 7u8), RetryPolicy::ForwardError(7u8));
    let mut policy = ExponentialRetryManager::new(Some(3), Some(10));
    assert_eq!(policy.handle(4, ()), RetryPolicy::WaitRetry(48));
}

fn held() -> AccessTokenDispenser {
    AccessTokenDispenser::new("id", "secret", Some(("acc".to_owned(), "ref".to_owned())))
}

#[test]
fn valid_token_is_validated_once_and_kept() {
    let mut d = held();
    for _ in 0..2 {
        assert_eq!(d.get(), Action::Validate("acc".to_owned()));
        assert_eq!(d.step(Event::Status(200, String::new())), Action::Done("acc".to_owned()));
        assert_eq!(d.access_token, "acc");
        assert_eq!(d.refresh_token, "ref");
    }
}

#[test]
fn rejected_token_is_refreshed_and_persisted() {
    let mut d = held();
    assert_eq!(d.get(), Action::Validate("acc".to_owned()));
    assert_eq!(
        d.step(Event::Status(401, String::new())),
        Action::RequestToken(create_refresh_uri("id", "secret", "ref"))
    );
    let body = r#"{"access_token":"acc2","refresh_token":"ref2"}"#.to_owned();
    assert_eq!(
        d.step(Event::Status(200, body)),
        Action::Persist("acc2".to_owned(), "ref2".to_owned())
    );
    assert_eq!(d.access_token, "acc");
    assert_eq!(d.step(Event::Persisted), Action::Done("acc2".to_owned()));
    assert_eq!(d.access_token, "acc2");
    assert_eq!(d.refresh_token, "ref2");
}

#[test]
fn refused_refresh_falls_back_to_authorization() {
    let mut d = held();
    d.get();
    d.step(Event::Status(401, String::new()));
    assert_eq!(
        d.step(Event::Status(400, r#"{"message":"Invalid refresh token"}"#.to_owned())),
        Action::AwaitCode(create_authorize_url("id"))
    );
    assert_eq!(
        d.step(Event::Redirect("/?code=abc&scope=x".to_owned())),
        Action::RequestToken(create_code_uri("id", "secret", "abc"))
    );
    let body = r#"{"access_token":"n1","refresh_token":"n2"}"#.to_owned();
    assert_eq!(d.step(Event::Status(200, body)), Action::Persist("n1".to_owned(), "n2".to_owned()));
    assert_eq!(d.step(Event::Persisted), Action::Done("n1".to_owned()));
}

#[test]
fn validation_failures_are_retried_then_surfaced() {
    let mut d = held();
    d.get();
    assert_eq!(d.step(Event::Status(500, String::new())), Action::Wait(1));
    assert_eq!(d.step(Event::Waited), Action::Validate("acc".to_owned()));
    assert_eq!(d.step(Event::RequestFailed("down".to_owned())), Action::Wait(2));
    assert_eq!(d.step(Event::Waited), Action::Validate("acc".to_owned()));
    assert_eq!(d.step(Event::Status(503, String::new())), Action::Wait(4));
    assert_eq!(d.step(Event::Waited), Action::Validate("acc".to_owned()));
    assert_eq!(
        d.step(Event::Status(503, String::new())),
        Action::Fail(ConnectorError::UnexpectedStatus(503))
    );
    assert_eq!(d.get(), Action::Validate("acc".to_owned()));
}

#[test]
fn first_request_without_cache_authorizes() {
    let mut d = AccessTokenDispenser::new("id", "secret", None);
    assert_eq!(d.get(), Action::AwaitCode(create_authorize_url("id")));
    assert_eq!(
        d.step(Event::Redirect("/?error=denied".to_owned())),
        Action::Fail(ConnectorError::MissingCode("/?error=denied".to_owned()))
    );
    assert_eq!(d.get(), Action::AwaitCode(create_authorize_url("id")));
    assert_eq!(
        d.step(Event::ListenFailed("port busy".to_owned())),
        Action::Fail(ConnectorError::MessageReceiveFailed("port busy".to_owned()))
    );
}

#[test]
fn refused_code_exchange_fails_at_once() {
    let mut d = AccessTokenDispenser::new("id", "secret", None);
    d.get();
    d.step(Event::Redirect("/?code=abc".to_owned()));
    assert_eq!(d.step(Event::Status(404, String::new())), Action::Fail(ConnectorError::HTTP404));
}

#[test]
fn unexpected_events_end_the_request() {
    let mut d = held();
    assert_eq!(d.step(Event::Waited), Action::Fail(ConnectorError::UnexpectedEvent));
    d.get();
    assert_eq!(d.step(Event::Persisted), Action::Fail(ConnectorError::UnexpectedEvent));
}

#[test]
fn unreachable_server_fails_after_four_attempts() {
    let mut d = held();
    d.get();
    d.step(Event::Status(401, String::new()));
    let mut waits = Vec::new();
    let mut action = d.step(Event::RequestFailed("timeout".to_owned()));
    while let Action::Wait(seconds) = action {
        waits.push(seconds);
        assert_eq!(d.step(Event::Waited), Action::RequestToken(create_refresh_uri("id", "secret", "ref")));
        action = d.step(Event::RequestFailed("timeout".to_owned()));
    }
    assert_eq!(waits, vec![1, 2, 4]);
    assert_eq!(action, Action::Fail(ConnectorError::RequestFailed("timeout".to_owned())));
    assert_eq!(d.access_token, "acc");
}
