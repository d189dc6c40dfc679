use timeular_webhooks::json::{Json, Member};
use timeular_webhooks::config::{ConfigError, Credentials, Setting};
use timeular_webhooks::provider::{
    created_from, created_of, decode_subscription, decode_subscriptions, decode_texts,
    drop_repeats, events_request, kinds_from, kinds_of, listed_from, listed_of, read_reply, settle,
    sign_in_request, subscribe_request, subscriptions_request, token_from, token_of, AuthError,
    Fault, Reply, Request, Token, UpstreamError, Verb,
};
use timeular_webhooks::subscription::{DesiredBinding, Subscription};
use timeular_webhooks::wire::parse;

fn answered(status: u16, body: &str) -> Reply {
    Reply::Answered { status, body: body.as_bytes().to_vec() }
}

fn token() -> Token {
    Token { value: "t0k3n".to_string() }
}

fn entry(name: &str, value: &str) -> Member {
    Member { name: name.to_string(), value: Json::Text(value.to_string()) }
}

fn subscription(id: &str, kind: &str, url: &str) -> Subscription {
    Subscription { id: id.to_string(), event_kind: kind.to_string(), target_url: url.to_string() }
}

#[test]
fn credentials_must_not_be_empty() {
    assert!(Credentials::new("key".to_string(), "secret".to_string()).is_ok());
    assert_eq!(
        Credentials::new(String::new(), "secret".to_string()).err(),
        Some(ConfigError::Missing(Setting::ApiKey))
    );
    assert_eq!(
        Credentials::new("key".to_string(), String::new()).err(),
        Some(ConfigError::Missing(Setting::ApiSecret))
    );
    assert_eq!(
        Credentials::new(String::new(), String::new()).err(),
        Some(ConfigError::Missing(Setting::ApiKey))
    );
    let c = Credentials::new("key".to_string(), "secret".to_string()).ok().unwrap();
    assert_eq!(c.api_key(), "key");
    assert_eq!(c.api_secret(), "secret");
}

#[test]
fn sign_in_posts_the_credentials() {
    let c = Credentials::new("key".to_string(), "secret".to_string()).ok().unwrap();
    assert!(
        sign_in_request(&c)
        == Request {
            verb: Verb::Post,
            url: "https://api.timeular.com/api/v3/developer/sign-in".to_string(),
            authorization: None,
            body: Some(Json::Object(vec![entry("apiKey", "key"), entry("apiSecret", "secret")])),
        }
    );
}

#[test]
fn catalog_and_list_calls_present_the_token() {
    assert!(
        events_request(&token())
        == Request {
            verb: Verb::Get,
            url: "https://api.timeular.com/api/v3/webhooks/event".to_string(),
            authorization: Some("Bearer t0k3n".to_string()),
            body: None,
        }
    );
    assert!(
        subscriptions_request(&token())
        == Request {
            verb: Verb::Get,
            url: "https://api.timeular.com/api/v3/webhooks/subscription".to_string(),
            authorization: Some("Bearer t0k3n".to_string()),
            body: None,
        }
    );
}

#[test]
fn create_call_posts_the_binding() {
    let binding = DesiredBinding {
        event_kind: "trackingStarted".to_string(),
        target_url: "https://me.example/started-tracking".to_string(),
    };
    assert!(
        subscribe_request(&token(), &binding)
        == Request {
            verb: Verb::Post,
            url: "https://api.timeular.com/api/v3/webhooks/subscription".to_string(),
            authorization: Some("Bearer t0k3n".to_string()),
            body: Some(Json::Object(vec![
                entry("event", "trackingStarted"),
                entry("targetUrl", "https://me.example/started-tracking"),
            ])),
        }
    );
}

#[test]
fn text_member_names_a_text() {
    assert_eq!(Member::text("a", "b"), entry("a", "b"));
}

#[test]
fn token_is_read_from_a_successful_answer() {
    assert_eq!(token_of(&answered(200, r#"{"token": "abc"}"#)), Ok(Token { value: "abc".to_string() }));
    assert_eq!(
        token_of(&answered(201, r#"{"token": "", "more": 1}"#)),
        Ok(Token { value: String::new() })
    );
    assert_eq!(token_of(&answered(299, r#"{"token": "z"}"#)), Ok(Token { value: "z".to_string() }));
}

#[test]
fn sign_in_fails_on_each_kind_of_fault() {
    assert_eq!(token_of(&Reply::Unreachable), Err(AuthError { fault: Fault::Unreachable }));
    assert_eq!(
        token_of(&answered(401, r#"{"token": "abc"}"#)),
        Err(AuthError { fault: Fault::Status(401) })
    );
    assert_eq!(
        token_of(&answered(500, "oops")),
        Err(AuthError { fault: Fault::Status(500) })
    );
    assert_eq!(token_of(&answered(199, "{}")), Err(AuthError { fault: Fault::Status(199) }));
    assert_eq!(token_of(&answered(300, "{}")), Err(AuthError { fault: Fault::Status(300) }));
    assert_eq!(token_of(&answered(200, "oops")), Err(AuthError { fault: Fault::Malformed }));
    assert_eq!(token_of(&answered(200, "{}")), Err(AuthError { fault: Fault::Malformed }));
    assert_eq!(
        token_of(&answered(200, r#"{"token": 5}"#)),
        Err(AuthError { fault: Fault::Malformed })
    );
    assert_eq!(
        token_of(&answered(200, r#"{"Token": "abc"}"#)),
        Err(AuthError { fault: Fault::Malformed })
    );
    assert_eq!(token_of(&answered(200, r#"["abc"]"#)), Err(AuthError { fault: Fault::Malformed }));
}

#[test]
fn replies_are_read_status_first() {
    assert_eq!(read_reply(&Reply::Unreachable), Err(Fault::Unreachable));
    assert_eq!(read_reply(&answered(404, "not json")), Err(Fault::Status(404)));
    assert_eq!(read_reply(&answered(200, "not json")), Err(Fault::Malformed));
    assert_eq!(read_reply(&answered(200, "[1]")), Ok(Json::Array(vec![Json::Number(Some(1))])));
    assert_eq!(settle(200, None), Err(Fault::Malformed));
    assert_eq!(settle(503, Some(Json::Null)), Err(Fault::Status(503)));
    assert_eq!(settle(204, Some(Json::Null)), Ok(Json::Null));
}

#[test]
fn token_from_takes_over_the_fault() {
    assert_eq!(token_from(Err(Fault::Status(403))), Err(AuthError { fault: Fault::Status(403) }));
    assert_eq!(token_from(Ok(Json::Null)), Err(AuthError { fault: Fault::Malformed }));
    assert_eq!(
        token_from(Ok(Json::Object(vec![entry("token", "x")]))),
        Ok(Token { value: "x".to_string() })
    );
}

#[test]
fn catalog_lists_the_kinds_in_order() {
    assert_eq!(
        kinds_of(&answered(200, r#"{"events": ["trackingStarted", "trackingStopped", "x"]}"#)),
        Ok(vec!["trackingStarted".to_string(), "trackingStopped".to_string(), "x".to_string()])
    );
    assert_eq!(kinds_of(&answered(200, r#"{"events": []}"#)), Ok(vec![]));
}

#[test]
fn catalog_holds_a_repeated_kind_once() {
    assert_eq!(
        kinds_of(&answered(
            200,
            r#"{"events": ["trackingStopped", "trackingStarted", "trackingStopped", "x", "trackingStarted", "x", "x"]}"#
        )),
        Ok(vec!["trackingStopped".to_string(), "trackingStarted".to_string(), "x".to_string()])
    );
    assert_eq!(
        kinds_of(&answered(200, r#"{"events": ["a", "a"]}"#)),
        Ok(vec!["a".to_string()])
    );
    let doc = parse(br#"{"events": ["b", "a", "b"]}"#).unwrap();
    assert_eq!(kinds_from(Ok(doc)), Ok(vec!["b".to_string(), "a".to_string()]));
}

#[test]
fn catalog_tells_kinds_apart_by_every_character() {
    assert_eq!(
        kinds_of(&answered(200, r#"{"events": ["a", "A", "a ", "", "a", ""]}"#)),
        Ok(vec!["a".to_string(), "A".to_string(), "a ".to_string(), String::new()])
    );
}

#[test]
fn repeats_are_dropped_and_first_places_kept() {
    let texts = |items: &[&str]| items.iter().map(|s| s.to_string()).collect::<Vec<String>>();
    assert_eq!(drop_repeats(&texts(&[])), texts(&[]));
    assert_eq!(drop_repeats(&texts(&["a"])), texts(&["a"]));
    assert_eq!(drop_repeats(&texts(&["a", "b", "c"])), texts(&["a", "b", "c"]));
    assert_eq!(drop_repeats(&texts(&["c", "a", "c", "b", "a", "c"])), texts(&["c", "a", "b"]));
    assert_eq!(drop_repeats(&texts(&["a", "a", "a"])), texts(&["a"]));
}

#[test]
fn a_list_of_texts_is_decoded_as_sent() {
    assert_eq!(
        decode_texts(&parse(br#"["a", "a"]"#).unwrap()),
        Some(vec!["a".to_string(), "a".to_string()])
    );
}

#[test]
fn catalog_fails_on_each_kind_of_fault() {
    assert_eq!(kinds_of(&Reply::Unreachable), Err(UpstreamError { fault: Fault::Unreachable }));
    assert_eq!(kinds_of(&answered(502, "")), Err(UpstreamError { fault: Fault::Status(502) }));
    assert_eq!(kinds_of(&answered(200, "")), Err(UpstreamError { fault: Fault::Malformed }));
    assert_eq!(kinds_of(&answered(200, "{}")), Err(UpstreamError { fault: Fault::Malformed }));
    assert_eq!(
        kinds_of(&answered(200, r#"{"events": ["a", 1]}"#)),
        Err(UpstreamError { fault: Fault::Malformed })
    );
    assert_eq!(
        kinds_of(&answered(200, r#"{"events": "a"}"#)),
        Err(UpstreamError { fault: Fault::Malformed })
    );
    assert_eq!(kinds_from(Err(Fault::Malformed)), Err(UpstreamError { fault: Fault::Malformed }));
}

#[test]
fn texts_are_decoded_all_or_none() {
    assert_eq!(
        decode_texts(&parse(br#"["a", "", "c"]"#).unwrap()),
        Some(vec!["a".to_string(), String::new(), "c".to_string()])
    );
    assert_eq!(decode_texts(&parse(br#"["a", null]"#).unwrap()), None);
    assert_eq!(decode_texts(&parse(br#"{"a": "b"}"#).unwrap()), None);
}

#[test]
fn subscriptions_are_listed_in_order() {
    let body = r#"{"subscriptions": [
        {"id": "2", "event": "trackingStopped", "targetUrl": "https://a/y"},
        {"id": "1", "event": "trackingStarted", "targetUrl": "https://a/x", "extra": true}
    ]}"#;
    assert_eq!(
        listed_of(&answered(200, body)),
        Ok(vec![
            subscription("2", "trackingStopped", "https://a/y"),
            subscription("1", "trackingStarted", "https://a/x"),
        ])
    );
    assert_eq!(listed_of(&answered(200, r#"{"subscriptions": []}"#)), Ok(vec![]));
}

#[test]
fn listing_fails_on_each_kind_of_fault() {
    assert_eq!(listed_of(&Reply::Unreachable), Err(UpstreamError { fault: Fault::Unreachable }));
    assert_eq!(listed_of(&answered(500, "{}")), Err(UpstreamError { fault: Fault::Status(500) }));
    assert_eq!(listed_of(&answered(200, "{}")), Err(UpstreamError { fault: Fault::Malformed }));
    assert_eq!(
        listed_of(&answered(200, r#"{"subscriptions": [{"id": "1", "event": "e"}]}"#)),
        Err(UpstreamError { fault: Fault::Malformed })
    );
    assert_eq!(
        listed_of(&answered(200, r#"{"subscriptions": {"id": "1"}}"#)),
        Err(UpstreamError { fault: Fault::Malformed })
    );
    assert_eq!(listed_from(Err(Fault::Unreachable)), Err(UpstreamError { fault: Fault::Unreachable }));
}

#[test]
fn created_subscription_is_read_from_the_answer() {
    assert_eq!(
        created_of(&answered(201, r#"{"id": "7", "event": "trackingStarted", "targetUrl": "https://a/x"}"#)),
        Ok(subscription("7", "trackingStarted", "https://a/x"))
    );
    assert_eq!(created_of(&answered(500, "")), Err(UpstreamError { fault: Fault::Status(500) }));
    assert_eq!(created_of(&answered(200, "{}")), Err(UpstreamError { fault: Fault::Malformed }));
    assert_eq!(
        created_of(&answered(200, r#"{"id": 7, "event": "trackingStarted", "targetUrl": "https://a/x"}"#)),
        Err(UpstreamError { fault: Fault::Malformed })
    );
    assert_eq!(created_of(&Reply::Unreachable), Err(UpstreamError { fault: Fault::Unreachable }));
    assert_eq!(created_from(Ok(Json::Null)), Err(UpstreamError { fault: Fault::Malformed }));
}

#[test]
fn subscription_decoders_need_every_entry() {
    let full = r#"{"id": "7", "event": "e", "targetUrl": "u"}"#;
    assert_eq!(decode_subscription(&parse(full.as_bytes()).unwrap()), Some(subscription("7", "e", "u")));
    for name in ["id", "event", "targetUrl"] {
        let renamed = full.replace(&format!("\"{name}\""), "\"other\"");
        assert_eq!(decode_subscription(&parse(renamed.as_bytes()).unwrap()), None);
    }
    assert_eq!(decode_subscriptions(&parse(b"[]").unwrap()), Some(vec![]));
    assert_eq!(decode_subscriptions(&parse(b"[{}]").unwrap()), None);
    assert_eq!(decode_subscriptions(&parse(b"null").unwrap()), None);
}

#[test]
fn token_duplicate_is_equal() {
    assert_eq!(token().duplicate(), token());
}
