use timeular_webhooks::json::Json;
use timeular_webhooks::config::{Config, ConfigError, Credentials, Setting, LISTEN_PORT};
use timeular_webhooks::provider::{AuthError, Fault, Reply, Request, UpstreamError, Verb};
use timeular_webhooks::reconcile::Report;
use timeular_webhooks::startup::{find_unknown, offers, Startup, StartupError, Step};
use timeular_webhooks::subscription::{DesiredBinding, Subscription};

fn some(s: &str) -> Option<String> {
    Some(s.to_string())
}

fn config() -> Config {
    Config::load(some("key"), some("secret"), some("https://me.example")).ok().unwrap()
}

fn answered(status: u16, body: &str) -> Reply {
    Reply::Answered { status, body: body.as_bytes().to_vec() }
}

fn binding(kind: &str, url: &str) -> DesiredBinding {
    DesiredBinding { event_kind: kind.to_string(), target_url: url.to_string() }
}

fn subscription(id: &str, kind: &str, url: &str) -> Subscription {
    Subscription { id: id.to_string(), event_kind: kind.to_string(), target_url: url.to_string() }
}

/// Feeds `replies` to the start, one for each call, and returns the calls that were answered and
/// where the start stood when the replies ran out or it was over.
fn run(first: Step, replies: Vec<Reply>) -> (Vec<Request>, Step) {
    let mut calls = Vec::new();
    let mut step = first;
    let mut replies = replies.into_iter();
    loop {
        step = match (step, replies.next()) {
            (Step::Call { startup, request }, Some(reply)) => {
                calls.push(request);
                startup.advance(&reply)
            }
            (other, _) => return (calls, other),
        };
    }
}

fn paths(calls: &[Request]) -> Vec<(Verb, String)> {
    calls
        .iter()
        .map(|r| (r.verb, r.url.replace("https://api.timeular.com/api/v3", "")))
        .collect()
}

const CATALOG: &str = r#"{"events": ["trackingStarted", "trackingStopped", "timeEntryCreated"]}"#;

#[test]
fn settings_load_when_all_are_given() {
    let config = config();
    assert_eq!(config.credentials().api_key(), "key");
    assert_eq!(config.credentials().api_secret(), "secret");
    assert_eq!(config.public_base_url(), "https://me.example");
}

#[test]
fn missing_settings_are_named() {
    let missing = |k: Option<String>, s: Option<String>, u: Option<String>| {
        Config::load(k, s, u).err().unwrap()
    };
    assert_eq!(missing(None, some("s"), some("u")), ConfigError::Missing(Setting::ApiKey));
    assert_eq!(missing(some("k"), None, some("u")), ConfigError::Missing(Setting::ApiSecret));
    assert_eq!(missing(some("k"), some("s"), None), ConfigError::Missing(Setting::PublicBaseUrl));
    assert_eq!(missing(some(""), some("s"), some("u")), ConfigError::Missing(Setting::ApiKey));
    assert_eq!(missing(some("k"), some(""), some("u")), ConfigError::Missing(Setting::ApiSecret));
    assert_eq!(missing(some("k"), some("s"), some("")), ConfigError::Missing(Setting::PublicBaseUrl));
}

#[test]
fn first_missing_setting_is_the_one_reported() {
    assert_eq!(
        Config::load(None, None, None).err(),
        Some(ConfigError::Missing(Setting::PublicBaseUrl))
    );
    assert_eq!(
        Config::load(None, None, some("u")).err(),
        Some(ConfigError::Missing(Setting::ApiKey))
    );
    assert_eq!(
        Config::load(some("k"), some(""), some("")).err(),
        Some(ConfigError::Missing(Setting::PublicBaseUrl))
    );
}

#[test]
fn settings_know_their_variables() {
    assert_eq!(Setting::ApiKey.variable(), "API_KEY");
    assert_eq!(Setting::ApiSecret.variable(), "API_SECRET");
    assert_eq!(Setting::PublicBaseUrl.variable(), "PUBLIC_BASE_URL");
    assert_eq!(LISTEN_PORT, 8000);
}

#[test]
fn start_signs_in_fetches_the_catalog_and_reconciles() {
    let replies = vec![
        answered(200, r#"{"token": "t0k3n"}"#),
        answered(200, CATALOG),
        answered(200, r#"{"subscriptions": []}"#),
        answered(201, r#"{"id": "1", "event": "trackingStarted", "targetUrl": "https://me.example/started-tracking"}"#),
        answered(201, r#"{"id": "2", "event": "trackingStopped", "targetUrl": "https://me.example/stopped-tracking"}"#),
    ];
    let (calls, end) = run(Startup::begin(&config()), replies);
    assert_eq!(
        paths(&calls),
        vec![
            (Verb::Post, "/developer/sign-in".to_string()),
            (Verb::Get, "/webhooks/event".to_string()),
            (Verb::Get, "/webhooks/subscription".to_string()),
            (Verb::Post, "/webhooks/subscription".to_string()),
            (Verb::Post, "/webhooks/subscription".to_string()),
        ]
    );
    assert_eq!(calls[0].authorization, None);
    for call in &calls[1..] {
        assert_eq!(call.authorization, Some("Bearer t0k3n".to_string()));
    }
    let Some(Json::Object(first)) = &calls[3].body else { panic!("no body") };
    assert_eq!(first[0].value, Json::Text("trackingStarted".to_string()));
    assert_eq!(first[1].value, Json::Text("https://me.example/started-tracking".to_string()));
    let Step::Serve(report) = end else { panic!("did not come to serve") };
    assert_eq!(
        report,
        Report {
            kept: vec![],
            created: vec![
                subscription("1", "trackingStarted", "https://me.example/started-tracking"),
                subscription("2", "trackingStopped", "https://me.example/stopped-tracking"),
            ],
            failed: vec![],
        }
    );
}

#[test]
fn start_serves_at_once_when_nothing_is_missing() {
    let replies = vec![
        answered(200, r#"{"token": "t"}"#),
        answered(200, CATALOG),
        answered(
            200,
            r#"{"subscriptions": [
                {"id": "2", "event": "trackingStopped", "targetUrl": "https://me.example/stopped-tracking"},
                {"id": "1", "event": "trackingStarted", "targetUrl": "https://me.example/started-tracking"}
            ]}"#,
        ),
    ];
    let (calls, end) = run(Startup::begin(&config()), replies);
    assert_eq!(calls.len(), 3);
    let Step::Serve(report) = end else { panic!("did not come to serve") };
    assert_eq!(report.kept.len(), 2);
    assert_eq!(report.created, vec![]);
    assert_eq!(report.failed, vec![]);
}

#[test]
fn failed_sign_in_aborts_the_start() {
    for (reply, fault) in [
        (Reply::Unreachable, Fault::Unreachable),
        (answered(401, "{}"), Fault::Status(401)),
        (answered(200, "{}"), Fault::Malformed),
        (answered(200, "<html>"), Fault::Malformed),
    ] {
        let (calls, end) = run(Startup::begin(&config()), vec![reply, answered(200, CATALOG)]);
        assert_eq!(calls.len(), 1);
        let Step::Abort(error) = end else { panic!("did not abort") };
        assert_eq!(error, StartupError::Auth(AuthError { fault }));
    }
}

#[test]
fn catalog_is_fetched_a_second_time_after_a_failure() {
    let replies = vec![
        answered(200, r#"{"token": "t"}"#),
        answered(502, ""),
        answered(200, CATALOG),
        answered(200, r#"{"subscriptions": []}"#),
    ];
    let (calls, end) = run(Startup::begin(&config()), replies);
    assert_eq!(
        paths(&calls),
        vec![
            (Verb::Post, "/developer/sign-in".to_string()),
            (Verb::Get, "/webhooks/event".to_string()),
            (Verb::Get, "/webhooks/event".to_string()),
            (Verb::Get, "/webhooks/subscription".to_string()),
        ]
    );
    let Step::Call { request, .. } = end else { panic!("no create call") };
    assert_eq!(paths(&[request]), vec![(Verb::Post, "/webhooks/subscription".to_string())]);
}

#[test]
fn catalog_that_fails_twice_aborts_the_start() {
    let replies = vec![
        answered(200, r#"{"token": "t"}"#),
        Reply::Unreachable,
        answered(500, ""),
        answered(200, CATALOG),
    ];
    let (calls, end) = run(Startup::begin(&config()), replies);
    assert_eq!(calls.len(), 3);
    let Step::Abort(error) = end else { panic!("did not abort") };
    assert_eq!(error, StartupError::Upstream(UpstreamError { fault: Fault::Status(500) }));
}

#[test]
fn catalog_without_a_desired_kind_aborts_the_start() {
    let replies = vec![
        answered(200, r#"{"token": "t"}"#),
        answered(200, r#"{"events": ["trackingStarted", "timeEntryCreated"]}"#),
        answered(200, r#"{"subscriptions": []}"#),
    ];
    let (calls, end) = run(Startup::begin(&config()), replies);
    assert_eq!(calls.len(), 2);
    let Step::Abort(error) = end else { panic!("did not abort") };
    assert_eq!(error, StartupError::Config(ConfigError::UnknownEventKind { binding: 1 }));
}

#[test]
fn unknown_kind_found_on_the_second_fetch_aborts_too() {
    let replies = vec![
        answered(200, r#"{"token": "t"}"#),
        answered(200, "not json"),
        answered(200, r#"{"events": []}"#),
    ];
    let (_, end) = run(Startup::begin(&config()), replies);
    let Step::Abort(error) = end else { panic!("did not abort") };
    assert_eq!(error, StartupError::Config(ConfigError::UnknownEventKind { binding: 0 }));
}

#[test]
fn catalog_that_repeats_a_kind_is_read_as_a_set() {
    let replies = vec![
        answered(200, r#"{"token": "t"}"#),
        answered(200, r#"{"events": ["trackingStarted", "trackingStarted", "trackingStopped"]}"#),
        answered(200, r#"{"subscriptions": []}"#),
    ];
    let (calls, end) = run(Startup::begin(&config()), replies);
    assert_eq!(calls.len(), 3);
    assert!(matches!(end, Step::Call { .. }));
    let replies = vec![
        answered(200, r#"{"token": "t"}"#),
        answered(200, r#"{"events": ["trackingStarted", "trackingStarted"]}"#),
    ];
    let (_, end) = run(Startup::begin(&config()), replies);
    let Step::Abort(error) = end else { panic!("did not abort") };
    assert_eq!(error, StartupError::Config(ConfigError::UnknownEventKind { binding: 1 }));
}

#[test]
fn failed_listing_aborts_the_start() {
    let replies = vec![
        answered(200, r#"{"token": "t"}"#),
        answered(200, CATALOG),
        answered(500, ""),
        answered(200, r#"{"subscriptions": []}"#),
    ];
    let (calls, end) = run(Startup::begin(&config()), replies);
    assert_eq!(calls.len(), 3);
    let Step::Abort(error) = end else { panic!("did not abort") };
    assert_eq!(error, StartupError::Upstream(UpstreamError { fault: Fault::Status(500) }));
}

#[test]
fn failed_create_is_reported_and_the_service_starts() {
    let replies = vec![
        answered(200, r#"{"token": "t"}"#),
        answered(200, CATALOG),
        answered(200, r#"{"subscriptions": []}"#),
        answered(500, "boom"),
        answered(201, r#"{"id": "2", "event": "trackingStopped", "targetUrl": "https://me.example/stopped-tracking"}"#),
    ];
    let (calls, end) = run(Startup::begin(&config()), replies);
    assert_eq!(calls.len(), 5);
    let Step::Serve(report) = end else { panic!("did not come to serve") };
    assert_eq!(
        report.created,
        vec![subscription("2", "trackingStopped", "https://me.example/stopped-tracking")]
    );
    assert_eq!(report.failed.len(), 1);
    assert_eq!(
        report.failed[0].binding,
        binding("trackingStarted", "https://me.example/started-tracking")
    );
    assert_eq!(report.failed[0].error, UpstreamError { fault: Fault::Status(500) });
}

#[test]
fn start_with_bindings_of_ones_own() {
    let credentials = Credentials::new("k".to_string(), "s".to_string()).ok().unwrap();
    let desired = vec![binding("timeEntryCreated", "https://a/x")];
    let replies = vec![
        answered(200, r#"{"token": "t"}"#),
        answered(200, CATALOG),
        answered(200, r#"{"subscriptions": [{"id": "5", "event": "timeEntryCreated", "targetUrl": "https://a/x"}]}"#),
    ];
    let (_, end) = run(Startup::begin_with(&credentials, desired), replies);
    let Step::Serve(report) = end else { panic!("did not come to serve") };
    assert_eq!(report.kept, vec![subscription("5", "timeEntryCreated", "https://a/x")]);
}

#[test]
fn catalog_is_searched_by_exact_name() {
    let kinds = vec!["trackingStarted".to_string(), "trackingStopped".to_string()];
    assert!(offers(&kinds, "trackingStarted"));
    assert!(offers(&kinds, "trackingStopped"));
    assert!(!offers(&kinds, "trackingstarted"));
    assert!(!offers(&kinds, ""));
    assert!(!offers(&vec![], "trackingStarted"));
    let desired = vec![
        binding("trackingStopped", "a"),
        binding("x", "b"),
        binding("trackingStarted", "c"),
        binding("y", "d"),
    ];
    assert_eq!(find_unknown(&kinds, &desired), Some(1));
    assert_eq!(find_unknown(&kinds, &desired[..1].to_vec()), None);
    assert_eq!(find_unknown(&kinds, &vec![]), None);
    assert_eq!(find_unknown(&vec![], &desired), Some(0));
}
