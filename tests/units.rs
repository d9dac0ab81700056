use consumer::backoff::backoff_delay_ms;
use consumer::message::decode_delivery;
use consumer::retry::{RetryPolicy, RetryStep};
use consumer::session::{Session, SessionAction, SessionState};
use consumer::settings::{BrokerSettings, DatabaseSettings, Settings};
use consumer::store::{completion_from_search, CacheQuery, RecordResult, StatusUpdate, UnreadableAnswer};
use consumer::task_status::TaskStatus;
use consumer::text::{decimal_text, parse_u64};
use consumer::upstream::{
    classify_embedded_error, classify_reply, classify_status, find_embedded_error, AttemptOutcome,
    EmbeddedError, HttpReply, TransportKind, UpstreamError, Wait,
};
use serde_json::Value;

fn json(text: &str) -> Value {
    serde_json::from_str(text).unwrap()
}

#[test]
fn status_spellings() {
    assert_eq!(TaskStatus::Pending.as_str(), "PENDING");
    assert_eq!(TaskStatus::Processing.as_str(), "PROCESSING");
    assert_eq!(TaskStatus::Completed.as_str(), "COMPLETED");
    assert_eq!(TaskStatus::Failed.as_str(), "FAILED");
}

#[test]
fn unsigned_parsing() {
    assert_eq!(parse_u64("123"), Some(123));
    assert_eq!(parse_u64("+5"), Some(5));
    assert_eq!(parse_u64("007"), Some(7));
    assert_eq!(parse_u64(""), None);
    assert_eq!(parse_u64("+"), None);
    assert_eq!(parse_u64("12a"), None);
    assert_eq!(parse_u64("-1"), None);
    assert_eq!(parse_u64(" 1"), None);
    assert_eq!(parse_u64("18446744073709551615"), Some(u64::MAX));
    assert_eq!(parse_u64("18446744073709551616"), None);
}

#[test]
fn decimal_spelling() {
    assert_eq!(decimal_text(0), "0");
    assert_eq!(decimal_text(9), "9");
    assert_eq!(decimal_text(503), "503");
    assert_eq!(decimal_text(u64::MAX), "18446744073709551615");
}

#[test]
fn backoff_doubles_applies_jitter_and_caps() {
    assert_eq!(backoff_delay_ms(100, 0, 1000, 60), 100);
    assert_eq!(backoff_delay_ms(100, 3, 500, 60), 400);
    assert_eq!(backoff_delay_ms(100, 1, 1499, 60), 299);
    assert_eq!(backoff_delay_ms(10_000, 10, 1000, 60), 60_000);
    assert_eq!(backoff_delay_ms(u64::MAX, 200, 1499, u64::MAX), u64::MAX);
    assert_eq!(backoff_delay_ms(0, 31, 1000, 60), 0);
    assert_eq!(backoff_delay_ms(7, 2, 1000, 0), 0);
}

#[test]
fn status_classification() {
    assert!(matches!(
        classify_status(401, None, "no".to_string()),
        AttemptOutcome::Permanent { error: UpstreamError::Authentication { .. } }
    ));
    assert!(matches!(
        classify_status(429, Some("7".to_string()), String::new()),
        AttemptOutcome::Transient { wait: Wait::AtLeast { ms: 7000 }, .. }
    ));
    assert!(matches!(
        classify_status(429, Some("soon".to_string()), String::new()),
        AttemptOutcome::Transient { wait: Wait::Backoff, .. }
    ));
    assert!(matches!(
        classify_status(429, None, String::new()),
        AttemptOutcome::Transient { wait: Wait::Backoff, .. }
    ));
    assert!(matches!(
        classify_status(503, None, String::new()),
        AttemptOutcome::Transient { error: UpstreamError::ServerStatus { status: 503, .. }, wait: Wait::Backoff }
    ));
    assert!(matches!(
        classify_status(404, None, String::new()),
        AttemptOutcome::Permanent { error: UpstreamError::ClientStatus { status: 404, .. } }
    ));
}

#[test]
fn transport_classification() {
    let t = classify_reply(HttpReply::TransportFailure { kind: TransportKind::Timeout, detail: "t".to_string() }, 0);
    assert!(matches!(t, AttemptOutcome::Transient { wait: Wait::Backoff, .. }));
    let c = classify_reply(HttpReply::TransportFailure { kind: TransportKind::Connect, detail: "c".to_string() }, 0);
    assert!(matches!(c, AttemptOutcome::Transient { .. }));
    let o = classify_reply(HttpReply::TransportFailure { kind: TransportKind::Other, detail: "o".to_string() }, 0);
    match o {
        AttemptOutcome::Permanent { error } => assert_eq!(error.describe(), "Request error (other): o"),
        _ => panic!("other transport failures are permanent"),
    }
}

fn ok_reply(body: &str, now_ms: u64) -> AttemptOutcome {
    classify_reply(HttpReply::Response { status: 200, retry_after: None, body: body.as_bytes().to_vec() }, now_ms)
}

#[test]
fn body_classification() {
    match ok_reply(r#"{"x":1}"#, 0) {
        AttemptOutcome::Success { completions } => assert_eq!(completions, json(r#"{"x":1}"#)),
        _ => panic!("a plain body is a success"),
    }
    assert!(matches!(
        ok_reply("not json", 0),
        AttemptOutcome::Permanent { error: UpstreamError::UnparseableBody }
    ));
    assert!(matches!(
        ok_reply(r#"{"error":{"code":429}}"#, 0),
        AttemptOutcome::Transient { wait: Wait::Exactly { ms: 2000 }, .. }
    ));
    let reset = r#"{"error":{"code":429,"metadata":{"headers":{"X-RateLimit-Reset":"6500"}}}}"#;
    assert!(matches!(ok_reply(reset, 1000), AttemptOutcome::Transient { wait: Wait::Exactly { ms: 7000 }, .. }));
    assert!(matches!(ok_reply(reset, 7000), AttemptOutcome::Transient { wait: Wait::Exactly { ms: 2000 }, .. }));
    let near = r#"{"error":{"code":429,"metadata":{"headers":{"X-RateLimit-Reset":"1001"}}}}"#;
    assert!(matches!(ok_reply(near, 1000), AttemptOutcome::Transient { wait: Wait::Exactly { ms: 2000 }, .. }));
    assert!(matches!(
        ok_reply(r#"{"completions":{"error":{"code":502,"message":"down"}}}"#, 0),
        AttemptOutcome::Transient { error: UpstreamError::EmbeddedServer { code: 502, .. }, wait: Wait::Backoff }
    ));
    match ok_reply(r#"{"error":{"code":400,"message":"bad"}}"#, 0) {
        AttemptOutcome::Permanent { error } => assert_eq!(error.describe(), "Client error (400): bad"),
        _ => panic!("a 4xx error code is permanent"),
    }
    assert!(matches!(ok_reply(r#"{"error":{"message":"no code"}}"#, 0), AttemptOutcome::Success { .. }));
    match ok_reply(r#"{"error":{"code":-1,"message":"odd"}}"#, 0) {
        AttemptOutcome::Permanent { error } => assert_eq!(error.describe(), "Client error (unreadable code): odd"),
        _ => panic!("a code that is not an unsigned integer is permanent"),
    }
    assert!(matches!(
        ok_reply(r#"{"completions":{"error":{"code":"429"}}}"#, 0),
        AttemptOutcome::Permanent { error: UpstreamError::EmbeddedUnreadableCode { .. } }
    ));
    assert!(matches!(
        ok_reply(r#"{"error":{"code":4.5}}"#, 0),
        AttemptOutcome::Permanent { error: UpstreamError::EmbeddedUnreadableCode { .. } }
    ));
    let raw = classify_reply(HttpReply::Response { status: 200, retry_after: None, body: vec![b'"', 0xff, b'"'] }, 0);
    assert!(matches!(raw, AttemptOutcome::Permanent { error: UpstreamError::UnparseableBody }));
    match classify_reply(HttpReply::Response { status: 401, retry_after: None, body: vec![b'n', 0xff] }, 0) {
        AttemptOutcome::Permanent { error } => assert_eq!(error.describe(), "Authentication error: n\u{fffd}"),
        _ => panic!("401 is permanent"),
    }
}

#[test]
fn embedded_error_is_read_from_either_place() {
    let top = find_embedded_error(br#"{"error":{"code":500,"message":"m"}}"#).unwrap();
    assert_eq!(top.code, Some(500));
    assert_eq!(top.message.as_deref(), Some("m"));
    let nested = find_embedded_error(
        br#"{"completions":{"error":{"code":12,"metadata":{"headers":{"X-RateLimit-Reset":"99"}}}}}"#,
    )
    .unwrap();
    assert_eq!(nested.code, Some(12));
    assert_eq!(nested.message, None);
    assert_eq!(nested.rate_limit_reset.as_deref(), Some("99"));
    let first = find_embedded_error(br#"{"error":{"message":"top"},"completions":{"error":{"code":1}}}"#).unwrap();
    assert!(!first.has_code);
    assert_eq!(first.code, None);
    let negative = find_embedded_error(br#"{"error":{"code":-3}}"#).unwrap();
    assert!(negative.has_code);
    assert_eq!(negative.code, None);
    assert_eq!(first.message.as_deref(), Some("top"));
    assert!(find_embedded_error(br#"{"choices":[]}"#).is_none());
    assert!(find_embedded_error(b"not json").is_none());
}

#[test]
fn embedded_error_classification() {
    let e = EmbeddedError { has_code: false, code: None, message: None, rate_limit_reset: None };
    assert!(classify_embedded_error(e, 0).is_none());
    let e = EmbeddedError { has_code: true, code: None, message: None, rate_limit_reset: None };
    assert!(matches!(
        classify_embedded_error(e, 0),
        Some(AttemptOutcome::Permanent { error: UpstreamError::EmbeddedUnreadableCode { .. } })
    ));
    let e = EmbeddedError { has_code: true, code: Some(429), message: None, rate_limit_reset: Some("x".to_string()) };
    assert!(matches!(classify_embedded_error(e, 0), Some(AttemptOutcome::Transient { wait: Wait::Exactly { ms: 2000 }, .. })));
    let e = EmbeddedError { has_code: true, code: Some(429), message: None, rate_limit_reset: Some("10000".to_string()) };
    assert!(matches!(classify_embedded_error(e, 0), Some(AttemptOutcome::Transient { wait: Wait::Exactly { ms: 11000 }, .. })));
    let e = EmbeddedError { has_code: true, code: Some(599), message: None, rate_limit_reset: None };
    assert!(matches!(classify_embedded_error(e, 0), Some(AttemptOutcome::Transient { .. })));
    let e = EmbeddedError { has_code: true, code: Some(600), message: None, rate_limit_reset: None };
    assert!(matches!(classify_embedded_error(e, 0), Some(AttemptOutcome::Permanent { .. })));
}

#[test]
fn error_descriptions() {
    let d = |e: UpstreamError| e.describe();
    assert_eq!(d(UpstreamError::Authentication { body: "nope".to_string() }), "Authentication error: nope");
    assert_eq!(d(UpstreamError::RateLimited { message: None }), "Rate limit exceeded");
    assert_eq!(d(UpstreamError::RateLimited { message: Some("wait".to_string()) }), "Rate limit exceeded: wait");
    assert_eq!(d(UpstreamError::ServerStatus { status: 502, body: "b".to_string() }), "Server error (502): b");
    assert_eq!(d(UpstreamError::EmbeddedServer { code: 500, message: None }), "Server error (500): Unknown error");
    assert_eq!(d(UpstreamError::EmbeddedClient { code: 403, message: Some("m".to_string()) }), "Client error (403): m");
    assert_eq!(
        d(UpstreamError::Transport { kind: TransportKind::Timeout, detail: "slow".to_string() }),
        "Request error (timeout): slow"
    );
    assert_eq!(
        d(UpstreamError::Transport { kind: TransportKind::Connect, detail: "refused".to_string() }),
        "Request error (connection): refused"
    );
    assert_eq!(d(UpstreamError::UnparseableBody), "JSON parsing error: the reply body is not a JSON document");
}

#[test]
fn policy_steps() {
    let policy = RetryPolicy { max_attempts: 2, base_delay_ms: 100, max_delay_s: 1 };
    assert!(matches!(policy.first_step(), RetryStep::Attempt { index: 0, delay_ms: 0 }));
    let t = AttemptOutcome::Transient { error: UpstreamError::UnparseableBody, wait: Wait::Exactly { ms: 5 } };
    assert!(matches!(policy.after_attempt(0, t, 700), RetryStep::Attempt { index: 1, delay_ms: 5 }));
    let t = AttemptOutcome::Transient { error: UpstreamError::UnparseableBody, wait: Wait::AtLeast { ms: 5 } };
    assert!(matches!(policy.after_attempt(0, t, 700), RetryStep::Attempt { index: 1, delay_ms: 70 }));
    let t = AttemptOutcome::Transient { error: UpstreamError::UnparseableBody, wait: Wait::Backoff };
    assert!(matches!(policy.after_attempt(1, t, 700), RetryStep::Finish { result: Err(_) }));
}

#[test]
fn delivery_decoding() {
    let m = decode_delivery(br#"{"message_id":"m1","body_hash":"h1","payload":{"url":"U","body":{"a":[1]},"api_key":"K"}}"#).unwrap();
    assert_eq!(m.message_id, "m1");
    assert_eq!(m.body_hash, "h1");
    assert_eq!(m.request.url, "U");
    assert_eq!(m.request.api_key, "K");
    assert_eq!(m.request.body, Some(json(r#"{"a":[1]}"#)));
    let bare = decode_delivery(b"[1,2]").unwrap();
    assert_eq!(bare.message_id, "");
    assert_eq!(bare.body_hash, "");
    assert_eq!(bare.request.url, "");
    assert_eq!(bare.request.body, None);
    let odd = decode_delivery(br#"{"message_id":7,"payload":{"url":["U"],"body":null}}"#).unwrap();
    assert_eq!(odd.message_id, "");
    assert_eq!(odd.request.url, "");
    assert_eq!(odd.request.body, Some(Value::Null));
    assert!(decode_delivery(b"{").is_none());
    assert!(decode_delivery(b"").is_none());
}

#[test]
fn update_timestamps() {
    let u = StatusUpdate::new("m".to_string(), TaskStatus::Completed, RecordResult::Empty, false, 3, 1_000, 4_500);
    assert_eq!(u.completed_at_ms, 4_500);
    assert_eq!(u.duration_ms, 3_500);
    assert_eq!(u.attempt, 3);
    let early = StatusUpdate::new("m".to_string(), TaskStatus::Failed, RecordResult::Empty, false, 0, 1_000, 900);
    assert_eq!(early.completed_at_ms, 1_000);
    assert_eq!(early.duration_ms, 0);
    let wide = StatusUpdate::new("m".to_string(), TaskStatus::Failed, RecordResult::Empty, false, 0, i64::MIN, i64::MAX);
    assert_eq!(wide.duration_ms, u64::MAX);
}

#[test]
fn cache_query_and_answer() {
    let q = CacheQuery::for_body_hash("h1".to_string());
    assert_eq!(q.status.as_str(), "COMPLETED");
    assert_eq!(q.body_hash, "h1");
    assert_eq!(q.size, 1);
    let hit = br#"{"hits":{"hits":[{"_source":{"completions":{"x":1}}},{"_source":{"completions":{"x":2}}}]}}"#;
    let r = completion_from_search(hit).unwrap().unwrap();
    assert_eq!(r.completions, json(r#"{"x":1}"#));
    assert!(r.cached);
    assert_eq!(r.attempt, 0);
    assert_eq!(completion_from_search(br#"{"hits":{"hits":[]}}"#).map(|h| h.is_none()), Ok(true));
    let text = completion_from_search(br#"{"hits":{"hits":[{"_source":{"completions":"text"}}]}}"#).unwrap().unwrap();
    assert_eq!(text.completions, json(r#""text""#));
    assert_eq!(completion_from_search(br#"{}"#).map(|h| h.is_none()), Ok(true));
    assert_eq!(completion_from_search(b"<html>").map(|h| h.is_none()), Err(UnreadableAnswer));
}

fn vars(pairs: &[(&str, &str)]) -> Vec<(String, String)> {
    pairs.iter().map(|(k, v)| (k.to_string(), v.to_string())).collect()
}

#[test]
fn settings_defaults() {
    let s = Settings::new(&Vec::new());
    assert_eq!(s.site_url, "https://your-site.com");
    assert_eq!(s.site_name, "Your Site Name");
    assert_eq!(s.retry_attempts, 10);
    assert_eq!(s.base_delay_ms, 10000);
    assert_eq!(s.max_delay_s, 60);
    assert_eq!(s.max_parallel_tasks, 300);
    assert_eq!(s.rabbitmq.host, "localhost");
    assert_eq!(s.rabbitmq.port, 5672);
    assert_eq!(s.rabbitmq.user, "guest");
    assert_eq!(s.database.port, 9200);
    assert_eq!(s.database.user, "elastic");
}

#[test]
fn settings_from_variables() {
    let s = Settings::new(&vars(&[
        ("SITE_NAME", "Lab"),
        ("RETRY_ATTEMPTS", "3"),
        ("MAX_PARALLEL_TASKS", "many"),
        ("RABBITMQ_PORT", "70000"),
        ("ELASTICSEARCH_PORT", "9201"),
        ("SITE_NAME", "Ignored"),
    ]));
    assert_eq!(s.site_name, "Lab");
    assert_eq!(s.retry_attempts, 3);
    assert_eq!(s.max_parallel_tasks, 10);
    assert_eq!(s.rabbitmq.port, 5672);
    assert_eq!(s.database.port, 9201);
    let wide = Settings::new(&vars(&[("MAX_PARALLEL_TASKS", "5000000000")]));
    assert_eq!(wide.max_parallel_tasks as u64, if usize::BITS == 64 { 5_000_000_000 } else { 10 });
}

#[test]
fn endpoints_carry_credentials() {
    let db = DatabaseSettings { host: "es".to_string(), port: 9200, user: "u".to_string(), password: "p".to_string() };
    assert_eq!(db.url(), "http://u:p@es:9200");
    let mq = BrokerSettings { host: "mq".to_string(), port: 5672, user: "g".to_string(), password: "s".to_string() };
    assert_eq!(mq.uri(), "amqp://g:s@mq:5672");
}

#[test]
fn session_connects_consumes_and_reconnects() {
    let mq = BrokerSettings { host: "mq".to_string(), port: 5672, user: "g".to_string(), password: "s".to_string() };
    let mut s = Session::new(&mq, 70_000);
    assert_eq!(s.state(), SessionState::Disconnected);
    match s.next(true) {
        SessionAction::Connect { uri } => assert_eq!(uri, "amqp://g:s@mq:5672"),
        _ => panic!("the session starts by connecting"),
    }
    assert!(matches!(s.next(true), SessionAction::OpenChannel));
    assert!(matches!(s.next(true), SessionAction::SetPrefetch { count: 65535 }));
    match s.next(true) {
        SessionAction::DeclareQueue { name, durable } => {
            assert_eq!(name, "data_generation_tasks");
            assert!(durable);
        }
        _ => panic!("the queue is declared next"),
    }
    match s.next(true) {
        SessionAction::Consume { queue, tag } => {
            assert_eq!(queue, "data_generation_tasks");
            assert_eq!(tag, "consumer");
        }
        _ => panic!("then consumed"),
    }
    assert!(matches!(s.next(true), SessionAction::Receive));
    assert!(matches!(s.next(true), SessionAction::Receive));
    assert!(matches!(s.next(false), SessionAction::Sleep { ms: 5000 }));
    assert!(matches!(s.next(true), SessionAction::Connect { .. }));
    assert!(matches!(s.next(false), SessionAction::Sleep { ms: 5000 }));
    assert_eq!(s.state(), SessionState::WaitingToReconnect);
}

#[test]
fn prefetch_follows_the_task_limit() {
    let mq = BrokerSettings { host: "h".to_string(), port: 1, user: "u".to_string(), password: "p".to_string() };
    let mut s = Session::new(&mq, 12);
    s.next(true);
    s.next(true);
    assert!(matches!(s.next(true), SessionAction::SetPrefetch { count: 12 }));
}

#[test]
fn attempt_headers() {
    let h = consumer::upstream::request_headers("K", "https://site", "Site");
    assert_eq!(
        h,
        vec![
            ("Authorization".to_string(), "Bearer K".to_string()),
            ("HTTP-Referer".to_string(), "https://site".to_string()),
            ("X-Title".to_string(), "Site".to_string()),
        ]
    );
}
