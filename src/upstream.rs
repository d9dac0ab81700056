use vstd::prelude::*;
use crate::json::{
    is_json_document,
    json_count_at,
    json_count_at_pointer,
    json_present_at,
    json_text_at,
    json_text_at_pointer,
    json_value_at,
    parse_json,
};
use crate::text::{decimal_text, decimal_text_of, parse_u64, parsed_unsigned};

verus! {

/// How a request failed before any reply arrived.
#[derive(Debug, Clone, Copy, PartialEq, Eq, Structural)]
pub enum TransportKind {
    Timeout,
    Connect,
    Other,
}

/// Why an attempt against the upstream endpoint did not succeed.
pub enum UpstreamError {
    Transport { kind: TransportKind, detail: String },
    Authentication { body: String },
    RateLimited { message: Option<String> },
    ServerStatus { status: u16, body: String },
    ClientStatus { status: u16, body: String },
    UnparseableBody,
    EmbeddedServer { code: u64, message: Option<String> },
    EmbeddedClient { code: u64, message: Option<String> },
    /// An embedded `code` that is not an unsigned integer (negative,
    /// fractional, or not a number).
    EmbeddedUnreadableCode { message: Option<String> },
    NoAttemptAllowed,
}

/// How long to sleep before the next attempt, relative to the backoff.
pub enum Wait {
    /// The exponential backoff alone.
    Backoff,
    /// The backoff, but no less than `ms`.
    AtLeast { ms: u64 },
    /// Exactly `ms`, whatever the backoff.
    Exactly { ms: u64 },
}

/// The verdict on one attempt.
pub enum AttemptOutcome {
    Success { completions: serde_json::Value },
    Transient { error: UpstreamError, wait: Wait },
    Permanent { error: UpstreamError },
}

/// What one HTTP exchange produced, as plain values.
pub enum HttpReply {
    TransportFailure { kind: TransportKind, detail: String },
    Response { status: u16, retry_after: Option<String>, body: Vec<u8> },
}

/// The error object that a reply body may embed, as plain values: whether
/// it has a `code`, that code where it is an unsigned integer, its
/// `message`, and the `X-RateLimit-Reset` hint of its metadata headers
/// (unix milliseconds, as text).
pub struct EmbeddedError {
    /// Whether the error object has a `code` member at all.
    pub has_code: bool,
    pub code: Option<u64>,
    pub message: Option<String>,
    pub rate_limit_reset: Option<String>,
}

/// `seconds` as milliseconds, saturated at the largest 64-bit value.
pub open spec fn seconds_as_ms(seconds: int) -> u64 {
    if seconds * 1000 <= u64::MAX {
        (seconds * 1000) as u64
    } else {
        u64::MAX
    }
}

pub open spec fn is_success_status(status: u16) -> bool {
    200 <= status <= 299
}

pub open spec fn transport_kind_text(kind: TransportKind) -> Seq<char> {
    match kind {
        TransportKind::Timeout => "timeout"@,
        TransportKind::Connect => "connection"@,
        TransportKind::Other => "other"@,
    }
}

pub open spec fn message_or(message: Option<String>, fallback: Seq<char>) -> Seq<char> {
    match message {
        Some(m) => m@,
        None => fallback,
    }
}

/// The human-readable account of an error that a failed record keeps.
pub open spec fn error_text(e: UpstreamError) -> Seq<char> {
    match e {
        UpstreamError::Transport { kind, detail } => "Request error ("@ + transport_kind_text(kind)
            + "): "@ + detail@,
        UpstreamError::Authentication { body } => "Authentication error: "@ + body@,
        UpstreamError::RateLimited { message } => match message {
            Some(m) => "Rate limit exceeded: "@ + m@,
            None => "Rate limit exceeded"@,
        },
        UpstreamError::ServerStatus { status, body } => "Server error ("@ + decimal_text_of(
            status as nat,
        ) + "): "@ + body@,
        UpstreamError::ClientStatus { status, body } => "Client error ("@ + decimal_text_of(
            status as nat,
        ) + "): "@ + body@,
        UpstreamError::UnparseableBody => "JSON parsing error: the reply body is not a JSON document"@,
        UpstreamError::EmbeddedServer { code, message } => "Server error ("@ + decimal_text_of(
            code as nat,
        ) + "): "@ + message_or(message, "Unknown error"@),
        UpstreamError::EmbeddedClient { code, message } => "Client error ("@ + decimal_text_of(
            code as nat,
        ) + "): "@ + message_or(message, "Unknown error"@),
        UpstreamError::EmbeddedUnreadableCode { message } => "Client error (unreadable code): "@
            + message_or(message, "Unknown error"@),
        UpstreamError::NoAttemptAllowed => "Request error: the retry budget allows no attempt"@,
    }
}

fn coded_text(prefix: &str, code: u64, detail: &str) -> (r: String)
    ensures
        r@ == prefix@ + "("@ + decimal_text_of(code as nat) + "): "@ + detail@,
{
    let mut s = String::from_str(prefix);
    s.append("(");
    let digits = decimal_text(code);
    s.append(digits.as_str());
    s.append("): ");
    s.append(detail);
    s
}

impl UpstreamError {
    pub fn describe(&self) -> (r: String)
        ensures
            r@ == error_text(*self),
    {
        match self {
            UpstreamError::Transport { kind, detail } => {
                let mut s = String::from_str("Request error (");
                let k = match kind {
                    TransportKind::Timeout => "timeout",
                    TransportKind::Connect => "connection",
                    TransportKind::Other => "other",
                };
                s.append(k);
                s.append("): ");
                s.append(detail.as_str());
                s
            },
            UpstreamError::Authentication { body } => {
                let mut s = String::from_str("Authentication error: ");
                s.append(body.as_str());
                s
            },
            UpstreamError::RateLimited { message } => match message {
                Some(m) => {
                    let mut s = String::from_str("Rate limit exceeded: ");
                    s.append(m.as_str());
                    s
                },
                None => String::from_str("Rate limit exceeded"),
            },
            UpstreamError::ServerStatus { status, body } => {
                let r = coded_text("Server error ", *status as u64, body.as_str());
                proof {
                    reveal_strlit("Server error ");
                    reveal_strlit("Server error (");
                    reveal_strlit("(");
                    assert("Server error "@ + "("@ =~= "Server error ("@);
                }
                r
            },
            UpstreamError::ClientStatus { status, body } => {
                let r = coded_text("Client error ", *status as u64, body.as_str());
                proof {
                    reveal_strlit("Client error ");
                    reveal_strlit("Client error (");
                    reveal_strlit("(");
                    assert("Client error "@ + "("@ =~= "Client error ("@);
                }
                r
            },
            UpstreamError::UnparseableBody => String::from_str(
                "JSON parsing error: the reply body is not a JSON document",
            ),
            UpstreamError::EmbeddedServer { code, message } => {
                let r = match message {
                    Some(m) => coded_text("Server error ", *code, m.as_str()),
                    None => coded_text("Server error ", *code, "Unknown error"),
                };
                proof {
                    reveal_strlit("Server error ");
                    reveal_strlit("Server error (");
                    reveal_strlit("(");
                    assert("Server error "@ + "("@ =~= "Server error ("@);
                }
                r
            },
            UpstreamError::EmbeddedClient { code, message } => {
                let r = match message {
                    Some(m) => coded_text("Client error ", *code, m.as_str()),
                    None => coded_text("Client error ", *code, "Unknown error"),
                };
                proof {
                    reveal_strlit("Client error ");
                    reveal_strlit("Client error (");
                    reveal_strlit("(");
                    assert("Client error "@ + "("@ =~= "Client error ("@);
                }
                r
            },
            UpstreamError::EmbeddedUnreadableCode { message } => {
                let mut s = String::from_str("Client error (unreadable code): ");
                match message {
                    Some(m) => s.append(m.as_str()),
                    None => s.append("Unknown error"),
                }
                s
            },
            UpstreamError::NoAttemptAllowed => String::from_str(
                "Request error: the retry budget allows no attempt",
            ),
        }
    }
}

/// A `Retry-After` header that reads as whole seconds sets a floor on the sleep.
pub open spec fn retry_after_wait(header: Option<String>) -> Wait {
    match header {
        Some(h) => match parsed_unsigned(h@, u64::MAX as int) {
            Some(s) => Wait::AtLeast { ms: seconds_as_ms(s) },
            None => Wait::Backoff,
        },
        None => Wait::Backoff,
    }
}

/// Timeouts and refused connections are worth another attempt; other
/// transport failures are not.
pub open spec fn transport_outcome(kind: TransportKind, detail: String) -> AttemptOutcome {
    let error = UpstreamError::Transport { kind, detail };
    if kind == TransportKind::Timeout || kind == TransportKind::Connect {
        AttemptOutcome::Transient { error, wait: Wait::Backoff }
    } else {
        AttemptOutcome::Permanent { error }
    }
}

/// The verdict on a reply whose status is not a success.
pub open spec fn status_outcome(status: u16, retry_after: Option<String>, body: String) -> AttemptOutcome {
    if status == 401 {
        AttemptOutcome::Permanent { error: UpstreamError::Authentication { body } }
    } else if status == 429 {
        AttemptOutcome::Transient {
            error: UpstreamError::RateLimited { message: None },
            wait: retry_after_wait(retry_after),
        }
    } else if 500 <= status <= 599 {
        AttemptOutcome::Transient {
            error: UpstreamError::ServerStatus { status, body },
            wait: Wait::Backoff,
        }
    } else {
        AttemptOutcome::Permanent { error: UpstreamError::ClientStatus { status, body } }
    }
}

/// The sleep that an embedded rate-limit error asks for: until the reset
/// time, rounded up to whole seconds plus one, and never under two seconds;
/// two seconds where the reset time is missing, unreadable or past.
pub open spec fn reset_wait_ms(reset: Option<Seq<char>>, now_ms: u64) -> u64 {
    match reset {
        Some(t) => match parsed_unsigned(t, u64::MAX as int) {
            Some(at) => if at > now_ms {
                let secs = (at - now_ms + 999) / 1000 + 1;
                seconds_as_ms(if secs >= 2 { secs } else { 2 })
            } else {
                2000
            },
            None => 2000,
        },
        None => 2000,
    }
}

/// The verdict that an error embedded in a successful reply imposes, if any.
pub open spec fn embedded_outcome(error: EmbeddedError, now_ms: u64) -> Option<AttemptOutcome> {
    match error.code {
        None => if error.has_code {
            Some(
                AttemptOutcome::Permanent {
                    error: UpstreamError::EmbeddedUnreadableCode { message: error.message },
                },
            )
        } else {
            None
        },
        Some(code) => if code == 429 {
            Some(
                AttemptOutcome::Transient {
                    error: UpstreamError::RateLimited { message: error.message },
                    wait: Wait::Exactly { ms: reset_wait_ms(opt_text(error.rate_limit_reset), now_ms) },
                },
            )
        } else if 500 <= code < 600 {
            Some(
                AttemptOutcome::Transient {
                    error: UpstreamError::EmbeddedServer { code, message: error.message },
                    wait: Wait::Backoff,
                },
            )
        } else {
            Some(
                AttemptOutcome::Permanent {
                    error: UpstreamError::EmbeddedClient { code, message: error.message },
                },
            )
        },
    }
}

fn retry_after_floor(header: Option<String>) -> (r: Wait)
    ensures
        r == retry_after_wait(header),
{
    match header {
        Some(h) => match parse_u64(h.as_str()) {
            Some(s) => {
                if s <= u64::MAX / 1000 {
                    Wait::AtLeast { ms: s * 1000 }
                } else {
                    Wait::AtLeast { ms: u64::MAX }
                }
            },
            None => Wait::Backoff,
        },
        None => Wait::Backoff,
    }
}

/// Classifies a reply whose status is not a success.
pub fn classify_status(status: u16, retry_after: Option<String>, body: String) -> (r: AttemptOutcome)
    ensures
        r == status_outcome(status, retry_after, body),
{
    if status == 401 {
        AttemptOutcome::Permanent { error: UpstreamError::Authentication { body } }
    } else if status == 429 {
        AttemptOutcome::Transient {
            error: UpstreamError::RateLimited { message: None },
            wait: retry_after_floor(retry_after),
        }
    } else if 500 <= status && status <= 599 {
        AttemptOutcome::Transient {
            error: UpstreamError::ServerStatus { status, body },
            wait: Wait::Backoff,
        }
    } else {
        AttemptOutcome::Permanent { error: UpstreamError::ClientStatus { status, body } }
    }
}

fn reset_wait(reset: Option<String>, now_ms: u64) -> (r: u64)
    ensures
        r == reset_wait_ms(opt_text(reset), now_ms),
{
    match reset {
        Some(t) => match parse_u64(t.as_str()) {
            Some(at) => {
                if at > now_ms {
                    let gap: u64 = at - now_ms;
                    let secs: u64 = gap / 1000 + if gap % 1000 == 0 { 0 } else { 1 } + 1;
                    assert(secs == (at - now_ms + 999) / 1000 + 1);
                    let secs: u64 = if secs >= 2 { secs } else { 2 };
                    if secs <= u64::MAX / 1000 {
                        secs * 1000
                    } else {
                        u64::MAX
                    }
                } else {
                    2000
                }
            },
            None => 2000,
        },
        None => 2000,
    }
}

/// Classifies the error object embedded in a successful reply; `None` when
/// it carries no numeric code, which leaves the reply a success.
pub fn classify_embedded_error(error: EmbeddedError, now_ms: u64) -> (r: Option<AttemptOutcome>)
    ensures
        r == embedded_outcome(error, now_ms),
{
    let EmbeddedError { has_code, code, message, rate_limit_reset } = error;
    match code {
        None => {
            if has_code {
                Some(AttemptOutcome::Permanent { error: UpstreamError::EmbeddedUnreadableCode { message } })
            } else {
                None
            }
        },
        Some(code) => {
            if code == 429 {
                Some(
                    AttemptOutcome::Transient {
                        error: UpstreamError::RateLimited { message },
                        wait: Wait::Exactly { ms: reset_wait(rate_limit_reset, now_ms) },
                    },
                )
            } else if 500 <= code && code < 600 {
                Some(
                    AttemptOutcome::Transient {
                        error: UpstreamError::EmbeddedServer { code, message },
                        wait: Wait::Backoff,
                    },
                )
            } else {
                Some(
                    AttemptOutcome::Permanent {
                        error: UpstreamError::EmbeddedClient { code, message },
                    },
                )
            }
        },
    }
}

/// The text of the bytes read as UTF-8, with each invalid sequence replaced
/// by U+FFFD.
pub uninterp spec fn lossy_text(b: Seq<u8>) -> Seq<char>;

/// Relies on `String::from_utf8_lossy`: the text depends on the bytes alone.
#[verifier::external_body]
fn lossy_text_of(b: &[u8]) -> (r: String)
    ensures
        r@ == lossy_text(b@),
{
    String::from_utf8_lossy(b).into_owned()
}

/// Where a reply body keeps its error object: at the top-level `error`,
/// or else at `completions.error`.
pub open spec fn error_pointer(b: Seq<u8>) -> Option<Seq<char>> {
    if json_present_at(b, "/error"@) {
        Some("/error"@)
    } else if json_present_at(b, "/completions/error"@) {
        Some("/completions/error"@)
    } else {
        None
    }
}

/// Whether the error object of the reply body `b` has a `code`, that code
/// as an unsigned integer, its `message` and its `X-RateLimit-Reset`, if the
/// body has an error object.
pub open spec fn embedded_fields(b: Seq<u8>) -> Option<(bool, Option<u64>, Option<Seq<char>>, Option<Seq<char>>)> {
    if json_present_at(b, "/error"@) {
        Some(
            (
                json_present_at(b, "/error/code"@),
                json_count_at(b, "/error/code"@),
                json_text_at(b, "/error/message"@),
                json_text_at(b, "/error/metadata/headers/X-RateLimit-Reset"@),
            ),
        )
    } else if json_present_at(b, "/completions/error"@) {
        Some(
            (
                json_present_at(b, "/completions/error/code"@),
                json_count_at(b, "/completions/error/code"@),
                json_text_at(b, "/completions/error/message"@),
                json_text_at(b, "/completions/error/metadata/headers/X-RateLimit-Reset"@),
            ),
        )
    } else {
        None
    }
}

pub open spec fn opt_text(o: Option<String>) -> Option<Seq<char>> {
    match o {
        Some(s) => Some(s@),
        None => None,
    }
}

/// `r` is the verdict that an embedded error with this `code`, `message`
/// and reset time imposes.
pub open spec fn embedded_verdict(
    r: AttemptOutcome,
    code: u64,
    message: Option<Seq<char>>,
    reset: Option<Seq<char>>,
    now_ms: u64,
) -> bool {
    if code == 429 {
        &&& r matches AttemptOutcome::Transient { error: UpstreamError::RateLimited { .. }, wait: Wait::Exactly { .. } }
        &&& opt_text(r->Transient_error->RateLimited_message) == message
        &&& r->Transient_wait->Exactly_ms == reset_wait_ms(reset, now_ms)
    } else if 500 <= code < 600 {
        &&& r matches AttemptOutcome::Transient { error: UpstreamError::EmbeddedServer { .. }, wait: Wait::Backoff }
        &&& r->Transient_error->EmbeddedServer_code == code
        &&& opt_text(r->Transient_error->EmbeddedServer_message) == message
    } else {
        &&& r matches AttemptOutcome::Permanent { error: UpstreamError::EmbeddedClient { .. } }
        &&& r->Permanent_error->EmbeddedClient_code == code
        &&& opt_text(r->Permanent_error->EmbeddedClient_message) == message
    }
}

/// Reads the error object of a reply body, found at its top-level `error`
/// or else at `completions.error`.
pub fn find_embedded_error(body: &[u8]) -> (r: Option<EmbeddedError>)
    ensures
        match embedded_fields(body@) {
            None => r is None,
            Some(f) => r matches Some(e) && e.has_code == f.0 && e.code == f.1 && opt_text(e.message)
                == f.2 && opt_text(e.rate_limit_reset) == f.3,
        },
{
    if json_value_at(body, "/error").is_some() {
        let has_code = json_value_at(body, "/error/code").is_some();
        let code = json_count_at_pointer(body, "/error/code");
        let message = json_text_at_pointer(body, "/error/message");
        let rate_limit_reset = json_text_at_pointer(body, "/error/metadata/headers/X-RateLimit-Reset");
        Some(EmbeddedError { has_code, code, message, rate_limit_reset })
    } else if json_value_at(body, "/completions/error").is_some() {
        let has_code = json_value_at(body, "/completions/error/code").is_some();
        let code = json_count_at_pointer(body, "/completions/error/code");
        let message = json_text_at_pointer(body, "/completions/error/message");
        let rate_limit_reset = json_text_at_pointer(
            body,
            "/completions/error/metadata/headers/X-RateLimit-Reset",
        );
        Some(EmbeddedError { has_code, code, message, rate_limit_reset })
    } else {
        None
    }
}

/// Classifies one HTTP exchange. Transport failures and non-success statuses
/// are decided by the rules above; a success status whose body is not JSON
/// is permanent; otherwise the body is the completion unless an embedded
/// error decides otherwise.
pub fn classify_reply(reply: HttpReply, now_ms: u64) -> (r: AttemptOutcome)
    ensures
        reply matches HttpReply::TransportFailure { kind, detail } ==> r == transport_outcome(
            kind,
            detail,
        ),
        reply matches HttpReply::Response { status, retry_after, body } ==> {
            &&& !is_success_status(status) ==> exists|text: String|
                text@ == lossy_text(body@) && r == status_outcome(status, retry_after, text)
            &&& is_success_status(status) && !is_json_document(body@) ==> r
                == (AttemptOutcome::Permanent { error: UpstreamError::UnparseableBody })
            &&& is_success_status(status) && is_json_document(body@) ==> match embedded_fields(body@) {
                Some((_, Some(code), message, reset)) => embedded_verdict(r, code, message, reset, now_ms),
                Some((true, None, message, _)) => (r matches AttemptOutcome::Permanent {
                    error: UpstreamError::EmbeddedUnreadableCode { .. },
                } && opt_text(r->Permanent_error->EmbeddedUnreadableCode_message) == message),
                _ => r is Success,
            }
        },
{
    match reply {
        HttpReply::TransportFailure { kind, detail } => {
            let error = UpstreamError::Transport { kind, detail };
            match kind {
                TransportKind::Timeout | TransportKind::Connect => AttemptOutcome::Transient {
                    error,
                    wait: Wait::Backoff,
                },
                TransportKind::Other => AttemptOutcome::Permanent { error },
            }
        },
        HttpReply::Response { status, retry_after, body } => {
            if status < 200 || status > 299 {
                let text = lossy_text_of(body.as_slice());
                let ghost t = text;
                let r = classify_status(status, retry_after, text);
                assert(t@ == lossy_text(body@) && r == status_outcome(status, retry_after, t));
                return r;
            }
            let bytes = body.as_slice();
            let parsed = parse_json(bytes);
            match parsed {
                None => AttemptOutcome::Permanent { error: UpstreamError::UnparseableBody },
                Some(v) => {
                    let verdict = match find_embedded_error(bytes) {
                        Some(e) => classify_embedded_error(e, now_ms),
                        None => None,
                    };
                    match verdict {
                        Some(o) => o,
                        None => AttemptOutcome::Success { completions: v },
                    }
                },
            }
        },
    }
}

/// The headers of every attempt: the bearer credentials and the site that
/// the gateway attributes the request to.
pub fn request_headers(api_key: &str, site_url: &str, site_name: &str) -> (r: Vec<(String, String)>)
    ensures
        r@.len() == 3,
        r@[0].0@ == "Authorization"@ && r@[0].1@ == "Bearer "@ + api_key@,
        r@[1].0@ == "HTTP-Referer"@ && r@[1].1@ == site_url@,
        r@[2].0@ == "X-Title"@ && r@[2].1@ == site_name@,
{
    let mut bearer = String::from_str("Bearer ");
    bearer.append(api_key);
    let mut headers: Vec<(String, String)> = Vec::new();
    headers.push((String::from_str("Authorization"), bearer));
    headers.push((String::from_str("HTTP-Referer"), String::from_str(site_url)));
    headers.push((String::from_str("X-Title"), String::from_str(site_name)));
    headers
}

} // verus!
