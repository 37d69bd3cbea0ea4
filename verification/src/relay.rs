use vstd::prelude::*;

verus! {

/// How one outbound GET to the target URL ended: the body was received and
/// decoded as text, the response arrived but its body could not be decoded,
/// or the request itself failed (DNS, connection, TLS, malformed URL, ...).
pub enum FetchOutcome {
    Received(String),
    DecodeFailed,
    RequestFailed,
}

/// What the relay route sends back: a status code and a body, always
/// rendered with an HTML content type.
pub struct ProxyReply {
    pub status: u16,
    pub body: String,
}

/// Every reply on the relay route carries this status, success or failure:
/// callers can tell the outcomes apart only by the body.
pub const RELAY_STATUS: u16 = 200;

/// Diagnostic body sent when the response arrived but its body could not be
/// decoded as text.
pub open spec fn decode_failure_text() -> Seq<char> {
    "抓取网页内容失败"@
}

/// Diagnostic body sent when the outbound request itself failed.
pub open spec fn request_failure_text() -> Seq<char> {
    "请求目标网页失败"@
}

/// The body the relay returns for each fetch outcome: the fetched text
/// verbatim on success, else one of the two fixed diagnostic strings.
pub open spec fn relay_body(outcome: FetchOutcome) -> Seq<char> {
    match outcome {
        FetchOutcome::Received(body) => body@,
        FetchOutcome::DecodeFailed => decode_failure_text(),
        FetchOutcome::RequestFailed => request_failure_text(),
    }
}

/// Turn the outcome of the outbound fetch into the reply for the caller.
pub fn relay_reply(outcome: FetchOutcome) -> (r: ProxyReply)
    ensures
        r.status == RELAY_STATUS,
        r.body@ == relay_body(outcome),
{
    match outcome {
        FetchOutcome::Received(body) => ProxyReply { status: RELAY_STATUS, body },
        FetchOutcome::DecodeFailed => ProxyReply {
            status: RELAY_STATUS,
            body: "抓取网页内容失败".to_owned(),
        },
        FetchOutcome::RequestFailed => ProxyReply {
            status: RELAY_STATUS,
            body: "请求目标网页失败".to_owned(),
        },
    }
}

/// The content type of every reply on the relay route, whatever the target
/// resource declared.
pub open spec fn relay_content_type_text() -> Seq<char> {
    "text/html; charset=utf-8"@
}

/// The header value under which every relay reply is rendered as HTML.
pub fn relay_content_type() -> (r: String)
    ensures
        r@ == relay_content_type_text(),
{
    "text/html; charset=utf-8".to_owned()
}

/// Law: the relay's body is a function of the fetch outcome alone, so two
/// requests whose fetches end the same way get byte-identical bodies.
pub proof fn lemma_relay_deterministic(first: FetchOutcome, second: FetchOutcome)
    requires
        first == second,
    ensures
        relay_body(first) == relay_body(second),
{
}

} // verus!
