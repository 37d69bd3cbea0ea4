use vstd::prelude::*;

verus! {

/// The two deployable configurations: the bare relay, and the relay that
/// also serves static files from the working directory behind a permissive
/// cross-origin policy.
pub enum ServerKind {
    RelayOnly,
    RelayWithStatic,
}

/// What the server decides to do with an incoming GET request: run the
/// outbound fetch against this URL, resolve the path against the working
/// directory, or reject with this status before any handler runs.
pub enum Plan {
    Fetch(String),
    ServeFile(String),
    Reject(u16),
}

/// Fixed port on the loopback address; no configuration overrides it.
pub const LISTEN_PORT: u16 = 8080;

/// Status of the rejection when the `url` query parameter is missing.
pub const REJECT_MISSING_PARAM: u16 = 400;

/// Status of the rejection when the bare relay gets a path it does not serve.
pub const REJECT_NO_ROUTE: u16 = 404;

/// The one route the relay binds.
pub open spec fn proxy_route() -> Seq<char> {
    "/proxy"@
}

/// Decide what to do with a GET request, from its path and the `url` query
/// parameter as the extraction layer handed it over (`None` when absent).
pub fn plan_get(kind: &ServerKind, path: &String, url: Option<String>) -> (p: Plan)
    ensures
        match p {
            Plan::Fetch(u) => path@ == proxy_route() && (url matches Some(v) && u == v),
            Plan::Reject(s) => (path@ == proxy_route() && url is None && s
                == REJECT_MISSING_PARAM) || (path@ != proxy_route() && kind is RelayOnly && s
                == REJECT_NO_ROUTE),
            Plan::ServeFile(f) => path@ != proxy_route() && kind is RelayWithStatic && f == *path,
        },
{
    let route: String = "/proxy".to_owned();
    if String::eq(path, &route) {
        match url {
            Some(u) => Plan::Fetch(u),
            None => Plan::Reject(REJECT_MISSING_PARAM),
        }
    } else {
        match kind {
            ServerKind::RelayOnly => Plan::Reject(REJECT_NO_ROUTE),
            ServerKind::RelayWithStatic => Plan::ServeFile(path.clone()),
        }
    }
}

/// How resolving a request path against the working directory ended: the
/// file's bytes were read, or the file could not be served (missing, I/O
/// error).
pub enum FileOutcome {
    Loaded(Vec<u8>),
    Failed,
}

/// A response body: raw file bytes, or diagnostic text.
pub enum ReplyBody {
    Bytes(Vec<u8>),
    Text(String),
}

/// What the static-file layer sends back.
pub struct FileReply {
    pub status: u16,
    pub body: ReplyBody,
}

/// Status when the file was served.
pub const FILE_OK_STATUS: u16 = 200;

/// Status when the file could not be served. Unlike the relay route, the
/// static-file layer does signal failure by status code.
pub const FILE_FAILURE_STATUS: u16 = 500;

/// Diagnostic body sent when a file could not be served.
pub open spec fn file_failure_text() -> Seq<char> {
    "静态文件服务出错"@
}

/// Turn the outcome of a file read into the reply for the caller: the raw
/// bytes with status 200, or the fixed diagnostic text with status 500.
pub fn file_reply(outcome: FileOutcome) -> (r: FileReply)
    ensures
        match outcome {
            FileOutcome::Loaded(data) => r.status == FILE_OK_STATUS && (r.body
                matches ReplyBody::Bytes(b) && b == data),
            FileOutcome::Failed => r.status == FILE_FAILURE_STATUS && (r.body
                matches ReplyBody::Text(t) && t@ == file_failure_text()),
        },
{
    match outcome {
        FileOutcome::Loaded(data) => FileReply { status: FILE_OK_STATUS, body: ReplyBody::Bytes(data) },
        FileOutcome::Failed => FileReply {
            status: FILE_FAILURE_STATUS,
            body: ReplyBody::Text("静态文件服务出错".to_owned()),
        },
    }
}

/// Cross-origin policy attached to every response the server sends. The
/// header value is present exactly on the deployment that serves static
/// files; GET is the only method the policy permits.
pub struct CorsPolicy {
    pub allow_origin: Option<String>,
    pub get_only: bool,
}

/// The cross-origin policy of each deployment: the bare relay sets no
/// allow-origin header; the static deployment allows any origin (`*`) on
/// GET requests.
pub fn cors_policy(kind: &ServerKind) -> (p: CorsPolicy)
    ensures
        p.allow_origin is Some <==> kind is RelayWithStatic,
        p.allow_origin matches Some(v) ==> v@ == "*"@,
        p.get_only,
{
    match kind {
        ServerKind::RelayOnly => CorsPolicy { allow_origin: None, get_only: true },
        ServerKind::RelayWithStatic => CorsPolicy {
            allow_origin: Some("*".to_owned()),
            get_only: true,
        },
    }
}

/// The one line written to standard output at startup by the bare relay.
pub open spec fn relay_only_banner() -> Seq<char> {
    "代理服务运行在 http://127.0.0.1:8080"@
}

/// The one line written to standard output at startup by the deployment
/// that also hosts static files.
pub open spec fn relay_with_static_banner() -> Seq<char> {
    "代理服务运行在 http://127.0.0.1:8080，静态文件托管在根目录"@
}

/// The startup line announcing the listening address (loopback, fixed port).
pub fn startup_banner(kind: &ServerKind) -> (r: String)
    ensures
        kind is RelayOnly ==> r@ == relay_only_banner(),
        kind is RelayWithStatic ==> r@ == relay_with_static_banner(),
{
    match kind {
        ServerKind::RelayOnly => "代理服务运行在 http://127.0.0.1:8080".to_owned(),
        ServerKind::RelayWithStatic => "代理服务运行在 http://127.0.0.1:8080，静态文件托管在根目录".to_owned(),
    }
}

} // verus!
