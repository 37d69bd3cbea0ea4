use http_relay::server::{
    cors_policy, file_reply, plan_get, startup_banner, FileOutcome, Plan, ReplyBody, ServerKind,
    FILE_FAILURE_STATUS, FILE_OK_STATUS, LISTEN_PORT, REJECT_MISSING_PARAM, REJECT_NO_ROUTE,
};

#[test]
fn proxy_route_with_url_plans_a_fetch() {
    let p = plan_get(
        &ServerKind::RelayOnly,
        &"/proxy".to_string(),
        Some("http://example.com/page".to_string()),
    );
    match p {
        Plan::Fetch(u) => assert_eq!(u, "http://example.com/page"),
        _ => panic!("expected a fetch plan"),
    }
}

#[test]
fn missing_url_parameter_is_rejected_before_any_fetch() {
    let p = plan_get(&ServerKind::RelayOnly, &"/proxy".to_string(), None);
    match p {
        Plan::Reject(s) => assert_eq!(s, 400),
        _ => panic!("expected a rejection"),
    }
    let p = plan_get(&ServerKind::RelayWithStatic, &"/proxy".to_string(), None);
    match p {
        Plan::Reject(s) => assert_eq!(s, 400),
        _ => panic!("expected a rejection"),
    }
}

#[test]
fn unbound_path_on_bare_relay_is_not_found() {
    let p = plan_get(&ServerKind::RelayOnly, &"/index.html".to_string(), None);
    match p {
        Plan::Reject(s) => assert_eq!(s, 404),
        _ => panic!("expected a rejection"),
    }
}

#[test]
fn unbound_path_with_static_hosting_serves_the_file() {
    let p = plan_get(&ServerKind::RelayWithStatic, &"/index.html".to_string(), None);
    match p {
        Plan::ServeFile(f) => assert_eq!(f, "/index.html"),
        _ => panic!("expected a file plan"),
    }
}

#[test]
fn loaded_file_is_served_verbatim_with_ok_status() {
    let bytes = b"<html>static</html>".to_vec();
    let r = file_reply(FileOutcome::Loaded(bytes.clone()));
    assert_eq!(r.status, 200);
    match r.body {
        ReplyBody::Bytes(b) => assert_eq!(b, bytes),
        ReplyBody::Text(_) => panic!("expected raw bytes"),
    }
}

#[test]
fn failed_file_read_gives_server_error_with_fixed_string() {
    let r = file_reply(FileOutcome::Failed);
    assert_eq!(r.status, 500);
    match r.body {
        ReplyBody::Text(t) => assert_eq!(t, "静态文件服务出错"),
        ReplyBody::Bytes(_) => panic!("expected diagnostic text"),
    }
}

#[test]
fn static_deployment_allows_any_origin_on_get() {
    let p = cors_policy(&ServerKind::RelayWithStatic);
    assert_eq!(p.allow_origin.as_deref(), Some("*"));
    assert!(p.get_only);
}

#[test]
fn bare_relay_sets_no_cross_origin_header() {
    let p = cors_policy(&ServerKind::RelayOnly);
    assert!(p.allow_origin.is_none());
}

#[test]
fn startup_banners_announce_the_listening_address() {
    assert_eq!(
        startup_banner(&ServerKind::RelayOnly),
        "代理服务运行在 http://127.0.0.1:8080"
    );
    assert_eq!(
        startup_banner(&ServerKind::RelayWithStatic),
        "代理服务运行在 http://127.0.0.1:8080，静态文件托管在根目录"
    );
}

#[test]
fn listening_port_is_fixed() {
    assert_eq!(LISTEN_PORT, 8080u16);
    assert_eq!(FILE_OK_STATUS, 200u16);
    assert_eq!(FILE_FAILURE_STATUS, 500u16);
    assert_eq!(REJECT_MISSING_PARAM, 400u16);
    assert_eq!(REJECT_NO_ROUTE, 404u16);
}
