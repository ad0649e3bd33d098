//! Bootstrap decisions: from the control-plane response to the connect target.

use socket_relay::bootstrap::{connect_target, evaluate_descriptor, BootstrapError};
use socket_relay::messages::{parse_open_connections, OpenConnectionsResponse};
use socket_relay::session::SessionState;

#[test]
fn successful_bootstrap_reaches_active() {
    let resp = parse_open_connections("{\"ok\":true,\"url\":\"wss://x/y\"}").unwrap();
    assert_eq!(resp.ok, true);
    assert_eq!(resp.url.as_deref(), Some("wss://x/y"));
    assert_eq!(resp.error, None);
    let url = evaluate_descriptor(&resp).unwrap();
    assert_eq!(url, "wss://x/y");
    let target = connect_target(&url).unwrap();
    assert_eq!(target.host, "x");
    assert_eq!(target.address, "x:443");
    let state = SessionState::initial().activate();
    assert_eq!(state, SessionState::Active);
}

#[test]
fn failed_bootstrap_surfaces_the_error_and_never_connects() {
    let resp = parse_open_connections("{\"ok\":false,\"error\":\"invalid_auth\"}").unwrap();
    assert_eq!(resp.ok, false);
    let err = evaluate_descriptor(&resp).unwrap_err();
    assert_eq!(
        err,
        BootstrapError::NotOk {
            message: "invalid_auth".to_owned()
        }
    );
}

#[test]
fn failed_bootstrap_without_error_uses_the_fallback() {
    let resp = parse_open_connections("{\"ok\":false}").unwrap();
    let err = evaluate_descriptor(&resp).unwrap_err();
    assert_eq!(
        err,
        BootstrapError::NotOk {
            message: "Unknown error".to_owned()
        }
    );
}

#[test]
fn ok_without_url_is_a_protocol_violation() {
    let resp = parse_open_connections("{\"ok\":true}").unwrap();
    let err = evaluate_descriptor(&resp).unwrap_err();
    assert_eq!(err, BootstrapError::MissingUrl);
}

#[test]
fn response_bodies_that_are_no_response_are_refused() {
    for raw in [
        "not json",
        "{}",
        "{\"ok\":\"yes\"}",
        "{\"ok\":true,\"url\":5}",
        "{\"ok\":false,\"error\":[]}",
        "[true]",
    ] {
        assert_eq!(parse_open_connections(raw), None, "body {raw:?}");
    }
}

#[test]
fn null_members_read_as_absent() {
    let resp = parse_open_connections("{\"ok\":true,\"url\":null,\"error\":null}").unwrap();
    assert_eq!(
        resp,
        OpenConnectionsResponse {
            ok: true,
            url: None,
            error: None
        }
    );
}

#[test]
fn unknown_members_are_ignored() {
    let resp =
        parse_open_connections("{\"ok\":true,\"url\":\"wss://h/p\",\"extra\":{\"a\":1}}").unwrap();
    assert_eq!(resp.url.as_deref(), Some("wss://h/p"));
}

#[test]
fn connect_target_uses_port_443_and_the_domain_alone() {
    let target = connect_target("wss://gateway.example.com/link/abc?ticket=1").unwrap();
    assert_eq!(target.host, "gateway.example.com");
    assert_eq!(target.address, "gateway.example.com:443");
    assert_eq!(connect_target("not a url"), None);
    // An IP-address host is not a domain name.
    assert_eq!(connect_target("wss://127.0.0.1/x"), None);
}
