use ttanggul::proxy::{
    route, Error, RequestTarget, Route, CONNECT_REJECTION, DEFAULT_PORT, STATUS_BAD_REQUEST,
    STATUS_OK,
};

fn target(authority: Option<&str>, host: Option<&str>, port: Option<u16>) -> RequestTarget {
    RequestTarget {
        authority: authority.map(|a| a.to_string()),
        host: host.map(|h| h.to_string()),
        port,
    }
}

#[test]
fn connect_to_socket_address_is_granted() {
    let t = target(Some("example.com:443"), Some("example.com"), Some(443));
    match route::<&str, String>("CONNECT", t, Ok(None)) {
        Route::Tunnel { grant, authority } => {
            assert_eq!(grant.status, 200);
            assert_eq!(grant.status, STATUS_OK);
            assert!(grant.body.is_empty());
            assert_eq!(authority, "example.com:443");
        }
        _ => panic!("expected a tunnel"),
    }
}

#[test]
fn connect_to_relative_path_is_rejected() {
    let t = target(None, None, None);
    match route::<&str, String>("CONNECT", t, Ok(None)) {
        Route::Rejected(reply) => {
            assert_eq!(reply.status, 400);
            assert_eq!(reply.status, STATUS_BAD_REQUEST);
            assert_eq!(reply.body, "CONNECT must be to a socket address");
            assert_eq!(reply.body, CONNECT_REJECTION);
        }
        _ => panic!("expected a rejection"),
    }
}

#[test]
fn connect_without_port_is_rejected() {
    let t = target(Some("example.com"), Some("example.com"), None);
    match route::<&str, String>("CONNECT", t, Ok(None)) {
        Route::Rejected(reply) => {
            assert_eq!(reply.status, 400);
            assert_eq!(reply.body, "CONNECT must be to a socket address");
        }
        _ => panic!("expected a rejection"),
    }
}

#[test]
fn forward_without_port_uses_port_80() {
    let t = target(Some("example.com"), Some("example.com"), None);
    match route::<&str, String>("GET", t, Ok(None)) {
        Route::Forward { host, port } => {
            assert_eq!(host, "example.com");
            assert_eq!(port, 80);
            assert_eq!(port, DEFAULT_PORT);
        }
        _ => panic!("expected a forward"),
    }
}

#[test]
fn forward_keeps_explicit_port() {
    let t = target(Some("example.com:8080"), Some("example.com"), Some(8080));
    match route::<&str, String>("POST", t, Ok(None)) {
        Route::Forward { host, port } => {
            assert_eq!(host, "example.com");
            assert_eq!(port, 8080);
        }
        _ => panic!("expected a forward"),
    }
}

#[test]
fn forward_without_host_aborts() {
    let t = target(None, None, None);
    match route::<&str, String>("GET", t, Ok(None)) {
        Route::Abort(Error::MissingHost) => {}
        _ => panic!("expected a missing-host abort"),
    }
}

#[test]
fn method_match_is_exact() {
    let t = target(Some("example.com:443"), Some("example.com"), Some(443));
    match route::<&str, String>("connect", t, Ok(None)) {
        Route::Forward { host, port } => {
            assert_eq!(host, "example.com");
            assert_eq!(port, 443);
        }
        _ => panic!("expected a forward"),
    }
}

#[test]
fn hook_response_bypasses_dispatch() {
    let t = target(Some("example.com:443"), Some("example.com"), Some(443));
    match route::<&str, String>("CONNECT", t, Ok(Some("blocked"))) {
        Route::Intercepted(res) => assert_eq!(res, "blocked"),
        _ => panic!("expected the hook's response"),
    }
    let t = target(None, None, None);
    match route::<&str, String>("GET", t, Ok(Some("cached"))) {
        Route::Intercepted(res) => assert_eq!(res, "cached"),
        _ => panic!("expected the hook's response"),
    }
}

#[test]
fn hook_error_aborts_connection() {
    let t = target(Some("example.com:443"), Some("example.com"), Some(443));
    match route::<&str, String>("CONNECT", t, Err("denied".to_string())) {
        Route::Abort(Error::UserCallbackError(e)) => assert_eq!(e, "denied"),
        _ => panic!("expected the hook's error"),
    }
}
