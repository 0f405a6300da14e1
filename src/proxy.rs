//! Per-request decisions of the forward proxy.
//!
//! For each parsed request the caller runs its middleware hook, then hands
//! the hook's outcome, the request's method and what the HTTP layer parsed of
//! its target to [`route`]. The returned [`Route`] says what to do: send the
//! hook's response, grant a CONNECT tunnel and relay bytes, reject the
//! request, forward it upstream, or abort the connection.
use http::Error as HttpError;
use hyper::Error as HyperError;
use vstd::prelude::*;

verus! {

/// Declares `std::io::Error` so that [`Error`] can carry it; its values are
/// only passed along, and nothing is assumed of them.
#[verifier::external_type_specification]
#[verifier::external_body]
pub struct ExIoError(std::io::Error);

/// Declares `hyper::Error` so that [`Error`] can carry it; its values are
/// only passed along, and nothing is assumed of them.
#[verifier::external_type_specification]
#[verifier::external_body]
pub struct ExHyperError(HyperError);

/// Declares `http::Error` so that [`Error`] can carry it; its values are
/// only passed along, and nothing is assumed of them.
#[verifier::external_type_specification]
#[verifier::external_body]
pub struct ExHttpError(HttpError);

/// The method that asks for a tunnel.
pub const CONNECT_METHOD: &'static str = "CONNECT";

/// The body of the answer to a CONNECT request whose target is not a
/// `host:port` authority.
pub const CONNECT_REJECTION: &'static str = "CONNECT must be to a socket address";

/// The port of a forwarded request whose target names none.
pub const DEFAULT_PORT: u16 = 80;

/// Status of the answer that grants a tunnel.
pub const STATUS_OK: u16 = 200;

/// Status of the answer to a malformed CONNECT target.
pub const STATUS_BAD_REQUEST: u16 = 400;

/// Failures of the proxy engine. `E` is the middleware hook's error type.
#[derive(Debug)]
pub enum Error<E> {
    /// Binding the listening socket or accepting a connection failed.
    TcpListenerError(std::io::Error),
    /// Connecting to a tunnel's target or relaying its bytes failed.
    TunnelingError(std::io::Error),
    /// Taking over the client connection for a tunnel failed.
    UpgradeError(HyperError),
    /// Building a response failed.
    RequestBuilderError(HttpError),
    /// Serving the client connection failed.
    ConnectionError(HyperError),
    /// The handshake with the upstream server failed.
    HandshakeError(HyperError),
    /// Sending a forwarded request upstream failed.
    RequestError(HyperError),
    /// The middleware hook failed.
    UserCallbackError(E),
    /// A forwarded request's target names no host.
    MissingHost,
    /// Opening the upstream connection of a forwarded request failed.
    UpstreamConnectError(std::io::Error),
}

/// What the HTTP layer parsed of a request's target.
pub struct RequestTarget {
    /// The authority (`host` or `host:port`), if the target has one.
    pub authority: Option<String>,
    /// The host of the authority, if any.
    pub host: Option<String>,
    /// The port of the authority, if one is written there.
    pub port: Option<u16>,
}

/// A response that the proxy writes itself.
pub struct Reply {
    pub status: u16,
    pub body: String,
}

/// What to do with one request. `R` is the response type of the middleware
/// hook, `E` its error type.
pub enum Route<R, E> {
    /// The hook answered: send its response and dispatch nothing else.
    Intercepted(R),
    /// Send `grant` to the client, then connect to `authority` and relay
    /// bytes between the two connections.
    Tunnel { grant: Reply, authority: String },
    /// Send this answer and open no upstream connection.
    Rejected(Reply),
    /// Open a connection to `host` on `port`, send the request there and
    /// relay the single response back.
    Forward { host: String, port: u16 },
    /// Terminate the connection with this error.
    Abort(Error<E>),
}

/// `rep` has the given status and body.
pub open spec fn is_reply(rep: Reply, status: u16, body: Seq<char>) -> bool {
    rep.status == status && rep.body@ == body
}

/// `r` grants a tunnel to the authority `a` with status 200 and an empty
/// body.
pub open spec fn grants_tunnel<R, E>(r: Route<R, E>, a: Seq<char>) -> bool {
    match r {
        Route::Tunnel { grant, authority } => is_reply(grant, STATUS_OK, Seq::empty())
            && authority@ == a,
        _ => false,
    }
}

/// `r` rejects the request with status 400 and the fixed CONNECT text.
pub open spec fn rejects_connect<R, E>(r: Route<R, E>) -> bool {
    match r {
        Route::Rejected(rep) => is_reply(rep, STATUS_BAD_REQUEST, CONNECT_REJECTION@),
        _ => false,
    }
}

/// `r` forwards the request to host `h` on port `p`.
pub open spec fn forwards_to<R, E>(r: Route<R, E>, h: Seq<char>, p: u16) -> bool {
    match r {
        Route::Forward { host, port } => host@ == h && port == p,
        _ => false,
    }
}

/// The port a forwarded request goes to: the one written in its target, or
/// the default.
pub open spec fn forward_port(port: Option<u16>) -> u16 {
    match port {
        Some(p) => p,
        None => DEFAULT_PORT,
    }
}

/// The dispatch of a request that the hook passed on: by method, then by
/// what its target holds.
pub open spec fn dispatched<R, E>(method: Seq<char>, t: RequestTarget, r: Route<R, E>) -> bool {
    if method == CONNECT_METHOD@ {
        match (t.authority, t.port) {
            (Some(a), Some(_)) => grants_tunnel(r, a@),
            _ => rejects_connect(r),
        }
    } else {
        match t.host {
            Some(h) => forwards_to(r, h@, forward_port(t.port)),
            None => r == Route::<R, E>::Abort(Error::MissingHost),
        }
    }
}

/// Decides what to do with one request, given the middleware hook's
/// `outcome`: `Ok(Some(response))` to answer, `Ok(None)` to pass it on.
///
/// A hook error aborts the connection, and a hook response is sent as it is
/// without any dispatch. Otherwise a CONNECT request is granted a tunnel when
/// its target is a `host:port` authority and rejected with status 400
/// otherwise; any other method is forwarded to the target's host, on port 80
/// when the target names no port, and aborts the connection when there is no
/// host.
pub fn route<R, E>(method: &str, target: RequestTarget, outcome: Result<Option<R>, E>) -> (r:
    Route<R, E>)
    ensures
        match outcome {
            Err(e) => r == Route::<R, E>::Abort(Error::UserCallbackError(e)),
            Ok(Some(res)) => r == Route::<R, E>::Intercepted(res),
            Ok(None) => dispatched(method@, target, r),
        },
{
    match outcome {
        Err(e) => {
            return Route::Abort(Error::UserCallbackError(e));
        },
        Ok(Some(res)) => {
            return Route::Intercepted(res);
        },
        Ok(None) => {},
    }
    let connect = CONNECT_METHOD.to_owned();
    if method.to_owned() == connect {
        match (target.authority, target.port) {
            (Some(authority), Some(_)) => {
                Route::Tunnel { grant: Reply { status: STATUS_OK, body: String::new() }, authority }
            },
            _ => Route::Rejected(
                Reply { status: STATUS_BAD_REQUEST, body: CONNECT_REJECTION.to_owned() },
            ),
        }
    } else {
        match target.host {
            Some(host) => {
                let port = match target.port {
                    Some(p) => p,
                    None => DEFAULT_PORT,
                };
                Route::Forward { host, port }
            },
            None => Route::Abort(Error::MissingHost),
        }
    }
}

} // verus!
