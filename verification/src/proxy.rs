//! The decision core of the reverse-proxy gateway: how an inbound request
//! is rewritten to the resolved backend endpoint, when a basic-auth
//! credential is injected, and how a forwarding failure is presented —
//! "too early, retry shortly" inside the grace window after a start,
//! "bad gateway" outside it. The actual forwarding, header surgery and
//! socket work happen in the unverified surroundings.

use crate::service::StartClock;
use crate::settings::{BackendEndpoint, Settings};
use crate::text::str_concat;
use vstd::prelude::*;
use vstd::string::StringExecFns;

verus! {

/// HTTP status for a forwarding failure inside the grace window.
pub const STATUS_TOO_EARLY: u16 = 425;

/// HTTP status for a forwarding failure outside the grace window.
pub const STATUS_BAD_GATEWAY: u16 = 502;

/// What the standard-alphabet base64 encoding of a string's bytes is. The
/// encoding depends on the input characters alone.
pub uninterp spec fn base64_of(s: Seq<char>) -> Seq<char>;

/// Relies on the base64 crate's `engine::general_purpose::STANDARD`
/// engine: `Engine::encode` over the input's bytes is a pure function of
/// the input, and cannot overflow its size computation for inputs far
/// below the address-space limit.
#[verifier::external_body]
fn base64_standard(s: &str) -> (r: String)
    requires
        s@.len() <= usize::MAX as nat / 16,
    ensures
        r@ == base64_of(s@),
{
    base64::Engine::encode(&base64::engine::general_purpose::STANDARD, s.as_bytes())
}

/// The basic-auth header value for a credential pair: the user and
/// password joined by a colon, base64-encoded, behind the `Basic` marker.
pub fn basic_auth_header(user: &str, pass: &str) -> (h: String)
    requires
        user@.len() + pass@.len() + 1 <= usize::MAX as nat / 16,
    ensures
        h@ == "Basic "@ + base64_of(user@ + ":"@ + pass@),
{
    proof {
        reveal_strlit(":");
    }
    let mut cred = str_concat(user, ":");
    cred.append(pass);
    let encoded = base64_standard(cred.as_str());
    let mut h = String::from_str("Basic ");
    h.append(encoded.as_str());
    h
}

/// What the gateway reads off an inbound request: its path and query
/// (preserved verbatim by the rewrite) and whether it already carries an
/// authorization header.
pub struct ProxyRequest {
    pub path_and_query: String,
    pub has_authorization: bool,
}

/// How the inbound request is forwarded: the resolved scheme, the
/// loopback port from the configuration, the preserved path and query,
/// and the authorization value to inject, if any.
pub struct ProxyPlan {
    pub scheme: crate::settings::Scheme,
    pub port: u32,
    pub path_and_query: String,
    pub auth_header: Option<String>,
}

/// Plans the forwarding of one inbound request: rewrite the target to
/// loopback on the configured port with the resolved scheme, keep path
/// and query, and inject the configured basic-auth credential exactly
/// when one is configured and the request carries no authorization of its
/// own.
pub fn plan_proxy(settings: &Settings, endpoint: BackendEndpoint, req: &ProxyRequest) -> (p:
    ProxyPlan)
    requires
        settings.basic_auth_user@.len() + settings.basic_auth_pass@.len() + 1 <= usize::MAX
            as nat / 16,
    ensures
        p.scheme == endpoint.scheme,
        p.port == settings.port,
        p.path_and_query@ == req.path_and_query@,
        (p.auth_header is Some) == (settings.basic_auth_user@.len() > 0
            && !req.has_authorization),
        p.auth_header matches Some(h) ==> h@ == "Basic "@ + base64_of(
            settings.basic_auth_user@ + ":"@ + settings.basic_auth_pass@,
        ),
{
    let auth_header = if settings.basic_auth_user.as_str().unicode_len() > 0
        && !req.has_authorization {
        Some(
            basic_auth_header(
                settings.basic_auth_user.as_str(),
                settings.basic_auth_pass.as_str(),
            ),
        )
    } else {
        None
    };
    ProxyPlan {
        scheme: endpoint.scheme,
        port: settings.port,
        path_and_query: String::from_str(req.path_and_query.as_str()),
        auth_header,
    }
}

/// How a forwarding failure is presented to the caller.
#[derive(Clone, Copy, Debug, PartialEq, Eq, Structural)]
pub enum GatewayFailure {
    /// The daemon was started moments ago and is most likely still
    /// coming up: retry shortly.
    TooEarly,
    /// The daemon is not merely starting: it is unreachable.
    Unavailable,
}

impl GatewayFailure {
    /// The HTTP status this failure answers with.
    pub fn status_code(self) -> (c: u16)
        ensures
            self == GatewayFailure::TooEarly ==> c == STATUS_TOO_EARLY,
            self == GatewayFailure::Unavailable ==> c == STATUS_BAD_GATEWAY,
    {
        match self {
            GatewayFailure::TooEarly => STATUS_TOO_EARLY,
            GatewayFailure::Unavailable => STATUS_BAD_GATEWAY,
        }
    }
}

/// Classifies a forwarding failure against the time elapsed since the
/// most recent successful start: inside the grace window the failure is
/// "too early", outside it the backend is reported unavailable.
pub fn classify_proxy_failure(elapsed_ms: u64) -> (f: GatewayFailure)
    ensures
        f == GatewayFailure::TooEarly <==> elapsed_ms < crate::GRACE_WINDOW_MS,
        f == GatewayFailure::Unavailable <==> elapsed_ms >= crate::GRACE_WINDOW_MS,
{
    if elapsed_ms < crate::GRACE_WINDOW_MS {
        GatewayFailure::TooEarly
    } else {
        GatewayFailure::Unavailable
    }
}

/// The whole failure path of one proxied request: read the last-start
/// clock at the current instant and classify. Before the first start the
/// clock reports a long-expired window, so the failure is "unavailable".
pub fn proxy_failure_response(clock: &StartClock, now_ms: u64) -> (f: GatewayFailure)
    ensures
        clock.last_start_ms is None ==> f == GatewayFailure::Unavailable,
        clock.last_start_ms matches Some(t) ==> (f == GatewayFailure::TooEarly <==> (now_ms < t
            || now_ms - t < crate::GRACE_WINDOW_MS)),
{
    let elapsed = clock.last_start_ago(now_ms);
    classify_proxy_failure(elapsed)
}

} // verus!
