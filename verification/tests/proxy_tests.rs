use syncthing_watchdog::proxy::{
    basic_auth_header, classify_proxy_failure, plan_proxy, proxy_failure_response, GatewayFailure,
    ProxyRequest,
};
use syncthing_watchdog::service::StartClock;
use syncthing_watchdog::settings::{
    Autostart, BackendEndpoint, IsSetup, Mode, Scheme, Settings,
};

fn settings_with_auth(user: &str, pass: &str) -> Settings {
    Settings {
        config_version: 2,
        mode: Mode::Flatpak,
        service_name: String::new(),
        flatpak_name: "com.github.syncthing".to_string(),
        flatpak_binary: "syncthing".to_string(),
        autostart: Autostart::No,
        keep_running_on_desktop: false,
        port: 8384,
        api_key: String::new(),
        basic_auth_user: user.to_string(),
        basic_auth_pass: pass.to_string(),
        is_setup: IsSetup::Bool(true),
    }
}

#[test]
fn basic_auth_header_encodes_credentials() {
    // Known base64 of "user:pass": would fail if the encoder handed its
    // input back unchanged.
    assert_eq!(basic_auth_header("user", "pass"), "Basic dXNlcjpwYXNz");
    assert_eq!(basic_auth_header("", ""), "Basic Og==");
}

#[test]
fn plan_rewrites_to_resolved_endpoint() {
    let s = settings_with_auth("", "");
    let e = BackendEndpoint { scheme: Scheme::Https, port: 8384 };
    let req = ProxyRequest {
        path_and_query: "/rest/system/status?x=1".to_string(),
        has_authorization: false,
    };
    let p = plan_proxy(&s, e, &req);
    assert_eq!(p.scheme, Scheme::Https);
    assert_eq!(p.port, 8384);
    assert_eq!(p.path_and_query, "/rest/system/status?x=1");
    assert_eq!(p.auth_header, None);
}

#[test]
fn plan_injects_credentials_when_configured() {
    let s = settings_with_auth("user", "pass");
    let e = BackendEndpoint { scheme: Scheme::Http, port: 8080 };
    let req = ProxyRequest {
        path_and_query: "/".to_string(),
        has_authorization: false,
    };
    let p = plan_proxy(&s, e, &req);
    assert_eq!(p.auth_header.as_deref(), Some("Basic dXNlcjpwYXNz"));
}

#[test]
fn plan_keeps_existing_authorization() {
    let s = settings_with_auth("user", "pass");
    let e = BackendEndpoint { scheme: Scheme::Http, port: 8080 };
    let req = ProxyRequest {
        path_and_query: "/".to_string(),
        has_authorization: true,
    };
    let p = plan_proxy(&s, e, &req);
    assert_eq!(p.auth_header, None);
}

#[test]
fn failure_inside_grace_window_is_too_early() {
    // A start completed at T; a forwarding failure at T+5s with the 30s
    // threshold answers "too early", the same failure at T+40s answers
    // "bad gateway".
    let mut clock = StartClock::new();
    clock.record_start(100_000);
    let f = proxy_failure_response(&clock, 105_000);
    assert_eq!(f, GatewayFailure::TooEarly);
    assert_eq!(f.status_code(), 425);

    let f = proxy_failure_response(&clock, 140_000);
    assert_eq!(f, GatewayFailure::Unavailable);
    assert_eq!(f.status_code(), 502);
}

#[test]
fn failure_before_first_start_is_unavailable() {
    let clock = StartClock::new();
    let f = proxy_failure_response(&clock, 5_000);
    assert_eq!(f, GatewayFailure::Unavailable);
}

#[test]
fn grace_window_boundary() {
    assert_eq!(classify_proxy_failure(29_999), GatewayFailure::TooEarly);
    assert_eq!(classify_proxy_failure(30_000), GatewayFailure::Unavailable);
    assert_eq!(classify_proxy_failure(0), GatewayFailure::TooEarly);
}
