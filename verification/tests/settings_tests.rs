use syncthing_watchdog::settings::{
    check_settings_version, try_u32_from_str, Autostart, IsSetup, Mode, Scheme, Settings,
    SettingsError, SettingsProvider,
};

fn sample_settings() -> Settings {
    Settings {
        config_version: 2,
        mode: Mode::Systemd,
        service_name: "syncthing".to_string(),
        flatpak_name: "com.github.syncthing".to_string(),
        flatpak_binary: "syncthing".to_string(),
        autostart: Autostart::Boot,
        keep_running_on_desktop: false,
        port: 8384,
        api_key: String::new(),
        basic_auth_user: String::new(),
        basic_auth_pass: String::new(),
        is_setup: IsSetup::Bool(true),
    }
}

#[test]
fn version_check_accepts_supported_version() {
    let s = sample_settings();
    assert!(check_settings_version(s).is_ok());
}

#[test]
fn version_check_rejects_other_versions() {
    let mut s = sample_settings();
    s.config_version = 1;
    match check_settings_version(s) {
        Err(SettingsError::UnsupportedVersion(found, want)) => {
            assert_eq!(found, 1);
            assert_eq!(want, 2);
        }
        _ => panic!("expected an unsupported-version error"),
    }
}

#[test]
fn is_not_setup_variants() {
    let mut s = sample_settings();
    assert!(!s.is_not_setup());
    s.is_setup = IsSetup::Bool(false);
    assert!(s.is_not_setup());
    s.is_setup = IsSetup::Other("maybe".to_string());
    assert!(s.is_not_setup());
}

#[test]
fn parse_u32_plain_number() {
    assert_eq!(try_u32_from_str("8384"), Some(8384));
}

#[test]
fn parse_u32_with_plus_sign() {
    assert_eq!(try_u32_from_str("+42"), Some(42));
}

#[test]
fn parse_u32_rejects_bad_text() {
    assert_eq!(try_u32_from_str(""), None);
    assert_eq!(try_u32_from_str("+"), None);
    assert_eq!(try_u32_from_str("12a"), None);
    assert_eq!(try_u32_from_str("-1"), None);
    assert_eq!(try_u32_from_str(" 7"), None);
}

#[test]
fn parse_u32_boundary_values() {
    assert_eq!(try_u32_from_str("4294967295"), Some(u32::MAX));
    assert_eq!(try_u32_from_str("4294967296"), None);
    assert_eq!(try_u32_from_str("99999999999999999999"), None);
    assert_eq!(try_u32_from_str("0"), Some(0));
    assert_eq!(try_u32_from_str("007"), Some(7));
}

#[test]
fn resolution_prefers_secure_scheme() {
    let mut p = SettingsProvider::new(sample_settings());
    let e = p.backend_uri(true, true).unwrap();
    assert_eq!(e.scheme, Scheme::Https);
    assert_eq!(e.port, 8384);
    assert_eq!(p.cached_endpoint(), Some(e));
}

#[test]
fn resolution_falls_back_to_insecure_scheme() {
    let mut p = SettingsProvider::new(sample_settings());
    let e = p.backend_uri(false, true).unwrap();
    assert_eq!(e.scheme, Scheme::Http);
    assert_eq!(e.port, 8384);
}

#[test]
fn resolution_reports_backend_offline() {
    let mut p = SettingsProvider::new(sample_settings());
    match p.backend_uri(false, false) {
        Err(SettingsError::BackendOffline) => {}
        _ => panic!("expected the backend-offline error"),
    }
    assert_eq!(p.cached_endpoint(), None);
}

#[test]
fn reload_invalidates_endpoint_cache() {
    let mut p = SettingsProvider::new(sample_settings());
    p.backend_uri(true, false).unwrap();
    assert!(p.cached_endpoint().is_some());

    let mut changed = sample_settings();
    changed.port = 8080;
    p.reload(changed);
    assert_eq!(p.cached_endpoint(), None);

    // The next resolution derives from fresh probes and the fresh port,
    // not from the stale cached value — even when the probes agree with
    // the old outcome.
    let e = p.backend_uri(true, false).unwrap();
    assert_eq!(e.scheme, Scheme::Https);
    assert_eq!(e.port, 8080);
}
