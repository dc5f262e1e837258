use syncthing_watchdog::service::{
    init_plan, service_path, should_skip_control, ServiceError, ServiceType, StartClock,
};
use syncthing_watchdog::settings::{Autostart, IsSetup, Mode, Settings};
use syncthing_watchdog::watch_gamescope::{watch_step, WatchAction};

fn settings(mode: Mode, autostart: Autostart) -> Settings {
    Settings {
        config_version: 2,
        mode,
        service_name: "foo".to_string(),
        flatpak_name: "com.github.syncthing".to_string(),
        flatpak_binary: "syncthing".to_string(),
        autostart,
        keep_running_on_desktop: false,
        port: 8384,
        api_key: String::new(),
        basic_auth_user: String::new(),
        basic_auth_pass: String::new(),
        is_setup: IsSetup::Bool(true),
    }
}

#[test]
fn service_type_selection() {
    let s = settings(Mode::Systemd, Autostart::No);
    let t = ServiceType::get_for(&s);
    assert_eq!(t.systemd_unit(), ("foo", true));

    let s = settings(Mode::SystemdSystem, Autostart::No);
    let t = ServiceType::get_for(&s);
    assert_eq!(t.systemd_unit(), ("foo", false));

    let s = settings(Mode::Flatpak, Autostart::No);
    let t = ServiceType::get_for(&s);
    assert_eq!(t.systemd_unit(), ("decky-syncthing", true));
}

#[test]
fn service_path_under_service_directory() {
    let p = service_path(Some("/home/u/.config/systemd/user"), "decky-syncthing").unwrap();
    assert_eq!(p, "/home/u/.config/systemd/user/decky-syncthing.service");
}

#[test]
fn service_path_without_home_directory() {
    match service_path(None, "decky-syncthing") {
        Err(ServiceError::HomeDirNotFound) => {}
        _ => panic!("expected the home-directory error"),
    }
}

#[test]
fn init_creates_managed_unit_and_enables_on_boot() {
    // Self-managed mode with no prior unit file: init writes the unit,
    // reloads, and with autostart at boot enables it.
    let s = settings(Mode::Flatpak, Autostart::Boot);
    let plan = init_plan(&s, false).unwrap();
    assert!(plan.create_managed);
    assert!(!plan.remove_managed);
    assert!(plan.enable);
    assert!(plan.enable_failure_fatal);
    assert_eq!(plan.unit, "decky-syncthing");
    assert!(plan.user_scope);

    // A second init with identical configuration decides the same
    // actions: rewriting the same unit file and re-enabling the unit is
    // a no-op in effect.
    let again = init_plan(&s, true).unwrap();
    assert!(again.create_managed);
    assert!(again.enable);
    assert_eq!(again.unit, "decky-syncthing");
}

#[test]
fn init_for_external_mode_cleans_up_managed_unit() {
    let s = settings(Mode::Systemd, Autostart::Gamescope);
    let plan = init_plan(&s, true).unwrap();
    assert!(!plan.create_managed);
    assert!(plan.remove_managed);
    assert!(!plan.enable);
    assert!(!plan.enable_failure_fatal);
    assert_eq!(plan.unit, "foo");
    assert!(plan.user_scope);

    let s = settings(Mode::SystemdSystem, Autostart::Boot);
    let plan = init_plan(&s, false).unwrap();
    assert!(!plan.remove_managed);
    assert!(plan.enable);
    assert!(!plan.user_scope);
}

#[test]
fn init_skips_while_setup_is_incomplete() {
    let mut s = settings(Mode::Flatpak, Autostart::Boot);
    s.is_setup = IsSetup::Bool(false);
    assert!(init_plan(&s, false).is_none());
    assert!(should_skip_control(&s));
    s.is_setup = IsSetup::Bool(true);
    assert!(!should_skip_control(&s));
}

#[test]
fn start_clock_elapsed_readings() {
    let mut c = StartClock::new();
    assert_eq!(c.last_start_ago(5_000), 999_000);
    c.record_start(10_000);
    assert_eq!(c.last_start_ago(15_000), 5_000);
    assert_eq!(c.last_start_ago(50_000), 40_000);
    assert_eq!(c.last_start_ago(9_000), 0);
}

#[test]
fn companion_watch_decisions() {
    // Companion appears under the companion-linked policy: start.
    assert_eq!(
        watch_step(false, true, Autostart::Gamescope, false),
        WatchAction::Start
    );
    // Companion appears under other policies: nothing.
    assert_eq!(watch_step(false, true, Autostart::Boot, false), WatchAction::Nothing);
    assert_eq!(watch_step(false, true, Autostart::No, false), WatchAction::Nothing);
    // Companion disappears: stop, unless the override keeps it running.
    assert_eq!(
        watch_step(true, false, Autostart::Gamescope, false),
        WatchAction::Stop
    );
    assert_eq!(
        watch_step(true, false, Autostart::Gamescope, true),
        WatchAction::Nothing
    );
    // Steady states change nothing.
    assert_eq!(
        watch_step(true, true, Autostart::Gamescope, false),
        WatchAction::Nothing
    );
    assert_eq!(
        watch_step(false, false, Autostart::Gamescope, false),
        WatchAction::Nothing
    );
}
