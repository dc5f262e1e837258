//! The service dispatcher: pure selection of which controller variant and
//! bus scope govern the daemon for the current configuration, the plan an
//! init/setup call must carry out, the unit-file path for the self-managed
//! mode, and the last-start clock the gateway's grace window reads.
//!
//! Bus calls, file writes and the wall clock live in the unverified
//! surroundings; they execute the plans and hand in plain values.

use crate::settings::{Autostart, Mode, Settings};
use crate::text::str_concat;
use vstd::prelude::*;
use vstd::string::StringExecFns;

verus! {

/// Elapsed time reported before the first start in a process lifetime:
/// far beyond any grace threshold, so the grace window counts as already
/// expired then.
pub const NOT_STARTED_ELAPSED_MS: u64 = 999_000;

/// A classified service-control failure.
#[derive(Debug)]
pub enum ServiceError {
    /// The per-user service directory could not be determined because no
    /// home directory is known.
    HomeDirNotFound,
    /// A file operation on the managed unit failed; carries the error
    /// text.
    Io(String),
    /// A bus connection or call failed; carries the error text.
    Bus(String),
    /// A unit job completed with a failure; carries the raw result text.
    Job(String),
}

/// Which kind of service definition governs operations: one this library
/// generates and owns, or a pre-existing external one.
pub enum ServiceType<'a> {
    Managed,
    External { name: &'a str, user_service: bool },
}

impl<'a> ServiceType<'a> {
    /// The fixed unit name of the self-managed service definition.
    pub const MANAGED_SERVICE_NAME: &'static str = "decky-syncthing";

    /// Selects the governing service kind for a configuration: the two
    /// external modes control the configured unit on their respective bus
    /// scope, the sandboxed-app mode controls the self-managed unit.
    pub fn get_for(settings: &'a Settings) -> (s: ServiceType<'a>)
        ensures
            settings.mode == Mode::Systemd ==> (s matches ServiceType::External {
                name,
                user_service,
            } && name@ == settings.service_name@ && user_service),
            settings.mode == Mode::SystemdSystem ==> (s matches ServiceType::External {
                name,
                user_service,
            } && name@ == settings.service_name@ && !user_service),
            settings.mode == Mode::Flatpak ==> s is Managed,
    {
        match settings.mode {
            Mode::Systemd => ServiceType::External {
                name: settings.service_name.as_str(),
                user_service: true,
            },
            Mode::SystemdSystem => ServiceType::External {
                name: settings.service_name.as_str(),
                user_service: false,
            },
            Mode::Flatpak => ServiceType::Managed,
        }
    }

    /// The unit name to operate on and whether it lives on the per-user
    /// bus scope. The managed unit is always per-user.
    pub fn systemd_unit(&'a self) -> (r: (&'a str, bool))
        ensures
            self is Managed ==> r.0@ == "decky-syncthing"@ && r.1,
            self matches ServiceType::External { name, user_service } ==> r.0@ == name@ && r.1
                == user_service,
    {
        match self {
            ServiceType::Managed => (Self::MANAGED_SERVICE_NAME, true),
            ServiceType::External { name, user_service } => (name, *user_service),
        }
    }
}

/// The path of the managed unit's definition file: the unit name with the
/// service suffix, under the given per-user service directory. Without a
/// known home directory there is no such path.
pub fn service_path(service_dir: Option<&str>, unit: &str) -> (r: Result<String, ServiceError>)
    ensures
        service_dir is None <==> r matches Err(ServiceError::HomeDirNotFound),
        service_dir matches Some(d) ==> r matches Ok(p) && p@ == d@ + "/"@ + unit@ + ".service"@,
{
    match service_dir {
        None => Err(ServiceError::HomeDirNotFound),
        Some(d) => {
            let mut p = str_concat(d, "/");
            p.append(unit);
            p.append(".service");
            Ok(p)
        },
    }
}

/// Everything an init/setup call must do, decided purely from the
/// configuration and from whether a self-managed unit file is on disk.
pub struct InitPlan {
    /// Write (or refresh) the managed unit file and reload the manager.
    pub create_managed: bool,
    /// A leftover self-managed unit exists while an external mode is
    /// selected: disable it, delete its file and reload — best effort,
    /// failures there are logged and non-fatal.
    pub remove_managed: bool,
    /// Enable the target unit (autostart at boot) rather than disable it.
    pub enable: bool,
    /// Whether a failure to enable or disable the target unit aborts the
    /// init: it does for the managed unit, while for an external unit it
    /// only costs autostart and is logged.
    pub enable_failure_fatal: bool,
    /// The unit the enable/disable applies to.
    pub unit: String,
    /// Whether that unit is operated on the per-user bus scope.
    pub user_scope: bool,
}

/// Decides what an init/setup call does. `None` is the setup escape
/// hatch: while the configuration is not marked complete, init is a
/// successful no-op. Otherwise the managed mode writes and reloads its
/// unit and applies autostart policy to it; the external modes first
/// clean up any leftover managed unit, then apply autostart policy to the
/// configured external unit on its scope.
pub fn init_plan(settings: &Settings, managed_unit_file_exists: bool) -> (p: Option<InitPlan>)
    ensures
        p is None <==> !settings.spec_is_setup(),
        p matches Some(plan) ==> {
            &&& plan.enable == (settings.autostart == Autostart::Boot)
            &&& plan.create_managed == (settings.mode == Mode::Flatpak)
            &&& plan.enable_failure_fatal == (settings.mode == Mode::Flatpak)
            &&& (settings.mode == Mode::Flatpak ==> !plan.remove_managed && plan.unit@
                == "decky-syncthing"@ && plan.user_scope)
            &&& (settings.mode != Mode::Flatpak ==> plan.remove_managed
                == managed_unit_file_exists && plan.unit@ == settings.service_name@
                && plan.user_scope == (settings.mode == Mode::Systemd))
        },
{
    if settings.is_not_setup() {
        return None;
    }
    match settings.mode {
        Mode::Flatpak => Some(
            InitPlan {
                create_managed: true,
                remove_managed: false,
                enable: matches!(settings.autostart, Autostart::Boot),
                enable_failure_fatal: true,
                unit: String::from_str(ServiceType::MANAGED_SERVICE_NAME),
                user_scope: true,
            },
        ),
        Mode::Systemd => Some(
            InitPlan {
                create_managed: false,
                remove_managed: managed_unit_file_exists,
                enable: matches!(settings.autostart, Autostart::Boot),
                enable_failure_fatal: false,
                unit: String::from_str(settings.service_name.as_str()),
                user_scope: true,
            },
        ),
        Mode::SystemdSystem => Some(
            InitPlan {
                create_managed: false,
                remove_managed: managed_unit_file_exists,
                enable: matches!(settings.autostart, Autostart::Boot),
                enable_failure_fatal: false,
                unit: String::from_str(settings.service_name.as_str()),
                user_scope: false,
            },
        ),
    }
}

/// Whether a start/stop/init call is skipped outright: the setup escape
/// hatch makes every lifecycle operation a successful no-op while the
/// configuration is not marked complete.
pub fn should_skip_control(settings: &Settings) -> (r: bool)
    ensures
        r == !settings.spec_is_setup(),
{
    settings.is_not_setup()
}

/// The timestamp of the most recent successful start request. Overwritten
/// on every successful start; never read before the first start, which
/// counts as a long-expired grace window.
pub struct StartClock {
    pub last_start_ms: Option<u64>,
}

impl StartClock {
    /// A clock that has not seen a start yet.
    pub fn new() -> (c: StartClock)
        ensures
            c.last_start_ms is None,
    {
        StartClock { last_start_ms: None }
    }

    /// Records a successful start at the given instant.
    pub fn record_start(&mut self, now_ms: u64)
        ensures
            final(self).last_start_ms == Some(now_ms),
    {
        self.last_start_ms = Some(now_ms);
    }

    /// Milliseconds since the most recent successful start: a fixed large
    /// value before the first start, zero if the clock reads earlier than
    /// the recorded start.
    pub fn last_start_ago(&self, now_ms: u64) -> (e: u64)
        ensures
            self.last_start_ms is None ==> e == NOT_STARTED_ELAPSED_MS,
            self.last_start_ms matches Some(t) ==> e == if now_ms >= t {
                (now_ms - t) as u64
            } else {
                0u64
            },
    {
        match self.last_start_ms {
            None => NOT_STARTED_ELAPSED_MS,
            Some(t) => {
                if now_ms >= t {
                    now_ms - t
                } else {
                    0
                }
            },
        }
    }
}

} // verus!
