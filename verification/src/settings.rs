//! The configuration snapshot that drives every lifecycle and gateway
//! decision, and the checks applied when one is loaded.

use vstd::prelude::*;
use vstd::string::StrSliceExecFns;

verus! {

/// Which kind of service definition governs the supervised daemon.
#[derive(Clone, Copy, Debug, PartialEq, Eq, Structural)]
pub enum Mode {
    /// A pre-existing user-scope init-system unit, controlled but not owned.
    Systemd,
    /// A pre-existing system-wide init-system unit, controlled but not owned.
    SystemdSystem,
    /// A sandboxed-app launch owned by this controller, which generates and
    /// manages its own unit definition.
    Flatpak,
}

/// The autostart policy for the supervised daemon.
#[derive(Clone, Copy, Debug, PartialEq, Eq, Structural)]
pub enum Autostart {
    /// Never start automatically.
    No,
    /// Start at boot through the init system.
    Boot,
    /// Start and stop together with the companion session process.
    Gamescope,
}

/// Whether the user has completed initial setup. Anything but `Bool(true)`
/// counts as not set up.
#[derive(Debug, Clone)]
pub enum IsSetup {
    Bool(bool),
    Other(String),
}

/// The resolved configuration snapshot. Reloaded atomically on demand;
/// every operation re-reads it rather than caching values derived from it.
#[derive(Debug, Clone)]
pub struct Settings {
    pub config_version: u32,
    pub mode: Mode,
    /// Unit name used by the external (pre-existing) service modes.
    pub service_name: String,
    /// Sandboxed-app identifier used by the managed mode.
    pub flatpak_name: String,
    /// Binary launched inside the sandboxed app in managed mode.
    pub flatpak_binary: String,
    pub autostart: Autostart,
    /// Keep the daemon running when the companion session process goes away.
    pub keep_running_on_desktop: bool,
    /// Port the daemon's web interface is configured to listen on.
    pub port: u32,
    pub api_key: String,
    pub basic_auth_user: String,
    pub basic_auth_pass: String,
    pub is_setup: IsSetup,
}

impl Settings {
    /// The one configuration schema version this library understands.
    pub const SUPPORTED_VERSION: u32 = 2;

    /// True when the snapshot says initial setup was completed.
    pub open spec fn spec_is_setup(&self) -> bool {
        self.is_setup matches IsSetup::Bool(true)
    }

    /// Setup escape hatch: while the configuration is not marked complete,
    /// lifecycle operations are skipped as successful no-ops.
    pub fn is_not_setup(&self) -> (r: bool)
        ensures
            r == !self.spec_is_setup(),
    {
        !matches!(self.is_setup, IsSetup::Bool(true))
    }
}

/// A classified configuration or endpoint-resolution failure.
#[derive(Debug)]
pub enum SettingsError {
    /// Reading the settings file failed; carries the I/O error text.
    Io(String),
    /// The settings file was not valid JSON; carries the decoder's text.
    Json(String),
    /// Neither the secure nor the insecure scheme answered on the configured
    /// port: the backend is offline (distinct from "still starting").
    BackendOffline,
    /// Building or issuing a probe request failed; carries the error text.
    Http(String),
    /// The settings file has a different schema version than the supported
    /// one; carries the found version and the supported version.
    UnsupportedVersion(u32, u32),
}

/// Validates a freshly loaded configuration snapshot: accepted exactly when
/// its schema version is the supported one.
pub fn check_settings_version(settings: Settings) -> (r: Result<Settings, SettingsError>)
    ensures
        settings.config_version == Settings::SUPPORTED_VERSION <==> r is Ok,
        r matches Ok(s) ==> s == settings,
        r matches Err(e) ==> e matches SettingsError::UnsupportedVersion(found, want)
            && found == settings.config_version && want == Settings::SUPPORTED_VERSION,
{
    if settings.config_version != Settings::SUPPORTED_VERSION {
        Err(SettingsError::UnsupportedVersion(settings.config_version, Settings::SUPPORTED_VERSION))
    } else {
        Ok(settings)
    }
}

/// The protocol scheme the daemon's web interface answers on.
#[derive(Clone, Copy, Debug, PartialEq, Eq, Structural)]
pub enum Scheme {
    Http,
    Https,
}

/// The resolved backend endpoint: the scheme and the loopback port the
/// daemon's web interface actually answers on.
#[derive(Clone, Copy, Debug, PartialEq, Eq, Structural)]
pub struct BackendEndpoint {
    pub scheme: Scheme,
    pub port: u32,
}

/// Which scheme the endpoint probes settle on: the secure scheme is
/// preferred, the insecure one is the fallback, and with neither
/// answering the backend is offline.
pub open spec fn spec_resolve(port: u32, https_ok: bool, http_ok: bool) -> Option<
    BackendEndpoint,
> {
    if https_ok {
        Some(BackendEndpoint { scheme: Scheme::Https, port })
    } else if http_ok {
        Some(BackendEndpoint { scheme: Scheme::Http, port })
    } else {
        None
    }
}

/// The configuration snapshot together with the endpoint cache that is
/// invalidated exactly when the snapshot is replaced. The surrounding
/// process keeps one of these behind a multi-reader lock; the probes that
/// feed [`SettingsProvider::backend_uri`] are HTTP requests made outside.
pub struct SettingsProvider {
    pub current_settings: Settings,
    pub backend_uri_cache: Option<BackendEndpoint>,
}

impl SettingsProvider {
    /// A fresh provider: the given snapshot, nothing resolved yet.
    pub fn new(settings: Settings) -> (p: SettingsProvider)
        ensures
            p.current_settings == settings,
            p.backend_uri_cache is None,
    {
        SettingsProvider { current_settings: settings, backend_uri_cache: None }
    }

    /// The current snapshot.
    pub fn settings(&self) -> (s: &Settings)
        ensures
            s == &self.current_settings,
    {
        &self.current_settings
    }

    /// Atomically replaces the snapshot and invalidates the endpoint
    /// cache: the port may have changed, so the next forwarded request
    /// must re-probe rather than reuse a stale endpoint.
    pub fn reload(&mut self, new_settings: Settings)
        ensures
            final(self).current_settings == new_settings,
            final(self).backend_uri_cache is None,
    {
        self.current_settings = new_settings;
        self.backend_uri_cache = None;
    }

    /// The cached endpoint, if one was resolved since the last reload.
    pub fn cached_endpoint(&self) -> (r: Option<BackendEndpoint>)
        ensures
            r == self.backend_uri_cache,
    {
        self.backend_uri_cache
    }

    /// Settles the endpoint from the two probe results — secure scheme
    /// preferred, insecure fallback, neither means the backend is offline
    /// (a distinct error, never cached) — and caches a success.
    pub fn backend_uri(&mut self, https_ok: bool, http_ok: bool) -> (r: Result<
        BackendEndpoint,
        SettingsError,
    >)
        ensures
            final(self).current_settings == old(self).current_settings,
            match spec_resolve(old(self).current_settings.port, https_ok, http_ok) {
                Some(e) => r == Ok::<BackendEndpoint, SettingsError>(e)
                    && final(self).backend_uri_cache == Some(e),
                None => r matches Err(SettingsError::BackendOffline)
                    && final(self).backend_uri_cache == old(self).backend_uri_cache,
            },
    {
        let port = self.current_settings.port;
        if https_ok {
            let e = BackendEndpoint { scheme: Scheme::Https, port };
            self.backend_uri_cache = Some(e);
            Ok(e)
        } else if http_ok {
            let e = BackendEndpoint { scheme: Scheme::Http, port };
            self.backend_uri_cache = Some(e);
            Ok(e)
        } else {
            Err(SettingsError::BackendOffline)
        }
    }
}

/// A character standing for a decimal digit.
pub open spec fn spec_is_digit(c: char) -> bool {
    48 <= c as int <= 57
}

/// The value of a decimal digit character.
pub open spec fn spec_digit_val(c: char) -> nat {
    (c as int - 48) as nat
}

/// Every character of the sequence is a decimal digit.
pub open spec fn spec_all_digits(s: Seq<char>) -> bool {
    forall|i: int| 0 <= i < s.len() ==> spec_is_digit(s[i])
}

/// The number a sequence of decimal digits denotes.
pub open spec fn spec_dec_value(s: Seq<char>) -> nat
    decreases s.len(),
{
    if s.len() == 0 {
        0
    } else {
        spec_dec_value(s.drop_last()) * 10 + spec_digit_val(s.last())
    }
}

/// The digits of a numeral, with an optional leading plus sign stripped.
pub open spec fn spec_digits_part(s: Seq<char>) -> Seq<char> {
    if s.len() > 0 && s[0] == '+' {
        s.skip(1)
    } else {
        s
    }
}

/// A numeral this parser accepts: an optional plus sign, then at least
/// one digit, denoting a value that fits the target type.
pub open spec fn spec_parseable_u32(s: Seq<char>) -> bool {
    let d = spec_digits_part(s);
    d.len() > 0 && spec_all_digits(d) && spec_dec_value(d) <= u32::MAX
}

/// A longer run of digits never denotes a smaller number.
proof fn lemma_dec_value_monotonic(s: Seq<char>, i: int)
    requires
        0 <= i <= s.len(),
    ensures
        spec_dec_value(s.subrange(0, i)) <= spec_dec_value(s),
    decreases s.len() - i,
{
    if i < s.len() {
        assert(s.subrange(0, i + 1).drop_last() =~= s.subrange(0, i));
        assert(spec_dec_value(s.subrange(0, i + 1)) == spec_dec_value(s.subrange(0, i)) * 10
            + spec_digit_val(s.subrange(0, i + 1).last()));
        lemma_dec_value_monotonic(s, i + 1);
    } else {
        assert(s.subrange(0, i) =~= s);
    }
}

/// Reads an unsigned number from decimal text, as the configuration
/// decoder does for fields that arrive as strings: `Some` exactly on a
/// well-formed numeral whose value fits, and then that value.
pub fn try_u32_from_str(s: &str) -> (r: Option<u32>)
    ensures
        r is Some <==> spec_parseable_u32(s@),
        r matches Some(v) ==> v == spec_dec_value(spec_digits_part(s@)),
{
    let n = s.unicode_len();
    let start: usize = if n > 0 && s.get_char(0) == '+' {
        1
    } else {
        0
    };
    let ghost d = spec_digits_part(s@);
    proof {
        assert(d =~= s@.skip(start as int));
    }
    if start >= n {
        return None;
    }
    let mut acc: u32 = 0;
    let mut i: usize = start;
    while i < n
        invariant
            start <= i <= n,
            n == s@.len(),
            start == 0 || start == 1,
            d == s@.skip(start as int),
            d == spec_digits_part(s@),
            d.len() == n - start,
            forall|j: int| 0 <= j < i - start ==> spec_is_digit(d[j]),
            acc == spec_dec_value(d.subrange(0, i - start)),
        decreases n - i,
    {
        let c = s.get_char(i);
        let cv = c as u32;
        if cv < 48 || cv > 57 {
            proof {
                assert(!spec_is_digit(d[i - start]));
            }
            return None;
        }
        let digit = cv - 48;
        if acc > (u32::MAX - digit) / 10 {
            proof {
                let k = (i - start) as int;
                let prefix = d.subrange(0, k + 1);
                assert(prefix.drop_last() =~= d.subrange(0, k));
                assert(prefix.last() == d[k]);
                let q = (u32::MAX - digit) as int / 10;
                vstd::arithmetic::div_mod::lemma_fundamental_div_mod(
                    (u32::MAX - digit) as int,
                    10,
                );
                vstd::arithmetic::mul::lemma_mul_inequality(q + 1, acc as int, 10);
                assert(spec_dec_value(prefix) > u32::MAX);
                lemma_dec_value_monotonic(d, k + 1);
            }
            return None;
        }
        proof {
            let k = (i - start) as int;
            let prefix = d.subrange(0, k + 1);
            assert(prefix.drop_last() =~= d.subrange(0, k));
            assert(prefix.last() == d[k]);
            let q = (u32::MAX - digit) as int / 10;
            vstd::arithmetic::div_mod::lemma_fundamental_div_mod((u32::MAX - digit) as int, 10);
            vstd::arithmetic::mul::lemma_mul_inequality(acc as int, q, 10);
        }
        acc = acc * 10 + digit;
        i = i + 1;
    }
    proof {
        assert(d.subrange(0, d.len() as int) =~= d);
    }
    Some(acc)
}

} // verus!
