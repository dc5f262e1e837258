//! Keeps a background file-sync daemon alive and reachable: a service
//! lifecycle controller that unifies init-system control and direct process
//! supervision across three deployment modes, and the decision core of a
//! readiness-aware reverse-proxy gateway in front of the daemon's web
//! interface.

pub mod process_watchdog;
pub mod proxy;
pub mod service;
pub mod settings;
pub mod systemctl;
pub mod text;
pub mod watch_gamescope;

use vstd::prelude::*;

verus! {

/// The fixed grace window after a successful start request, in milliseconds:
/// while it lasts, downstream unreachability is presented as "still starting".
pub const GRACE_WINDOW_MS: u64 = 30_000;

} // verus!
