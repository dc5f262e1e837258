//! The companion-process watcher: observes whether the companion session
//! process is present in the process table and decides, per policy, when
//! its appearance starts the daemon and its disappearance stops it. The
//! periodic loop, its sleeps and the process-table scans live in the
//! unverified surroundings; every decision is made here.

use crate::process_watchdog::{
    does_process_exist_and_match_cond, find_first_live, lemma_first_live_index,
    lemma_pid_match_implies_has, spec_first_live_index, spec_has_live_match, spec_pid_live_match,
    MatchKind, ProcessRecord,
};
use crate::settings::Autostart;
use vstd::prelude::*;

verus! {

/// What one round of the watch loop should do to the daemon.
#[derive(Clone, Copy, Debug, PartialEq, Eq, Structural)]
pub enum WatchAction {
    Nothing,
    /// The companion appeared under the companion-linked policy.
    Start,
    /// The companion disappeared and no override keeps the daemon alive.
    Stop,
}

/// The watch decision: when the companion was absent and is now present,
/// start the daemon — but only under the companion-linked autostart
/// policy; when the companion was present and is now gone, stop the
/// daemon — unless the override flag keeps it running on the desktop.
pub open spec fn spec_watch_step(
    companion_was_running: bool,
    companion_now_running: bool,
    autostart: Autostart,
    keep_running: bool,
) -> WatchAction {
    if !companion_was_running {
        if companion_now_running && autostart == Autostart::Gamescope {
            WatchAction::Start
        } else {
            WatchAction::Nothing
        }
    } else {
        if !companion_now_running && !keep_running {
            WatchAction::Stop
        } else {
            WatchAction::Nothing
        }
    }
}

/// Decides one round of the companion watch loop.
pub fn watch_step(
    companion_was_running: bool,
    companion_now_running: bool,
    autostart: Autostart,
    keep_running: bool,
) -> (a: WatchAction)
    ensures
        a == spec_watch_step(companion_was_running, companion_now_running, autostart, keep_running),
{
    if !companion_was_running {
        if companion_now_running && matches!(autostart, Autostart::Gamescope) {
            WatchAction::Start
        } else {
            WatchAction::Nothing
        }
    } else {
        if !companion_now_running && !keep_running {
            WatchAction::Stop
        } else {
            WatchAction::Nothing
        }
    }
}

/// What a companion identifier hint becomes after a full rescan: the
/// first live companion match, or nothing.
pub open spec fn spec_rescanned_companion_pid(snap: Seq<ProcessRecord>) -> Option<u32> {
    match spec_first_live_index(snap, MatchKind::Gamescope) {
        Some(i) => Some(snap[i].pid),
        None => None,
    }
}

/// The watcher's own state: the last seen identifier of the companion
/// process, a hint revalidated against the process table before being
/// trusted.
pub struct GamescopeWatchdog {
    pub gamescope_pid: Option<u32>,
}

impl GamescopeWatchdog {
    /// A fresh watcher that has not seen the companion yet.
    pub fn new() -> (w: GamescopeWatchdog)
        ensures
            w.gamescope_pid is None,
    {
        GamescopeWatchdog { gamescope_pid: None }
    }

    /// Full rescan: forget the hint and look for the companion anywhere
    /// in the snapshot.
    pub fn refresh_gamescope_state(&mut self, snap: &Vec<ProcessRecord>) -> (found: bool)
        ensures
            found == spec_has_live_match(snap@, MatchKind::Gamescope),
            final(self).gamescope_pid == spec_rescanned_companion_pid(snap@),
    {
        proof {
            lemma_first_live_index(snap@, MatchKind::Gamescope);
        }
        self.gamescope_pid = None;
        match find_first_live(snap, MatchKind::Gamescope) {
            Some(i) => {
                self.gamescope_pid = Some(snap[i].pid);
                true
            },
            None => false,
        }
    }

    /// Whether the companion is present: the hint is checked first, and a
    /// stale or mismatched hint falls back to a full rescan.
    pub fn gamescope_process_is_running(&mut self, snap: &Vec<ProcessRecord>) -> (r: bool)
        ensures
            r == spec_has_live_match(snap@, MatchKind::Gamescope),
            old(self).gamescope_pid matches Some(p) && spec_pid_live_match(
                snap@,
                p,
                MatchKind::Gamescope,
            ) ==> final(self).gamescope_pid == old(self).gamescope_pid,
            !(old(self).gamescope_pid matches Some(p) && spec_pid_live_match(
                snap@,
                p,
                MatchKind::Gamescope,
            )) ==> final(self).gamescope_pid == spec_rescanned_companion_pid(snap@),
    {
        let hint_ok = match self.gamescope_pid {
            Some(p) => does_process_exist_and_match_cond(snap, p, MatchKind::Gamescope),
            None => false,
        };
        if hint_ok {
            proof {
                let p = self.gamescope_pid->Some_0;
                lemma_pid_match_implies_has(snap@, p, MatchKind::Gamescope);
            }
            true
        } else {
            self.refresh_gamescope_state(snap)
        }
    }
}

} // verus!
