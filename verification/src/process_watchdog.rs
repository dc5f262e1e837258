//! The signal-based process supervisor, used when no init-system unit
//! governs the daemon: it finds the daemon in a process-table snapshot,
//! decides when a launch is needed, and drives a bounded, escalating stop.
//!
//! All outside work — scanning the process table, spawning the launcher,
//! sending signals, sleeping — happens in the unverified surroundings,
//! which hand the observations in as plain values: a snapshot is a vector
//! of [`ProcessRecord`], a liveness probe is a [`SignalOutcome`]. Every
//! decision over those values is made and verified here.

use crate::text::str_eq;
use vstd::prelude::*;

verus! {

/// Milliseconds added to "now" when a launch is issued: while this grace
/// deadline lies ahead, callers are told to keep waiting for the start.
pub const START_GRACE_MS: u64 = 15_000;

/// Milliseconds between two liveness probes while waiting for a graceful
/// termination.
pub const STOP_POLL_INTERVAL_MS: u64 = 50;

/// How many liveness probes each stop phase may use before escalating or
/// giving up: a whole graceful phase waits at most
/// `STOP_POLL_BUDGET * STOP_POLL_INTERVAL_MS` milliseconds.
pub const STOP_POLL_BUDGET: u16 = 150;

/// Lifecycle state of the supervised daemon, derived live from a
/// process-table snapshot and never cached across operations.
#[derive(Clone, Copy, Debug, PartialEq, Eq, Structural)]
pub enum SyncthingState {
    Running,
    Stopped,
    Failed,
}

impl SyncthingState {
    /// The wire spelling of this state.
    pub fn as_static_str(self) -> (r: &'static str)
        ensures
            self == SyncthingState::Running ==> r@ == "running"@,
            self == SyncthingState::Stopped ==> r@ == "stopped"@,
            self == SyncthingState::Failed ==> r@ == "failed"@,
    {
        match self {
            SyncthingState::Running => "running",
            SyncthingState::Stopped => "stopped",
            SyncthingState::Failed => "failed",
        }
    }
}

/// A classified supervisor failure.
#[derive(Debug)]
pub enum WatchdogError {
    /// The launcher binary could not be located; carries the lookup error
    /// text.
    Which(String),
    /// An I/O failure from spawning or signalling; carries the error text.
    Io(String),
    /// The daemon was launched but no matching process appeared in the
    /// table after the settle delay.
    ProcessDied,
}

/// One row of a process-table snapshot: the identifier, whether the
/// process counts as live, and its command line.
pub struct ProcessRecord {
    pub pid: u32,
    pub alive: bool,
    pub cmd: Vec<String>,
}

/// Which of the two watched programs a record is matched against.
#[derive(Clone, Copy, Debug, PartialEq, Eq, Structural)]
pub enum MatchKind {
    /// The supervised daemon: first command-line word is the daemon name.
    Syncthing,
    /// The companion session process: any command-line word names its
    /// session binary.
    Gamescope,
}

/// The daemon is recognized by its first command-line word, not by the
/// identifier the launcher returned, since the launcher may be an
/// intermediary.
pub open spec fn spec_is_syncthing(p: ProcessRecord) -> bool {
    p.cmd@.len() > 0 && p.cmd@[0]@ == "syncthing"@
}

/// The companion process is recognized by any command-line word naming its
/// session binary.
pub open spec fn spec_is_gamescope(p: ProcessRecord) -> bool {
    exists|i: int| 0 <= i < p.cmd@.len() && p.cmd@[i]@ == "/usr/bin/gamescope-session"@
}

pub open spec fn spec_matches(p: ProcessRecord, kind: MatchKind) -> bool {
    match kind {
        MatchKind::Syncthing => spec_is_syncthing(p),
        MatchKind::Gamescope => spec_is_gamescope(p),
    }
}

/// A record that both matches the wanted program and is live.
pub open spec fn spec_live_match(p: ProcessRecord, kind: MatchKind) -> bool {
    p.alive && spec_matches(p, kind)
}

/// Some process in the snapshot is a live match.
pub open spec fn spec_has_live_match(snap: Seq<ProcessRecord>, kind: MatchKind) -> bool {
    exists|i: int| 0 <= i < snap.len() && spec_live_match(snap[i], kind)
}

/// The process with the given identifier is present, live and a match.
pub open spec fn spec_pid_live_match(snap: Seq<ProcessRecord>, pid: u32, kind: MatchKind) -> bool {
    exists|i: int|
        0 <= i < snap.len() && snap[i].pid == pid && spec_live_match(snap[i], kind)
}

/// The index of the first live match in the snapshot, if any.
pub open spec fn spec_first_live_index(snap: Seq<ProcessRecord>, kind: MatchKind) -> Option<int>
    decreases snap.len(),
{
    if snap.len() == 0 {
        None
    } else if spec_live_match(snap[0], kind) {
        Some(0int)
    } else {
        match spec_first_live_index(snap.skip(1), kind) {
            None => None,
            Some(i) => Some(i + 1),
        }
    }
}

/// The first live match exists exactly when some live match exists, and it
/// is a live match itself.
pub proof fn lemma_first_live_index(snap: Seq<ProcessRecord>, kind: MatchKind)
    ensures
        spec_first_live_index(snap, kind) is Some <==> spec_has_live_match(snap, kind),
        spec_first_live_index(snap, kind) matches Some(i) ==> 0 <= i < snap.len()
            && spec_live_match(snap[i], kind),
    decreases snap.len(),
{
    if snap.len() > 0 && !spec_live_match(snap[0], kind) {
        lemma_first_live_index(snap.skip(1), kind);
        if spec_has_live_match(snap, kind) {
            let w = choose|i: int| 0 <= i < snap.len() && spec_live_match(snap[i], kind);
            assert(snap.skip(1)[w - 1] == snap[w]);
        }
        match spec_first_live_index(snap.skip(1), kind) {
            Some(i) => {
                assert(snap.skip(1)[i] == snap[i + 1]);
            },
            None => {},
        }
        if spec_has_live_match(snap.skip(1), kind) {
            let w = choose|i: int|
                0 <= i < snap.skip(1).len() && spec_live_match(snap.skip(1)[i], kind);
            assert(snap.skip(1)[w] == snap[w + 1]);
        }
    }
}

/// A process found under a specific identifier is in particular a live
/// match somewhere in the snapshot.
pub proof fn lemma_pid_match_implies_has(snap: Seq<ProcessRecord>, pid: u32, kind: MatchKind)
    requires
        spec_pid_live_match(snap, pid, kind),
    ensures
        spec_has_live_match(snap, kind),
{
    let i = choose|i: int|
        0 <= i < snap.len() && snap[i].pid == pid && spec_live_match(snap[i], kind);
    assert(0 <= i < snap.len() && spec_live_match(snap[i], kind));
}

/// Whether this record is the supervised daemon.
pub fn process_is_syncthing(p: &ProcessRecord) -> (r: bool)
    ensures
        r == spec_is_syncthing(*p),
{
    if p.cmd.len() > 0 {
        str_eq(p.cmd[0].as_str(), "syncthing")
    } else {
        false
    }
}

/// Whether this record is the companion session process.
pub fn process_is_gamescope(p: &ProcessRecord) -> (r: bool)
    ensures
        r == spec_is_gamescope(*p),
{
    let n = p.cmd.len();
    let mut k: usize = 0;
    while k < n
        invariant
            n == p.cmd@.len(),
            k <= n,
            forall|j: int| 0 <= j < k ==> p.cmd@[j]@ != "/usr/bin/gamescope-session"@,
        decreases n - k,
    {
        if str_eq(p.cmd[k].as_str(), "/usr/bin/gamescope-session") {
            return true;
        }
        k = k + 1;
    }
    false
}

/// Whether this record matches the wanted program.
pub fn process_matches(p: &ProcessRecord, kind: MatchKind) -> (r: bool)
    ensures
        r == spec_matches(*p, kind),
{
    match kind {
        MatchKind::Syncthing => process_is_syncthing(p),
        MatchKind::Gamescope => process_is_gamescope(p),
    }
}

/// Whether the process with the given identifier exists in the snapshot,
/// is live, and matches the wanted program. The identifier alone is never
/// trusted: a record must still match the command line.
pub fn does_process_exist_and_match_cond(
    snap: &Vec<ProcessRecord>,
    pid: u32,
    kind: MatchKind,
) -> (r: bool)
    ensures
        r == spec_pid_live_match(snap@, pid, kind),
{
    let n = snap.len();
    let mut k: usize = 0;
    while k < n
        invariant
            n == snap@.len(),
            k <= n,
            forall|j: int|
                0 <= j < k ==> !(snap@[j].pid == pid && spec_live_match(snap@[j], kind)),
        decreases n - k,
    {
        let p = &snap[k];
        if p.pid == pid && p.alive && process_matches(p, kind) {
            return true;
        }
        k = k + 1;
    }
    false
}

/// The index of the first live match in the snapshot, if any.
pub fn find_first_live(snap: &Vec<ProcessRecord>, kind: MatchKind) -> (r: Option<usize>)
    ensures
        r is Some <==> spec_first_live_index(snap@, kind) is Some,
        r matches Some(k) ==> spec_first_live_index(snap@, kind) == Some(k as int),
{
    let n = snap.len();
    let mut k: usize = 0;
    proof {
        assert(snap@.skip(0) =~= snap@);
    }
    while k < n
        invariant
            n == snap@.len(),
            k <= n,
            spec_first_live_index(snap@, kind) == match spec_first_live_index(
                snap@.skip(k as int),
                kind,
            ) {
                None => None::<int>,
                Some(i) => Some(i + k),
            },
        decreases n - k,
    {
        proof {
            assert(snap@.skip(k as int)[0] == snap@[k as int]);
        }
        let p = &snap[k];
        if p.alive && process_matches(p, kind) {
            return Some(k);
        }
        proof {
            assert(snap@.skip(k as int).skip(1) =~= snap@.skip(k as int + 1));
        }
        k = k + 1;
    }
    None
}

/// What a liveness or termination signal came back with, after the
/// surroundings decoded the raw platform result.
#[derive(Clone, Copy, Debug, PartialEq, Eq, Structural)]
pub enum SignalOutcome {
    /// The signal was delivered: the process exists.
    Delivered,
    /// The platform reported that no such process exists.
    NoSuchProcess,
    /// Any other platform error, by its error number.
    Error(i32),
}

/// Folds the result of a termination signal: "no such process" is a benign
/// race (the process already exited) and counts as success; any other
/// error is surfaced.
pub fn fold_termination_result(outcome: SignalOutcome) -> (r: Result<(), i32>)
    ensures
        outcome == SignalOutcome::Delivered ==> r is Ok,
        outcome == SignalOutcome::NoSuchProcess ==> r is Ok,
        outcome matches SignalOutcome::Error(e) ==> r == Result::<(), i32>::Err(e),
{
    match outcome {
        SignalOutcome::Delivered => Ok(()),
        SignalOutcome::NoSuchProcess => Ok(()),
        SignalOutcome::Error(e) => Err(e),
    }
}

/// Reads a zero-effect liveness probe: only a definite "no such process"
/// means the process is gone; anything else keeps the wait going.
pub fn probe_says_alive(outcome: SignalOutcome) -> (alive: bool)
    ensures
        alive == (outcome != SignalOutcome::NoSuchProcess),
{
    match outcome {
        SignalOutcome::NoSuchProcess => false,
        _ => true,
    }
}

/// Where a bounded stop stands: waiting for a graceful exit, waiting after
/// the forced signal, or finished.
#[derive(Clone, Copy, Debug, PartialEq, Eq, Structural)]
pub enum StopPhase {
    /// The graceful termination signal was sent; so many liveness probes
    /// are left before escalating.
    Graceful { polls_left: u16 },
    /// The forced termination signal was sent; so many liveness probes
    /// are left before giving up on observing the exit.
    Forced { polls_left: u16 },
    /// The stop is over; `forced` records whether escalation was needed.
    Done { forced: bool },
}

/// What the caller must do between two steps of a stop.
#[derive(Clone, Copy, Debug, PartialEq, Eq, Structural)]
pub enum StopAction {
    /// Sleep one poll interval, then probe liveness again.
    Wait,
    /// Probe liveness again at once, without sleeping.
    Probe,
    /// Send the forced termination signal, then probe again.
    Kill,
    /// Nothing left to do.
    Finish,
}

/// The phase a fresh stop starts in, right after the graceful termination
/// signal was sent.
pub open spec fn spec_stop_begin() -> StopPhase {
    StopPhase::Graceful { polls_left: STOP_POLL_BUDGET }
}

/// One step of the stop loop, driven by the latest liveness probe: a
/// process observed gone ends the stop; a graceful wait that exhausts its
/// probe budget escalates to the forced signal; a forced wait that
/// exhausts its budget gives up observing and ends the stop as forced.
pub open spec fn spec_stop_step(phase: StopPhase, alive: bool) -> (StopPhase, StopAction) {
    match phase {
        StopPhase::Graceful { polls_left } => {
            if !alive {
                (StopPhase::Done { forced: false }, StopAction::Finish)
            } else if polls_left > 0 {
                (StopPhase::Graceful { polls_left: (polls_left - 1) as u16 }, StopAction::Wait)
            } else {
                (StopPhase::Forced { polls_left: STOP_POLL_BUDGET }, StopAction::Kill)
            }
        },
        StopPhase::Forced { polls_left } => {
            if !alive {
                (StopPhase::Done { forced: true }, StopAction::Finish)
            } else if polls_left > 0 {
                (StopPhase::Forced { polls_left: (polls_left - 1) as u16 }, StopAction::Probe)
            } else {
                (StopPhase::Done { forced: true }, StopAction::Finish)
            }
        },
        StopPhase::Done { forced } => (StopPhase::Done { forced }, StopAction::Finish),
    }
}

/// Steps remaining before a stop must be over, whatever the probes say.
pub open spec fn spec_stop_measure(phase: StopPhase) -> nat {
    match phase {
        StopPhase::Graceful { polls_left } => (polls_left + STOP_POLL_BUDGET + 2) as nat,
        StopPhase::Forced { polls_left } => (polls_left + 1) as nat,
        StopPhase::Done { .. } => 0,
    }
}

/// How many sleeping waits a stop may still take: only graceful probes
/// sleep, so the wall-clock wait is bounded by this many poll intervals.
pub open spec fn spec_stop_wait_allowance(phase: StopPhase) -> nat {
    match phase {
        StopPhase::Graceful { polls_left } => polls_left as nat,
        _ => 0,
    }
}

/// The phase a fresh stop starts in.
pub fn stop_begin() -> (s: StopPhase)
    ensures
        s == spec_stop_begin(),
{
    StopPhase::Graceful { polls_left: STOP_POLL_BUDGET }
}

/// One step of the stop loop. Every step strictly shrinks the measure, so
/// the loop cannot run forever; a stop never finishes gracefully unless a
/// probe reported the process gone.
pub fn stop_step(phase: StopPhase, alive: bool) -> (r: (StopPhase, StopAction))
    ensures
        r == spec_stop_step(phase, alive),
        !(phase is Done) ==> spec_stop_measure(r.0) < spec_stop_measure(phase),
        r.0 == (StopPhase::Done { forced: false }) && !(phase is Done) ==> !alive,
{
    match phase {
        StopPhase::Graceful { polls_left } => {
            if !alive {
                (StopPhase::Done { forced: false }, StopAction::Finish)
            } else if polls_left > 0 {
                (StopPhase::Graceful { polls_left: polls_left - 1 }, StopAction::Wait)
            } else {
                (StopPhase::Forced { polls_left: STOP_POLL_BUDGET }, StopAction::Kill)
            }
        },
        StopPhase::Forced { polls_left } => {
            if !alive {
                (StopPhase::Done { forced: true }, StopAction::Finish)
            } else if polls_left > 0 {
                (StopPhase::Forced { polls_left: polls_left - 1 }, StopAction::Probe)
            } else {
                (StopPhase::Done { forced: true }, StopAction::Finish)
            }
        },
        StopPhase::Done { forced } => (StopPhase::Done { forced }, StopAction::Finish),
    }
}

/// Where a stop stands after feeding it a sequence of probe results.
pub open spec fn spec_run_stop(phase: StopPhase, probes: Seq<bool>) -> StopPhase
    decreases probes.len(),
{
    if phase is Done || probes.len() == 0 {
        phase
    } else {
        spec_run_stop(spec_stop_step(phase, probes[0]).0, probes.skip(1))
    }
}

/// How many sleeping waits a run of the stop loop takes.
pub open spec fn spec_run_wait_count(phase: StopPhase, probes: Seq<bool>) -> nat
    decreases probes.len(),
{
    if phase is Done || probes.len() == 0 {
        0
    } else {
        (if spec_stop_step(phase, probes[0]).1 == StopAction::Wait {
            1nat
        } else {
            0nat
        }) + spec_run_wait_count(spec_stop_step(phase, probes[0]).0, probes.skip(1))
    }
}

/// Termination bound: whatever the probes report — even a process that
/// ignores graceful termination and stays alive through every probe — the
/// stop loop is over within the phase's measure of steps.
pub proof fn lemma_stop_terminates(phase: StopPhase, probes: Seq<bool>)
    requires
        probes.len() >= spec_stop_measure(phase),
    ensures
        spec_run_stop(phase, probes) is Done,
    decreases probes.len(),
{
    if !(phase is Done) {
        lemma_stop_terminates(spec_stop_step(phase, probes[0]).0, probes.skip(1));
    }
}

/// Wall-clock bound: a run of the stop loop sleeps at most as many poll
/// intervals as the phase's wait allowance, so a whole stop that begins
/// gracefully sleeps at most `STOP_POLL_BUDGET * STOP_POLL_INTERVAL_MS`
/// milliseconds, whatever the probes report.
pub proof fn lemma_stop_wait_budget(phase: StopPhase, probes: Seq<bool>)
    ensures
        spec_run_wait_count(phase, probes) <= spec_stop_wait_allowance(phase),
    decreases probes.len(),
{
    if !(phase is Done) && probes.len() > 0 {
        lemma_stop_wait_budget(spec_stop_step(phase, probes[0]).0, probes.skip(1));
    }
}

/// The mutable supervisor state: the last known identifier of the daemon
/// and of the companion process (hints, revalidated against the snapshot
/// before being trusted), whether a start was requested and not yet
/// followed by a successful stop, and the start grace deadline.
pub struct ProcessWatchdog {
    pub syncthing_pid: Option<u32>,
    pub syncthing_should_be_running: bool,
    pub gamescope_pid: Option<u32>,
    pub wait_deadline_ms: Option<u64>,
}

/// What the daemon identifier hint becomes after a refresh against a
/// snapshot: kept while it still names a live match, replaced by the first
/// live match found in a rescan, otherwise left as it was.
pub open spec fn spec_refreshed_pid(
    old_pid: Option<u32>,
    snap: Seq<ProcessRecord>,
) -> Option<u32> {
    if old_pid matches Some(p) && spec_pid_live_match(snap, p, MatchKind::Syncthing) {
        old_pid
    } else {
        match spec_first_live_index(snap, MatchKind::Syncthing) {
            Some(i) => Some(snap[i].pid),
            None => old_pid,
        }
    }
}

/// The identifier hint names a live matching process in the snapshot.
pub open spec fn spec_found(w: ProcessWatchdog, snap: Seq<ProcessRecord>) -> bool {
    w.syncthing_pid matches Some(p) && spec_pid_live_match(snap, p, MatchKind::Syncthing)
}

/// Live state derivation: `Running` exactly when a live matching process
/// is at hand; otherwise `Failed` if a start was requested and not yet
/// stopped, else `Stopped`.
pub open spec fn spec_syncthing_state(
    w: ProcessWatchdog,
    snap: Seq<ProcessRecord>,
) -> SyncthingState {
    if spec_found(w, snap) {
        SyncthingState::Running
    } else if w.syncthing_should_be_running {
        SyncthingState::Failed
    } else {
        SyncthingState::Stopped
    }
}

impl ProcessWatchdog {
    /// A fresh supervisor: nothing known, nothing requested.
    pub fn new() -> (w: ProcessWatchdog)
        ensures
            w.syncthing_pid is None,
            !w.syncthing_should_be_running,
            w.gamescope_pid is None,
            w.wait_deadline_ms is None,
    {
        ProcessWatchdog {
            syncthing_pid: None,
            syncthing_should_be_running: false,
            gamescope_pid: None,
            wait_deadline_ms: None,
        }
    }

    /// Revalidates the daemon identifier hint against a snapshot: if it no
    /// longer names a live matching process, rediscover the daemon by
    /// command line anywhere in the table.
    pub fn refresh_state(&mut self, snap: &Vec<ProcessRecord>)
        ensures
            final(self).syncthing_pid == spec_refreshed_pid(old(self).syncthing_pid, snap@),
            final(self).syncthing_should_be_running == old(self).syncthing_should_be_running,
            final(self).gamescope_pid == old(self).gamescope_pid,
            final(self).wait_deadline_ms == old(self).wait_deadline_ms,
            spec_found(*final(self), snap@) == spec_has_live_match(snap@, MatchKind::Syncthing),
    {
        proof {
            lemma_first_live_index(snap@, MatchKind::Syncthing);
        }
        let keep = match self.syncthing_pid {
            Some(p) => does_process_exist_and_match_cond(snap, p, MatchKind::Syncthing),
            None => false,
        };
        if keep {
            proof {
                let p = self.syncthing_pid->Some_0;
                lemma_pid_match_implies_has(snap@, p, MatchKind::Syncthing);
            }
        } else {
            match find_first_live(snap, MatchKind::Syncthing) {
                Some(i) => {
                    self.syncthing_pid = Some(snap[i].pid);
                    proof {
                        assert(spec_live_match(snap@[i as int], MatchKind::Syncthing));
                        lemma_pid_match_implies_has(
                            snap@,
                            snap@[i as int].pid,
                            MatchKind::Syncthing,
                        );
                    }
                },
                None => {},
            }
        }
    }

    /// Derives the daemon's state from the current hint and a snapshot.
    pub fn syncthing_state(&self, snap: &Vec<ProcessRecord>) -> (s: SyncthingState)
        ensures
            s == spec_syncthing_state(*self, snap@),
    {
        let found = match self.syncthing_pid {
            Some(p) => does_process_exist_and_match_cond(snap, p, MatchKind::Syncthing),
            None => false,
        };
        if found {
            SyncthingState::Running
        } else if self.syncthing_should_be_running {
            SyncthingState::Failed
        } else {
            SyncthingState::Stopped
        }
    }

    /// Revalidates the hint, then derives the state. Reports `Running`
    /// whenever any process matching the daemon's command line is live in
    /// the snapshot, even when the stored identifier is dead or names a
    /// different program by now.
    pub fn syncthing_status(&mut self, snap: &Vec<ProcessRecord>) -> (s: SyncthingState)
        ensures
            final(self).syncthing_pid == spec_refreshed_pid(old(self).syncthing_pid, snap@),
            final(self).syncthing_should_be_running == old(self).syncthing_should_be_running,
            final(self).gamescope_pid == old(self).gamescope_pid,
            final(self).wait_deadline_ms == old(self).wait_deadline_ms,
            s == spec_syncthing_state(*final(self), snap@),
            spec_has_live_match(snap@, MatchKind::Syncthing) ==> s == SyncthingState::Running,
            !spec_has_live_match(snap@, MatchKind::Syncthing) && old(
                self,
            ).syncthing_should_be_running ==> s == SyncthingState::Failed,
            !spec_has_live_match(snap@, MatchKind::Syncthing) && !old(
                self,
            ).syncthing_should_be_running ==> s == SyncthingState::Stopped,
    {
        self.refresh_state(snap);
        self.syncthing_state(snap)
    }

    /// First half of a start request, up to the decision: revalidate
    /// against the snapshot, and if the daemon is already running, do
    /// nothing — a start on a running daemon is a no-op success and
    /// mutates neither the process nor the request flags. Otherwise arm
    /// the grace deadline and tell the caller to launch.
    pub fn syncthing_start_prepare(
        &mut self,
        snap: &Vec<ProcessRecord>,
        now_ms: u64,
    ) -> (launch: bool)
        requires
            now_ms + START_GRACE_MS <= u64::MAX,
        ensures
            launch == !spec_has_live_match(snap@, MatchKind::Syncthing),
            final(self).syncthing_pid == spec_refreshed_pid(old(self).syncthing_pid, snap@),
            final(self).syncthing_should_be_running == old(self).syncthing_should_be_running,
            final(self).gamescope_pid == old(self).gamescope_pid,
            !launch ==> final(self).wait_deadline_ms == old(self).wait_deadline_ms,
            !launch ==> spec_syncthing_state(*final(self), snap@) == SyncthingState::Running,
            launch ==> final(self).wait_deadline_ms == Some((now_ms + START_GRACE_MS) as u64),
    {
        self.refresh_state(snap);
        let s = self.syncthing_state(snap);
        if matches!(s, SyncthingState::Running) {
            false
        } else {
            self.wait_deadline_ms = Some(now_ms + START_GRACE_MS);
            true
        }
    }

    /// Second half of a start request, after the launcher was spawned and
    /// the settle delay has passed: rescan, record that the daemon ought
    /// to be running, and report a launch failure when no matching process
    /// appeared anywhere in the table.
    pub fn syncthing_start_commit(&mut self, snap: &Vec<ProcessRecord>) -> (r: Result<
        (),
        WatchdogError,
    >)
        ensures
            final(self).syncthing_pid == spec_refreshed_pid(old(self).syncthing_pid, snap@),
            final(self).syncthing_should_be_running,
            final(self).gamescope_pid == old(self).gamescope_pid,
            final(self).wait_deadline_ms == old(self).wait_deadline_ms,
            r is Ok <==> spec_has_live_match(snap@, MatchKind::Syncthing),
            r is Err ==> r matches Err(WatchdogError::ProcessDied),
    {
        self.refresh_state(snap);
        self.syncthing_should_be_running = true;
        let found = match self.syncthing_pid {
            Some(p) => does_process_exist_and_match_cond(snap, p, MatchKind::Syncthing),
            None => false,
        };
        if found {
            Ok(())
        } else {
            Err(WatchdogError::ProcessDied)
        }
    }

    /// Decides whether a stop has any work to do: revalidate, and if no
    /// live matching process exists, a stop is a no-op success that
    /// mutates nothing further. Otherwise hand back the identifier to
    /// signal.
    pub fn syncthing_stop_prepare(&mut self, snap: &Vec<ProcessRecord>) -> (target: Option<u32>)
        ensures
            final(self).syncthing_pid == spec_refreshed_pid(old(self).syncthing_pid, snap@),
            final(self).syncthing_should_be_running == old(self).syncthing_should_be_running,
            final(self).gamescope_pid == old(self).gamescope_pid,
            final(self).wait_deadline_ms == old(self).wait_deadline_ms,
            target is Some <==> spec_has_live_match(snap@, MatchKind::Syncthing),
            target matches Some(p) ==> final(self).syncthing_pid == Some(p),
    {
        self.refresh_state(snap);
        let found = match self.syncthing_pid {
            Some(p) => does_process_exist_and_match_cond(snap, p, MatchKind::Syncthing),
            None => false,
        };
        if found {
            self.syncthing_pid
        } else {
            None
        }
    }

    /// Last step of a stop: record that the daemon is no longer meant to
    /// run, and revalidate against a fresh snapshot.
    pub fn syncthing_stop_finish(&mut self, snap: &Vec<ProcessRecord>)
        ensures
            final(self).syncthing_pid == spec_refreshed_pid(old(self).syncthing_pid, snap@),
            !final(self).syncthing_should_be_running,
            final(self).gamescope_pid == old(self).gamescope_pid,
            final(self).wait_deadline_ms == old(self).wait_deadline_ms,
    {
        self.syncthing_should_be_running = false;
        self.refresh_state(snap);
    }

    /// Readiness probe: callers should keep waiting for a start while one
    /// was requested and its grace deadline still lies ahead.
    pub fn should_wait_for_start(&self, now_ms: u64) -> (r: bool)
        ensures
            r == (self.syncthing_should_be_running && match self.wait_deadline_ms {
                Some(d) => d > now_ms,
                None => false,
            }),
    {
        if !self.syncthing_should_be_running {
            return false;
        }
        match self.wait_deadline_ms {
            None => false,
            Some(d) => d > now_ms,
        }
    }

    /// Full rescan for the companion process: forget the hint and look
    /// for it anywhere in the snapshot.
    pub fn refresh_gamescope_state(&mut self, snap: &Vec<ProcessRecord>) -> (found: bool)
        ensures
            found == spec_has_live_match(snap@, MatchKind::Gamescope),
            final(self).gamescope_pid == match spec_first_live_index(snap@, MatchKind::Gamescope) {
                Some(i) => Some(snap@[i].pid),
                None => None::<u32>,
            },
            final(self).syncthing_pid == old(self).syncthing_pid,
            final(self).syncthing_should_be_running == old(self).syncthing_should_be_running,
            final(self).wait_deadline_ms == old(self).wait_deadline_ms,
    {
        proof {
            lemma_first_live_index(snap@, MatchKind::Gamescope);
        }
        self.gamescope_pid = None;
        match find_first_live(snap, MatchKind::Gamescope) {
            Some(i) => {
                self.gamescope_pid = Some(snap[i].pid);
                true
            },
            None => false,
        }
    }

    /// Whether the companion is present: the hint is checked first, and a
    /// stale or mismatched hint falls back to a full rescan.
    pub fn gamescope_process_is_running(&mut self, snap: &Vec<ProcessRecord>) -> (r: bool)
        ensures
            r == spec_has_live_match(snap@, MatchKind::Gamescope),
            final(self).syncthing_pid == old(self).syncthing_pid,
            final(self).syncthing_should_be_running == old(self).syncthing_should_be_running,
            final(self).wait_deadline_ms == old(self).wait_deadline_ms,
    {
        let hint_ok = match self.gamescope_pid {
            Some(p) => does_process_exist_and_match_cond(snap, p, MatchKind::Gamescope),
            None => false,
        };
        if hint_ok {
            proof {
                let p = self.gamescope_pid->Some_0;
                lemma_pid_match_implies_has(snap@, p, MatchKind::Gamescope);
            }
            true
        } else {
            self.refresh_gamescope_state(snap)
        }
    }
}

} // verus!
