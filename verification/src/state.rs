//! Shared control-plane state and its transitions.
//!
//! The state couples the cached engine status with the (at most one) tracked
//! process handle. Each exposed command is driven by the embedding
//! application as: perform an outside effect (spawn, HTTP call, kill), then
//! hand the plain outcome to a transition function here, which decides the
//! next state and the result. Every transition's effect on the state is
//! pinned exactly by a spec function, so the lifecycle laws can be proved
//! once over the spec functions and hold of the executable code.

use vstd::prelude::*;

verus! {

/// Last-known operational metrics of the engine. The metric fields carry the
/// IEEE-754 bit patterns of the engine's reported single-precision values;
/// the control plane never computes on them, it only caches and returns
/// them, so they are held as opaque 32-bit patterns.
#[derive(Clone, Copy, PartialEq, Eq, Structural, Debug)]
pub struct EngineStatus {
    pub running: bool,
    pub fps_bits: u32,
    pub cpu_usage_bits: u32,
    pub memory_usage_bits: u32,
}

/// Opaque handle to the running engine process, identified by its OS process
/// id. Created on successful spawn, destroyed on successful termination.
#[derive(Clone, Copy, PartialEq, Eq, Structural, Debug)]
pub struct ProcessHandle {
    pub pid: u32,
}

/// The error taxonomy of the exposed commands.
#[derive(Debug, PartialEq, Eq)]
pub enum EngineError {
    /// The engine process could not be created; carries the OS error detail.
    SpawnError(String),
    /// The process existed but could not be killed; carries the OS error detail.
    TerminationError(String),
    /// Stop was requested while no process was tracked.
    NotRunningError,
    /// The engine was reachable but rejected a settings push; carries the
    /// HTTP status code.
    RemoteRejected(u16),
    /// The engine was unreachable for a settings push.
    ConnectionError,
}

/// The process-wide container: one cached status, at most one tracked
/// process handle, and the time of the last successful synchronization with
/// the engine, so that the staleness of the cache is inspectable rather than
/// hidden. The timestamp is whatever clock reading the embedding application
/// passes in; the control plane only records it.
#[derive(Clone, Copy, PartialEq, Eq, Structural, Debug)]
pub struct ControlState {
    pub handle: Option<ProcessHandle>,
    pub status: EngineStatus,
    /// Clock reading at the last fetch whose body parsed, or `None` while
    /// the cache still holds its initial value.
    pub last_sync: Option<u64>,
}

/// Outcome of an attempt to spawn the engine process.
pub enum SpawnOutcome {
    /// The process was created; its handle.
    Spawned(ProcessHandle),
    /// The OS refused to create the process; the OS error detail.
    Failed(String),
}

/// Outcome of an attempt to kill the engine process.
pub enum KillOutcome {
    /// The process was terminated.
    Killed,
    /// The process could not be killed; the OS error detail.
    KillFailed(String),
}

/// Outcome of an outbound HTTP request, as the control plane reads it.
#[derive(Clone, Copy, PartialEq, Eq, Structural, Debug)]
pub enum HttpOutcome {
    /// The engine answered with a success status.
    Success,
    /// The engine answered with a non-success status; the status code.
    NonSuccess(u16),
    /// The request could not be delivered at all.
    Unreachable,
}

/// Outcome of an attempt to fetch the engine's status record.
#[derive(Clone, Copy, PartialEq, Eq, Structural, Debug)]
pub enum FetchOutcome {
    /// The engine answered and the body parsed as a status record.
    Parsed(EngineStatus),
    /// The engine answered with a success status but the body did not parse.
    Malformed,
    /// The engine answered with a non-success status.
    HttpFailure,
    /// The engine was unreachable.
    Unreachable,
}

/// The state before any engine was ever started: nothing tracked, not
/// running, all metrics zero.
pub open spec fn initial_state() -> ControlState {
    ControlState {
        handle: None,
        status: EngineStatus { running: false, fps_bits: 0, cpu_usage_bits: 0, memory_usage_bits: 0 },
        last_sync: None,
    }
}

/// What recording a spawn outcome does to the state: a successful spawn
/// tracks the new handle and marks the status running, leaving the metrics
/// untouched; a failed spawn changes nothing.
pub open spec fn spec_apply_spawn(s: ControlState, outcome: SpawnOutcome) -> ControlState {
    match outcome {
        SpawnOutcome::Spawned(h) => ControlState {
            handle: Some(h),
            status: EngineStatus {
                running: true,
                fps_bits: s.status.fps_bits,
                cpu_usage_bits: s.status.cpu_usage_bits,
                memory_usage_bits: s.status.memory_usage_bits,
            },
            last_sync: s.last_sync,
        },
        SpawnOutcome::Failed(_) => s,
    }
}

/// What beginning a stop does: if a handle is tracked it is taken out of the
/// state (ownership passes to the caller for termination) and the status is
/// untouched; if none is tracked the state is unchanged and the stop fails.
pub open spec fn spec_begin_stop(s: ControlState) -> (ControlState, Result<ProcessHandle, EngineError>) {
    match s.handle {
        Some(h) => (ControlState { handle: None, status: s.status, last_sync: s.last_sync }, Ok(h)),
        None => (s, Err(EngineError::NotRunningError)),
    }
}

/// What finishing a stop does to the state: a confirmed kill marks the
/// cached status not running (metrics untouched, nothing tracked); a failed
/// kill puts the taken handle back, so the state never claims that no
/// process is tracked while one may still be alive.
pub open spec fn spec_finish_stop(s: ControlState, h: ProcessHandle, killed: bool) -> ControlState {
    if killed {
        ControlState {
            handle: s.handle,
            status: EngineStatus {
                running: false,
                fps_bits: s.status.fps_bits,
                cpu_usage_bits: s.status.cpu_usage_bits,
                memory_usage_bits: s.status.memory_usage_bits,
            },
            last_sync: s.last_sync,
        }
    } else {
        ControlState { handle: Some(h), status: s.status, last_sync: s.last_sync }
    }
}

/// What reconciling a fetch outcome does: a parsed status record overwrites
/// the cache, is returned, and the clock reading is recorded as the last
/// successful synchronization; any failure leaves the state untouched and
/// returns the cached record. The second component is what the caller gets:
/// a status query never fails outward.
pub open spec fn spec_reconcile(s: ControlState, outcome: FetchOutcome, now: u64) -> (
    ControlState,
    EngineStatus,
) {
    match outcome {
        FetchOutcome::Parsed(fresh) => (
            ControlState { handle: s.handle, status: fresh, last_sync: Some(now) },
            fresh,
        ),
        _ => (s, s.status),
    }
}

impl ControlState {
    /// The state a fresh control plane starts in.
    pub fn new() -> (s: ControlState)
        ensures
            s == initial_state(),
    {
        ControlState {
            handle: None,
            status: EngineStatus { running: false, fps_bits: 0, cpu_usage_bits: 0, memory_usage_bits: 0 },
            last_sync: None,
        }
    }

    /// Record the outcome of a spawn attempt. On success the new handle is
    /// tracked and the cached status marked running; on failure nothing is
    /// mutated and the OS detail is surfaced as a `SpawnError`.
    pub fn apply_spawn(&mut self, outcome: SpawnOutcome) -> (r: Result<(), EngineError>)
        ensures
            *final(self) == spec_apply_spawn(*old(self), outcome),
            match outcome {
                SpawnOutcome::Spawned(_) => r is Ok,
                SpawnOutcome::Failed(d) => (r matches Err(e)
                    && (e matches EngineError::SpawnError(d2) && d2 == d)),
            },
    {
        match outcome {
            SpawnOutcome::Spawned(h) => {
                self.handle = Some(h);
                self.status.running = true;
                Ok(())
            },
            SpawnOutcome::Failed(d) => Err(EngineError::SpawnError(d)),
        }
    }

    /// Take the tracked handle, if any, to terminate it. With no tracked
    /// process this fails with `NotRunningError` and mutates nothing.
    pub fn begin_stop(&mut self) -> (r: Result<ProcessHandle, EngineError>)
        ensures
            (*final(self), r) == spec_begin_stop(*old(self)),
    {
        match self.handle {
            Some(h) => {
                self.handle = None;
                Ok(h)
            },
            None => Err(EngineError::NotRunningError),
        }
    }

    /// Record the outcome of killing the handle taken by `begin_stop`. A
    /// confirmed kill marks the cached status not running and reports
    /// success; a failed kill restores the handle and surfaces the OS detail
    /// as a `TerminationError`.
    pub fn finish_stop(&mut self, handle: ProcessHandle, kill: KillOutcome) -> (r: Result<
        String,
        EngineError,
    >)
        requires
            old(self).handle is None,
        ensures
            *final(self) == spec_finish_stop(
                *old(self),
                handle,
                kill is Killed,
            ),
            match kill {
                KillOutcome::Killed => (r matches Ok(m) && m@ == stop_success_text()),
                KillOutcome::KillFailed(d) => (r matches Err(e)
                    && (e matches EngineError::TerminationError(d2) && d2 == d)),
            },
    {
        match kill {
            KillOutcome::Killed => {
                self.status.running = false;
                Ok(String::from_str("Engine stopped successfully"))
            },
            KillOutcome::KillFailed(d) => {
                self.handle = Some(handle);
                Err(EngineError::TerminationError(d))
            },
        }
    }

    /// Merge the outcome of a status fetch into the cache and return what
    /// the caller sees; `now` is the caller's clock reading. A parsed record
    /// overwrites the cache, is returned, and `now` is recorded as the last
    /// successful synchronization; on any failure the cache is left
    /// untouched and its value is returned. This function cannot fail: a
    /// status query always degrades to the last cached snapshot.
    pub fn reconcile_status(&mut self, outcome: FetchOutcome, now: u64) -> (r: EngineStatus)
        ensures
            (*final(self), r) == spec_reconcile(*old(self), outcome, now),
    {
        match outcome {
            FetchOutcome::Parsed(fresh) => {
                self.status = fresh;
                self.last_sync = Some(now);
                fresh
            },
            _ => self.status,
        }
    }
}

/// The human-readable report of a successful stop.
pub open spec fn stop_success_text() -> Seq<char> {
    "Engine stopped successfully"@
}

/// The cache left behind by a whole history of status fetches, each an
/// outcome paired with the clock reading at which it arrived, applied oldest
/// first to an initial state.
pub open spec fn cached_after(init: ControlState, history: Seq<(FetchOutcome, u64)>) -> ControlState
    decreases history.len(),
{
    if history.len() == 0 {
        init
    } else {
        spec_reconcile(cached_after(init, history.drop_last()), history.last().0, history.last().1).0
    }
}

/// The most recent fetch in a history whose body actually parsed: its status
/// record and its clock reading, if any fetch parsed at all.
pub open spec fn last_parsed(history: Seq<(FetchOutcome, u64)>) -> Option<(EngineStatus, u64)>
    decreases history.len(),
{
    if history.len() == 0 {
        None
    } else {
        match history.last().0 {
            FetchOutcome::Parsed(fresh) => Some((fresh, history.last().1)),
            _ => last_parsed(history.drop_last()),
        }
    }
}

/// A start that spawned successfully tracks exactly the new handle and
/// marks the cached status running; the cached metrics are untouched.
pub proof fn lemma_successful_start_tracks_one(s: ControlState, h: ProcessHandle)
    ensures
        spec_apply_spawn(s, SpawnOutcome::Spawned(h)).handle == Some(h),
        spec_apply_spawn(s, SpawnOutcome::Spawned(h)).status.running,
        spec_apply_spawn(s, SpawnOutcome::Spawned(h)).status.fps_bits == s.status.fps_bits,
        spec_apply_spawn(s, SpawnOutcome::Spawned(h)).status.cpu_usage_bits
            == s.status.cpu_usage_bits,
        spec_apply_spawn(s, SpawnOutcome::Spawned(h)).status.memory_usage_bits
            == s.status.memory_usage_bits,
{
}

/// A start whose spawn failed mutates nothing: the state after recording
/// the failure is the state before it.
pub proof fn lemma_failed_start_mutates_nothing(s: ControlState, detail: String)
    ensures
        spec_apply_spawn(s, SpawnOutcome::Failed(detail)) == s,
{
}

/// A stop that goes through — the handle is taken and the kill confirmed —
/// leaves no handle tracked and the cached status not running, and a stop
/// begun from that state fails with `NotRunningError`.
pub proof fn lemma_successful_stop_untracks(s: ControlState)
    requires
        s.handle is Some,
    ensures
        ({
            let (taken, r) = spec_begin_stop(s);
            let done = spec_finish_stop(taken, r->Ok_0, true);
            &&& r == Ok::<ProcessHandle, EngineError>(s.handle->0)
            &&& done.handle is None
            &&& !done.status.running
            &&& spec_begin_stop(done) == (done, Err::<ProcessHandle, EngineError>(
                EngineError::NotRunningError,
            ))
        }),
{
}

/// A stop requested while no process is tracked always fails with
/// `NotRunningError` and never mutates the state.
pub proof fn lemma_stop_without_process(s: ControlState)
    requires
        s.handle is None,
    ensures
        spec_begin_stop(s) == (s, Err::<ProcessHandle, EngineError>(EngineError::NotRunningError)),
{
}

/// After any history of status fetches, the cache holds the most recent
/// successfully parsed record, or the initial cached value if none ever
/// parsed — never anything else — the recorded synchronization time is
/// that record's arrival time, and reconciling never touches the tracked
/// handle. Since a status query returns the cache it just left behind, what
/// a caller sees is always the most recent parsed snapshot or the previous
/// cached value.
pub proof fn lemma_status_reflects_history(init: ControlState, history: Seq<(FetchOutcome, u64)>)
    ensures
        cached_after(init, history).status == match last_parsed(history) {
            Some(parsed) => parsed.0,
            None => init.status,
        },
        cached_after(init, history).last_sync == match last_parsed(history) {
            Some(parsed) => Some(parsed.1),
            None => init.last_sync,
        },
        cached_after(init, history).handle == init.handle,
    decreases history.len(),
{
    if history.len() > 0 {
        lemma_status_reflects_history(init, history.drop_last());
    }
}

} // verus!
