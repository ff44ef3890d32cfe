//! The process supervisor: decides when the worker is spawned, probed and
//! terminated.
//!
//! The supervisor tracks at most one worker process at a time. The host owns
//! the operating-system handle; the supervisor owns the decisions. Each
//! operation is split at its effect: the host reports what it observed (the
//! outcome of a liveness probe, of a spawn, of a termination signal) and the
//! supervisor answers with the next action and the updated state.

use vstd::prelude::*;

verus! {

/// Outcome of the non-blocking liveness probe on a previously spawned
/// process.
#[derive(Clone, Copy, PartialEq, Eq, Structural, Debug)]
pub enum ProbeResult {
    /// The process has not exited yet.
    StillRunning,
    /// The process has exited; its exit outcome has been collected.
    Exited,
    /// The probe itself failed, so the process can no longer be observed.
    Unobservable,
}

/// The externally visible state of the worker, derived on demand from the
/// tracked handle by a liveness probe; never persisted.
#[derive(Clone, Copy, PartialEq, Eq, Structural, Debug)]
pub enum ProcessStatus {
    /// No worker is tracked.
    NotRunning,
    /// A worker is tracked and the probe saw it alive.
    Running,
    /// A worker is tracked but has exited or can no longer be observed.
    Failed,
}

/// What a `start` request must do next, decided from the tracked handle and
/// a fresh liveness probe.
#[derive(Clone, Copy, PartialEq, Eq, Structural, Debug)]
pub enum StartStep {
    /// A live worker already exists: succeed without spawning a second one.
    AlreadyRunning,
    /// No live worker exists: a fresh one must be spawned.
    NeedsSpawn,
}

/// Why a `start` request failed.
#[derive(Clone, Debug)]
pub enum StartError {
    /// The worker artifact is absent from the given path.
    ArtifactNotFound(String),
    /// The operating system refused to create the process; carries its error
    /// text.
    SpawnFailed(String),
}

/// Why a `stop` request failed. The tracked handle is cleared regardless, so
/// the supervisor never keeps representing a process it cannot observe.
#[derive(Clone, Debug)]
pub enum StopError {
    /// The termination signal could not be delivered, or the wait for the
    /// exit confirmation failed; carries the error text.
    TerminationFailed(String),
}

/// The status derived from a tracked handle and a probe of it: absent means
/// `NotRunning`; a live probe means `Running`; anything else means `Failed`.
pub open spec fn status_of(handle: Option<u64>, probe: ProbeResult) -> ProcessStatus {
    if handle is None {
        ProcessStatus::NotRunning
    } else if probe is StillRunning {
        ProcessStatus::Running
    } else {
        ProcessStatus::Failed
    }
}

/// What a `start` request decides, given the tracked handle and a fresh
/// probe: the updated handle and the step to take. A live worker is kept and
/// nothing is spawned; a stale or unobservable one is discarded and a fresh
/// spawn is requested.
pub open spec fn start_decision(handle: Option<u64>, probe: ProbeResult) -> (
    Option<u64>,
    StartStep,
) {
    if handle is Some && probe is StillRunning {
        (handle, StartStep::AlreadyRunning)
    } else {
        (None, StartStep::NeedsSpawn)
    }
}

/// The outcome of a whole `stop` request, given whether the termination
/// signal the host may have sent succeeded: the updated handle and whether
/// the request succeeds. Without a tracked worker nothing is signalled and
/// the request succeeds; with one, the handle is cleared whatever the
/// signal's outcome.
pub open spec fn stop_outcome(handle: Option<u64>, termination_ok: bool) -> (Option<u64>, bool) {
    if handle is None {
        (None, true)
    } else {
        (None, termination_ok)
    }
}

/// The supervisor's own state: the identifier of the worker process it
/// tracks, or nothing. At most one worker is ever tracked; the host keeps
/// this state behind one exclusive lock, next to the process handle itself.
pub struct Supervisor {
    /// Identifier of the tracked worker process, absent when none is
    /// tracked.
    pub handle: Option<u64>,
}

impl Supervisor {
    /// A fresh supervisor tracks no worker.
    pub fn new() -> (s: Supervisor)
        ensures
            s.handle is None,
    {
        Supervisor { handle: None }
    }

    /// The non-blocking `status` operation: derives the tri-state status
    /// from the tracked handle and the probe the host just performed. When
    /// no worker is tracked the probe argument is irrelevant.
    pub fn status(&self, probe: ProbeResult) -> (st: ProcessStatus)
        ensures
            st == status_of(self.handle, probe),
    {
        match self.handle {
            None => ProcessStatus::NotRunning,
            Some(_) => match probe {
                ProbeResult::StillRunning => ProcessStatus::Running,
                ProbeResult::Exited => ProcessStatus::Failed,
                ProbeResult::Unobservable => ProcessStatus::Failed,
            },
        }
    }

    /// First half of `start`: from the tracked handle and a fresh probe,
    /// decide whether a spawn is needed. While the worker is alive the call
    /// is idempotent: the handle is kept and no spawn is requested. A stale
    /// handle is discarded.
    pub fn start_decide(&mut self, probe: ProbeResult) -> (step: StartStep)
        ensures
            (final(self).handle, step) == start_decision(old(self).handle, probe),
            step is AlreadyRunning <==> old(self).handle is Some && probe is StillRunning,
            step is AlreadyRunning ==> final(self).handle == old(self).handle,
            step is NeedsSpawn ==> final(self).handle is None,
    {
        match self.handle {
            Some(_) => {
                if probe == ProbeResult::StillRunning {
                    StartStep::AlreadyRunning
                } else {
                    self.handle = None;
                    StartStep::NeedsSpawn
                }
            },
            None => StartStep::NeedsSpawn,
        }
    }

    /// Second half of `start`: record the outcome of the spawn the host
    /// performed. On success the new worker is tracked; on failure nothing
    /// is tracked and the operating-system error is carried out.
    pub fn start_record_spawn(&mut self, spawn: Result<u64, String>) -> (r: Result<
        (),
        StartError,
    >)
        requires
            old(self).handle is None,
        ensures
            spawn matches Ok(pid) ==> r is Ok && final(self).handle == Some(pid),
            spawn matches Err(e) ==> (r matches Err(StartError::SpawnFailed(m)) && m == e)
                && final(self).handle is None,
    {
        match spawn {
            Ok(pid) => {
                self.handle = Some(pid);
                Ok(())
            },
            Err(e) => Err(StartError::SpawnFailed(e)),
        }
    }

    /// First half of `stop`: the identifier the host must signal, or nothing
    /// when no worker is tracked — then `stop` succeeds as a no-op and the
    /// state stays absent.
    pub fn stop_decide(&self) -> (target: Option<u64>)
        ensures
            target == self.handle,
    {
        self.handle
    }

    /// Second half of `stop`, after a termination signal was sent: record
    /// its outcome. The handle is cleared even when the signal or the wait
    /// failed, so the supervisor no longer represents a process it cannot
    /// observe.
    pub fn stop_record_termination(&mut self, termination: Result<(), String>) -> (r: Result<
        (),
        StopError,
    >)
        requires
            old(self).handle is Some,
        ensures
            (final(self).handle, r is Ok) == stop_outcome(old(self).handle, termination is Ok),
            final(self).handle is None,
            termination is Ok <==> r is Ok,
            termination matches Err(e) ==> (r matches Err(StopError::TerminationFailed(m)) && m
                == e),
    {
        self.handle = None;
        match termination {
            Ok(()) => Ok(()),
            Err(e) => Err(StopError::TerminationFailed(e)),
        }
    }
}

/// While the worker stays alive, `start` is idempotent: starting an idle
/// supervisor requests exactly one spawn, and a second start, whose probe
/// still sees that worker running, keeps the same handle and requests no
/// spawn at all — so two starts in succession spawn exactly one process.
pub proof fn lemma_second_start_spawns_nothing(pid: u64, probe: ProbeResult)
    ensures
        start_decision(None, probe).1 is NeedsSpawn,
        start_decision(Some(pid), ProbeResult::StillRunning) == (
            Some(pid),
            StartStep::AlreadyRunning,
        ),
{
}

/// A stop request on a supervisor that tracks no worker — in particular one
/// on which no worker was ever started — succeeds as a no-op, whatever a
/// termination signal would have returned, and leaves the state absent.
pub proof fn lemma_stop_without_worker(s: Supervisor)
    requires
        s.handle is None,
    ensures
        forall|termination_ok: bool|
            stop_outcome(s.handle, termination_ok) == (None::<u64>, true),
{
}

/// The derived status follows the probe: a tracked worker seen alive is
/// `Running`; once the worker has exited on its own — and for every later
/// probe, until a new start replaces the handle — the status is `Failed`,
/// never `Running`; without a tracked worker it is `NotRunning`.
pub proof fn lemma_status_classification()
    ensures
        forall|pid: u64|
            status_of(Some(pid), ProbeResult::StillRunning) == ProcessStatus::Running,
        forall|pid: u64, probe: ProbeResult|
            !(probe is StillRunning) ==> status_of(Some(pid), probe) == ProcessStatus::Failed,
        forall|probe: ProbeResult| status_of(None, probe) == ProcessStatus::NotRunning,
{
}

/// Validates the artifact path before a spawn: the host reports whether the
/// resolved path exists, and an absent artifact is the startup error
/// `ArtifactNotFound`, carrying that path.
pub fn check_artifact(path: &String, exists: bool) -> (r: Result<(), StartError>)
    ensures
        r is Ok <==> exists,
        !exists ==> (r matches Err(StartError::ArtifactNotFound(p)) && p == *path),
{
    if exists {
        Ok(())
    } else {
        Err(StartError::ArtifactNotFound(path.clone()))
    }
}

} // verus!
