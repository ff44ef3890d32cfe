//! Configuration of the supervised worker, resolved once at start.

use vstd::prelude::*;

verus! {

/// Number of milliseconds between two successive polls of the worker, both
/// while waiting for it to become ready and while waiting for it to exit.
pub const DEFAULT_POLL_INTERVAL_MS: u64 = 500;

/// How many health-check polls are attempted before the shutdown sequence
/// proceeds without a positive health report.
pub const DEFAULT_HEALTH_ATTEMPTS: u64 = 30;

/// How many exit polls are attempted after a successful remote shutdown
/// request before the worker is terminated forcibly.
pub const DEFAULT_EXIT_ATTEMPTS: u64 = 20;

/// Bound, in milliseconds, on how long the single remote shutdown request may
/// take before it counts as failed.
pub const DEFAULT_REQUEST_TIMEOUT_MS: u64 = 5000;

/// The timing parameters of the shutdown sequence: the poll interval, the two
/// attempt budgets, and the timeout of the remote shutdown request.
///
/// Each polling phase is bounded purely by its attempt budget; interval times
/// budget is the phase's timeout.
#[derive(Clone, Copy, PartialEq, Eq, Structural, Debug)]
pub struct ShutdownConfig {
    /// Milliseconds between two successive polls.
    pub poll_interval_ms: u64,
    /// Attempt budget of the health-check wait.
    pub health_attempts: u64,
    /// Attempt budget of the exit wait.
    pub exit_attempts: u64,
    /// Timeout of the remote shutdown request, in milliseconds.
    pub request_timeout_ms: u64,
}

impl ShutdownConfig {
    /// A configuration is well formed when each polling phase is allowed at
    /// least one attempt.
    pub open spec fn wf(self) -> bool {
        self.health_attempts >= 1 && self.exit_attempts >= 1
    }

    /// Builds a configuration from explicit timing parameters.
    pub fn new(
        poll_interval_ms: u64,
        health_attempts: u64,
        exit_attempts: u64,
        request_timeout_ms: u64,
    ) -> (c: ShutdownConfig)
        requires
            health_attempts >= 1,
            exit_attempts >= 1,
        ensures
            c.poll_interval_ms == poll_interval_ms,
            c.health_attempts == health_attempts,
            c.exit_attempts == exit_attempts,
            c.request_timeout_ms == request_timeout_ms,
            c.wf(),
    {
        ShutdownConfig { poll_interval_ms, health_attempts, exit_attempts, request_timeout_ms }
    }

    /// The standard timing: poll every half second, up to thirty health
    /// attempts and twenty exit attempts, with a five second request timeout.
    pub fn standard() -> (c: ShutdownConfig)
        ensures
            c == (ShutdownConfig {
                poll_interval_ms: DEFAULT_POLL_INTERVAL_MS,
                health_attempts: DEFAULT_HEALTH_ATTEMPTS,
                exit_attempts: DEFAULT_EXIT_ATTEMPTS,
                request_timeout_ms: DEFAULT_REQUEST_TIMEOUT_MS,
            }),
            c.wf(),
    {
        ShutdownConfig {
            poll_interval_ms: DEFAULT_POLL_INTERVAL_MS,
            health_attempts: DEFAULT_HEALTH_ATTEMPTS,
            exit_attempts: DEFAULT_EXIT_ATTEMPTS,
            request_timeout_ms: DEFAULT_REQUEST_TIMEOUT_MS,
        }
    }
}

/// Everything the host must resolve before the worker can be started: how to
/// launch it, where its artifact must lie, the two remote endpoints of its
/// shutdown protocol, and the timing of the shutdown sequence.
///
/// The artifact path and the two addresses are held as plain strings; the
/// host interprets them when it performs the corresponding effect.
#[derive(Clone, Debug)]
pub struct WorkerConfig {
    /// Locator of the executable that runs the worker.
    pub launcher: String,
    /// Path of the worker artifact, relative to the host's own installation
    /// directory; its absence is a startup error.
    pub artifact_path: String,
    /// Address polled to learn whether the worker is ready.
    pub health_url: String,
    /// Address that acknowledges a clean shutdown request.
    pub shutdown_url: String,
    /// Timing of the shutdown sequence.
    pub shutdown: ShutdownConfig,
}

impl WorkerConfig {
    /// A worker configuration is well formed when its timing is.
    pub open spec fn wf(self) -> bool {
        self.shutdown.wf()
    }

    /// Builds a configuration from its resolved parts.
    pub fn new(
        launcher: String,
        artifact_path: String,
        health_url: String,
        shutdown_url: String,
        shutdown: ShutdownConfig,
    ) -> (c: WorkerConfig)
        ensures
            c.launcher == launcher,
            c.artifact_path == artifact_path,
            c.health_url == health_url,
            c.shutdown_url == shutdown_url,
            c.shutdown == shutdown,
    {
        WorkerConfig { launcher, artifact_path, health_url, shutdown_url, shutdown }
    }
}

} // verus!
