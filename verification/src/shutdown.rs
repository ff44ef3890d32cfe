//! The shutdown orchestrator: a state machine run once per host-close
//! request.
//!
//! It sequences the graceful shutdown of the worker: wait for the worker's
//! health endpoint to answer (advisory, bounded by an attempt budget), issue
//! one remote shutdown request, wait for the worker to exit (bounded by a
//! second budget), escalate to forced termination only when needed, and
//! finally signal host exit. The host performs each effect — a health poll,
//! the remote request, a status poll, the forced stop — and feeds the
//! outcome back as an event; the machine answers with the next phase and
//! action.

use crate::config::ShutdownConfig;
use crate::supervisor::ProcessStatus;
use vstd::prelude::*;

verus! {

/// The phases of the shutdown sequence, in the order they are normally
/// traversed. `ForcingExit` is skipped when the worker exits on its own
/// within the exit-wait budget; `AwaitingExit` is skipped when the remote
/// request fails.
#[derive(Clone, Copy, PartialEq, Eq, Structural, Debug)]
pub enum Phase {
    /// Polling the worker's health endpoint until it answers or the health
    /// budget is spent. Advisory: the sequence proceeds either way.
    AwaitingReady,
    /// Issuing the single remote shutdown request.
    RequestingShutdown,
    /// Polling the supervisor's status until the worker is gone or the exit
    /// budget is spent.
    AwaitingExit,
    /// Terminating the worker forcibly.
    ForcingExit,
    /// The sequence is over; the host exits now. Terminal.
    Done,
}

/// The effect the host must perform next, determined by the phase alone.
#[derive(Clone, Copy, PartialEq, Eq, Structural, Debug)]
pub enum ShutdownAction {
    /// Poll the health endpoint once, waiting the poll interval on failure.
    PollHealth,
    /// Send the remote shutdown request, bounded by the request timeout.
    SendShutdownRequest,
    /// Poll the supervisor's status once, waiting the poll interval while
    /// the worker is still running.
    PollStatus,
    /// Stop the worker forcibly through the supervisor.
    ForceStop,
    /// Exit the host. Performed exactly once, at the end.
    ExitHost,
}

/// The outcome of one performed effect, fed back into the machine.
#[derive(Clone, Copy, PartialEq, Eq, Structural, Debug)]
pub enum ShutdownEvent {
    /// Outcome of one health poll: true on a success status.
    HealthChecked(bool),
    /// Outcome of the remote shutdown request: true on a success status
    /// within the timeout.
    ShutdownRequested(bool),
    /// Outcome of one status poll.
    StatusPolled(ProcessStatus),
    /// The forced stop was performed (its own failure does not matter to
    /// the sequence).
    WorkerStopped,
}

/// One shutdown sequence: the current phase, how many polls each waiting
/// phase has already spent, and the timing the sequence was configured with.
#[derive(Clone, Copy, PartialEq, Eq, Structural, Debug)]
pub struct ShutdownSession {
    /// The current phase.
    pub phase: Phase,
    /// Health polls performed without a positive answer.
    pub health_polls: u64,
    /// Status polls performed that still saw the worker running.
    pub exit_polls: u64,
    /// The timing parameters the session was created with.
    pub config: ShutdownConfig,
}

/// The effect to perform in a phase.
pub open spec fn action_of(phase: Phase) -> ShutdownAction {
    match phase {
        Phase::AwaitingReady => ShutdownAction::PollHealth,
        Phase::RequestingShutdown => ShutdownAction::SendShutdownRequest,
        Phase::AwaitingExit => ShutdownAction::PollStatus,
        Phase::ForcingExit => ShutdownAction::ForceStop,
        Phase::Done => ShutdownAction::ExitHost,
    }
}

/// Whether an event is the outcome of the effect a phase asks for. `Done`
/// asks for no further event.
pub open spec fn event_fits(phase: Phase, event: ShutdownEvent) -> bool {
    match phase {
        Phase::AwaitingReady => event is HealthChecked,
        Phase::RequestingShutdown => event is ShutdownRequested,
        Phase::AwaitingExit => event is StatusPolled,
        Phase::ForcingExit => event is WorkerStopped,
        Phase::Done => false,
    }
}

/// The transition relation of the sequence: the session after one fitting
/// event. A session receiving an event that does not fit its phase is left
/// unchanged; valid traces never contain one.
pub open spec fn step_of(s: ShutdownSession, event: ShutdownEvent) -> ShutdownSession {
    match (s.phase, event) {
        (Phase::AwaitingReady, ShutdownEvent::HealthChecked(ready)) => {
            if ready {
                ShutdownSession { phase: Phase::RequestingShutdown, ..s }
            } else if s.health_polls + 1 >= s.config.health_attempts {
                ShutdownSession {
                    phase: Phase::RequestingShutdown,
                    health_polls: (s.health_polls + 1) as u64,
                    ..s
                }
            } else {
                ShutdownSession { health_polls: (s.health_polls + 1) as u64, ..s }
            }
        },
        (Phase::RequestingShutdown, ShutdownEvent::ShutdownRequested(acknowledged)) => {
            if acknowledged {
                ShutdownSession { phase: Phase::AwaitingExit, ..s }
            } else {
                ShutdownSession { phase: Phase::ForcingExit, ..s }
            }
        },
        (Phase::AwaitingExit, ShutdownEvent::StatusPolled(status)) => {
            if !(status is Running) {
                ShutdownSession { phase: Phase::Done, ..s }
            } else if s.exit_polls + 1 >= s.config.exit_attempts {
                ShutdownSession {
                    phase: Phase::ForcingExit,
                    exit_polls: (s.exit_polls + 1) as u64,
                    ..s
                }
            } else {
                ShutdownSession { exit_polls: (s.exit_polls + 1) as u64, ..s }
            }
        },
        (Phase::ForcingExit, ShutdownEvent::WorkerStopped) => ShutdownSession {
            phase: Phase::Done,
            ..s
        },
        _ => s,
    }
}

/// An upper bound on how many further events the session can consume before
/// it is `Done`: the remaining polls of the current and the later waiting
/// phases, plus one event each for the request and the forced stop.
pub open spec fn steps_remaining(s: ShutdownSession) -> int {
    match s.phase {
        Phase::AwaitingReady => s.config.health_attempts - s.health_polls + s.config.exit_attempts
            + 2,
        Phase::RequestingShutdown => s.config.exit_attempts + 2,
        Phase::AwaitingExit => s.config.exit_attempts - s.exit_polls + 1,
        Phase::ForcingExit => 1,
        Phase::Done => 0,
    }
}

impl ShutdownSession {
    /// A session is well formed when its timing is and when each waiting
    /// phase still has at least one poll left of its budget — the phase is
    /// left as soon as the budget is spent.
    pub open spec fn wf(self) -> bool {
        &&& self.config.wf()
        &&& self.health_polls <= self.config.health_attempts
        &&& self.exit_polls <= self.config.exit_attempts
        &&& self.phase is AwaitingReady ==> self.health_polls < self.config.health_attempts
        &&& self.phase is AwaitingExit ==> self.exit_polls < self.config.exit_attempts
        &&& (self.phase is AwaitingReady || self.phase is RequestingShutdown)
            ==> self.exit_polls == 0
    }

    /// Opens a session for one host-close request: the sequence starts by
    /// waiting for the worker to be ready, with both budgets unspent.
    pub fn new(config: ShutdownConfig) -> (s: ShutdownSession)
        requires
            config.wf(),
        ensures
            s.phase is AwaitingReady,
            s.health_polls == 0,
            s.exit_polls == 0,
            s.config == config,
            s.wf(),
    {
        ShutdownSession { phase: Phase::AwaitingReady, health_polls: 0, exit_polls: 0, config }
    }

    /// The effect the host must perform next.
    pub fn next_action(&self) -> (a: ShutdownAction)
        ensures
            a == action_of(self.phase),
    {
        match self.phase {
            Phase::AwaitingReady => ShutdownAction::PollHealth,
            Phase::RequestingShutdown => ShutdownAction::SendShutdownRequest,
            Phase::AwaitingExit => ShutdownAction::PollStatus,
            Phase::ForcingExit => ShutdownAction::ForceStop,
            Phase::Done => ShutdownAction::ExitHost,
        }
    }

    /// Whether the sequence is over and the host exits.
    pub fn is_done(&self) -> (done: bool)
        ensures
            done == (self.phase is Done),
    {
        self.phase == Phase::Done
    }

    /// Feeds the outcome of the performed effect into the machine. Every
    /// step brings the session strictly closer to `Done`, so the sequence
    /// always terminates within its budgets.
    pub fn step(&mut self, event: ShutdownEvent)
        requires
            old(self).wf(),
            event_fits(old(self).phase, event),
        ensures
            *final(self) == step_of(*old(self), event),
            final(self).wf(),
            steps_remaining(*final(self)) < steps_remaining(*old(self)),
    {
        match event {
            ShutdownEvent::HealthChecked(ready) => {
                if ready {
                    self.phase = Phase::RequestingShutdown;
                } else {
                    self.health_polls = self.health_polls + 1;
                    if self.health_polls >= self.config.health_attempts {
                        self.phase = Phase::RequestingShutdown;
                    }
                }
            },
            ShutdownEvent::ShutdownRequested(acknowledged) => {
                if acknowledged {
                    self.phase = Phase::AwaitingExit;
                } else {
                    self.phase = Phase::ForcingExit;
                }
            },
            ShutdownEvent::StatusPolled(status) => {
                if status != ProcessStatus::Running {
                    self.phase = Phase::Done;
                } else {
                    self.exit_polls = self.exit_polls + 1;
                    if self.exit_polls >= self.config.exit_attempts {
                        self.phase = Phase::ForcingExit;
                    }
                }
            },
            ShutdownEvent::WorkerStopped => {
                self.phase = Phase::Done;
            },
        }
    }
}

/// The session after a whole trace of events, fed in order.
pub open spec fn run(s: ShutdownSession, events: Seq<ShutdownEvent>) -> ShutdownSession
    decreases events.len(),
{
    if events.len() == 0 {
        s
    } else {
        run(step_of(s, events[0]), events.skip(1))
    }
}

/// Whether a trace of events can actually be observed from a session: each
/// event is the outcome of the effect the session asks for when the event
/// arrives. Once the session is `Done` no further event fits.
pub open spec fn valid_trace(s: ShutdownSession, events: Seq<ShutdownEvent>) -> bool
    decreases events.len(),
{
    events.len() == 0 || (event_fits(s.phase, events[0]) && valid_trace(
        step_of(s, events[0]),
        events.skip(1),
    ))
}

/// One fitting event preserves well-formedness and strictly decreases the
/// bound on the steps that remain.
pub proof fn lemma_step_progress(s: ShutdownSession, event: ShutdownEvent)
    requires
        s.wf(),
        event_fits(s.phase, event),
    ensures
        step_of(s, event).wf(),
        steps_remaining(step_of(s, event)) < steps_remaining(s),
{
}

/// The shutdown sequence always terminates, whatever the worker does: a
/// well-formed session can consume at most `steps_remaining` further events
/// — never more than health budget + exit budget + 2 in all — before it is
/// `Done`; a session that no event can extend is exactly a `Done` session;
/// and a `Done` session tells the host to exit. Each poll event stands for
/// at most one poll interval of waiting and the request event for at most
/// the request timeout, so the bound on events is a bound on time.
pub proof fn lemma_shutdown_terminates(s: ShutdownSession, events: Seq<ShutdownEvent>)
    requires
        s.wf(),
        valid_trace(s, events),
    ensures
        run(s, events).wf(),
        events.len() + steps_remaining(run(s, events)) <= steps_remaining(s),
        steps_remaining(s) <= s.config.health_attempts + s.config.exit_attempts + 2,
        run(s, events).phase is Done <==> !(exists|event: ShutdownEvent|
            event_fits(run(s, events).phase, event)),
        run(s, events).phase is Done ==> action_of(run(s, events).phase) is ExitHost,
    decreases events.len(),
{
    if events.len() == 0 {
    } else {
        lemma_step_progress(s, events[0]);
        lemma_shutdown_terminates(step_of(s, events[0]), events.skip(1));
    }
    let end = run(s, events);
    if !(end.phase is Done) {
        let witness = match end.phase {
            Phase::AwaitingReady => ShutdownEvent::HealthChecked(false),
            Phase::RequestingShutdown => ShutdownEvent::ShutdownRequested(false),
            Phase::AwaitingExit => ShutdownEvent::StatusPolled(ProcessStatus::Running),
            Phase::ForcingExit => ShutdownEvent::WorkerStopped,
            Phase::Done => ShutdownEvent::WorkerStopped,
        };
        assert(event_fits(end.phase, witness));
    }
}

/// The worst-case waiting one event stands for, in milliseconds: a health
/// or status poll waits at most one poll interval, the remote request at
/// most its timeout; the forced stop is bounded by the OS call itself, not
/// by a timer.
pub open spec fn event_wait_ms(c: ShutdownConfig, event: ShutdownEvent) -> int {
    match event {
        ShutdownEvent::HealthChecked(_) => c.poll_interval_ms as int,
        ShutdownEvent::ShutdownRequested(_) => c.request_timeout_ms as int,
        ShutdownEvent::StatusPolled(_) => c.poll_interval_ms as int,
        ShutdownEvent::WorkerStopped => 0,
    }
}

/// The worst-case waiting of a whole trace, in milliseconds.
pub open spec fn trace_wait_ms(c: ShutdownConfig, events: Seq<ShutdownEvent>) -> int
    decreases events.len(),
{
    if events.len() == 0 {
        0
    } else {
        event_wait_ms(c, events[0]) + trace_wait_ms(c, events.skip(1))
    }
}

/// The agreed worst-case duration of the whole sequence, in milliseconds:
/// the full health-wait budget, the remote-call timeout, and the full
/// exit-wait budget.
pub open spec fn worst_case_wait_ms(c: ShutdownConfig) -> int {
    c.health_attempts * c.poll_interval_ms + c.request_timeout_ms + c.exit_attempts
        * c.poll_interval_ms
}

/// How much worst-case waiting a session can still accumulate before it is
/// `Done`.
pub open spec fn remaining_wait_ms(s: ShutdownSession) -> int {
    match s.phase {
        Phase::AwaitingReady => (s.config.health_attempts - s.health_polls)
            * s.config.poll_interval_ms + s.config.request_timeout_ms + (s.config.exit_attempts
            - s.exit_polls) * s.config.poll_interval_ms,
        Phase::RequestingShutdown => s.config.request_timeout_ms + (s.config.exit_attempts
            - s.exit_polls) * s.config.poll_interval_ms,
        Phase::AwaitingExit => (s.config.exit_attempts - s.exit_polls)
            * s.config.poll_interval_ms,
        Phase::ForcingExit => 0,
        Phase::Done => 0,
    }
}

proof fn lemma_step_wait(s: ShutdownSession, event: ShutdownEvent)
    requires
        s.wf(),
        event_fits(s.phase, event),
    ensures
        event_wait_ms(s.config, event) + remaining_wait_ms(step_of(s, event))
            <= remaining_wait_ms(s),
{
    let i = s.config.poll_interval_ms as int;
    let ha = s.config.health_attempts as int;
    let hp = s.health_polls as int;
    let ea = s.config.exit_attempts as int;
    let ep = s.exit_polls as int;
    assert(i >= 0);
    match s.phase {
        Phase::AwaitingReady => {
            assert(hp < ha);
            assert((ha - hp - 1) * i + i == (ha - hp) * i) by (nonlinear_arith);
            assert(1 * i == i) by (nonlinear_arith);
            assert(i <= (ha - hp) * i) by (nonlinear_arith)
                requires
                    i >= 0,
                    ha - hp >= 1,
            ;
        },
        Phase::RequestingShutdown => {
            assert((ea - ep) * i >= 0) by (nonlinear_arith)
                requires
                    i >= 0,
                    ea - ep >= 0,
            ;
        },
        Phase::AwaitingExit => {
            assert(ep < ea);
            assert((ea - ep - 1) * i + i == (ea - ep) * i) by (nonlinear_arith);
            assert(1 * i == i) by (nonlinear_arith);
            assert(i <= (ea - ep) * i) by (nonlinear_arith)
                requires
                    i >= 0,
                    ea - ep >= 1,
            ;
        },
        Phase::ForcingExit => {
        },
        Phase::Done => {
        },
    }
}

/// The sequence's waiting is bounded in wall-clock terms as well: over any
/// observable trace, the polls and the remote request together wait at most
/// the worst case — health budget × poll interval + request timeout + exit
/// budget × poll interval — and what a session can still wait never grows.
pub proof fn lemma_shutdown_wait_bounded(s: ShutdownSession, events: Seq<ShutdownEvent>)
    requires
        s.wf(),
        valid_trace(s, events),
    ensures
        trace_wait_ms(s.config, events) + remaining_wait_ms(run(s, events))
            <= remaining_wait_ms(s),
        remaining_wait_ms(s) <= worst_case_wait_ms(s.config),
    decreases events.len(),
{
    let i = s.config.poll_interval_ms as int;
    let ha = s.config.health_attempts as int;
    let hp = s.health_polls as int;
    let ea = s.config.exit_attempts as int;
    let ep = s.exit_polls as int;
    assert((ha - hp) * i <= ha * i && (ea - ep) * i <= ea * i && ha * i >= 0 && ea * i >= 0
        && s.config.request_timeout_ms >= 0) by (nonlinear_arith)
        requires
            i >= 0,
            0 <= hp <= ha,
            0 <= ep <= ea,
            s.config.request_timeout_ms >= 0,
    ;
    if events.len() == 0 {
    } else {
        lemma_step_wait(s, events[0]);
        lemma_step_progress(s, events[0]);
        lemma_shutdown_wait_bounded(step_of(s, events[0]), events.skip(1));
        assert(step_of(s, events[0]).config == s.config);
    }
}

/// Whether every event of a trace is a status poll that still saw the
/// worker running.
pub open spec fn all_running_polls(events: Seq<ShutdownEvent>) -> bool {
    forall|i: int|
        0 <= i < events.len() ==> events[i] == ShutdownEvent::StatusPolled(ProcessStatus::Running)
}

proof fn lemma_awaiting_exit_clean(s: ShutdownSession, polls: Seq<ShutdownEvent>, last: ProcessStatus)
    requires
        s.wf(),
        s.phase is AwaitingExit,
        all_running_polls(polls),
        polls.len() + s.exit_polls < s.config.exit_attempts,
        !(last is Running),
    ensures
        valid_trace(s, polls.push(ShutdownEvent::StatusPolled(last))),
        run(s, polls.push(ShutdownEvent::StatusPolled(last))).phase is Done,
        forall|i: int|
            0 <= i < polls.len() + 1 ==> run(
                s,
                polls.push(ShutdownEvent::StatusPolled(last)).take(i),
            ).phase is AwaitingExit,
    decreases polls.len(),
{
    let events = polls.push(ShutdownEvent::StatusPolled(last));
    if polls.len() == 0 {
        assert(events[0] == ShutdownEvent::StatusPolled(last));
        let stepped = step_of(s, events[0]);
        assert(stepped.phase is Done);
        assert(events.skip(1) =~= Seq::<ShutdownEvent>::empty());
        assert(valid_trace(stepped, events.skip(1)));
        assert(valid_trace(s, events));
        assert(run(s, events) == run(stepped, events.skip(1)));
        assert forall|i: int| 0 <= i < polls.len() + 1 implies run(
            s,
            events.take(i),
        ).phase is AwaitingExit by {
            assert(events.take(0) =~= Seq::<ShutdownEvent>::empty());
        }
    } else {
        assert(events[0] == polls[0]);
        let stepped = step_of(s, events[0]);
        assert(stepped.phase is AwaitingExit);
        let tail_polls = polls.skip(1);
        let tail_events = tail_polls.push(ShutdownEvent::StatusPolled(last));
        assert(events.skip(1) =~= tail_events);
        lemma_awaiting_exit_clean(stepped, tail_polls, last);
        assert(event_fits(s.phase, events[0]));
        assert(valid_trace(stepped, events.skip(1)));
        assert(valid_trace(s, events));
        assert(run(s, events) == run(stepped, tail_events));
        assert forall|i: int| 0 <= i < polls.len() + 1 implies run(
            s,
            events.take(i),
        ).phase is AwaitingExit by {
            if i == 0 {
                assert(events.take(0) =~= Seq::<ShutdownEvent>::empty());
            } else {
                assert(events.take(i)[0] == events[0]);
                assert(events.take(i).skip(1) =~= tail_events.take(i - 1));
                assert(run(s, events.take(i)) == run(stepped, tail_events.take(i - 1)));
            }
        }
    }
}

/// If the remote shutdown request is acknowledged and, within the exit-wait
/// budget, a status poll sees the worker gone, the forced stop is never
/// invoked: the machine walks from the request through the exit wait
/// straight to `Done`, and no state along the way is `ForcingExit` — the
/// worker's own clean exit is observed, not overridden.
pub proof fn lemma_clean_exit_never_forced(
    s: ShutdownSession,
    polls: Seq<ShutdownEvent>,
    last: ProcessStatus,
)
    requires
        s.wf(),
        s.phase is RequestingShutdown,
        all_running_polls(polls),
        polls.len() < s.config.exit_attempts,
        !(last is Running),
    ensures
        ({
            let events = seq![ShutdownEvent::ShutdownRequested(true)] + polls.push(
                ShutdownEvent::StatusPolled(last),
            );
            &&& valid_trace(s, events)
            &&& run(s, events).phase is Done
            &&& forall|i: int|
                0 <= i <= events.len() ==> !(run(s, events.take(i)).phase is ForcingExit)
        }),
{
    let inner = polls.push(ShutdownEvent::StatusPolled(last));
    let events = seq![ShutdownEvent::ShutdownRequested(true)] + inner;
    let stepped = step_of(s, ShutdownEvent::ShutdownRequested(true));
    assert(stepped.phase is AwaitingExit);
    assert(stepped.exit_polls == 0);
    lemma_awaiting_exit_clean(stepped, polls, last);
    assert(events[0] == ShutdownEvent::ShutdownRequested(true));
    assert(events.skip(1) =~= inner);
    assert(run(s, events) == run(stepped, inner));
    assert forall|i: int| 0 <= i <= events.len() implies !(run(
        s,
        events.take(i),
    ).phase is ForcingExit) by {
        if i == 0 {
            assert(events.take(0) =~= Seq::<ShutdownEvent>::empty());
        } else {
            assert(events.take(i)[0] == events[0]);
            assert(events.take(i).skip(1) =~= inner.take(i - 1));
            assert(run(s, events.take(i)) == run(stepped, inner.take(i - 1)));
            if i - 1 < inner.len() {
            } else {
                assert(inner.take(i - 1) =~= inner);
            }
        }
    }
}

/// A remote shutdown request that fails outright — a timeout, a refused
/// connection, a non-success status — sends the machine straight to forced
/// termination: the exit-wait budget is never entered, and only the forced
/// stop and the host exit remain.
pub proof fn lemma_failed_request_forces_immediately(s: ShutdownSession)
    requires
        s.wf(),
        s.phase is RequestingShutdown,
    ensures
        step_of(s, ShutdownEvent::ShutdownRequested(false)).phase is ForcingExit,
        steps_remaining(step_of(s, ShutdownEvent::ShutdownRequested(false))) == 1,
        valid_trace(
            s,
            seq![ShutdownEvent::ShutdownRequested(false), ShutdownEvent::WorkerStopped],
        ),
        run(
            s,
            seq![ShutdownEvent::ShutdownRequested(false), ShutdownEvent::WorkerStopped],
        ).phase is Done,
{
    let events = seq![ShutdownEvent::ShutdownRequested(false), ShutdownEvent::WorkerStopped];
    let stepped = step_of(s, events[0]);
    let tail = events.skip(1);
    assert(tail =~= seq![ShutdownEvent::WorkerStopped]);
    assert(tail[0] == ShutdownEvent::WorkerStopped);
    let stepped_twice = step_of(stepped, tail[0]);
    assert(tail.skip(1) =~= Seq::<ShutdownEvent>::empty());
    assert(valid_trace(stepped_twice, tail.skip(1)));
    assert(valid_trace(stepped, tail));
    assert(valid_trace(s, events));
    assert(run(stepped, tail) == run(stepped_twice, tail.skip(1)));
    assert(run(s, events) == run(stepped, tail));
}

/// The progress notification emitted to the event bridge when a phase is
/// entered: a human-readable description of what the sequence is doing.
pub open spec fn phase_description(phase: Phase) -> Seq<char> {
    match phase {
        Phase::AwaitingReady => "waiting for the worker to become ready...\n"@,
        Phase::RequestingShutdown => "requesting a clean worker shutdown...\n"@,
        Phase::AwaitingExit => "shutdown requested, waiting for the worker to exit...\n"@,
        Phase::ForcingExit => "terminating the worker forcibly...\n"@,
        Phase::Done => "shutdown sequence finished, exiting...\n"@,
    }
}

/// Builds the progress notification for a phase.
pub fn describe_phase(phase: Phase) -> (message: String)
    ensures
        message@ == phase_description(phase),
{
    match phase {
        Phase::AwaitingReady => "waiting for the worker to become ready...\n".to_owned(),
        Phase::RequestingShutdown => "requesting a clean worker shutdown...\n".to_owned(),
        Phase::AwaitingExit => "shutdown requested, waiting for the worker to exit...\n".to_owned(),
        Phase::ForcingExit => "terminating the worker forcibly...\n".to_owned(),
        Phase::Done => "shutdown sequence finished, exiting...\n".to_owned(),
    }
}

} // verus!
