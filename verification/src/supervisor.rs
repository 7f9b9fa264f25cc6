//! Reconnect supervisor: the state machine that owns one connection
//! worker's lifecycle. It starts the worker, observes its termination,
//! computes the backoff delay, and restarts the worker indefinitely,
//! until a single cooperative shutdown signal is observed at the top of
//! a loop iteration. The surrounding runtime performs the actions the
//! machine returns (connect, pause, halt); every decision is made here.

use vstd::prelude::*;

verus! {

/// Highest consecutive-failure count that still raises the delay;
/// beyond it the delay stays at `1 << BACKOFF_CAP` seconds.
pub const BACKOFF_CAP: u32 = 5;

/// Consecutive-failure count at which the counter wraps back to zero.
/// This is only a counter-reset point: the supervisor retries forever.
pub const MAX_RETRIES: u32 = 50;

/// Seconds paused after a clean stream closure, bypassing backoff.
pub const CLEAN_CLOSE_PAUSE_SECS: u64 = 5;

/// 2^n over naturals, the mathematical shape of the backoff curve.
pub open spec fn pow2(n: nat) -> nat
    decreases n,
{
    if n == 0 {
        1
    } else {
        2 * pow2((n - 1) as nat)
    }
}

/// Delay in seconds scheduled after the `n`-th consecutive failure.
pub open spec fn backoff_delay_spec(n: nat) -> nat {
    if n <= BACKOFF_CAP {
        pow2(n)
    } else {
        pow2(BACKOFF_CAP as nat)
    }
}

/// Failure counter after one more failed attempt: it increments, and
/// wraps to zero once it reaches `MAX_RETRIES`.
pub open spec fn next_failure_count(n: nat) -> nat {
    if n + 1 >= MAX_RETRIES {
        0
    } else {
        n + 1
    }
}

/// Backoff delay for a consecutive-failure count. For counts up to
/// `BACKOFF_CAP` the delay is `2^n` seconds; above that it stays at 32.
pub fn backoff_delay_secs(n: u32) -> (delay: u64)
    ensures
        delay == backoff_delay_spec(n as nat),
        n <= 5 ==> delay == pow2(n as nat),
        n > 5 ==> delay == 32,
{
    proof {
        reveal_with_fuel(pow2, 6);
    }
    if n == 0 {
        1
    } else if n == 1 {
        2
    } else if n == 2 {
        4
    } else if n == 3 {
        8
    } else if n == 4 {
        16
    } else {
        32
    }
}

/// Live view of the pipeline, published before each state transition.
/// Ephemeral and in-memory only; rebuilt per process lifetime.
#[derive(Clone, Copy, PartialEq, Eq, Structural, Debug)]
pub struct PipelineStatus {
    pub connected: bool,
    /// Unix timestamp in milliseconds of the last received message.
    pub last_message_time: Option<i64>,
    pub reconnect_count: u32,
}

/// Where the supervisor stands in its lifecycle.
#[derive(Clone, Copy, PartialEq, Eq, Structural, Debug)]
pub enum SupervisorPhase {
    Idle,
    Connecting,
    Connected,
    Backoff,
    ShuttingDown,
    Stopped,
}

/// What the supervisor is told happened.
#[derive(Clone, Copy, PartialEq, Eq, Structural, Debug)]
pub enum SupervisorEvent {
    /// `start()` was requested.
    Start,
    /// The stream connection was opened (first frame not required).
    Opened,
    /// The worker terminated with a clean, non-error stream closure.
    ExitedClean,
    /// The connection attempt or the open stream failed.
    Failed,
    /// The scheduled pause between attempts has elapsed.
    DelayDone,
    /// The single cooperative shutdown signal was observed.
    Shutdown,
    /// Teardown after the shutdown signal is complete.
    HaltDone,
}

/// What the surrounding runtime must do next.
#[derive(Clone, Copy, PartialEq, Eq, Structural, Debug)]
pub enum SupervisorAction {
    /// Nothing to perform; keep feeding events.
    Wait,
    /// Start one connection worker.
    Connect,
    /// Sleep for the given number of seconds, then report `DelayDone`.
    Pause(u64),
    /// Stop driving the loop and tear down.
    Halt,
}

/// The reconnect supervisor. One instance owns at most one connection
/// worker at a time; `step` consumes lifecycle events and returns the
/// action to perform, updating the published status on the way.
pub struct Supervisor {
    phase: SupervisorPhase,
    failures: u32,
    status: PipelineStatus,
}

impl Supervisor {
    /// The failure counter never reaches the wrap point between steps.
    pub closed spec fn wf(&self) -> bool {
        self.failures < MAX_RETRIES
    }

    pub closed spec fn phase(&self) -> SupervisorPhase {
        self.phase
    }

    pub closed spec fn failures(&self) -> nat {
        self.failures as nat
    }

    pub closed spec fn status(&self) -> PipelineStatus {
        self.status
    }

    pub fn new() -> (s: Supervisor)
        ensures
            s.wf(),
            s.phase() == SupervisorPhase::Idle,
            s.failures() == 0,
            s.status() == (PipelineStatus {
                connected: false,
                last_message_time: None::<i64>,
                reconnect_count: 0,
            }),
    {
        Supervisor {
            phase: SupervisorPhase::Idle,
            failures: 0,
            status: PipelineStatus {
                connected: false,
                last_message_time: None,
                reconnect_count: 0,
            },
        }
    }

    /// A readable snapshot of the published status; never blocks the
    /// state machine, and never exposes a partial write.
    pub fn get_status(&self) -> (st: PipelineStatus)
        ensures
            st == self.status(),
    {
        self.status
    }

    /// Record that a message arrived now, for status observers.
    pub fn note_message(&mut self, at_ms: i64)
        requires
            old(self).wf(),
        ensures
            final(self).wf(),
            final(self).phase() == old(self).phase(),
            final(self).failures() == old(self).failures(),
            final(self).status() == (PipelineStatus {
                last_message_time: Some(at_ms),
                ..old(self).status()
            }),
    {
        self.status.last_message_time = Some(at_ms);
    }

    /// Drive the state machine by one event.
    ///
    /// The contract pins every transition of the lifecycle
    /// `Idle -> Connecting -> Connected -> Backoff -> Connecting -> ...
    /// -> ShuttingDown -> Stopped`:
    /// - a successful connection resets the failure counter to zero
    ///   before any later backoff computation;
    /// - a failure increments the counter (wrapping at `MAX_RETRIES`)
    ///   and schedules `2^min(n, BACKOFF_CAP)` seconds of pause;
    /// - a clean stream closure resets the counter and schedules
    ///   exactly `CLEAN_CLOSE_PAUSE_SECS` seconds, regardless of the
    ///   prior failure count;
    /// - the shutdown signal halts the machine from any live phase, and
    ///   the status then reports `connected == false`;
    /// - an event that does not belong to the current phase changes
    ///   nothing.
    pub fn step(&mut self, event: SupervisorEvent) -> (action: SupervisorAction)
        requires
            old(self).wf(),
        ensures
            final(self).wf(),
            final(self).status().last_message_time == old(self).status().last_message_time,
            event == SupervisorEvent::Shutdown && old(self).phase() != SupervisorPhase::Stopped
                ==> final(self).phase() == SupervisorPhase::ShuttingDown
                    && action == SupervisorAction::Halt
                    && final(self).failures() == old(self).failures()
                    && !final(self).status().connected
                    && final(self).status().reconnect_count == old(self).status().reconnect_count,
            old(self).phase() == SupervisorPhase::Idle && event == SupervisorEvent::Start
                ==> final(self).phase() == SupervisorPhase::Connecting
                    && action == SupervisorAction::Connect
                    && final(self).failures() == old(self).failures()
                    && !final(self).status().connected
                    && final(self).status().reconnect_count == final(self).failures(),
            old(self).phase() == SupervisorPhase::Connecting && event == SupervisorEvent::Opened
                ==> final(self).phase() == SupervisorPhase::Connected
                    && action == SupervisorAction::Wait
                    && final(self).failures() == 0
                    && final(self).status().connected
                    && final(self).status().reconnect_count == 0,
            (old(self).phase() == SupervisorPhase::Connecting
                || old(self).phase() == SupervisorPhase::Connected)
                && event == SupervisorEvent::Failed
                ==> final(self).phase() == SupervisorPhase::Backoff
                    && final(self).failures() == next_failure_count(old(self).failures())
                    && action == SupervisorAction::Pause(backoff_delay_secs_spec(final(self).failures()))
                    && !final(self).status().connected
                    && final(self).status().reconnect_count == final(self).failures(),
            old(self).phase() == SupervisorPhase::Connected && event == SupervisorEvent::ExitedClean
                ==> final(self).phase() == SupervisorPhase::Backoff
                    && final(self).failures() == 0
                    && action == SupervisorAction::Pause(CLEAN_CLOSE_PAUSE_SECS)
                    && !final(self).status().connected
                    && final(self).status().reconnect_count == 0,
            old(self).phase() == SupervisorPhase::Backoff && event == SupervisorEvent::DelayDone
                ==> final(self).phase() == SupervisorPhase::Connecting
                    && action == SupervisorAction::Connect
                    && final(self).failures() == old(self).failures()
                    && !final(self).status().connected
                    && final(self).status().reconnect_count == final(self).failures(),
            old(self).phase() == SupervisorPhase::ShuttingDown && event == SupervisorEvent::HaltDone
                ==> final(self).phase() == SupervisorPhase::Stopped
                    && action == SupervisorAction::Wait
                    && final(self).status() == old(self).status(),
            stalled_step(old(self).phase(), event)
                ==> *final(self) == *old(self) && action == SupervisorAction::Wait,
    {
        match (self.phase, event) {
            (_, SupervisorEvent::Shutdown) => {
                if self.phase != SupervisorPhase::Stopped {
                    self.phase = SupervisorPhase::ShuttingDown;
                    self.status.connected = false;
                    SupervisorAction::Halt
                } else {
                    SupervisorAction::Wait
                }
            }
            (SupervisorPhase::Idle, SupervisorEvent::Start) => {
                self.phase = SupervisorPhase::Connecting;
                self.status.connected = false;
                self.status.reconnect_count = self.failures;
                SupervisorAction::Connect
            }
            (SupervisorPhase::Connecting, SupervisorEvent::Opened) => {
                self.phase = SupervisorPhase::Connected;
                self.failures = 0;
                self.status.connected = true;
                self.status.reconnect_count = 0;
                SupervisorAction::Wait
            }
            (SupervisorPhase::Connecting, SupervisorEvent::Failed)
            | (SupervisorPhase::Connected, SupervisorEvent::Failed) => {
                self.phase = SupervisorPhase::Backoff;
                self.failures = if self.failures + 1 >= MAX_RETRIES {
                    0
                } else {
                    self.failures + 1
                };
                self.status.connected = false;
                self.status.reconnect_count = self.failures;
                SupervisorAction::Pause(backoff_delay_secs(self.failures))
            }
            (SupervisorPhase::Connected, SupervisorEvent::ExitedClean) => {
                self.phase = SupervisorPhase::Backoff;
                self.failures = 0;
                self.status.connected = false;
                self.status.reconnect_count = 0;
                SupervisorAction::Pause(CLEAN_CLOSE_PAUSE_SECS)
            }
            (SupervisorPhase::Backoff, SupervisorEvent::DelayDone) => {
                self.phase = SupervisorPhase::Connecting;
                self.status.connected = false;
                self.status.reconnect_count = self.failures;
                SupervisorAction::Connect
            }
            (SupervisorPhase::ShuttingDown, SupervisorEvent::HaltDone) => {
                self.phase = SupervisorPhase::Stopped;
                SupervisorAction::Wait
            }
            _ => SupervisorAction::Wait,
        }
    }
}

/// Event/phase pairs on which `step` is a no-op.
pub open spec fn stalled_step(phase: SupervisorPhase, event: SupervisorEvent) -> bool {
    match (phase, event) {
        (_, SupervisorEvent::Shutdown) => phase == SupervisorPhase::Stopped,
        (SupervisorPhase::Idle, SupervisorEvent::Start) => false,
        (SupervisorPhase::Connecting, SupervisorEvent::Opened) => false,
        (SupervisorPhase::Connecting, SupervisorEvent::Failed) => false,
        (SupervisorPhase::Connected, SupervisorEvent::Failed) => false,
        (SupervisorPhase::Connected, SupervisorEvent::ExitedClean) => false,
        (SupervisorPhase::Backoff, SupervisorEvent::DelayDone) => false,
        (SupervisorPhase::ShuttingDown, SupervisorEvent::HaltDone) => false,
        _ => true,
    }
}

/// The delay `step` schedules after a failure, as a spec-level value.
pub open spec fn backoff_delay_secs_spec(n: nat) -> u64 {
    backoff_delay_spec(n) as u64
}

/// After any successful connection the failure counter is zero, so the
/// next backoff computation starts from a reset counter: a failure
/// right after `Opened` always schedules `2^1` seconds.
pub proof fn lemma_counter_resets_before_next_backoff(s: Supervisor)
    requires
        s.wf(),
        s.phase() == SupervisorPhase::Connected,
        s.failures() == 0,
    ensures
        backoff_delay_secs_spec(next_failure_count(s.failures())) == 2,
{
    reveal_with_fuel(pow2, 2);
}

} // verus!
