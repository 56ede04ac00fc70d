//! The lifecycle state machine that supervises one server process.
//!
//! The supervisor never touches a process itself. Each event that the caller
//! observes (a start request, a finished handshake, an exit, an elapsed
//! backoff, a failed health probe, a stop request) goes through [`Supervisor::step`],
//! which moves the state and names the action the caller must carry out.
use vstd::prelude::*;

verus! {

/// Consecutive failed starts tolerated before the supervisor gives up.
pub const DEFAULT_MAX_RESTARTS: u32 = 5;

/// Consecutive failed health probes tolerated before the connection is failed.
pub const DEFAULT_ERROR_BUDGET: u32 = 3;

/// First restart delay, in milliseconds.
pub const BACKOFF_BASE_MS: u64 = 250;

/// Largest restart delay, in milliseconds.
pub const BACKOFF_CAP_MS: u64 = 5000;

/// Lifecycle state of a server connection.
#[derive(Debug, Clone, Copy, PartialEq, Eq, Structural)]
pub enum McpServerStatus {
    Stopped,
    Starting,
    Running,
    Error,
    Restarting,
}

/// What the caller observed about the server process.
#[derive(Debug, Clone, Copy, PartialEq, Eq, Structural)]
pub enum LifecycleEvent {
    /// An explicit `start()`.
    StartRequested,
    /// The executable could not be launched.
    SpawnFailed,
    /// The initialize handshake completed in time.
    HandshakeSucceeded,
    /// The initialize handshake failed or timed out.
    HandshakeFailed,
    /// The process exited while nobody asked it to.
    ProcessExited,
    /// The restart delay is over.
    BackoffElapsed,
    /// An explicit `stop()`.
    StopRequested,
    /// A health probe succeeded.
    CheckSucceeded,
    /// A health probe failed.
    CheckFailed,
}

/// What the caller must do after a transition.
#[derive(Debug, Clone, Copy, PartialEq, Eq, Structural)]
pub enum LifecycleAction {
    /// Nothing.
    Nothing,
    /// Launch the process and send the initialize request.
    Spawn,
    /// Wait this many milliseconds, then report `BackoffElapsed`.
    ScheduleRestart { delay_ms: u64 },
    /// Terminate the process: graceful signal, grace period, then kill.
    Terminate,
}

/// Restart delay before attempt `attempt` (counted from 1): the base doubled
/// per earlier attempt, capped.
pub open spec fn backoff_spec(attempt: nat) -> nat
    decreases attempt,
{
    if attempt <= 1 {
        BACKOFF_BASE_MS as nat
    } else {
        let d = 2 * backoff_spec((attempt - 1) as nat);
        if d > BACKOFF_CAP_MS {
            BACKOFF_CAP_MS as nat
        } else {
            d
        }
    }
}

proof fn lemma_backoff_bounded(attempt: nat)
    ensures
        backoff_spec(attempt) <= BACKOFF_CAP_MS,
    decreases attempt,
{
    if attempt > 1 {
        lemma_backoff_bounded((attempt - 1) as nat);
    }
}

/// Restart delay, in milliseconds, before restart attempt `attempt`.
pub fn backoff_delay_ms(attempt: u32) -> (r: u64)
    ensures
        r == backoff_spec(attempt as nat),
        r <= BACKOFF_CAP_MS,
{
    let mut d: u64 = BACKOFF_BASE_MS;
    let mut k: u32 = 1;
    while k < attempt
        invariant
            1 <= k,
            k <= attempt || attempt <= 1,
            attempt <= 1 ==> k == 1,
            d == backoff_spec(k as nat),
            d <= BACKOFF_CAP_MS,
        decreases attempt - k,
    {
        proof {
            lemma_backoff_bounded(k as nat);
        }
        let doubled = 2 * d;
        d = if doubled > BACKOFF_CAP_MS {
            BACKOFF_CAP_MS
        } else {
            doubled
        };
        k = k + 1;
    }
    d
}

/// `n + 1`, held at `u32::MAX`.
pub open spec fn inc(n: u32) -> u32 {
    if n < u32::MAX {
        (n + 1) as u32
    } else {
        n
    }
}

/// Supervisor of one server process.
#[derive(Debug, Clone, Copy, PartialEq, Eq, Structural)]
pub struct Supervisor {
    /// Current lifecycle state.
    pub status: McpServerStatus,
    /// Whether an unexpected exit or failed start is retried.
    pub auto_restart: bool,
    /// Consecutive failed starts since the last success or explicit start.
    pub failures: u32,
    /// Failed starts after which the supervisor settles in `Error`.
    pub max_restarts: u32,
    /// Consecutive failed health probes.
    pub check_failures: u32,
    /// Failed probes after which the connection is failed.
    pub error_budget: u32,
}

/// The state after a start attempt failed: another attempt after a delay
/// while the budget lasts, `Error` once it is spent.
pub open spec fn after_failed_start(s: Supervisor) -> (Supervisor, LifecycleAction) {
    let f = inc(s.failures);
    if s.auto_restart && f < s.max_restarts {
        (
            Supervisor { status: McpServerStatus::Restarting, failures: f, ..s },
            LifecycleAction::ScheduleRestart { delay_ms: backoff_spec(f as nat) as u64 },
        )
    } else {
        (Supervisor { status: McpServerStatus::Error, failures: f, ..s }, LifecycleAction::Terminate)
    }
}

/// Whether the state has (or is about to have) a live process.
pub open spec fn is_active(st: McpServerStatus) -> bool {
    st == McpServerStatus::Starting || st == McpServerStatus::Running || st
        == McpServerStatus::Restarting
}

/// The transition table: new state and action for each state and event.
pub open spec fn transition(s: Supervisor, e: LifecycleEvent) -> (Supervisor, LifecycleAction) {
    let st = s.status;
    match e {
        LifecycleEvent::StartRequested => {
            if st == McpServerStatus::Stopped || st == McpServerStatus::Error {
                (
                    Supervisor {
                        status: McpServerStatus::Starting,
                        failures: 0,
                        check_failures: 0,
                        ..s
                    },
                    LifecycleAction::Spawn,
                )
            } else {
                (s, LifecycleAction::Nothing)
            }
        },
        LifecycleEvent::SpawnFailed => {
            if st == McpServerStatus::Starting {
                (Supervisor { status: McpServerStatus::Stopped, ..s }, LifecycleAction::Nothing)
            } else {
                (s, LifecycleAction::Nothing)
            }
        },
        LifecycleEvent::HandshakeSucceeded => {
            if st == McpServerStatus::Starting {
                (
                    Supervisor { status: McpServerStatus::Running, failures: 0, ..s },
                    LifecycleAction::Nothing,
                )
            } else {
                (s, LifecycleAction::Nothing)
            }
        },
        LifecycleEvent::HandshakeFailed => {
            if st == McpServerStatus::Starting {
                after_failed_start(s)
            } else {
                (s, LifecycleAction::Nothing)
            }
        },
        LifecycleEvent::ProcessExited => {
            if st == McpServerStatus::Starting || st == McpServerStatus::Running {
                after_failed_start(s)
            } else {
                (s, LifecycleAction::Nothing)
            }
        },
        LifecycleEvent::BackoffElapsed => {
            if st == McpServerStatus::Restarting {
                (Supervisor { status: McpServerStatus::Starting, ..s }, LifecycleAction::Spawn)
            } else {
                (s, LifecycleAction::Nothing)
            }
        },
        LifecycleEvent::StopRequested => {
            if is_active(st) {
                (
                    Supervisor { status: McpServerStatus::Stopped, check_failures: 0, ..s },
                    LifecycleAction::Terminate,
                )
            } else {
                (s, LifecycleAction::Nothing)
            }
        },
        LifecycleEvent::CheckSucceeded => {
            (Supervisor { check_failures: 0, ..s }, LifecycleAction::Nothing)
        },
        LifecycleEvent::CheckFailed => {
            let c = inc(s.check_failures);
            if (st == McpServerStatus::Starting || st == McpServerStatus::Running) && c
                >= s.error_budget {
                (
                    Supervisor { status: McpServerStatus::Error, check_failures: c, ..s },
                    LifecycleAction::Terminate,
                )
            } else {
                (Supervisor { check_failures: c, ..s }, LifecycleAction::Nothing)
            }
        },
    }
}

fn inc_exec(n: u32) -> (r: u32)
    ensures
        r == inc(n),
{
    if n < u32::MAX {
        n + 1
    } else {
        n
    }
}

impl Supervisor {
    /// A stopped supervisor with the default restart and error budgets.
    pub fn new(auto_restart: bool) -> (r: Self)
        ensures
            r.status == McpServerStatus::Stopped,
            r.auto_restart == auto_restart,
            r.failures == 0,
            r.check_failures == 0,
            r.max_restarts == DEFAULT_MAX_RESTARTS,
            r.error_budget == DEFAULT_ERROR_BUDGET,
    {
        Supervisor {
            status: McpServerStatus::Stopped,
            auto_restart,
            failures: 0,
            max_restarts: DEFAULT_MAX_RESTARTS,
            check_failures: 0,
            error_budget: DEFAULT_ERROR_BUDGET,
        }
    }

    /// Whether the process is up and answering.
    pub fn is_running(&self) -> (r: bool)
        ensures
            r == (self.status == McpServerStatus::Running),
    {
        self.status == McpServerStatus::Running
    }

    fn fail_start(&mut self) -> (a: LifecycleAction)
        ensures
            (*final(self), a) == after_failed_start(*old(self)),
    {
        let f = inc_exec(self.failures);
        self.failures = f;
        if self.auto_restart && f < self.max_restarts {
            self.status = McpServerStatus::Restarting;
            LifecycleAction::ScheduleRestart { delay_ms: backoff_delay_ms(f) }
        } else {
            self.status = McpServerStatus::Error;
            LifecycleAction::Terminate
        }
    }

    /// Applies one event: the new state and the action are those of
    /// [`transition`].
    pub fn step(&mut self, e: LifecycleEvent) -> (a: LifecycleAction)
        ensures
            (*final(self), a) == transition(*old(self), e),
    {
        let st = self.status;
        match e {
            LifecycleEvent::StartRequested => {
                if st == McpServerStatus::Stopped || st == McpServerStatus::Error {
                    self.status = McpServerStatus::Starting;
                    self.failures = 0;
                    self.check_failures = 0;
                    LifecycleAction::Spawn
                } else {
                    LifecycleAction::Nothing
                }
            },
            LifecycleEvent::SpawnFailed => {
                if st == McpServerStatus::Starting {
                    self.status = McpServerStatus::Stopped;
                }
                LifecycleAction::Nothing
            },
            LifecycleEvent::HandshakeSucceeded => {
                if st == McpServerStatus::Starting {
                    self.status = McpServerStatus::Running;
                    self.failures = 0;
                }
                LifecycleAction::Nothing
            },
            LifecycleEvent::HandshakeFailed => {
                if st == McpServerStatus::Starting {
                    self.fail_start()
                } else {
                    LifecycleAction::Nothing
                }
            },
            LifecycleEvent::ProcessExited => {
                if st == McpServerStatus::Starting || st == McpServerStatus::Running {
                    self.fail_start()
                } else {
                    LifecycleAction::Nothing
                }
            },
            LifecycleEvent::BackoffElapsed => {
                if st == McpServerStatus::Restarting {
                    self.status = McpServerStatus::Starting;
                    LifecycleAction::Spawn
                } else {
                    LifecycleAction::Nothing
                }
            },
            LifecycleEvent::StopRequested => {
                if st == McpServerStatus::Starting || st == McpServerStatus::Running || st
                    == McpServerStatus::Restarting {
                    self.status = McpServerStatus::Stopped;
                    self.check_failures = 0;
                    LifecycleAction::Terminate
                } else {
                    LifecycleAction::Nothing
                }
            },
            LifecycleEvent::CheckSucceeded => {
                self.check_failures = 0;
                LifecycleAction::Nothing
            },
            LifecycleEvent::CheckFailed => {
                let c = inc_exec(self.check_failures);
                self.check_failures = c;
                if (st == McpServerStatus::Starting || st == McpServerStatus::Running) && c
                    >= self.error_budget {
                    self.status = McpServerStatus::Error;
                    LifecycleAction::Terminate
                } else {
                    LifecycleAction::Nothing
                }
            },
        }
    }
}

/// Once in `Error`, only an explicit start moves a supervisor: every other
/// event leaves it in `Error`.
pub proof fn lemma_error_is_terminal(s: Supervisor, e: LifecycleEvent)
    requires
        s.status == McpServerStatus::Error,
        e != LifecycleEvent::StartRequested,
    ensures
        transition(s, e).0.status == McpServerStatus::Error,
{
}

/// A stop request always ends in `Stopped` when the process was active, and
/// never leaves a state in which it could keep a process alive.
pub proof fn lemma_stop_stops(s: Supervisor)
    ensures
        is_active(s.status) ==> transition(s, LifecycleEvent::StopRequested).0.status
            == McpServerStatus::Stopped && transition(s, LifecycleEvent::StopRequested).1
            == LifecycleAction::Terminate,
        !is_active(transition(s, LifecycleEvent::StopRequested).0.status),
{
}

/// The state after a start request followed by `n` rounds of a failed
/// handshake and (while restarting) an elapsed backoff.
pub open spec fn failing_rounds(s: Supervisor, n: nat) -> Supervisor
    decreases n,
{
    if n == 0 {
        transition(s, LifecycleEvent::StartRequested).0
    } else {
        let prev = failing_rounds(s, (n - 1) as nat);
        let failed = transition(prev, LifecycleEvent::HandshakeFailed).0;
        transition(failed, LifecycleEvent::BackoffElapsed).0
    }
}

/// A server whose handshake always fails never reaches `Running`: after a
/// start it keeps cycling through `Starting` and `Restarting` for fewer than
/// `max_restarts` failures (when restarts are enabled), and from the
/// `max_restarts`-th failure on it sits in `Error`.
pub proof fn lemma_failing_handshake_settles_in_error(s: Supervisor, n: nat)
    requires
        s.status == McpServerStatus::Stopped || s.status == McpServerStatus::Error,
        s.max_restarts < u32::MAX,
    ensures
        failing_rounds(s, n).status != McpServerStatus::Running,
        failing_rounds(s, n).auto_restart == s.auto_restart,
        failing_rounds(s, n).max_restarts == s.max_restarts,
        n == 0 ==> failing_rounds(s, n).status == McpServerStatus::Starting && failing_rounds(
            s,
            n,
        ).failures == 0,
        s.auto_restart && n < s.max_restarts ==> failing_rounds(s, n).status
            == McpServerStatus::Starting
            && failing_rounds(s, n).failures == n,
        n >= s.max_restarts && s.max_restarts > 0 ==> failing_rounds(s, n).status
            == McpServerStatus::Error,
        n >= 1 && !s.auto_restart ==> failing_rounds(s, n).status == McpServerStatus::Error,
    decreases n,
{
    if n > 0 {
        lemma_failing_handshake_settles_in_error(s, (n - 1) as nat);
        let prev = failing_rounds(s, (n - 1) as nat);
        let failed = transition(prev, LifecycleEvent::HandshakeFailed).0;
        assert(failing_rounds(s, n) == transition(failed, LifecycleEvent::BackoffElapsed).0);
    }
}

} // verus!
