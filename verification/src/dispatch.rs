//! Dispatch worker pool and per-sender interruption coordinator.
//!
//! The pool is modelled as a state machine over a task table: a task is
//! submitted for a message, may start only while a semaphore permit is
//! free, runs the pipeline, finishes, and signals completion. For an
//! interruption-enabled scope the admission rule cancels the previous
//! in-flight task and refuses to start a task until every earlier task of
//! the same scope has signalled completion. The well-formedness invariant
//! carries the two concurrency guarantees: never more running tasks than
//! the configured maximum, and per-scope serialisation under interruption.
//! The runtime loop that performs the waiting lives outside the library;
//! every transition here is total and checks its own guards.

use vstd::prelude::*;

verus! {

/// Lower bound on the computed in-flight limit.
pub const MIN_IN_FLIGHT_MESSAGES: usize = 4;

/// Upper bound on the computed in-flight limit.
pub const MAX_IN_FLIGHT_MESSAGES: usize = 32;

/// Worker tasks granted per configured channel.
pub const IN_FLIGHT_PER_CHANNEL: usize = 4;

/// Size the worker pool from the number of configured channels: more
/// channels give more concurrency, bounded above and below by fixed
/// constants.
pub fn compute_max_in_flight_messages(channel_count: usize) -> (r: usize)
    ensures
        MIN_IN_FLIGHT_MESSAGES <= r <= MAX_IN_FLIGHT_MESSAGES,
        r == if channel_count * IN_FLIGHT_PER_CHANNEL < MIN_IN_FLIGHT_MESSAGES {
            MIN_IN_FLIGHT_MESSAGES as int
        } else if channel_count * IN_FLIGHT_PER_CHANNEL > MAX_IN_FLIGHT_MESSAGES {
            MAX_IN_FLIGHT_MESSAGES as int
        } else {
            channel_count * IN_FLIGHT_PER_CHANNEL
        },
{
    if channel_count >= MAX_IN_FLIGHT_MESSAGES / IN_FLIGHT_PER_CHANNEL {
        MAX_IN_FLIGHT_MESSAGES
    } else {
        let scaled = channel_count * IN_FLIGHT_PER_CHANNEL;
        if scaled < MIN_IN_FLIGHT_MESSAGES {
            MIN_IN_FLIGHT_MESSAGES
        } else {
            scaled
        }
    }
}

// ---------------------------------------------------------------------------
// Supervised listener backoff
// ---------------------------------------------------------------------------

/// Floor for the configured initial listener backoff, in seconds.
pub const DEFAULT_CHANNEL_INITIAL_BACKOFF_SECS: u64 = 2;

/// Floor for the configured maximum listener backoff, in seconds.
pub const DEFAULT_CHANNEL_MAX_BACKOFF_SECS: u64 = 300;

/// Restart-delay state of one supervised channel listener.
pub struct ListenerBackoff {
    pub current_secs: u64,
    pub max_secs: u64,
}

/// Why one round of a channel's listen loop ended.
#[derive(Clone, Copy, Debug, PartialEq, Eq, Structural)]
pub enum ListenOutcome {
    /// The shared sink was closed: the listener must return cleanly.
    SinkClosed,
    /// The connection failed: the listener restarts after a delay.
    Failed,
}

/// What the supervisor does next.
#[derive(Clone, Copy, Debug, PartialEq, Eq, Structural)]
pub enum ListenerDecision {
    Stop,
    RetryAfterSecs(u64),
}

impl ListenerBackoff {
    /// Apply the configured floors to the reliability settings.
    pub fn new(initial_secs: u64, max_secs: u64) -> (r: ListenerBackoff)
        ensures
            r.current_secs == if initial_secs > DEFAULT_CHANNEL_INITIAL_BACKOFF_SECS {
                initial_secs as int
            } else {
                DEFAULT_CHANNEL_INITIAL_BACKOFF_SECS as int
            },
            r.max_secs == if max_secs > DEFAULT_CHANNEL_MAX_BACKOFF_SECS {
                max_secs as int
            } else {
                DEFAULT_CHANNEL_MAX_BACKOFF_SECS as int
            },
    {
        ListenerBackoff {
            current_secs: if initial_secs > DEFAULT_CHANNEL_INITIAL_BACKOFF_SECS {
                initial_secs
            } else {
                DEFAULT_CHANNEL_INITIAL_BACKOFF_SECS
            },
            max_secs: if max_secs > DEFAULT_CHANNEL_MAX_BACKOFF_SECS {
                max_secs
            } else {
                DEFAULT_CHANNEL_MAX_BACKOFF_SECS
            },
        }
    }

    /// One step of the supervision loop: stop when the sink is closed;
    /// on a failure, sleep for the current delay and double it up to the
    /// ceiling. The delay never resets during the life of the listener.
    pub fn step(&mut self, outcome: ListenOutcome) -> (d: ListenerDecision)
        ensures
            outcome == ListenOutcome::SinkClosed ==> d == ListenerDecision::Stop && *final(self)
                == *old(self),
            outcome == ListenOutcome::Failed ==> {
                &&& d == ListenerDecision::RetryAfterSecs(old(self).current_secs)
                &&& final(self).max_secs == old(self).max_secs
                &&& final(self).current_secs == if 2 * old(self).current_secs < old(self).max_secs {
                    2 * old(self).current_secs
                } else {
                    old(self).max_secs as int
                }
            },
    {
        match outcome {
            ListenOutcome::SinkClosed => ListenerDecision::Stop,
            ListenOutcome::Failed => {
                let delay = self.current_secs;
                let doubled = if self.current_secs <= u64::MAX / 2 {
                    self.current_secs * 2
                } else {
                    u64::MAX
                };
                self.current_secs = if doubled < self.max_secs {
                    doubled
                } else {
                    self.max_secs
                };
                ListenerDecision::RetryAfterSecs(delay)
            },
        }
    }
}

// ---------------------------------------------------------------------------
// Worker pool and interruption coordinator
// ---------------------------------------------------------------------------

/// Execution phase of one worker task.
#[derive(Clone, Copy, Debug, PartialEq, Eq, Structural)]
pub enum TaskPhase {
    /// Submitted, pipeline body not started.
    Waiting,
    /// Pipeline body running.
    Running,
    /// Pipeline body finished.
    Done,
}

/// The coordinator's record of one worker task.
pub struct WorkerTask {
    /// Monotonic identifier, assigned at submission.
    pub task_id: u64,
    /// Interruption scope key (`channel:sender`).
    pub scope: String,
    /// Whether interruption is enabled for the message's channel.
    pub interrupt: bool,
    pub phase: TaskPhase,
    /// The cancellation token was fired by a superseding task.
    pub cancel_requested: bool,
    /// The one-shot completion signal was marked done.
    pub completion_signalled: bool,
}

/// Number of tasks of a table that are currently running.
pub open spec fn running_count(ts: Seq<WorkerTask>) -> int
    decreases ts.len(),
{
    if ts.len() == 0 {
        0
    } else {
        running_count(ts.drop_last()) + if ts.last().phase == TaskPhase::Running {
            1int
        } else {
            0int
        }
    }
}

proof fn lemma_running_count_update(ts: Seq<WorkerTask>, i: int, t: WorkerTask)
    requires
        0 <= i < ts.len(),
    ensures
        running_count(ts.update(i, t)) == running_count(ts) + (if t.phase == TaskPhase::Running {
            1int
        } else {
            0int
        }) - (if ts[i].phase == TaskPhase::Running {
            1int
        } else {
            0int
        }),
    decreases ts.len(),
{
    let u = ts.update(i, t);
    if i == ts.len() - 1 {
        assert(u.drop_last() =~= ts.drop_last());
    } else {
        assert(u.drop_last() =~= ts.drop_last().update(i, t));
        assert(u.last() == ts.last());
        lemma_running_count_update(ts.drop_last(), i, t);
    }
}

proof fn lemma_running_count_nonneg(ts: Seq<WorkerTask>)
    ensures
        running_count(ts) >= 0,
    decreases ts.len(),
{
    if ts.len() > 0 {
        lemma_running_count_nonneg(ts.drop_last());
    }
}

proof fn lemma_running_count_positive(ts: Seq<WorkerTask>, i: int)
    requires
        0 <= i < ts.len(),
        ts[i].phase == TaskPhase::Running,
    ensures
        running_count(ts) >= 1,
    decreases ts.len(),
{
    if i == ts.len() - 1 {
        lemma_running_count_nonneg(ts.drop_last());
    } else {
        lemma_running_count_positive(ts.drop_last(), i);
        assert(running_count(ts) >= running_count(ts.drop_last()));
    }
}

proof fn lemma_running_count_same_phases(a: Seq<WorkerTask>, b: Seq<WorkerTask>)
    requires
        a.len() == b.len(),
        forall|i: int| 0 <= i < a.len() ==> #[trigger] a[i].phase == #[trigger] b[i].phase,
    ensures
        running_count(a) == running_count(b),
    decreases a.len(),
{
    if a.len() > 0 {
        lemma_running_count_same_phases(a.drop_last(), b.drop_last());
    }
}

proof fn lemma_running_count_push(ts: Seq<WorkerTask>, t: WorkerTask)
    ensures
        running_count(ts.push(t)) == running_count(ts) + (if t.phase == TaskPhase::Running {
            1int
        } else {
            0int
        }),
{
    assert(ts.push(t).drop_last() =~= ts);
}

/// Two tasks contend for the same interruption scope.
pub open spec fn same_interrupt_scope(a: WorkerTask, b: WorkerTask) -> bool {
    a.interrupt && b.interrupt && a.scope@ == b.scope@
}

/// No earlier task of the given task's interruption scope is still
/// waiting to signal completion.
pub open spec fn scope_clear(ts: Seq<WorkerTask>, idx: int) -> bool {
    forall|t: int|
        0 <= t < ts.len() && same_interrupt_scope(#[trigger] ts[t], ts[idx]) && ts[t].task_id
            < ts[idx].task_id ==> ts[t].completion_signalled
}

/// The admission rule: a task may start exactly when it is still
/// waiting, a permit is free, and — under interruption — every earlier
/// task of its scope has signalled completion.
pub open spec fn can_start(pool: DispatchPool, idx: int) -> bool {
    &&& pool.tasks@[idx].phase == TaskPhase::Waiting
    &&& pool.running < pool.max_in_flight
    &&& (pool.tasks@[idx].interrupt ==> scope_clear(pool.tasks@, idx))
}

/// The dispatch pool: a semaphore of `max_in_flight` permits, the task
/// table, and the monotonically increasing task-id counter.
pub struct DispatchPool {
    pub max_in_flight: usize,
    pub running: usize,
    pub next_task_id: u64,
    pub tasks: Vec<WorkerTask>,
}

impl DispatchPool {
    /// Well-formedness: the permit count matches the table, never more
    /// running tasks than permits, ids unique and below the counter, and
    /// per-scope serialisation — a task that has started implies every
    /// earlier task of its interruption scope has signalled completion.
    pub open spec fn wf(&self) -> bool {
        &&& self.max_in_flight >= 1
        &&& self.running == running_count(self.tasks@)
        &&& self.running <= self.max_in_flight
        &&& forall|i: int, j: int|
            0 <= i < self.tasks@.len() && 0 <= j < self.tasks@.len() && i != j
                ==> #[trigger] self.tasks@[i].task_id != #[trigger] self.tasks@[j].task_id
        &&& forall|i: int|
            0 <= i < self.tasks@.len() ==> #[trigger] self.tasks@[i].task_id < self.next_task_id
        &&& forall|i: int, j: int|
            0 <= i < self.tasks@.len() && 0 <= j < self.tasks@.len() && same_interrupt_scope(
                #[trigger] self.tasks@[i],
                #[trigger] self.tasks@[j],
            ) && self.tasks@[i].task_id < self.tasks@[j].task_id && self.tasks@[j].phase
                != TaskPhase::Waiting ==> self.tasks@[i].completion_signalled
    }

    pub fn new(max_in_flight: usize) -> (r: DispatchPool)
        requires
            max_in_flight >= 1,
        ensures
            r.wf(),
            r.tasks@.len() == 0,
            r.max_in_flight == max_in_flight,
    {
        DispatchPool { max_in_flight, running: 0, next_task_id: 1, tasks: Vec::new() }
    }

    /// Record a new task for an inbound message. The task starts in the
    /// waiting phase; nothing is cancelled yet.
    pub fn submit(&mut self, scope: String, interrupt: bool) -> (idx: usize)
        requires
            old(self).wf(),
            old(self).next_task_id < u64::MAX,
        ensures
            final(self).wf(),
            idx == old(self).tasks@.len(),
            final(self).tasks@.len() == old(self).tasks@.len() + 1,
            final(self).tasks@[idx as int].scope@ == scope@,
            final(self).tasks@[idx as int].interrupt == interrupt,
            final(self).tasks@[idx as int].phase == TaskPhase::Waiting,
            final(self).tasks@[idx as int].task_id == old(self).next_task_id,
            forall|k: int|
                0 <= k < old(self).tasks@.len() ==> final(self).tasks@[k] == old(self).tasks@[k],
            final(self).max_in_flight == old(self).max_in_flight,
            final(self).running == old(self).running,
    {
        let idx = self.tasks.len();
        let task = WorkerTask {
            task_id: self.next_task_id,
            scope,
            interrupt,
            phase: TaskPhase::Waiting,
            cancel_requested: false,
            completion_signalled: false,
        };
        proof {
            lemma_running_count_push(self.tasks@, task);
        }
        self.tasks.push(task);
        self.next_task_id = self.next_task_id + 1;
        idx
    }

    /// Fire the cancellation token of every earlier unfinished task that
    /// shares the given task's interruption scope — the "interrupt the
    /// previous in-flight request" step. Phases are untouched; a
    /// cancelled task still runs to its own completion signal.
    pub fn cancel_predecessors(&mut self, idx: usize)
        requires
            old(self).wf(),
            idx < old(self).tasks@.len(),
        ensures
            final(self).wf(),
            final(self).tasks@.len() == old(self).tasks@.len(),
            forall|k: int|
                0 <= k < old(self).tasks@.len() ==> {
                    let t = old(self).tasks@[k];
                    #[trigger] final(self).tasks@[k] == if k != idx && same_interrupt_scope(
                        t,
                        old(self).tasks@[idx as int],
                    ) && t.task_id < old(self).tasks@[idx as int].task_id
                        && !t.completion_signalled {
                        WorkerTask { cancel_requested: true, ..t }
                    } else {
                        t
                    }
                },
            final(self).max_in_flight == old(self).max_in_flight,
            final(self).running == old(self).running,
            final(self).next_task_id == old(self).next_task_id,
    {
        let me_id = self.tasks[idx].task_id;
        let me_interrupt = self.tasks[idx].interrupt;
        let me_scope = self.tasks[idx].scope.clone();
        let n = self.tasks.len();
        let mut k: usize = 0;
        while k < n
            invariant
                old(self).wf(),
                n == old(self).tasks@.len(),
                n == self.tasks@.len(),
                idx < n,
                k <= n,
                me_id == old(self).tasks@[idx as int].task_id,
                me_interrupt == old(self).tasks@[idx as int].interrupt,
                me_scope@ == old(self).tasks@[idx as int].scope@,
                self.max_in_flight == old(self).max_in_flight,
                self.running == old(self).running,
                self.next_task_id == old(self).next_task_id,
                forall|t: int|
                    k <= t < n ==> #[trigger] self.tasks@[t] == old(self).tasks@[t],
                forall|t: int|
                    0 <= t < n ==> {
                        let ot = old(self).tasks@[t];
                        let nt = #[trigger] self.tasks@[t];
                        nt.task_id == ot.task_id && nt.scope@ == ot.scope@ && nt.interrupt
                            == ot.interrupt && nt.phase == ot.phase && nt.completion_signalled
                            == ot.completion_signalled
                    },
                forall|t: int|
                    0 <= t < k ==> #[trigger] self.tasks@[t] == ({
                        let ot = old(self).tasks@[t];
                        if t != idx && same_interrupt_scope(ot, old(self).tasks@[idx as int])
                            && ot.task_id < old(self).tasks@[idx as int].task_id
                            && !ot.completion_signalled {
                            WorkerTask { cancel_requested: true, ..ot }
                        } else {
                            ot
                        }
                    }),
            decreases n - k,
        {
            let should = k != idx && me_interrupt && self.tasks[k].interrupt && crate::text::str_eq(
                self.tasks[k].scope.as_str(),
                me_scope.as_str(),
            ) && self.tasks[k].task_id < me_id && !self.tasks[k].completion_signalled;
            if should {
                let ghost before = self.tasks@;
                let cur_id = self.tasks[k].task_id;
                let cur_interrupt = self.tasks[k].interrupt;
                let cur_phase = self.tasks[k].phase;
                let cur_signalled = self.tasks[k].completion_signalled;
                let cur_scope = self.tasks[k].scope.clone();
                let updated = WorkerTask {
                    task_id: cur_id,
                    scope: cur_scope,
                    interrupt: cur_interrupt,
                    phase: cur_phase,
                    cancel_requested: true,
                    completion_signalled: cur_signalled,
                };
                proof {
                    lemma_running_count_update(self.tasks@, k as int, updated);
                }
                self.tasks.set(k, updated);
                proof {
                    assert(self.tasks@[k as int].scope@ == before[k as int].scope@);
                    assert(self.tasks@ =~= before.update(
                        k as int,
                        (WorkerTask { cancel_requested: true, ..before[k as int] }),
                    ));
                }
            }
            k = k + 1;
        }
        proof {
            lemma_running_count_same_phases(self.tasks@, old(self).tasks@);
            assert forall|i: int, j: int|
                0 <= i < self.tasks@.len() && 0 <= j < self.tasks@.len() && same_interrupt_scope(
                    #[trigger] self.tasks@[i],
                    #[trigger] self.tasks@[j],
                ) && self.tasks@[i].task_id < self.tasks@[j].task_id && self.tasks@[j].phase
                    != TaskPhase::Waiting implies self.tasks@[i].completion_signalled by {
                assert(same_interrupt_scope(old(self).tasks@[i], old(self).tasks@[j]));
                assert(old(self).tasks@[j].phase != TaskPhase::Waiting);
                assert(old(self).tasks@[i].completion_signalled);
            }
        }
    }

    /// Whether the task's cancellation token has been fired.
    pub fn is_cancel_requested(&self, idx: usize) -> (r: bool)
        requires
            idx < self.tasks@.len(),
        ensures
            r == self.tasks@[idx as int].cancel_requested,
    {
        self.tasks[idx].cancel_requested
    }

    /// Try to start the pipeline body of a waiting task. Succeeds
    /// exactly when [`can_start`] admits it: a permit is free and, for
    /// an interruption-enabled scope, every earlier task of the scope
    /// has signalled completion — the admission rule that gives
    /// per-sender serialisation.
    pub fn try_start(&mut self, idx: usize) -> (started: bool)
        requires
            old(self).wf(),
            idx < old(self).tasks@.len(),
        ensures
            final(self).wf(),
            final(self).tasks@.len() == old(self).tasks@.len(),
            started == can_start(*old(self), idx as int),
            !started ==> *final(self) == *old(self),
            started ==> {
                &&& old(self).tasks@[idx as int].phase == TaskPhase::Waiting
                &&& old(self).running < old(self).max_in_flight
                &&& final(self).tasks@ == old(self).tasks@.update(
                    idx as int,
                    (WorkerTask { phase: TaskPhase::Running, ..old(self).tasks@[idx as int] }),
                )
                &&& final(self).running == old(self).running + 1
            },
            final(self).max_in_flight == old(self).max_in_flight,
    {
        if self.running >= self.max_in_flight {
            return false;
        }
        if !matches!(self.tasks[idx].phase, TaskPhase::Waiting) {
            return false;
        }
        let me_id = self.tasks[idx].task_id;
        let me_interrupt = self.tasks[idx].interrupt;
        let me_scope = self.tasks[idx].scope.clone();
        if me_interrupt {
            let n = self.tasks.len();
            let mut k: usize = 0;
            while k < n
                invariant
                    old(self).wf(),
                    n == self.tasks@.len(),
                    idx < n,
                    k <= n,
                    *self == *old(self),
                    me_id == self.tasks@[idx as int].task_id,
                    me_interrupt == self.tasks@[idx as int].interrupt,
                    me_scope@ == self.tasks@[idx as int].scope@,
                    me_interrupt,
                    forall|t: int|
                        0 <= t < k && same_interrupt_scope(
                            #[trigger] self.tasks@[t],
                            self.tasks@[idx as int],
                        ) && self.tasks@[t].task_id < me_id
                            ==> self.tasks@[t].completion_signalled,
                decreases n - k,
            {
                let blocking = self.tasks[k].interrupt && crate::text::str_eq(
                    self.tasks[k].scope.as_str(),
                    me_scope.as_str(),
                ) && self.tasks[k].task_id < me_id && !self.tasks[k].completion_signalled;
                if blocking {
                    return false;
                }
                k = k + 1;
            }
        }
        let cur = WorkerTask {
            task_id: me_id,
            scope: me_scope,
            interrupt: me_interrupt,
            phase: TaskPhase::Running,
            cancel_requested: self.tasks[idx].cancel_requested,
            completion_signalled: self.tasks[idx].completion_signalled,
        };
        proof {
            lemma_running_count_update(self.tasks@, idx as int, cur);
        }
        let ghost before = self.tasks@;
        self.tasks.set(idx, cur);
        self.running = self.running + 1;
        proof {
            assert(self.tasks@ =~= before.update(
                idx as int,
                (WorkerTask { phase: TaskPhase::Running, ..before[idx as int] }),
            ));
            assert forall|i: int, j: int|
                0 <= i < self.tasks@.len() && 0 <= j < self.tasks@.len() && same_interrupt_scope(
                    #[trigger] self.tasks@[i],
                    #[trigger] self.tasks@[j],
                ) && self.tasks@[i].task_id < self.tasks@[j].task_id && self.tasks@[j].phase
                    != TaskPhase::Waiting implies self.tasks@[i].completion_signalled by {
                assert(same_interrupt_scope(before[i], before[j]));
            }
        }
        true
    }

    /// The pipeline body of a running task ended (in any outcome): the
    /// permit is released.
    pub fn finish(&mut self, idx: usize)
        requires
            old(self).wf(),
            idx < old(self).tasks@.len(),
            old(self).tasks@[idx as int].phase == TaskPhase::Running,
        ensures
            final(self).wf(),
            final(self).tasks@ == old(self).tasks@.update(
                idx as int,
                (WorkerTask { phase: TaskPhase::Done, ..old(self).tasks@[idx as int] }),
            ),
            final(self).running == old(self).running - 1,
            final(self).max_in_flight == old(self).max_in_flight,
    {
        let t = WorkerTask {
            task_id: self.tasks[idx].task_id,
            scope: self.tasks[idx].scope.clone(),
            interrupt: self.tasks[idx].interrupt,
            phase: TaskPhase::Done,
            cancel_requested: self.tasks[idx].cancel_requested,
            completion_signalled: self.tasks[idx].completion_signalled,
        };
        proof {
            lemma_running_count_update(self.tasks@, idx as int, t);
            lemma_running_count_positive(self.tasks@, idx as int);
        }
        let ghost before = self.tasks@;
        self.tasks.set(idx, t);
        self.running = self.running - 1;
        proof {
            assert(self.tasks@ =~= before.update(
                idx as int,
                (WorkerTask { phase: TaskPhase::Done, ..before[idx as int] }),
            ));
            assert forall|i: int, j: int|
                0 <= i < self.tasks@.len() && 0 <= j < self.tasks@.len() && same_interrupt_scope(
                    #[trigger] self.tasks@[i],
                    #[trigger] self.tasks@[j],
                ) && self.tasks@[i].task_id < self.tasks@[j].task_id && self.tasks@[j].phase
                    != TaskPhase::Waiting implies self.tasks@[i].completion_signalled by {
                assert(same_interrupt_scope(before[i], before[j]));
            }
        }
    }

    /// Mark the task's one-shot completion signal. Idempotent; allowed
    /// only after the body is done, as in the worker that signals after
    /// removing its map entry.
    pub fn signal_completion(&mut self, idx: usize)
        requires
            old(self).wf(),
            idx < old(self).tasks@.len(),
            old(self).tasks@[idx as int].phase == TaskPhase::Done,
        ensures
            final(self).wf(),
            final(self).tasks@ == old(self).tasks@.update(
                idx as int,
                (WorkerTask { completion_signalled: true, ..old(self).tasks@[idx as int] }),
            ),
            final(self).running == old(self).running,
            final(self).max_in_flight == old(self).max_in_flight,
    {
        let t = WorkerTask {
            task_id: self.tasks[idx].task_id,
            scope: self.tasks[idx].scope.clone(),
            interrupt: self.tasks[idx].interrupt,
            phase: TaskPhase::Done,
            cancel_requested: self.tasks[idx].cancel_requested,
            completion_signalled: true,
        };
        proof {
            lemma_running_count_update(self.tasks@, idx as int, t);
        }
        let ghost before = self.tasks@;
        self.tasks.set(idx, t);
        proof {
            assert(self.tasks@ =~= before.update(
                idx as int,
                (WorkerTask { completion_signalled: true, ..before[idx as int] }),
            ));
            assert forall|i: int, j: int|
                0 <= i < self.tasks@.len() && 0 <= j < self.tasks@.len() && same_interrupt_scope(
                    #[trigger] self.tasks@[i],
                    #[trigger] self.tasks@[j],
                ) && self.tasks@[i].task_id < self.tasks@[j].task_id && self.tasks@[j].phase
                    != TaskPhase::Waiting implies self.tasks@[i].completion_signalled by {
                assert(same_interrupt_scope(before[i], before[j]));
            }
        }
    }
}

/// Law: the worker pool never runs more pipeline tasks at once than the
/// configured in-flight maximum.
pub proof fn lemma_pool_bounds_concurrency(p: DispatchPool)
    requires
        p.wf(),
    ensures
        running_count(p.tasks@) <= p.max_in_flight,
{
}

/// Law: under interruption, work on one scope is serialised — whenever a
/// later task of an interruption scope has started its pipeline body,
/// every earlier task of that scope has already fired its completion
/// signal.
pub proof fn lemma_interruption_serialises_scope(p: DispatchPool, i: int, j: int)
    requires
        p.wf(),
        0 <= i < p.tasks@.len(),
        0 <= j < p.tasks@.len(),
        same_interrupt_scope(p.tasks@[i], p.tasks@[j]),
        p.tasks@[i].task_id < p.tasks@[j].task_id,
        p.tasks@[j].phase != TaskPhase::Waiting,
    ensures
        p.tasks@[i].completion_signalled,
{
}

} // verus!
