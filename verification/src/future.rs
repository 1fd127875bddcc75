//! A future that can be cancelled through an explicit `CancellationHandle`.
//!
//! In a running system the task, the handle and the observers live on
//! different workers and share state through an atomic flag, mutexes and
//! one-shot channels. This module verifies that protocol as a
//! single-threaded operational model: the state every party shares is held in
//! one place, each cross-task interaction (a poll of the task, a cancel, a
//! poll of an observer, a drop) is an explicit transition with a contract,
//! and the user computation is a small scripted program interpreted at every
//! poll. Spec-level mirrors (`spec_poll`, `spec_cancel`, ...) state each
//! transition exactly; the protocol-level guarantees are proved over those
//! mirrors in the `laws` module.

use vstd::prelude::*;

use crate::context::{
    CancellationNotification, CriticalSectionGuard, ExecutionContextData, spec_notify,
};

verus! {

/// The terminal outcome a cancellation handle's observer reports.
#[derive(Clone, Copy, PartialEq, Eq, Structural, Debug)]
pub enum TerminationStatus {
    /// The computation returned a value.
    Finished,
    /// The task resolved to `None` because cancellation was requested and
    /// honoured.
    Cancelled,
    /// The task was destroyed before reaching a terminal transition.
    ExecutorShutdown,
}

/// Lifecycle of the task as the shared state records it. In the running
/// system `Polled` stores the first waker and `Cancelled` parks the reply
/// sender; the model keeps the sender's whereabouts in the system invariant.
#[derive(Clone, Copy, PartialEq, Eq, Structural, Debug)]
pub enum State {
    /// Constructed but not yet polled.
    Pending,
    /// Polled at least once; a waker is stored.
    Polled,
    /// Cancellation was requested while the task was still live; the reply
    /// sender is parked here until the task reaches its final poll.
    Cancelled,
    /// The task has returned from its final poll.
    Exited,
}

/// The state shared between the task and its cancellation handle: the
/// monotonic cancel flag and the guarded lifecycle state.
pub struct SharedStateData {
    /// When set, this future has been cancelled and should attempt to exit
    /// as soon as possible. The flag is set strictly before any transition
    /// into `Cancelled` and is never cleared.
    pub cancelled: bool,
    pub state: State,
}

/// Model of the one-shot channel that reports the task's termination: at most
/// one value is ever sent, and a sender dropped without sending is recorded
/// so that observers can report `ExecutorShutdown`.
pub struct ReplyChannel {
    pub sent: Option<TerminationStatus>,
    pub sender_dropped: bool,
}

impl ReplyChannel {
    /// Send the one value this channel will ever carry.
    pub fn send(&mut self, status: TerminationStatus)
        requires
            old(self).sent is None,
            !old(self).sender_dropped,
        ensures
            final(self).sent == Some(status),
            !final(self).sender_dropped,
    {
        self.sent = Some(status);
    }
}

/// One suspension-point-delimited action of the scripted user computation.
#[derive(Clone, Copy, PartialEq, Eq, Structural, Debug)]
pub enum Step {
    /// Take a hold that defers cancellation (a critical section opens).
    EnterCriticalSection,
    /// Take a hold and receive a cancellation observer (a structured
    /// cancellation scope opens).
    EnterStructuredCancellation,
    /// Give the innermost hold back (the scope's guard is consumed or
    /// dropped).
    ExitCriticalSection,
    /// Await the cancellation observer: proceeds only once the notification
    /// has fired, else the computation suspends here.
    AwaitObserver,
    /// Suspend once and resume at the next poll.
    YieldOnce,
    /// Suspend forever.
    PendForever,
    /// Ask to disable cancellation for the rest of the task's life, then
    /// proceed either way.
    TryToDisableCancellation,
}

/// The scripted user computation: a list of steps, a program counter, and an
/// accounting of the holds it has taken on the execution context.
pub struct Computation {
    pub steps: Vec<Step>,
    /// Next step to run; the computation completes when it passes the end.
    pub pc: usize,
    /// Live scope guards (holds that will be given back).
    pub open_guards: usize,
    /// Permanent holds taken by successful `TryToDisableCancellation` steps.
    pub disabled_holds: usize,
    /// The value the computation completes with.
    pub value: u64,
}

/// Every `ExitCriticalSection` reachable from `pc` is covered by an earlier
/// hold, so the counter never underflows.
pub open spec fn guards_ok(steps: Seq<Step>, pc: int, open: int) -> bool
    decreases steps.len() - pc
        when 0 <= pc <= steps.len()
{
    if pc == steps.len() {
        true
    } else {
        match steps[pc] {
            Step::EnterCriticalSection => guards_ok(steps, pc + 1, open + 1),
            Step::EnterStructuredCancellation => guards_ok(steps, pc + 1, open + 1),
            Step::ExitCriticalSection => open >= 1 && guards_ok(steps, pc + 1, open - 1),
            _ => guards_ok(steps, pc + 1, open),
        }
    }
}

impl Computation {
    /// A computation that has not started yet.
    pub fn new(steps: Vec<Step>, value: u64) -> (r: Computation)
        ensures
            r.steps == steps,
            r.pc == 0,
            r.open_guards == 0,
            r.disabled_holds == 0,
            r.value == value,
    {
        Computation { steps, pc: 0, open_guards: 0, disabled_holds: 0, value }
    }

    /// Structural validity: the program counter is in range, exits are
    /// covered, and every hold was paid for by an executed step.
    pub open spec fn wf(&self) -> bool {
        &&& self.pc <= self.steps@.len()
        &&& guards_ok(self.steps@, self.pc as int, self.open_guards as int)
        &&& self.open_guards + self.disabled_holds <= self.pc
    }
}

/// Whether a whole script is guard-balanced, so that a computation starting
/// at its beginning never underflows the counter.
pub fn script_is_guard_balanced(steps: &Vec<Step>) -> (r: bool)
    ensures
        r == guards_ok(steps@, 0, 0),
{
    let mut i: usize = 0;
    let mut open: usize = 0;
    loop
        invariant
            i <= steps.len(),
            open <= i,
            guards_ok(steps@, 0, 0) == guards_ok(steps@, i as int, open as int),
        decreases steps.len() - i,
    {
        if i == steps.len() {
            return true;
        }
        match steps[i] {
            Step::EnterCriticalSection | Step::EnterStructuredCancellation => {
                open = open + 1;
            }
            Step::ExitCriticalSection => {
                if open == 0 {
                    return false;
                }
                open = open - 1;
            }
            _ => {}
        }
        i = i + 1;
    }
}

/// What one poll of the scripted computation leaves behind.
pub struct UserRun {
    pub comp: Computation,
    pub ctx: ExecutionContextData,
    /// Whether the computation completed during this poll.
    pub ready: bool,
}

/// One poll of the scripted computation: run steps until it suspends or
/// completes. Mirrors `poll_user` exactly.
pub open spec fn spec_poll_user(comp: Computation, ctx: ExecutionContextData) -> UserRun
    decreases comp.steps@.len() - comp.pc
        when comp.pc <= comp.steps@.len() && comp.steps@.len() <= usize::MAX
{
    if comp.pc == comp.steps@.len() {
        UserRun { comp, ctx, ready: true }
    } else {
        match comp.steps@[comp.pc as int] {
            Step::EnterCriticalSection => spec_poll_user(
                Computation {
                    pc: (comp.pc + 1) as usize,
                    open_guards: (comp.open_guards + 1) as usize,
                    ..comp
                },
                ExecutionContextData {
                    prevent_cancellation: (ctx.prevent_cancellation + 1) as usize,
                    ..ctx
                },
            ),
            Step::EnterStructuredCancellation => spec_poll_user(
                Computation {
                    pc: (comp.pc + 1) as usize,
                    open_guards: (comp.open_guards + 1) as usize,
                    ..comp
                },
                ExecutionContextData {
                    prevent_cancellation: (ctx.prevent_cancellation + 1) as usize,
                    ..ctx
                },
            ),
            Step::ExitCriticalSection => spec_poll_user(
                Computation {
                    pc: (comp.pc + 1) as usize,
                    open_guards: (comp.open_guards - 1) as usize,
                    ..comp
                },
                ExecutionContextData {
                    prevent_cancellation: (ctx.prevent_cancellation - 1) as usize,
                    ..ctx
                },
            ),
            Step::AwaitObserver => {
                if ctx.cancellation_notification is Fired {
                    spec_poll_user(Computation { pc: (comp.pc + 1) as usize, ..comp }, ctx)
                } else {
                    UserRun { comp, ctx, ready: false }
                }
            }
            Step::YieldOnce => UserRun {
                comp: Computation { pc: (comp.pc + 1) as usize, ..comp },
                ctx,
                ready: false,
            },
            Step::PendForever => UserRun { comp, ctx, ready: false },
            Step::TryToDisableCancellation => {
                match ctx.cancellation_notification {
                    CancellationNotification::Fired => spec_poll_user(
                        Computation { pc: (comp.pc + 1) as usize, ..comp },
                        ctx,
                    ),
                    CancellationNotification::Armed => spec_poll_user(
                        Computation {
                            pc: (comp.pc + 1) as usize,
                            disabled_holds: (comp.disabled_holds + 1) as usize,
                            ..comp
                        },
                        ExecutionContextData {
                            prevent_cancellation: (ctx.prevent_cancellation + 1) as usize,
                            cancellation_notification: CancellationNotification::Disarmed,
                        },
                    ),
                    CancellationNotification::Disarmed => spec_poll_user(
                        Computation {
                            pc: (comp.pc + 1) as usize,
                            disabled_holds: (comp.disabled_holds + 1) as usize,
                            ..comp
                        },
                        ExecutionContextData {
                            prevent_cancellation: (ctx.prevent_cancellation + 1) as usize,
                            ..ctx
                        },
                    ),
                }
            }
        }
    }
}

/// Polling the computation preserves validity and the accounting that ties
/// the context's counter to the computation's holds, advances the program
/// counter, and never fires, rearms or disarms-back the notification on its
/// own: the notification can move Armed to Disarmed here (cancellation
/// disabled), but Fired and Disarmed are stable and nothing fires.
pub proof fn lemma_poll_user_preserves(comp: Computation, ctx: ExecutionContextData)
    requires
        comp.wf(),
        ctx.prevent_cancellation == comp.open_guards + comp.disabled_holds,
        ctx.cancellation_notification is Disarmed <==> comp.disabled_holds >= 1,
    ensures
        ({
            let run = spec_poll_user(comp, ctx);
            &&& run.comp.wf()
            &&& run.comp.steps == comp.steps
            &&& run.comp.value == comp.value
            &&& comp.pc <= run.comp.pc
            &&& run.ctx.prevent_cancellation == run.comp.open_guards + run.comp.disabled_holds
            &&& (run.ctx.cancellation_notification is Disarmed <==> run.comp.disabled_holds >= 1)
            &&& (ctx.cancellation_notification is Fired ==> run.ctx.cancellation_notification is Fired)
            &&& (ctx.cancellation_notification is Disarmed ==> run.ctx.cancellation_notification is Disarmed)
            &&& (run.ctx.cancellation_notification is Fired ==> ctx.cancellation_notification is Fired)
            &&& (run.ready ==> run.comp.pc == comp.steps@.len())
        }),
    decreases comp.steps@.len() - comp.pc,
{
    broadcast use vstd::std_specs::vec::group_vec_axioms;

    assert(comp.steps@.len() <= usize::MAX) by {
        assert(comp.steps.len() == comp.steps@.len());
    }
    if comp.pc == comp.steps@.len() {
    } else {
        match comp.steps@[comp.pc as int] {
            Step::EnterCriticalSection => {
                lemma_poll_user_preserves(
                    Computation {
                        pc: (comp.pc + 1) as usize,
                        open_guards: (comp.open_guards + 1) as usize,
                        ..comp
                    },
                    ExecutionContextData {
                        prevent_cancellation: (ctx.prevent_cancellation + 1) as usize,
                        ..ctx
                    },
                );
            }
            Step::EnterStructuredCancellation => {
                lemma_poll_user_preserves(
                    Computation {
                        pc: (comp.pc + 1) as usize,
                        open_guards: (comp.open_guards + 1) as usize,
                        ..comp
                    },
                    ExecutionContextData {
                        prevent_cancellation: (ctx.prevent_cancellation + 1) as usize,
                        ..ctx
                    },
                );
            }
            Step::ExitCriticalSection => {
                lemma_poll_user_preserves(
                    Computation {
                        pc: (comp.pc + 1) as usize,
                        open_guards: (comp.open_guards - 1) as usize,
                        ..comp
                    },
                    ExecutionContextData {
                        prevent_cancellation: (ctx.prevent_cancellation - 1) as usize,
                        ..ctx
                    },
                );
            }
            Step::AwaitObserver => {
                if ctx.cancellation_notification is Fired {
                    lemma_poll_user_preserves(
                        Computation { pc: (comp.pc + 1) as usize, ..comp },
                        ctx,
                    );
                }
            }
            Step::YieldOnce => {}
            Step::PendForever => {}
            Step::TryToDisableCancellation => {
                match ctx.cancellation_notification {
                    CancellationNotification::Fired => {
                        lemma_poll_user_preserves(
                            Computation { pc: (comp.pc + 1) as usize, ..comp },
                            ctx,
                        );
                    }
                    CancellationNotification::Armed => {
                        lemma_poll_user_preserves(
                            Computation {
                                pc: (comp.pc + 1) as usize,
                                disabled_holds: (comp.disabled_holds + 1) as usize,
                                ..comp
                            },
                            ExecutionContextData {
                                prevent_cancellation: (ctx.prevent_cancellation + 1) as usize,
                                cancellation_notification: CancellationNotification::Disarmed,
                            },
                        );
                    }
                    CancellationNotification::Disarmed => {
                        lemma_poll_user_preserves(
                            Computation {
                                pc: (comp.pc + 1) as usize,
                                disabled_holds: (comp.disabled_holds + 1) as usize,
                                ..comp
                            },
                            ExecutionContextData {
                                prevent_cancellation: (ctx.prevent_cancellation + 1) as usize,
                                ..ctx
                            },
                        );
                    }
                }
            }
        }
    }
}

/// Result of one poll of the inner user computation.
#[derive(Clone, Copy, Debug)]
pub enum UserPoll {
    Pending,
    Ready(u64),
}

/// One poll of the scripted user computation against the execution context:
/// run steps, entering and leaving scopes, until the computation suspends or
/// completes.
pub fn poll_user(comp: &mut Computation, ctx: &mut ExecutionContextData) -> (r: UserPoll)
    requires
        old(comp).wf(),
        old(ctx).prevent_cancellation == old(comp).open_guards + old(comp).disabled_holds,
        old(ctx).cancellation_notification is Disarmed <==> old(comp).disabled_holds >= 1,
    ensures
        ({
            let run = spec_poll_user(*old(comp), *old(ctx));
            &&& *final(comp) == run.comp
            &&& *final(ctx) == run.ctx
            &&& r == (if run.ready {
                UserPoll::Ready(run.comp.value)
            } else {
                UserPoll::Pending
            })
        }),
{
    broadcast use vstd::std_specs::vec::group_vec_axioms;

    let ghost run0 = spec_poll_user(*comp, *ctx);
    loop
        invariant
            comp.wf(),
            ctx.prevent_cancellation == comp.open_guards + comp.disabled_holds,
            ctx.cancellation_notification is Disarmed <==> comp.disabled_holds >= 1,
            spec_poll_user(*comp, *ctx) == run0,
            run0 == spec_poll_user(*old(comp), *old(ctx)),
        decreases comp.steps@.len() - comp.pc,
    {
        proof {
            assert(comp.steps@.len() <= usize::MAX) by {
                assert(comp.steps.len() == comp.steps@.len());
            }
        }
        if comp.pc == comp.steps.len() {
            proof {
                assert(run0 == UserRun { comp: *comp, ctx: *ctx, ready: true });
            }
            return UserPoll::Ready(comp.value);
        }
        let ghost pre_comp = *comp;
        let ghost pre_ctx = *ctx;
        let step = comp.steps[comp.pc];
        match step {
            Step::EnterCriticalSection | Step::EnterStructuredCancellation => {
                comp.open_guards = comp.open_guards + 1;
                ctx.prevent_cancellation = ctx.prevent_cancellation + 1;
                comp.pc = comp.pc + 1;
                proof {
                    assert(spec_poll_user(pre_comp, pre_ctx) == spec_poll_user(*comp, *ctx));
                }
            }
            Step::ExitCriticalSection => {
                comp.open_guards = comp.open_guards - 1;
                ctx.prevent_cancellation = ctx.prevent_cancellation - 1;
                comp.pc = comp.pc + 1;
                proof {
                    assert(spec_poll_user(pre_comp, pre_ctx) == spec_poll_user(*comp, *ctx));
                }
            }
            Step::AwaitObserver => {
                match ctx.cancellation_notification {
                    CancellationNotification::Fired => {
                        comp.pc = comp.pc + 1;
                        proof {
                            assert(spec_poll_user(pre_comp, pre_ctx) == spec_poll_user(
                                *comp,
                                *ctx,
                            ));
                        }
                    }
                    _ => {
                        proof {
                            assert(run0 == UserRun { comp: *comp, ctx: *ctx, ready: false });
                        }
                        return UserPoll::Pending;
                    }
                }
            }
            Step::YieldOnce => {
                comp.pc = comp.pc + 1;
                proof {
                    assert(run0 == UserRun { comp: *comp, ctx: *ctx, ready: false });
                }
                return UserPoll::Pending;
            }
            Step::PendForever => {
                proof {
                    assert(run0 == UserRun { comp: *comp, ctx: *ctx, ready: false });
                }
                return UserPoll::Pending;
            }
            Step::TryToDisableCancellation => {
                let guard = ctx.enter_critical_section();
                let disabled = guard.try_to_disable_cancellation(ctx);
                if disabled {
                    comp.disabled_holds = comp.disabled_holds + 1;
                }
                comp.pc = comp.pc + 1;
                proof {
                    assert(spec_poll_user(pre_comp, pre_ctx) == spec_poll_user(*comp, *ctx));
                }
            }
        }
    }
}

/// Result of one poll of the cancellable task: `Ready(None)` means the task
/// was cancelled, `Ready(Some(v))` that the computation completed with `v`.
#[derive(Clone, Copy, Debug)]
pub enum TaskPoll {
    Pending,
    Ready(Option<u64>),
}

/// Result of one poll of a termination observer.
#[derive(Clone, Copy, PartialEq, Eq, Structural, Debug)]
pub enum ObserverPoll {
    Pending,
    Ready(TerminationStatus),
}

/// The cancellable task together with the state it shares with its handle,
/// guards and observers. In the running system the shared pieces sit behind
/// reference-counted mutexes on different workers; the model holds them in
/// one value, and the handle and observer types below are tokens whose
/// methods take this value explicitly. Passing it by mutable reference
/// serialises the transitions the same way the locks do.
pub struct ExplicitlyCancellableFuture {
    /// Cancel flag and lifecycle state, shared with the handle.
    pub shared: SharedStateData,
    /// Hold counter and notification, shared with the computation's guards.
    pub execution: ExecutionContextData,
    /// Whether the task has been polled at least once. This duplicates what
    /// `shared.state` records, exactly as the running system keeps a
    /// lock-free copy next to the locked state.
    pub started: bool,
    /// The user computation.
    pub future: Computation,
    /// The one-shot channel on which the task's termination is reported.
    pub reply: ReplyChannel,
    /// Whether the cancellation handle still owns the reply sender (it gives
    /// the sender up when consumed by `cancel` or dropped).
    pub handle_held: bool,
    /// Whether the polled object itself still exists.
    pub task_alive: bool,
}

/// The external one-shot trigger paired with a task. The token is consumed
/// by `cancel`, so a task can be cancelled at most once.
pub struct CancellationHandle {}

/// Awaitable reporting the task's terminal status. Clones observe the same
/// reply channel, so every observer of one task resolves to the same value.
#[derive(Clone)]
pub struct TerminationObserver {}

impl ExplicitlyCancellableFuture {
    /// The system invariant: the computation's accounting matches the
    /// context, and the reply sender sits in exactly one place (with the
    /// handle, parked in the `Cancelled` state, already used, or dropped).
    pub open spec fn wf(&self) -> bool {
        &&& self.future.wf()
        &&& self.execution.prevent_cancellation == self.future.open_guards
            + self.future.disabled_holds
        &&& (self.execution.cancellation_notification is Disarmed <==> self.future.disabled_holds
            >= 1)
        &&& (self.shared.state is Cancelled ==> self.shared.cancelled)
        &&& (self.shared.state is Cancelled ==> !self.handle_held && self.reply.sent is None
            && !self.reply.sender_dropped)
        &&& (self.handle_held ==> self.reply.sent is None && !self.reply.sender_dropped)
        &&& (self.execution.cancellation_notification is Fired ==> self.shared.cancelled)
    }
}

/// Outcome of one poll transition of the whole system.
pub struct PollOutcome {
    pub sys: ExplicitlyCancellableFuture,
    pub result: TaskPoll,
}

/// Mirror of `poll_inner`: the pre-poll cancellation check, the inner poll of
/// the user computation, and the post-poll cancellation re-check.
pub open spec fn spec_poll_inner(s: ExplicitlyCancellableFuture) -> PollOutcome {
    if s.shared.cancelled && s.execution.spec_can_exit() {
        PollOutcome { sys: s, result: TaskPoll::Ready(None) }
    } else {
        let notified = if s.shared.cancelled {
            ExecutionContextData {
                cancellation_notification: spec_notify(s.execution.cancellation_notification),
                ..s.execution
            }
        } else {
            s.execution
        };
        let run = spec_poll_user(s.future, notified);
        let moved = ExplicitlyCancellableFuture { future: run.comp, execution: run.ctx, ..s };
        if s.shared.cancelled && run.ctx.spec_can_exit() {
            PollOutcome { sys: moved, result: TaskPoll::Ready(None) }
        } else if run.ready {
            PollOutcome { sys: moved, result: TaskPoll::Ready(Some(run.comp.value)) }
        } else {
            PollOutcome { sys: moved, result: TaskPoll::Pending }
        }
    }
}

/// Mirror of `poll`: the first-poll registration, the inner poll, and the
/// termination handoff on the final poll.
pub open spec fn spec_poll(s: ExplicitlyCancellableFuture) -> PollOutcome {
    let registered = ExplicitlyCancellableFuture {
        started: true,
        shared: SharedStateData {
            state: if !s.started && s.shared.state is Pending {
                State::Polled
            } else {
                s.shared.state
            },
            ..s.shared
        },
        ..s
    };
    let inner = spec_poll_inner(registered);
    if inner.result is Pending {
        inner
    } else {
        let previous = inner.sys.shared.state;
        let exited = ExplicitlyCancellableFuture {
            shared: SharedStateData { state: State::Exited, ..inner.sys.shared },
            ..inner.sys
        };
        if previous is Cancelled {
            if exited.execution.spec_can_exit() {
                PollOutcome {
                    sys: ExplicitlyCancellableFuture {
                        reply: ReplyChannel {
                            sent: Some(TerminationStatus::Cancelled),
                            ..exited.reply
                        },
                        ..exited
                    },
                    result: TaskPoll::Ready(None),
                }
            } else {
                PollOutcome {
                    sys: ExplicitlyCancellableFuture {
                        reply: ReplyChannel {
                            sent: Some(TerminationStatus::Finished),
                            ..exited.reply
                        },
                        ..exited
                    },
                    result: inner.result,
                }
            }
        } else {
            PollOutcome { sys: exited, result: inner.result }
        }
    }
}

/// Mirror of `CancellationHandle::cancel`: set the flag, then dispatch on the
/// lifecycle state. (The `Cancelled` arm is unreachable while the handle is
/// held and is mapped to "no further change".)
pub open spec fn spec_cancel(s: ExplicitlyCancellableFuture) -> ExplicitlyCancellableFuture {
    let flagged = ExplicitlyCancellableFuture {
        shared: SharedStateData { cancelled: true, ..s.shared },
        handle_held: false,
        ..s
    };
    match s.shared.state {
        State::Pending | State::Polled => ExplicitlyCancellableFuture {
            shared: SharedStateData { cancelled: true, state: State::Cancelled },
            ..flagged
        },
        State::Exited => ExplicitlyCancellableFuture {
            reply: ReplyChannel { sent: Some(TerminationStatus::Finished), ..s.reply },
            ..flagged
        },
        State::Cancelled => flagged,
    }
}

/// What a termination observer reads: the sent status, `ExecutorShutdown` if
/// the sender was dropped without sending, else nothing yet.
pub open spec fn spec_observer_poll(s: ExplicitlyCancellableFuture) -> Option<TerminationStatus> {
    if s.reply.sent is Some {
        s.reply.sent
    } else if s.reply.sender_dropped {
        Some(TerminationStatus::ExecutorShutdown)
    } else {
        None
    }
}

/// Mirror of dropping the handle without cancelling: the sender is dropped;
/// the task is not cancelled.
pub open spec fn spec_drop_handle(s: ExplicitlyCancellableFuture) -> ExplicitlyCancellableFuture {
    ExplicitlyCancellableFuture {
        handle_held: false,
        reply: ReplyChannel { sender_dropped: true, ..s.reply },
        ..s
    }
}

/// Mirror of destroying the task after the handle is gone: a sender parked in
/// the `Cancelled` state is dropped with it, and the lifecycle ends.
pub open spec fn spec_drop_task(s: ExplicitlyCancellableFuture) -> ExplicitlyCancellableFuture {
    ExplicitlyCancellableFuture {
        task_alive: false,
        shared: SharedStateData { state: State::Exited, ..s.shared },
        reply: ReplyChannel {
            sender_dropped: s.reply.sender_dropped || s.shared.state is Cancelled,
            ..s.reply
        },
        ..s
    }
}

/// Build a cancellable task from a guard-balanced script and the value it
/// completes with, paired with the task's one cancellation handle.
pub fn make_cancellable_future(steps: Vec<Step>, value: u64) -> (r: (
    ExplicitlyCancellableFuture,
    CancellationHandle,
))
    requires
        guards_ok(steps@, 0, 0),
    ensures
        r.0.wf(),
        r.0.shared.state is Pending,
        !r.0.shared.cancelled,
        !r.0.started,
        r.0.execution.cancellation_notification is Armed,
        r.0.execution.prevent_cancellation == 0,
        r.0.future == (Computation {
            steps,
            pc: 0,
            open_guards: 0,
            disabled_holds: 0,
            value,
        }),
        r.0.reply.sent is None,
        !r.0.reply.sender_dropped,
        r.0.handle_held,
        r.0.task_alive,
{
    let task = ExplicitlyCancellableFuture {
        shared: SharedStateData { cancelled: false, state: State::Pending },
        execution: ExecutionContextData::new(),
        started: false,
        future: Computation::new(steps, value),
        reply: ReplyChannel { sent: None, sender_dropped: false },
        handle_held: true,
        task_alive: true,
    };
    (task, CancellationHandle {})
}

impl ExplicitlyCancellableFuture {
    /// The pre-poll cancellation check, the inner poll of the user
    /// computation, and the post-poll cancellation re-check. The termination
    /// handoff is `poll`'s; callers poll through `poll`.
    pub fn poll_inner(&mut self) -> (r: TaskPoll)
        requires
            old(self).wf(),
        ensures
            *final(self) == spec_poll_inner(*old(self)).sys,
            r == spec_poll_inner(*old(self)).result,
    {
        let is_cancelled = self.shared.cancelled;
        if is_cancelled {
            if self.execution.can_exit() {
                return TaskPoll::Ready(None);
            }
            self.execution.notify_cancelled();
        }
        let res = poll_user(&mut self.future, &mut self.execution);
        if is_cancelled && self.execution.can_exit() {
            return TaskPoll::Ready(None);
        }
        match res {
            UserPoll::Ready(v) => TaskPoll::Ready(Some(v)),
            UserPoll::Pending => TaskPoll::Pending,
        }
    }

    /// One poll of the cancellable task.
    ///
    /// A cancellation requested while the task was parked is honoured before
    /// the computation runs; one that the computation unblocks during this
    /// very poll (by leaving its last scope) is honoured right after; and on
    /// the final poll a reply parked by `cancel` is answered with `Cancelled`
    /// or `Finished` according to whether cancellation could be honoured.
    pub fn poll(&mut self) -> (r: TaskPoll)
        requires
            old(self).wf(),
            old(self).task_alive,
            !(old(self).shared.state is Exited),
        ensures
            *final(self) == spec_poll(*old(self)).sys,
            r == spec_poll(*old(self)).result,
            final(self).wf(),
            final(self).started,
            final(self).task_alive,
            final(self).handle_held == old(self).handle_held,
            final(self).shared.cancelled == old(self).shared.cancelled,
            // the lifecycle: a pending result leaves the task live, a ready
            // result retires it
            r is Pending ==> final(self).shared.state == (if !old(self).started
                && old(self).shared.state is Pending {
                State::Polled
            } else {
                old(self).shared.state
            }),
            !(r is Pending) ==> final(self).shared.state is Exited,
            // a cancellation pending at entry with no holds is honoured
            // before the computation runs
            old(self).shared.cancelled && old(self).execution.spec_can_exit() ==> r
                == TaskPoll::Ready(None) && final(self).future == old(self).future,
            // the task yields cancelled exactly when it was cancelled and no
            // hold deferred it at a poll boundary
            r == TaskPoll::Ready(None) ==> old(self).shared.cancelled
                && final(self).execution.spec_can_exit(),
            r matches TaskPoll::Ready(Some(_)) ==> !(old(self).shared.cancelled
                && final(self).execution.spec_can_exit()),
            r matches TaskPoll::Ready(Some(v)) ==> v == old(self).future.value,
            // the reply parked by `cancel` is answered exactly on the final
            // poll, with `Cancelled` or `Finished`
            !(old(self).shared.state is Cancelled) || r is Pending ==> final(self).reply == old(self).reply,
            old(self).shared.state is Cancelled && !(r is Pending) ==> final(self).reply.sent
                == Some(
                if final(self).execution.spec_can_exit() {
                    TerminationStatus::Cancelled
                } else {
                    TerminationStatus::Finished
                },
            ) && final(self).reply.sender_dropped == old(self).reply.sender_dropped,
            // the notification fires at most once, never after it was
            // disarmed, and only when cancellation was requested
            old(self).execution.cancellation_notification is Fired ==> final(self).execution.cancellation_notification is Fired,
            old(self).execution.cancellation_notification is Disarmed ==> final(self).execution.cancellation_notification is Disarmed,
            final(self).execution.cancellation_notification is Fired ==> old(self).shared.cancelled || old(self).execution.cancellation_notification is Fired,
            // once cancellation is disabled, the task cannot yield cancelled
            old(self).execution.cancellation_notification is Disarmed ==> r
                != TaskPoll::Ready(None),
    {
        proof {
            lemma_spec_poll_protocol(*old(self));
        }
        if !self.started {
            match self.shared.state {
                State::Pending => {
                    self.shared.state = State::Polled;
                }
                _ => {}
            }
            self.started = true;
        }
        let res = self.poll_inner();
        let is_ready = match res {
            TaskPoll::Ready(_) => true,
            TaskPoll::Pending => false,
        };
        if is_ready {
            let previous = self.shared.state;
            self.shared.state = State::Exited;
            match previous {
                State::Cancelled => {
                    if self.execution.can_exit() {
                        self.reply.send(TerminationStatus::Cancelled);
                        return TaskPoll::Ready(None);
                    } else {
                        self.reply.send(TerminationStatus::Finished);
                    }
                }
                _ => {}
            }
        }
        res
    }

    /// Model of the scheduler destroying the task. The handle must already
    /// have been consumed or dropped, so the task is the last owner of the
    /// shared state: a reply sender parked by `cancel` is dropped with it,
    /// and outstanding observers will report `ExecutorShutdown`.
    pub fn drop_task(&mut self)
        requires
            old(self).wf(),
            old(self).task_alive,
            !old(self).handle_held,
        ensures
            *final(self) == spec_drop_task(*old(self)),
            final(self).wf(),
            !final(self).task_alive,
            final(self).reply.sent == old(self).reply.sent,
    {
        self.task_alive = false;
        match self.shared.state {
            State::Cancelled => {
                self.reply.sender_dropped = true;
            }
            _ => {}
        }
        self.shared.state = State::Exited;
    }
}

impl CancellationHandle {
    /// Request cancellation of the task this handle is paired with, as soon
    /// as the task allows it, and hand back an observer that resolves when
    /// the task reaches a terminal transition.
    ///
    /// The flag is stored before the state is inspected; a task that already
    /// exited is answered `Finished` directly, and otherwise the reply sender
    /// is parked in the `Cancelled` state for the task's final poll to
    /// answer. (In the running system a waker stored by the first poll is
    /// woken here so that the task is polled again; the model leaves the
    /// scheduling of polls to the caller.)
    pub fn cancel(self, task: &mut ExplicitlyCancellableFuture) -> (obs: TerminationObserver)
        requires
            old(task).wf(),
            old(task).handle_held,
        ensures
            *final(task) == spec_cancel(*old(task)),
            final(task).wf(),
            final(task).shared.cancelled,
            !final(task).handle_held,
            final(task).execution == old(task).execution,
            final(task).future == old(task).future,
            final(task).started == old(task).started,
            final(task).task_alive == old(task).task_alive,
            old(task).shared.state is Exited ==> final(task).shared.state is Exited && final(task).reply.sent == Some(TerminationStatus::Finished),
            !(old(task).shared.state is Exited) ==> final(task).shared.state is Cancelled && final(task).reply.sent is None && !final(task).reply.sender_dropped,
    {
        task.shared.cancelled = true;
        match task.shared.state {
            State::Exited => {
                task.reply.send(TerminationStatus::Finished);
            }
            _ => {
                task.shared.state = State::Cancelled;
            }
        }
        task.handle_held = false;
        TerminationObserver {}
    }

    /// An additional observer of the task's termination, without consuming
    /// the handle.
    pub fn termination_observer(&self) -> (obs: TerminationObserver) {
        TerminationObserver {}
    }

    /// Model of dropping the handle without cancelling: the task is not
    /// cancelled, but the reply sender is dropped, so observers resolve to
    /// `ExecutorShutdown`.
    pub fn drop_without_cancel(self, task: &mut ExplicitlyCancellableFuture)
        requires
            old(task).wf(),
            old(task).handle_held,
        ensures
            *final(task) == spec_drop_handle(*old(task)),
            final(task).wf(),
            final(task).shared == old(task).shared,
            !final(task).handle_held,
    {
        task.handle_held = false;
        task.reply.sender_dropped = true;
    }
}

impl TerminationObserver {
    /// One poll of the observer against the task it watches: the sent status
    /// once the task reached a terminal transition, `ExecutorShutdown` if the
    /// reply sender was dropped without sending, pending otherwise. Repeated
    /// polls after a ready result read the same value.
    pub fn poll(&self, task: &ExplicitlyCancellableFuture) -> (r: ObserverPoll)
        ensures
            spec_observer_poll(*task) is Some ==> r == ObserverPoll::Ready(
                spec_observer_poll(*task)->0,
            ),
            spec_observer_poll(*task) is None ==> r == ObserverPoll::Pending,
    {
        match task.reply.sent {
            Some(status) => ObserverPoll::Ready(status),
            None => {
                if task.reply.sender_dropped {
                    ObserverPoll::Ready(TerminationStatus::ExecutorShutdown)
                } else {
                    ObserverPoll::Pending
                }
            }
        }
    }
}

/// The poll transition preserves the system invariant and the protocol
/// guarantees that `poll`'s contract restates; proved once here over the
/// mirror so that both the executable `poll` and the laws can use it.
pub proof fn lemma_spec_poll_protocol(s: ExplicitlyCancellableFuture)
    requires
        s.wf(),
    ensures
        ({
            let out = spec_poll(s);
            &&& out.sys.wf()
            &&& out.sys.started
            &&& out.sys.task_alive == s.task_alive
            &&& out.sys.handle_held == s.handle_held
            &&& out.sys.shared.cancelled == s.shared.cancelled
            &&& out.sys.future.value == s.future.value
            &&& (out.result is Pending ==> out.sys.shared.state == (if !s.started
                && s.shared.state is Pending {
                State::Polled
            } else {
                s.shared.state
            }))
            &&& (!(out.result is Pending) ==> out.sys.shared.state is Exited)
            &&& (s.shared.cancelled && s.execution.spec_can_exit() ==> out.result
                == TaskPoll::Ready(None) && out.sys.future == s.future)
            &&& (out.result == TaskPoll::Ready(None::<u64>) ==> s.shared.cancelled
                && out.sys.execution.spec_can_exit())
            &&& (out.result matches TaskPoll::Ready(Some(v)) ==> !(s.shared.cancelled
                && out.sys.execution.spec_can_exit()) && v == s.future.value)
            &&& (!(s.shared.state is Cancelled) || out.result is Pending ==> out.sys.reply
                == s.reply)
            &&& (s.shared.state is Cancelled && !(out.result is Pending) ==> out.sys.reply.sent
                == Some(
                if out.sys.execution.spec_can_exit() {
                    TerminationStatus::Cancelled
                } else {
                    TerminationStatus::Finished
                },
            ) && out.sys.reply.sender_dropped == s.reply.sender_dropped)
            &&& (s.execution.cancellation_notification is Fired
                ==> out.sys.execution.cancellation_notification is Fired)
            &&& (s.execution.cancellation_notification is Disarmed
                ==> out.sys.execution.cancellation_notification is Disarmed)
            &&& (out.sys.execution.cancellation_notification is Fired ==> s.shared.cancelled
                || s.execution.cancellation_notification is Fired)
            &&& (s.execution.cancellation_notification is Disarmed ==> out.result
                != TaskPoll::Ready(None::<u64>))
        }),
{
    let registered = ExplicitlyCancellableFuture {
        started: true,
        shared: SharedStateData {
            state: if !s.started && s.shared.state is Pending {
                State::Polled
            } else {
                s.shared.state
            },
            ..s.shared
        },
        ..s
    };
    if !(registered.shared.cancelled && registered.execution.spec_can_exit()) {
        let notified = if registered.shared.cancelled {
            ExecutionContextData {
                cancellation_notification: spec_notify(
                    registered.execution.cancellation_notification,
                ),
                ..registered.execution
            }
        } else {
            registered.execution
        };
        lemma_poll_user_preserves(registered.future, notified);
    }
}

} // verus!
