//! The protocol-level guarantees of the cancellation primitive, stated and
//! proved over the spec-level mirrors of the system's transitions
//! (`spec_poll`, `spec_cancel`, `spec_drop_task`, `spec_drop_handle`,
//! `spec_observer_poll`). Each executable transition ensures that it equals
//! its mirror, so everything proved here holds of the running system.

use vstd::prelude::*;

use crate::future::{
    ExplicitlyCancellableFuture, TaskPoll, TerminationStatus, lemma_spec_poll_protocol,
    spec_cancel, spec_drop_handle, spec_drop_task, spec_observer_poll, spec_poll,
};

verus! {

/// Cancelling preserves the system invariant. A task that already exited is
/// answered `Finished` on the spot; any other live task moves to `Cancelled`
/// with the reply sender parked there, still unsent and undropped, so the
/// report is still owed.
pub proof fn lemma_cancel_preserves_wf(s: ExplicitlyCancellableFuture)
    requires
        s.wf(),
        s.handle_held,
    ensures
        spec_cancel(s).wf(),
        spec_cancel(s).shared.cancelled,
        !spec_cancel(s).handle_held,
        s.shared.state is Exited ==> spec_cancel(s).reply.sent == Some(
            TerminationStatus::Finished,
        ),
        !(s.shared.state is Exited) ==> spec_cancel(s).shared.state is Cancelled && spec_cancel(
            s,
        ).reply.sent is None && !spec_cancel(s).reply.sender_dropped,
{
}

/// Once cancellation is requested, exactly one of `Finished` or `Cancelled`
/// is sent on the reply channel, or the channel is dropped unsent — never
/// two. `cancel` itself reports at most once (only for an exited task); a
/// parked reply is answered exactly by the final poll; destroying the task
/// instead drops the parked sender unsent; and a report, once made, is left
/// untouched by every later transition.
pub proof fn lemma_termination_reported_exactly_once(s: ExplicitlyCancellableFuture)
    requires
        s.wf(),
    ensures
        // a made report is stable under every later transition (the handle
        // was consumed or dropped before any report could exist, so there is
        // no cancel to consider)
        s.reply.sent is Some ==> !s.handle_held,
        s.reply.sent is Some ==> spec_poll(s).sys.reply == s.reply,
        s.reply.sent is Some ==> spec_drop_task(s).reply == s.reply,
        // a dropped sender can never produce a report
        s.reply.sender_dropped ==> spec_poll(s).sys.reply.sent == s.reply.sent,
        s.reply.sender_dropped ==> spec_drop_task(s).reply.sent == s.reply.sent,
        // a parked reply is answered exactly when the task's poll retires it,
        // and with exactly one status
        s.shared.state is Cancelled && spec_poll(s).result is Pending ==> spec_poll(
            s,
        ).sys.reply == s.reply,
        s.shared.state is Cancelled && !(spec_poll(s).result is Pending) ==> spec_poll(
            s,
        ).sys.reply.sent == Some(
            if spec_poll(s).sys.execution.spec_can_exit() {
                TerminationStatus::Cancelled
            } else {
                TerminationStatus::Finished
            },
        ),
        // destroying the task instead drops the parked sender unsent
        s.shared.state is Cancelled ==> spec_drop_task(s).reply.sent is None && spec_drop_task(
            s,
        ).reply.sender_dropped,
{
    lemma_spec_poll_protocol(s);
}

/// The task never resolves to a value after it has both observed the cancel
/// flag and found no hold deferring cancellation at a poll boundary: a
/// cancellation pending with the counter at zero forces the very next poll to
/// yield cancelled, and a poll can produce a value only if the flag was clear
/// or a hold was still live when the result was decided.
pub proof fn lemma_no_value_after_exitable_cancellation(s: ExplicitlyCancellableFuture)
    requires
        s.wf(),
    ensures
        s.shared.cancelled && s.execution.spec_can_exit() ==> spec_poll(s).result
            == TaskPoll::Ready(None),
        spec_poll(s).result matches TaskPoll::Ready(Some(_)) ==> !(s.shared.cancelled && spec_poll(
            s,
        ).sys.execution.spec_can_exit()),
{
    lemma_spec_poll_protocol(s);
}

/// The notification fires at most once and never after it was disarmed: a
/// fired notification stays fired (the Armed-to-Fired edge cannot repeat), a
/// disarmed one stays disarmed, firing happens only while a cancellation is
/// pending, and no transition but the task's own poll touches it.
pub proof fn lemma_notification_fires_at_most_once(s: ExplicitlyCancellableFuture)
    requires
        s.wf(),
    ensures
        s.execution.cancellation_notification is Fired ==> spec_poll(
            s,
        ).sys.execution.cancellation_notification is Fired,
        s.execution.cancellation_notification is Disarmed ==> spec_poll(
            s,
        ).sys.execution.cancellation_notification is Disarmed,
        spec_poll(s).sys.execution.cancellation_notification is Fired ==> s.shared.cancelled
            || s.execution.cancellation_notification is Fired,
        spec_cancel(s).execution == s.execution,
        spec_drop_task(s).execution == s.execution,
        spec_drop_handle(s).execution == s.execution,
{
    lemma_spec_poll_protocol(s);
}

/// Once cancellation has been disabled, it stays disabled and every later
/// poll is unable to yield cancelled: the task can only stay pending or
/// complete with a value.
pub proof fn lemma_disabled_cancellation_wins(s: ExplicitlyCancellableFuture)
    requires
        s.wf(),
        s.execution.cancellation_notification is Disarmed,
    ensures
        spec_poll(s).sys.wf(),
        spec_poll(s).sys.execution.cancellation_notification is Disarmed,
        spec_poll(s).result != TaskPoll::Ready(None),
{
    lemma_spec_poll_protocol(s);
}

/// Hold accounting is balanced: the counter always equals the live guards
/// plus the permanent holds of successful disables, so with no guard alive
/// and cancellation not disabled the counter is zero and the task may yield
/// cancelled.
pub proof fn lemma_guard_balance(s: ExplicitlyCancellableFuture)
    requires
        s.wf(),
    ensures
        s.execution.prevent_cancellation == s.future.open_guards + s.future.disabled_holds,
        s.future.open_guards == 0 && !(s.execution.cancellation_notification is Disarmed)
            ==> s.execution.spec_can_exit(),
{
}

/// Cancelling a task that was never polled: the observer stays pending until
/// the task's first poll, which immediately yields cancelled and resolves the
/// observer to `Cancelled`.
pub proof fn lemma_cancel_before_first_poll(s: ExplicitlyCancellableFuture)
    requires
        s.wf(),
        s.handle_held,
        s.shared.state is Pending,
        s.future.pc == 0,
        s.future.open_guards == 0,
        s.future.disabled_holds == 0,
    ensures
        ({
            let cancelled = spec_cancel(s);
            let polled = spec_poll(cancelled);
            &&& spec_observer_poll(cancelled) is None
            &&& polled.result == TaskPoll::Ready(None)
            &&& polled.sys.reply.sent == Some(TerminationStatus::Cancelled)
            &&& spec_observer_poll(polled.sys) == Some(TerminationStatus::Cancelled)
        }),
{
    lemma_cancel_preserves_wf(s);
    lemma_spec_poll_protocol(spec_cancel(s));
}

/// Cancelling a task that was already polled to completion resolves to
/// `Finished`.
pub proof fn lemma_cancel_after_completion(s: ExplicitlyCancellableFuture)
    requires
        s.wf(),
        s.handle_held,
        s.shared.state is Exited,
    ensures
        spec_cancel(s).wf(),
        spec_cancel(s).reply.sent == Some(TerminationStatus::Finished),
        spec_observer_poll(spec_cancel(s)) == Some(TerminationStatus::Finished),
{
    lemma_cancel_preserves_wf(s);
}

} // verus!
