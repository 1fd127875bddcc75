//! The execution context a cancellable task shares with the scope guards of
//! its computation: a count of outstanding "defer cancellation" holders and a
//! one-shot notification for structured-cancellation observers.

use vstd::prelude::*;

verus! {

/// The one-shot notification that tells a structured-cancellation observer
/// that the task has observed cancellation.
///
/// `Armed`: the notification may still fire. `Fired`: it has fired; it fires
/// at most once. `Disarmed`: cancellation was permanently disabled before the
/// notification fired, and it will never fire.
#[derive(Clone, Copy, PartialEq, Eq, Structural, Debug)]
pub enum CancellationNotification {
    Armed,
    Fired,
    Disarmed,
}

/// What observing cancellation does to the notification: an armed
/// notification fires; a fired or disarmed one is left alone.
pub open spec fn spec_notify(n: CancellationNotification) -> CancellationNotification {
    match n {
        CancellationNotification::Armed => CancellationNotification::Fired,
        _ => n,
    }
}

/// The state shared between a task and every live scope guard of its
/// computation. In the running system this sits behind a mutex that the task
/// and the guards both lock; the model passes it by mutable reference, which
/// serialises access the same way the mutex does.
pub struct ExecutionContextData {
    pub cancellation_notification: CancellationNotification,
    /// How many holders are preventing immediate cancellation.
    pub prevent_cancellation: usize,
}

/// Awaitable handed to a structured-cancellation body. It resolves exactly
/// when the notification has fired; clones observe the same notification.
/// Dropping an observer has no effect on the context.
#[derive(Clone)]
pub struct CancellationObserver {}

/// A scoped token standing for one hold on `prevent_cancellation`. In the
/// running system the guard keeps a reference to the shared context and
/// releases its hold when dropped; in the model the context is passed
/// explicitly, and dropping a guard without an explicit exit behaves as
/// `exit_prevent_cancellation`.
pub struct CriticalSectionGuard {}

impl ExecutionContextData {
    /// A fresh context: notification armed, no holders.
    pub fn new() -> (r: ExecutionContextData)
        ensures
            r.cancellation_notification is Armed,
            r.prevent_cancellation == 0,
    {
        ExecutionContextData {
            cancellation_notification: CancellationNotification::Armed,
            prevent_cancellation: 0,
        }
    }

    /// The one state in which the task may yield cancelled.
    pub open spec fn spec_can_exit(&self) -> bool {
        self.prevent_cancellation == 0
    }

    /// Does the task currently allow its own cancellation?
    pub fn can_exit(&self) -> (r: bool)
        ensures
            r == self.spec_can_exit(),
    {
        self.prevent_cancellation == 0
    }

    /// Take one hold that defers cancellation, handing back its guard.
    pub fn enter_critical_section(&mut self) -> (guard: CriticalSectionGuard)
        requires
            old(self).prevent_cancellation < usize::MAX,
        ensures
            final(self).prevent_cancellation == old(self).prevent_cancellation + 1,
            final(self).cancellation_notification == old(self).cancellation_notification,
    {
        self.prevent_cancellation = self.prevent_cancellation + 1;
        CriticalSectionGuard {}
    }

    /// Take one hold that defers cancellation and hand the computation an
    /// observer that resolves when cancellation is first observed.
    pub fn enter_structured_cancellation(&mut self) -> (r: (CancellationObserver, CriticalSectionGuard))
        requires
            old(self).prevent_cancellation < usize::MAX,
        ensures
            final(self).prevent_cancellation == old(self).prevent_cancellation + 1,
            final(self).cancellation_notification == old(self).cancellation_notification,
    {
        self.prevent_cancellation = self.prevent_cancellation + 1;
        (CancellationObserver {}, CriticalSectionGuard {})
    }

    /// Fire the notification if it is still armed; a fired or disarmed
    /// notification is left alone, so the notification fires at most once.
    pub fn notify_cancelled(&mut self)
        ensures
            final(self).prevent_cancellation == old(self).prevent_cancellation,
            final(self).cancellation_notification == spec_notify(old(self).cancellation_notification),
    {
        match self.cancellation_notification {
            CancellationNotification::Armed => {
                self.cancellation_notification = CancellationNotification::Fired;
            }
            _ => {}
        }
    }

    /// Return one hold on the counter; reports whether it reached zero.
    pub fn exit_prevent_cancellation(&mut self) -> (reached_zero: bool)
        requires
            old(self).prevent_cancellation >= 1,
        ensures
            final(self).prevent_cancellation == old(self).prevent_cancellation - 1,
            final(self).cancellation_notification == old(self).cancellation_notification,
            reached_zero == (final(self).prevent_cancellation == 0),
    {
        self.prevent_cancellation = self.prevent_cancellation - 1;
        self.prevent_cancellation == 0
    }

    /// Promise that the task will never observe cancellation: succeeds (and
    /// disarms the notification) unless the notification has already fired.
    /// The counter is not touched; the caller decides what to do with the
    /// hold it speculatively took.
    pub fn try_to_disable_cancellation(&mut self) -> (r: bool)
        ensures
            final(self).prevent_cancellation == old(self).prevent_cancellation,
            r == !(old(self).cancellation_notification is Fired),
            final(self).cancellation_notification == (
                if old(self).cancellation_notification is Armed {
                    CancellationNotification::Disarmed
                } else {
                    old(self).cancellation_notification
                }
            ),
    {
        match self.cancellation_notification {
            CancellationNotification::Armed => {
                self.cancellation_notification = CancellationNotification::Disarmed;
                true
            }
            CancellationNotification::Fired => false,
            CancellationNotification::Disarmed => true,
        }
    }
}

impl CancellationObserver {
    /// One poll of the observer against the context it watches: resolved if
    /// and only if the notification has fired.
    pub fn is_resolved(&self, data: &ExecutionContextData) -> (r: bool)
        ensures
            r == (data.cancellation_notification is Fired),
    {
        match data.cancellation_notification {
            CancellationNotification::Fired => true,
            _ => false,
        }
    }
}

impl CriticalSectionGuard {
    /// Give the guard's hold back explicitly; reports whether the counter
    /// reached zero.
    pub fn exit_prevent_cancellation(self, data: &mut ExecutionContextData) -> (reached_zero: bool)
        requires
            old(data).prevent_cancellation >= 1,
        ensures
            final(data).prevent_cancellation == old(data).prevent_cancellation - 1,
            final(data).cancellation_notification == old(data).cancellation_notification,
            reached_zero == (final(data).prevent_cancellation == 0),
    {
        data.exit_prevent_cancellation()
    }

    /// Turn the guard's hold into a permanent one: succeeds unless the
    /// notification has already fired. On success the hold is kept forever
    /// and the notification is disarmed; on failure the hold is released.
    pub fn try_to_disable_cancellation(self, data: &mut ExecutionContextData) -> (r: bool)
        requires
            old(data).prevent_cancellation >= 1,
        ensures
            r == !(old(data).cancellation_notification is Fired),
            r ==> final(data).prevent_cancellation == old(data).prevent_cancellation
                && final(data).cancellation_notification is Disarmed,
            !r ==> final(data).prevent_cancellation == old(data).prevent_cancellation - 1
                && final(data).cancellation_notification == old(data).cancellation_notification,
    {
        if data.try_to_disable_cancellation() {
            true
        } else {
            data.exit_prevent_cancellation();
            false
        }
    }
}

} // verus!
