//! Scenarios of the cancellation protocol, driven through the model's public
//! transitions: build a task over a scripted computation, poll it, cancel it,
//! and watch its termination observer.

use more_futures::context::{CancellationNotification, ExecutionContextData};
use more_futures::future::{
    make_cancellable_future, script_is_guard_balanced, ObserverPoll, Step, TaskPoll,
    TerminationStatus,
};

#[test]
fn test_ready() {
    let (mut fut, _handle) = make_cancellable_future(vec![], 0);
    assert!(matches!(fut.poll(), TaskPoll::Ready(Some(0))));
}

#[test]
fn test_cancel() {
    let (mut fut, handle) = make_cancellable_future(vec![Step::PendForever], 0);

    assert!(matches!(fut.poll(), TaskPoll::Pending));

    let cancel = handle.cancel(&mut fut);

    assert!(matches!(fut.poll(), TaskPoll::Ready(None)));

    assert_eq!(
        cancel.poll(&fut),
        ObserverPoll::Ready(TerminationStatus::Cancelled)
    );
}

#[test]
fn test_cancel_never_polled() {
    let (mut fut, handle) = make_cancellable_future(vec![Step::PendForever], 0);

    let cancel = handle.cancel(&mut fut);

    // if the future isn't polled yet, the observer is still pending
    assert_eq!(cancel.poll(&fut), ObserverPoll::Pending);

    assert!(matches!(fut.poll(), TaskPoll::Ready(None)));
    assert_eq!(
        cancel.poll(&fut),
        ObserverPoll::Ready(TerminationStatus::Cancelled)
    );
}

#[test]
fn test_cancel_already_finished() {
    let (mut fut, handle) = make_cancellable_future(vec![], 0);

    assert!(matches!(fut.poll(), TaskPoll::Ready(Some(0))));

    let cancel = handle.cancel(&mut fut);

    assert_eq!(
        cancel.poll(&fut),
        ObserverPoll::Ready(TerminationStatus::Finished)
    );
}

#[test]
fn test_critical_section() {
    // enter a critical section whose body yields once, then pend forever
    let steps = vec![
        Step::EnterCriticalSection,
        Step::YieldOnce,
        Step::ExitCriticalSection,
        Step::PendForever,
    ];
    assert!(script_is_guard_balanced(&steps));
    let (mut fut, handle) = make_cancellable_future(steps, 0);

    // we reach the first yield; one guard is held by the critical section
    assert!(matches!(fut.poll(), TaskPoll::Pending));

    let cancel = handle.cancel(&mut fut);
    assert_eq!(cancel.poll(&fut), ObserverPoll::Pending);

    // the critical section completes, then the cancellation is honoured
    assert!(matches!(fut.poll(), TaskPoll::Ready(None)));

    assert_eq!(
        cancel.poll(&fut),
        ObserverPoll::Ready(TerminationStatus::Cancelled)
    );
}

#[test]
fn test_critical_section_noop_drop_is_allowed() {
    // a critical section whose guard is dropped right away, then completion
    let steps = vec![Step::EnterCriticalSection, Step::ExitCriticalSection];
    let (mut fut, _handle) = make_cancellable_future(steps, 0);
    assert!(matches!(fut.poll(), TaskPoll::Ready(Some(0))));
}

#[test]
fn test_nested_critical_section() {
    let steps = vec![
        Step::EnterCriticalSection,
        Step::EnterCriticalSection,
        Step::YieldOnce,
        Step::ExitCriticalSection,
        Step::ExitCriticalSection,
        Step::PendForever,
    ];
    assert!(script_is_guard_balanced(&steps));
    let (mut fut, handle) = make_cancellable_future(steps, 0);

    assert!(matches!(fut.poll(), TaskPoll::Pending));

    let cancel = handle.cancel(&mut fut);
    assert!(matches!(fut.poll(), TaskPoll::Ready(None)));
    assert_eq!(
        cancel.poll(&fut),
        ObserverPoll::Ready(TerminationStatus::Cancelled)
    );
}

#[test]
fn test_structured_cancellation_notifies() {
    // the body awaits the observer it was handed
    let steps = vec![
        Step::EnterStructuredCancellation,
        Step::AwaitObserver,
        Step::ExitCriticalSection,
    ];
    let (mut fut, handle) = make_cancellable_future(steps, 0);

    // proceed all the way to awaiting the observer
    assert!(matches!(fut.poll(), TaskPoll::Pending));

    // cancel: the next poll fires the notification and the body resumes
    let cancel = handle.cancel(&mut fut);
    assert!(matches!(fut.poll(), TaskPoll::Ready(_)));

    assert!(matches!(cancel.poll(&fut), ObserverPoll::Ready(_)));
}

#[test]
fn test_structured_cancellation_is_blocking() {
    // the body just yields once; it is resumed and runs to its end before
    // the cancellation is honoured
    let steps = vec![
        Step::EnterStructuredCancellation,
        Step::YieldOnce,
        Step::ExitCriticalSection,
    ];
    let (mut fut, handle) = make_cancellable_future(steps, 0);

    assert!(matches!(fut.poll(), TaskPoll::Pending));

    let cancel = handle.cancel(&mut fut);
    assert!(matches!(fut.poll(), TaskPoll::Ready(_)));

    assert!(matches!(cancel.poll(&fut), ObserverPoll::Ready(_)));
}

#[test]
fn test_structured_cancellation_cancels_on_exit() {
    let steps = vec![
        Step::EnterStructuredCancellation,
        Step::AwaitObserver,
        Step::ExitCriticalSection,
        Step::PendForever,
    ];
    let (mut fut, handle) = make_cancellable_future(steps, 0);

    assert!(matches!(fut.poll(), TaskPoll::Pending));

    let cancel = handle.cancel(&mut fut);
    assert!(matches!(fut.poll(), TaskPoll::Ready(None)));

    assert!(matches!(cancel.poll(&fut), ObserverPoll::Ready(_)));
}

#[test]
fn test_structured_cancellation_returns_to_executor() {
    let steps = vec![
        Step::EnterStructuredCancellation,
        Step::AwaitObserver,
        Step::ExitCriticalSection,
    ];
    let (mut fut, handle) = make_cancellable_future(steps, 0);

    assert!(matches!(fut.poll(), TaskPoll::Pending));

    let cancel = handle.cancel(&mut fut);
    assert!(matches!(fut.poll(), TaskPoll::Ready(None)));

    assert!(matches!(cancel.poll(&fut), ObserverPoll::Ready(_)));
}

#[test]
fn test_structured_cancellation_is_reentrant() {
    let steps = vec![
        Step::EnterStructuredCancellation,
        Step::EnterStructuredCancellation,
        Step::AwaitObserver,
        Step::AwaitObserver,
        Step::ExitCriticalSection,
        Step::ExitCriticalSection,
    ];
    assert!(script_is_guard_balanced(&steps));
    let (mut fut, handle) = make_cancellable_future(steps, 0);

    assert!(matches!(fut.poll(), TaskPoll::Pending));

    let cancel = handle.cancel(&mut fut);
    assert!(matches!(fut.poll(), TaskPoll::Ready(_)));

    assert!(matches!(cancel.poll(&fut), ObserverPoll::Ready(_)));
}

#[test]
fn test_structured_cancellation_with_critical_section() {
    let steps = vec![
        Step::EnterCriticalSection,
        Step::EnterStructuredCancellation,
        Step::YieldOnce,
        Step::AwaitObserver,
        Step::ExitCriticalSection,
        Step::ExitCriticalSection,
    ];
    assert!(script_is_guard_balanced(&steps));
    let (mut fut, handle) = make_cancellable_future(steps, 0);

    // proceed all the way to the first pending
    assert!(matches!(fut.poll(), TaskPoll::Pending));

    // cancel: the notification fires, the body resumes, both scopes close,
    // and the cancellation is honoured
    let cancel = handle.cancel(&mut fut);
    assert!(matches!(fut.poll(), TaskPoll::Ready(None)));

    assert_eq!(
        cancel.poll(&fut),
        ObserverPoll::Ready(TerminationStatus::Cancelled)
    );
}

#[test]
fn test_structured_cancellation_can_be_reentered() {
    let steps = vec![
        Step::EnterStructuredCancellation,
        Step::ExitCriticalSection,
        Step::EnterStructuredCancellation,
        Step::AwaitObserver,
        Step::ExitCriticalSection,
    ];
    let (mut fut, handle) = make_cancellable_future(steps, 0);

    assert!(matches!(fut.poll(), TaskPoll::Pending));

    let cancel = handle.cancel(&mut fut);
    assert!(matches!(fut.poll(), TaskPoll::Ready(_)));

    assert!(matches!(cancel.poll(&fut), ObserverPoll::Ready(_)));
}

#[test]
fn test_structured_cancellation_works_after_cancel() {
    let steps = vec![
        Step::EnterStructuredCancellation,
        Step::YieldOnce,
        Step::EnterStructuredCancellation,
        Step::AwaitObserver,
        Step::ExitCriticalSection,
        Step::ExitCriticalSection,
    ];
    let (mut fut, handle) = make_cancellable_future(steps, 0);

    assert!(matches!(fut.poll(), TaskPoll::Pending));

    let cancel = handle.cancel(&mut fut);
    assert!(matches!(fut.poll(), TaskPoll::Ready(None)));

    assert!(matches!(cancel.poll(&fut), ObserverPoll::Ready(_)));
}

#[test]
fn test_disable_cancellation() {
    let steps = vec![Step::TryToDisableCancellation, Step::YieldOnce];
    let (mut fut, handle) = make_cancellable_future(steps, 0);

    assert!(matches!(fut.poll(), TaskPoll::Pending));

    let cancel = handle.cancel(&mut fut);
    assert!(matches!(fut.poll(), TaskPoll::Ready(Some(0))));

    assert_eq!(
        cancel.poll(&fut),
        ObserverPoll::Ready(TerminationStatus::Finished)
    );
}

#[test]
fn test_disable_cancellation_already_canceled() {
    // cancelled before the first poll: the computation never runs at all
    let steps = vec![Step::TryToDisableCancellation, Step::YieldOnce, Step::PendForever];
    let (mut fut, handle) = make_cancellable_future(steps, 0);

    let cancel = handle.cancel(&mut fut);
    assert!(matches!(fut.poll(), TaskPoll::Ready(None)));

    assert_eq!(
        cancel.poll(&fut),
        ObserverPoll::Ready(TerminationStatus::Cancelled)
    );
}

#[test]
fn test_disable_cancellation_synced_with_structured_cancellation_already_cancelled() {
    // inside a structured scope the observer has already resolved, so the
    // attempt to disable cancellation loses
    let steps = vec![
        Step::EnterStructuredCancellation,
        Step::YieldOnce,
        Step::AwaitObserver,
        Step::TryToDisableCancellation,
        Step::ExitCriticalSection,
    ];
    let (mut fut, handle) = make_cancellable_future(steps, 0);

    assert!(matches!(fut.poll(), TaskPoll::Pending));

    let cancel = handle.cancel(&mut fut);
    assert!(matches!(fut.poll(), TaskPoll::Ready(None)));

    assert_eq!(
        cancel.poll(&fut),
        ObserverPoll::Ready(TerminationStatus::Cancelled)
    );
}

#[test]
fn test_disable_cancellation_synced_with_structured_cancellation_not_cancelled() {
    // cancellation is disabled before the cancel arrives, so a later
    // structured scope never sees the notification and the task finishes
    let steps = vec![
        Step::TryToDisableCancellation,
        Step::YieldOnce,
        Step::EnterStructuredCancellation,
        Step::TryToDisableCancellation,
        Step::ExitCriticalSection,
    ];
    let (mut fut, handle) = make_cancellable_future(steps, 0);

    assert!(matches!(fut.poll(), TaskPoll::Pending));

    let cancel = handle.cancel(&mut fut);

    assert!(matches!(fut.poll(), TaskPoll::Ready(Some(0))));

    assert_eq!(
        cancel.poll(&fut),
        ObserverPoll::Ready(TerminationStatus::Finished)
    );
}

#[test]
fn test_completed_value_is_delivered() {
    let (mut fut, _handle) = make_cancellable_future(vec![Step::YieldOnce], 42);
    assert!(matches!(fut.poll(), TaskPoll::Pending));
    assert!(matches!(fut.poll(), TaskPoll::Ready(Some(42))));
}

#[test]
fn test_dropped_handle_is_executor_shutdown() {
    let (mut fut, handle) = make_cancellable_future(vec![Step::PendForever], 0);
    let observer = handle.termination_observer();
    assert_eq!(observer.poll(&fut), ObserverPoll::Pending);
    handle.drop_without_cancel(&mut fut);
    assert_eq!(
        observer.poll(&fut),
        ObserverPoll::Ready(TerminationStatus::ExecutorShutdown)
    );
    // dropping the handle does not cancel the task
    assert!(matches!(fut.poll(), TaskPoll::Pending));
}

#[test]
fn test_dropped_task_is_executor_shutdown() {
    let (mut fut, handle) = make_cancellable_future(vec![Step::PendForever], 0);
    assert!(matches!(fut.poll(), TaskPoll::Pending));
    let cancel = handle.cancel(&mut fut);
    assert_eq!(cancel.poll(&fut), ObserverPoll::Pending);
    // the scheduler tears the task down before it could honour the cancel
    fut.drop_task();
    assert_eq!(
        cancel.poll(&fut),
        ObserverPoll::Ready(TerminationStatus::ExecutorShutdown)
    );
}

#[test]
fn test_observer_resolves_once_and_stays() {
    let (mut fut, handle) = make_cancellable_future(vec![], 5);
    assert!(matches!(fut.poll(), TaskPoll::Ready(Some(5))));
    let cancel = handle.cancel(&mut fut);
    let again = cancel.clone();
    assert_eq!(
        cancel.poll(&fut),
        ObserverPoll::Ready(TerminationStatus::Finished)
    );
    assert_eq!(
        cancel.poll(&fut),
        ObserverPoll::Ready(TerminationStatus::Finished)
    );
    assert_eq!(
        again.poll(&fut),
        ObserverPoll::Ready(TerminationStatus::Finished)
    );
}

#[test]
fn test_script_balance_check() {
    assert!(script_is_guard_balanced(&vec![]));
    assert!(script_is_guard_balanced(&vec![
        Step::EnterCriticalSection,
        Step::ExitCriticalSection
    ]));
    assert!(!script_is_guard_balanced(&vec![Step::ExitCriticalSection]));
    assert!(!script_is_guard_balanced(&vec![
        Step::EnterCriticalSection,
        Step::ExitCriticalSection,
        Step::ExitCriticalSection
    ]));
    // an unmatched enter is a guard dropped at the task's end, which is fine
    assert!(script_is_guard_balanced(&vec![Step::EnterCriticalSection]));
}

#[test]
fn test_execution_context_notification() {
    let mut data = ExecutionContextData::new();
    assert!(data.can_exit());
    let guard = data.enter_critical_section();
    assert!(!data.can_exit());
    assert!(guard.exit_prevent_cancellation(&mut data));
    assert!(data.can_exit());

    // the notification fires at most once
    assert_eq!(
        data.cancellation_notification,
        CancellationNotification::Armed
    );
    data.notify_cancelled();
    assert_eq!(
        data.cancellation_notification,
        CancellationNotification::Fired
    );
    data.notify_cancelled();
    assert_eq!(
        data.cancellation_notification,
        CancellationNotification::Fired
    );
    // and once fired, disabling fails
    assert!(!data.try_to_disable_cancellation());
}

#[test]
fn test_guard_try_to_disable() {
    let mut data = ExecutionContextData::new();
    let guard = data.enter_critical_section();
    // with the notification still armed, disabling wins and keeps the hold
    assert!(guard.try_to_disable_cancellation(&mut data));
    assert_eq!(data.prevent_cancellation, 1);
    assert_eq!(
        data.cancellation_notification,
        CancellationNotification::Disarmed
    );
    // the notification never fires once disarmed
    data.notify_cancelled();
    assert_eq!(
        data.cancellation_notification,
        CancellationNotification::Disarmed
    );

    // after the notification fired, disabling loses and releases the hold
    let mut fired = ExecutionContextData::new();
    let guard = fired.enter_critical_section();
    fired.notify_cancelled();
    assert!(!guard.try_to_disable_cancellation(&mut fired));
    assert_eq!(fired.prevent_cancellation, 0);
}

#[test]
fn test_structured_scope_observer() {
    let mut data = ExecutionContextData::new();
    let (observer, guard) = data.enter_structured_cancellation();
    assert!(!observer.is_resolved(&data));
    data.notify_cancelled();
    assert!(observer.is_resolved(&data));
    assert!(guard.exit_prevent_cancellation(&mut data));
}
