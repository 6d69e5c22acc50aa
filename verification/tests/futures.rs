//! Race behaviour of the cancel, timeout and deadline wrappers, driven on
//! the discrete model clock.

use blockz::awaitable::run;
use blockz::awaitable::Awaitable;
use blockz::cancel::Cancel;
use blockz::cancel::CancelChannelFuture;
use blockz::cancel::CancelTarget;
use blockz::cancel::Canceled;
use blockz::ext::BlockzFutureExt;
use blockz::poll::race_step;
use blockz::poll::timed_step;
use blockz::poll::try_race_step;
use blockz::poll::Poll;
use blockz::task::Task;
use blockz::timeout::TimedOut;

#[test]
fn test_blockz_future_ext_with_cancel_handle_future_completed() {
    // The computation completes at instant 1, before anyone cancels.
    let task = Task::new(1, 7u64);
    let (mut fut, mut handle) = task.cancel();

    assert!(matches!(fut.poll(1), Poll::Ready(Ok(7))));
    // The computation has finished already: cancellation has no effect.
    assert!(!handle.cancel(&mut fut, 2));
}

#[test]
fn test_blockz_future_ext_with_cancel_handle_cancel_ok() {
    // The computation would complete at instant 2; the cancel arrives at 1.
    let task = Task::new(2, 7u64);
    let (mut fut, mut handle) = task.cancel();

    assert!(matches!(fut.poll(0), Poll::Pending));
    assert!(handle.cancel(&mut fut, 1));
    assert!(matches!(fut.poll(1), Poll::Ready(Err(Canceled))));
}

#[test]
fn test_blockz_future_ext_with_cancel_handle_ok() {
    let task = Task::new(1, 7u64);
    let (mut fut, mut handle) = task.cancel();

    assert!(matches!(fut.poll(0), Poll::Pending));
    assert!(matches!(fut.poll(2), Poll::Ready(Ok(7))));
    assert!(!handle.cancel(&mut fut, 2));
}

#[test]
fn test_blockz_future_ext_with_cancel_future_cancel() {
    // The cancel source is itself a computation, ready at instant 1.
    let task = Task::new(2, 7u64);
    let mut fut = task.with_cancel(Task::new(1, ()));

    let out = run(&mut fut, 0);
    assert!(matches!(out, Err(Canceled)));
}

#[test]
fn test_blockz_future_ext_with_cancel_future_ok() {
    let task = Task::new(1, 7u64);
    let mut fut = task.with_cancel(Task::new(2, ()));

    let out = run(&mut fut, 0);
    assert!(matches!(out, Ok(7)));
}

#[test]
fn test_blockz_future_ext_with_cancel_channel_cancel() {
    let task = Task::new(2, 7u64);
    let mut fut = task.with_cancel_channel(CancelChannelFuture::new());

    assert!(matches!(fut.poll(0), Poll::Pending));
    // The send half fires at instant 1.
    assert!(fut.deliver_cancel(1));
    assert!(matches!(fut.poll(1), Poll::Ready(Err(Canceled))));
}

#[test]
fn test_blockz_future_ext_with_cancel_channel_ok() {
    let task = Task::new(1, 7u64);
    let mut fut = task.with_cancel_channel(CancelChannelFuture::new());

    let out = run(&mut fut, 0);
    assert!(matches!(out, Ok(7)));
}

#[test]
fn test_blockz_future_ext_timeout() {
    let task = Task::new(2, 7u64);
    let mut fut = task.timeout(1, 0);

    let out = run(&mut fut, 0);
    assert!(out.is_err());
}

#[test]
fn test_blockz_future_ext_timeout_ok() {
    let task = Task::new(1, 7u64);
    let mut fut = task.timeout(2, 0);

    let out = run(&mut fut, 0);
    assert!(out.is_ok());
}

#[test]
fn test_blockz_future_ext_deadline() {
    let task = Task::new(3, 7u64);
    let mut fut = task.deadline(1);

    let out = run(&mut fut, 0);
    assert!(out.is_err());
}

#[test]
fn test_blockz_future_ext_deadline_ok() {
    let task = Task::new(1, 7u64);
    let mut fut = task.deadline(2);

    let out = run(&mut fut, 0);
    assert!(out.is_ok());
}

#[test]
fn scenario_cancel_again_reports_no_effect() {
    // The computation sleeps until instant 2; the cancel fires at 1; a
    // later attempt to cancel again reports no effect.
    let task = Task::new(2, ());
    let (mut fut, mut handle) = task.cancel();

    assert!(matches!(fut.poll(0), Poll::Pending));
    assert!(handle.cancel(&mut fut, 1));
    assert!(matches!(fut.poll(1), Poll::Ready(Err(Canceled))));
    assert!(!handle.cancel(&mut fut, 3));
}

#[test]
fn scenario_cancel_after_completion_reports_no_effect() {
    // The computation completes at instant 1; the cancel fires at 3.
    let task = Task::new(1, ());
    let (mut fut, mut handle) = task.cancel();

    assert!(matches!(fut.poll(0), Poll::Pending));
    assert!(matches!(fut.poll(1), Poll::Ready(Ok(()))));
    assert!(!handle.cancel(&mut fut, 3));
}

#[test]
fn scenario_timeout_expires() {
    // The computation sleeps until instant 3 under a timeout of 1.
    let task = Task::new(3, ());
    let mut fut = task.timeout(1, 0);

    let out = run(&mut fut, 0);
    assert!(matches!(out, Err(TimedOut)));
}

#[test]
fn scenario_timeout_with_unused_cancel_handle() {
    // The computation completes at instant 1 under a timeout of 3; a
    // cancel handle is attached but never invoked.
    let task = Task::new(1, 5u64);
    let (mut fut, handle) = task.timeout(3, 0).cancel();

    let out = run(&mut fut, 0);
    assert!(matches!(out, Ok(Ok(5))));
    drop(handle);
}

#[test]
fn timer_already_due_still_lets_completion_win() {
    // A zero timeout, and a deadline already in the past, still give a
    // computation that is ready in the same step its chance to complete.
    let ready = Task::new(0, 5u64);
    let mut fut = ready.timeout(0, 0);
    assert!(matches!(fut.poll(0), Poll::Ready(Ok(5))));

    let ready = Task::new(0, 5u64);
    let mut fut = ready.deadline(0);
    assert!(matches!(fut.poll(0), Poll::Ready(Ok(5))));

    // A computation that is not ready yet loses to the already-due timer.
    let late = Task::new(1, 5u64);
    let mut fut = late.timeout(0, 0);
    assert!(matches!(fut.poll(0), Poll::Ready(Err(TimedOut))));
}

#[test]
fn deadline_and_timeout_agree() {
    // A deadline for instant 4 and a timeout of 4 - 1 armed at instant 1
    // settle on the same outcome at the same instant.
    let mut with_deadline = Task::new(3, 9u64).deadline(4);
    let mut with_timeout = Task::new(3, 9u64).timeout(4 - 1, 1);

    assert_eq!(with_deadline.ready_time(), with_timeout.ready_time());
    let d = run(&mut with_deadline, 0);
    let t = run(&mut with_timeout, 0);
    assert!(matches!(d, Ok(9)));
    assert!(matches!(t, Ok(9)));
}

#[test]
fn signal_channel_is_single_use() {
    let mut channel = CancelChannelFuture::new();
    assert!(channel.deliver(1));
    assert!(!channel.deliver(2));

    // A channel created with the signal already sent cannot carry another.
    let mut fired = CancelChannelFuture::fired(0);
    assert!(!fired.deliver(1));
    assert!(matches!(fired.poll(0), Poll::Ready(())));
}

#[test]
fn ready_time_of_wrappers() {
    let fut = Task::new(5, ()).with_cancel(Task::new(3, ()));
    assert_eq!(fut.ready_time(), Some(3));

    let fut = Task::new(5, ()).timeout(9, 0);
    assert_eq!(fut.ready_time(), Some(5));

    let fut = Task::new(5, ()).with_cancel_channel(CancelChannelFuture::new());
    assert_eq!(fut.ready_time(), Some(5));
}

#[test]
fn race_steps_prefer_completion() {
    assert!(race_step::<u64>(Poll::Ready(1), Poll::Ready(())).is_ready());
    assert!(!race_step::<u64>(Poll::Pending, Poll::Pending).is_ready());
    assert!(matches!(race_step::<u64>(Poll::Ready(1), Poll::Ready(())), Poll::Ready(Ok(1))));
    assert!(matches!(race_step::<u64>(Poll::Pending, Poll::Ready(())), Poll::Ready(Err(Canceled))));
    assert!(matches!(race_step::<u64>(Poll::Pending, Poll::Pending), Poll::Pending));

    assert!(matches!(timed_step::<u64>(Poll::Ready(1), Poll::Ready(())), Poll::Ready(Ok(1))));
    assert!(matches!(
        timed_step::<u64>(Poll::Pending, Poll::Ready(())),
        Poll::Ready(Err(TimedOut))
    ));

    assert!(matches!(
        try_race_step::<u64, &str>(Poll::Ready(Err("boom")), Poll::Ready(())),
        Poll::Ready(Err(blockz::error::MaybeInterrupted::Error("boom")))
    ));
}

#[test]
fn cancel_with_cancel_keeps_public_name() {
    // The plain constructor form, without the fluent extension.
    let mut fut = Cancel::with_cancel(Task::new(1, 4u64), Task::new(9, ()));
    let out = run(&mut fut, 0);
    assert!(matches!(out, Ok(4)));
}
