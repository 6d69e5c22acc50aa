//! Stacking interrupt wrappers and flattening the nested outcomes.

use blockz::awaitable::run;
use blockz::awaitable::Awaitable;
use blockz::cancel::CancelTarget;
use blockz::cancel::Canceled;
use blockz::error::MaybeInterrupted;
use blockz::ext::BlockzFutureExt;
use blockz::ext::BlockzTryFutureExt;
use blockz::flatten_interrupts::FlattenInterrupts;
use blockz::poll::Poll;
use blockz::task::Task;

#[test]
fn test_interrupt_chain_timed_out() {
    // The computation sleeps until instant 3; a timeout of 1 fires first;
    // the attached cancel handle is late.
    let task = Task::new(3, ());
    let (mut fut, mut handle) = task.timeout(1, 0).cancel();

    assert!(matches!(fut.poll(0), Poll::Pending));
    assert!(matches!(fut.poll(2), Poll::Ready(Ok(Err(_)))));
    assert!(!handle.cancel(&mut fut, 2));
}

#[test]
fn test_interrupt_chain_canceled() {
    // The computation sleeps until instant 3 under a timeout of 2; the
    // cancel fires at 1 and preempts both.
    let task = Task::new(3, ());
    let (mut fut, mut handle) = task.timeout(2, 0).cancel();

    assert!(matches!(fut.poll(0), Poll::Pending));
    assert!(handle.cancel(&mut fut, 1));
    assert!(matches!(fut.poll(1), Poll::Ready(Err(_))));
}

#[test]
fn test_interrupt_chain_ok() {
    // A fallible computation succeeds at instant 1, inside a timeout of 2
    // and a cancel wrapper that never fires.
    let task = Task::new(1, Ok::<(), &str>(()));
    let (mut fut, mut handle) = task.timeout(2, 0).cancel();

    assert!(matches!(fut.poll(0), Poll::Pending));
    assert!(matches!(fut.poll(2), Poll::Ready(Ok(Ok(Ok(()))))));
    assert!(!handle.cancel(&mut fut, 2));
}

#[test]
fn test_interrupt_chain_err() {
    // A fallible computation fails on its own terms at instant 1; neither
    // the timeout nor the cancel wrapper hides that failure.
    let task = Task::new(1, Err::<(), &str>("error"));
    let (mut fut, mut handle) = task.timeout(2, 0).cancel();

    assert!(matches!(fut.poll(0), Poll::Pending));
    assert!(matches!(fut.poll(2), Poll::Ready(Ok(Ok(Err("error"))))));
    assert!(!handle.cancel(&mut fut, 2));
}

#[test]
fn scenario_flattened_computation_error() {
    // A fallible computation fails with "boom" at instant 1 under a
    // timeout of 2; flattening reports the computation's own error, not a
    // timeout.
    let task = Task::new(1, Err::<u64, &str>("boom"));
    let (stacked, handle) = task.try_timeout(2, 0).cancel();
    let mut flat = FlattenInterrupts::new(stacked);

    let out = run(&mut flat, 0);
    assert!(matches!(out, Err(MaybeInterrupted::Error("boom"))));
    drop(handle);
}

#[test]
fn flattened_stack_keeps_timeout_variant() {
    // The timer fires first: the flat outcome is the timeout variant.
    let task = Task::new(5, Ok::<u64, &str>(1));
    let (stacked, handle) = task.try_timeout(2, 0).cancel();
    let mut flat = FlattenInterrupts::new(stacked);

    let out = run(&mut flat, 0);
    assert!(matches!(out, Err(MaybeInterrupted::TimedOut(_))));
    drop(handle);
}

#[test]
fn flattened_stack_keeps_cancel_variant() {
    // The cancel fires first: the flat outcome is the cancellation
    // variant, never coalesced with a timeout.
    let task = Task::new(5, Ok::<u64, &str>(1));
    let (mut stacked, mut handle) = task.try_timeout(4, 0).cancel();

    assert!(matches!(stacked.poll(0), Poll::Pending));
    assert!(handle.cancel(&mut stacked, 1));
    let mut flat = FlattenInterrupts::new(stacked);
    let out = run(&mut flat, 1);
    assert!(matches!(out, Err(MaybeInterrupted::Canceled(Canceled))));
}

#[test]
fn flattened_stack_passes_success_through() {
    let task = Task::new(1, Ok::<u64, &str>(8));
    let (stacked, handle) = task.try_timeout(2, 0).cancel();
    let mut flat = FlattenInterrupts::new(stacked);

    let out = run(&mut flat, 0);
    assert!(matches!(out, Ok(8)));
    drop(handle);
}

#[test]
fn try_flatten_unwraps_interrupt_aware_error() {
    // A plain cancel wrapper yields `Result<T, Canceled>`; folding it into
    // the flat union keeps the cancellation variant.
    let task = Task::new(3, 2u64);
    let mut fut = task.with_cancel(Task::new(1, ())).try_flatten_interrupt::<&str>();

    let out = run(&mut fut, 0);
    assert!(matches!(out, Err(MaybeInterrupted::Canceled(Canceled))));
}

#[test]
fn try_flatten_passes_success_and_own_error_through() {
    let task = Task::new(1, Ok::<u64, &str>(3));
    let mut fut = task.try_timeout(2, 0).try_flatten_interrupt::<&str>();
    let out = run(&mut fut, 0);
    assert!(matches!(out, Ok(3)));

    let task = Task::new(1, Err::<u64, &str>("boom"));
    let mut fut = task.try_timeout(2, 0).try_flatten_interrupt::<&str>();
    let out = run(&mut fut, 0);
    assert!(matches!(out, Err(MaybeInterrupted::Error("boom"))));
}

#[test]
fn try_cancel_keeps_failure_apart_from_interrupt() {
    // The computation's own failure is reported as an error, not as an
    // interrupt.
    let task = Task::new(1, Err::<u64, &str>("boom"));
    let (mut fut, _handle) = task.try_cancel();
    assert!(matches!(fut.poll(1), Poll::Ready(Err(MaybeInterrupted::Error("boom")))));

    // A cancellation is reported as the cancellation variant.
    let task = Task::new(5, Err::<u64, &str>("boom"));
    let (mut fut, mut handle) = task.try_cancel();
    assert!(matches!(fut.poll(0), Poll::Pending));
    assert!(handle.cancel(&mut fut, 1));
    assert!(matches!(fut.poll(1), Poll::Ready(Err(MaybeInterrupted::Canceled(Canceled)))));
}

#[test]
fn try_timeout_and_try_deadline_agree() {
    let mut with_deadline = Task::new(9, Ok::<u64, &str>(1)).try_deadline(2);
    let mut with_timeout = Task::new(9, Ok::<u64, &str>(1)).try_timeout(2, 0);

    let d = run(&mut with_deadline, 0);
    let t = run(&mut with_timeout, 0);
    assert!(matches!(d, Err(MaybeInterrupted::TimedOut(_))));
    assert!(matches!(t, Err(MaybeInterrupted::TimedOut(_))));
}

#[test]
fn try_with_cancel_channel_reports_cancellation() {
    let task = Task::new(5, Ok::<u64, &str>(1));
    let mut fut = task.try_with_cancel_channel(blockz::cancel::CancelChannelFuture::fired(0));
    let out = run(&mut fut, 0);
    assert!(matches!(out, Err(MaybeInterrupted::Canceled(Canceled))));

    let task = Task::new(2, Ok::<u64, &str>(1));
    let mut fut = task.try_with_cancel(Task::new(9, ()));
    let out = run(&mut fut, 0);
    assert!(matches!(out, Ok(1)));
}
