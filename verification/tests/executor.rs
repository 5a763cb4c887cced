use sev_rt::waker::{run_future, Action, Event, Executor, SevWaker};

#[test]
fn flag_starts_cleared() {
    let waker = SevWaker::new();
    assert!(!waker.pending());
}

#[test]
fn wake_sets_and_clear_resets_the_flag() {
    let mut waker = SevWaker::new();
    waker.wake_by_ref();
    assert!(waker.pending());
    waker.wake_by_ref();
    assert!(waker.pending());
    waker.clear();
    assert!(!waker.pending());
    waker.clear();
    assert!(!waker.pending());
}

#[test]
fn two_pending_polls_then_ready_takes_three_polls() {
    let script = vec![
        Event::Pending,
        Event::Wake,
        Event::Resumed,
        Event::Pending,
        Event::Wake,
        Event::Resumed,
        Event::Ready(42u32),
    ];
    let done = run_future(&script);
    assert_eq!(done.result, Some(42));
    assert_eq!(done.polls, 3);
}

#[test]
fn two_pending_polls_step_by_step() {
    let mut executor: Executor<u32> = Executor::new();
    assert_eq!(executor.action(), Action::Poll);
    assert_eq!(executor.step(Event::Pending), Action::Wait);
    assert_eq!(executor.step(Event::Wake), Action::Wait);
    assert_eq!(executor.step(Event::Resumed), Action::Poll);
    assert_eq!(executor.step(Event::Pending), Action::Wait);
    assert_eq!(executor.step(Event::Wake), Action::Wait);
    assert_eq!(executor.step(Event::Resumed), Action::Poll);
    assert_eq!(executor.step(Event::Ready(9)), Action::Return);
    assert_eq!(executor.result(), Some(9));
}

#[test]
fn ready_at_once_takes_one_poll() {
    let done = run_future(&vec![Event::Ready(1u8)]);
    assert_eq!(done.result, Some(1));
    assert_eq!(done.polls, 1);
}

#[test]
fn empty_script_has_no_result() {
    let script: Vec<Event<u32>> = Vec::new();
    let done = run_future(&script);
    assert_eq!(done.result, None);
    assert_eq!(done.polls, 0);
}

#[test]
fn without_a_wake_the_executor_keeps_waiting() {
    let script = vec![Event::Pending, Event::Resumed, Event::Resumed, Event::Ready(5u32)];
    let done = run_future(&script);
    assert_eq!(done.result, None);
    assert_eq!(done.polls, 1);
    let mut executor: Executor<u32> = Executor::new();
    executor.step(Event::Pending);
    assert_eq!(executor.step(Event::Resumed), Action::Wait);
    assert_eq!(executor.step(Event::Resumed), Action::Wait);
}

#[test]
fn wake_during_a_poll_is_not_lost() {
    let mut executor: Executor<u32> = Executor::new();
    assert_eq!(executor.step(Event::Wake), Action::Poll);
    assert_eq!(executor.step(Event::Pending), Action::Poll);
    assert_eq!(executor.step(Event::Pending), Action::Wait);
    assert_eq!(executor.step(Event::Wake), Action::Wait);
    assert_eq!(executor.step(Event::Resumed), Action::Poll);
}

#[test]
fn extra_wakes_keep_the_result() {
    let plain = vec![Event::Pending, Event::Wake, Event::Resumed, Event::Ready(3u32)];
    let noisy = vec![
        Event::Wake,
        Event::Wake,
        Event::Pending,
        Event::Wake,
        Event::Wake,
        Event::Wake,
        Event::Resumed,
        Event::Wake,
        Event::Ready(3u32),
    ];
    let a = run_future(&plain);
    let b = run_future(&noisy);
    assert_eq!(a.result, Some(3));
    assert_eq!(b.result, Some(3));
    assert_eq!(a.polls, 2);
    assert_eq!(b.polls, 2);
}

#[test]
fn extra_wake_costs_at_most_a_redundant_poll() {
    let noisy = vec![Event::Wake, Event::Pending, Event::Pending, Event::Wake, Event::Resumed, Event::Ready(3u32)];
    let done = run_future(&noisy);
    assert_eq!(done.result, Some(3));
    assert_eq!(done.polls, 3);
}

#[test]
fn events_after_completion_change_nothing() {
    let script = vec![Event::Ready(1u32), Event::Wake, Event::Ready(2), Event::Pending, Event::Resumed];
    let done = run_future(&script);
    assert_eq!(done.result, Some(1));
    assert_eq!(done.polls, 1);
    let mut executor: Executor<u32> = Executor::new();
    executor.step(Event::Ready(1));
    assert_eq!(executor.step(Event::Wake), Action::Return);
    assert_eq!(executor.step(Event::Ready(2)), Action::Return);
    assert_eq!(executor.result(), Some(1));
}
