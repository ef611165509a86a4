use wavy::signal::{CompletionSignal, PollOutcome, SignalState};

#[test]
fn new_signal_is_idle() {
    let signal: CompletionSignal<u32> = CompletionSignal::new();
    assert_eq!(signal.state(), SignalState::Idle);
    assert!(!signal.is_ready());
    assert!(!signal.has_waker());
    assert_eq!(signal.missed(), 0);
}

#[test]
fn signal_before_poll_completes_without_a_waker() {
    let mut signal: CompletionSignal<u32> = CompletionSignal::new();
    assert_eq!(signal.signal_ready(), None);
    assert_eq!(signal.state(), SignalState::Ready);
    assert_eq!(signal.poll(1), PollOutcome::Complete);
    assert!(!signal.has_waker());
    assert_eq!(signal.state(), SignalState::Idle);
}

#[test]
fn complete_poll_resets_ready() {
    let mut signal: CompletionSignal<u32> = CompletionSignal::new();
    signal.signal_ready();
    assert_eq!(signal.poll(1), PollOutcome::Complete);
    assert!(!signal.is_ready());
    assert_eq!(signal.poll(2), PollOutcome::Pending);
    assert_eq!(signal.poll(3), PollOutcome::Pending);
}

#[test]
fn pending_poll_stores_the_waker_and_signal_hands_it_out() {
    let mut signal: CompletionSignal<u32> = CompletionSignal::new();
    assert_eq!(signal.poll(41), PollOutcome::Pending);
    assert_eq!(signal.state(), SignalState::Pending);
    assert!(signal.has_waker());
    assert_eq!(signal.signal_ready(), Some(41));
    assert_eq!(signal.state(), SignalState::Ready);
    assert!(!signal.has_waker());
    assert_eq!(signal.poll(42), PollOutcome::Complete);
    assert_eq!(signal.state(), SignalState::Idle);
}

#[test]
fn waker_is_handed_out_once() {
    let mut signal: CompletionSignal<u32> = CompletionSignal::new();
    signal.poll(7);
    assert_eq!(signal.signal_ready(), Some(7));
    assert_eq!(signal.signal_ready(), None);
    assert!(signal.is_ready());
}

#[test]
fn second_await_overwrites_the_first_waker() {
    let mut signal: CompletionSignal<u32> = CompletionSignal::new();
    assert_eq!(signal.poll(1), PollOutcome::Pending);
    assert_eq!(signal.poll(2), PollOutcome::Pending);
    assert_eq!(signal.signal_ready(), Some(2));
}

#[test]
fn signal_over_unconsumed_period_is_counted() {
    let mut signal: CompletionSignal<u32> = CompletionSignal::new();
    signal.signal_ready();
    assert_eq!(signal.missed(), 0);
    signal.signal_ready();
    signal.signal_ready();
    assert_eq!(signal.missed(), 2);
    assert_eq!(signal.poll(1), PollOutcome::Complete);
    signal.signal_ready();
    assert_eq!(signal.missed(), 2);
}

#[test]
fn signal_cycles_for_many_periods() {
    let mut signal: CompletionSignal<usize> = CompletionSignal::new();
    for period in 0..100usize {
        assert_eq!(signal.poll(period), PollOutcome::Pending);
        assert_eq!(signal.signal_ready(), Some(period));
        assert_eq!(signal.poll(period), PollOutcome::Complete);
        assert_eq!(signal.state(), SignalState::Idle);
    }
    assert_eq!(signal.missed(), 0);
}

#[test]
fn waker_need_not_be_copyable() {
    let mut signal: CompletionSignal<String> = CompletionSignal::new();
    assert_eq!(signal.poll(String::from("task")), PollOutcome::Pending);
    assert_eq!(signal.signal_ready(), Some(String::from("task")));
}
