use shutdown_signal::{
    coordinated_step, immediate_step, Action, Event, Phase, ShutdownSignal, ShutdownSignalInner,
    POLL_INTERVAL_MS,
};

const SIGINT: i32 = 2;
const SIGTERM: i32 = 15;

#[test]
fn coordinated_listener_full_run() {
    let shared: ShutdownSignal = ShutdownSignal::new(ShutdownSignalInner::new());
    assert!(!shared.app_should_shutdown());

    let (phase, action) = coordinated_step(Phase::Waiting, Event::Signal(SIGINT));
    assert_eq!(phase, Phase::ShuttingDown);
    assert_eq!(action, Action::Trigger(SIGINT));
    shared.trigger_shutdown();
    assert!(shared.app_should_shutdown());

    let (phase, action) = coordinated_step(phase, Event::Polled(shared.finished_shutdown()));
    assert_eq!(phase, Phase::ShuttingDown);
    assert_eq!(action, Action::Sleep(100));

    shared.app_finished_shutdown();
    let (phase, action) = coordinated_step(phase, Event::Polled(shared.finished_shutdown()));
    assert_eq!(phase, Phase::Done);
    assert_eq!(action, Action::Finish);
}

#[test]
fn poll_interval_is_one_hundred_ms() {
    assert_eq!(POLL_INTERVAL_MS, 100);
}

#[test]
fn coordinated_ignores_second_signal() {
    let (phase, action) = coordinated_step(Phase::ShuttingDown, Event::Signal(SIGTERM));
    assert_eq!(phase, Phase::ShuttingDown);
    assert_eq!(action, Action::Idle);
}

#[test]
fn coordinated_waits_without_signal() {
    let events = [Event::Polled(true), Event::Polled(false), Event::Polled(true)];
    let mut phase = Phase::Waiting;
    for e in events {
        let (next, action) = coordinated_step(phase, e);
        assert_eq!(next, Phase::Waiting);
        assert_eq!(action, Action::Idle);
        phase = next;
    }
}

#[test]
fn coordinated_stream_end_aborts() {
    let (phase, action) = coordinated_step(Phase::Waiting, Event::StreamEnded);
    assert_eq!(phase, Phase::Aborted);
    assert_eq!(action, Action::Abort);
    let (phase, action) = coordinated_step(phase, Event::Signal(SIGINT));
    assert_eq!(phase, Phase::Aborted);
    assert_eq!(action, Action::Idle);
}

#[test]
fn coordinated_done_stays_done() {
    let (phase, action) = coordinated_step(Phase::Done, Event::Polled(true));
    assert_eq!(phase, Phase::Done);
    assert_eq!(action, Action::Idle);
}

#[test]
fn immediate_listener_announces_only() {
    let shared = ShutdownSignalInner::new();
    let (phase, action) = immediate_step(Phase::Waiting, Event::Signal(SIGTERM));
    assert_eq!(phase, Phase::Done);
    assert_eq!(action, Action::Announce(SIGTERM));
    assert!(!shared.app_should_shutdown());
    assert!(!shared.finished_shutdown());
}

#[test]
fn immediate_listener_stream_end_aborts() {
    let (phase, action) = immediate_step(Phase::Waiting, Event::StreamEnded);
    assert_eq!(phase, Phase::Aborted);
    assert_eq!(action, Action::Abort);
}

#[test]
fn immediate_listener_ignores_polls() {
    let (phase, action) = immediate_step(Phase::Waiting, Event::Polled(true));
    assert_eq!(phase, Phase::Waiting);
    assert_eq!(action, Action::Idle);
}
