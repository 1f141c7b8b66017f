use vstd::prelude::*;

verus! {

/// Milliseconds between two checks of the `finished` flag while the listener
/// waits for the application.
pub const POLL_INTERVAL_MS: u64 = 100;

/// Where a signal listener stands.
#[derive(Clone, Copy, Debug, PartialEq, Eq, Structural)]
pub enum Phase {
    /// No signal yet: waiting for one.
    Waiting,
    /// A signal arrived and shutdown was requested: waiting for the application.
    ShuttingDown,
    /// The listener has ended normally.
    Done,
    /// The signal stream ended before delivering anything; the listener gives up.
    Aborted,
}

/// What the listener's surroundings report to it.
#[derive(Clone, Copy, Debug, PartialEq, Eq, Structural)]
pub enum Event {
    /// The signal source delivered this signal number.
    Signal(i32),
    /// The signal source closed without a signal.
    StreamEnded,
    /// A check of the shared record found `finished` to be this.
    Polled(bool),
}

/// What the listener's surroundings should do next.
#[derive(Clone, Copy, Debug, PartialEq, Eq, Structural)]
pub enum Action {
    /// Announce the signal and request shutdown in the shared record.
    Trigger(i32),
    /// Announce the signal and nothing more.
    Announce(i32),
    /// Sleep this many milliseconds, then check the record again.
    Sleep(u64),
    /// Announce that the application finished; the listener ends.
    Finish,
    /// The signal stream failed; the listener ends without output.
    Abort,
    /// Nothing to do for this event.
    Idle,
}

/// One decision of the coordinated listener.
pub open spec fn coordinated_next(phase: Phase, event: Event) -> (Phase, Action) {
    match (phase, event) {
        (Phase::Waiting, Event::Signal(sig)) => (Phase::ShuttingDown, Action::Trigger(sig)),
        (Phase::Waiting, Event::StreamEnded) => (Phase::Aborted, Action::Abort),
        (Phase::ShuttingDown, Event::Polled(true)) => (Phase::Done, Action::Finish),
        (Phase::ShuttingDown, Event::Polled(false)) => (
            Phase::ShuttingDown,
            Action::Sleep(POLL_INTERVAL_MS),
        ),
        _ => (phase, Action::Idle),
    }
}

/// One decision of the immediate listener, which only announces the signal.
pub open spec fn immediate_next(phase: Phase, event: Event) -> (Phase, Action) {
    match (phase, event) {
        (Phase::Waiting, Event::Signal(sig)) => (Phase::Done, Action::Announce(sig)),
        (Phase::Waiting, Event::StreamEnded) => (Phase::Aborted, Action::Abort),
        _ => (phase, Action::Idle),
    }
}

/// The coordinated listener's phase and actions after `events`, from `phase`.
pub open spec fn coordinated_run(phase: Phase, events: Seq<Event>) -> (Phase, Seq<Action>)
    decreases events.len(),
{
    if events.len() == 0 {
        (phase, Seq::empty())
    } else {
        let (mid, acts) = coordinated_run(phase, events.drop_last());
        let (next, act) = coordinated_next(mid, events.last());
        (next, acts.push(act))
    }
}

/// The coordinated listener's decision on `event` in `phase`: the first signal
/// requests shutdown, later checks of the record sleep one poll interval until
/// the application has finished, and every other event is ignored.
pub fn coordinated_step(phase: Phase, event: Event) -> (r: (Phase, Action))
    ensures
        r == coordinated_next(phase, event),
{
    match (phase, event) {
        (Phase::Waiting, Event::Signal(sig)) => (Phase::ShuttingDown, Action::Trigger(sig)),
        (Phase::Waiting, Event::StreamEnded) => (Phase::Aborted, Action::Abort),
        (Phase::ShuttingDown, Event::Polled(finished)) => {
            if finished {
                (Phase::Done, Action::Finish)
            } else {
                (Phase::ShuttingDown, Action::Sleep(POLL_INTERVAL_MS))
            }
        },
        _ => (phase, Action::Idle),
    }
}

/// The immediate listener's decision on `event` in `phase`: the first signal is
/// announced and ends the listener; it touches no shared record.
pub fn immediate_step(phase: Phase, event: Event) -> (r: (Phase, Action))
    ensures
        r == immediate_next(phase, event),
        !(r.1 is Trigger),
{
    match (phase, event) {
        (Phase::Waiting, Event::Signal(sig)) => (Phase::Done, Action::Announce(sig)),
        (Phase::Waiting, Event::StreamEnded) => (Phase::Aborted, Action::Abort),
        _ => (phase, Action::Idle),
    }
}

/// A coordinated listener that starts waiting ends normally only after a signal
/// arrived and, later, a check found the application finished; and the first
/// check that finds it finished ends the listener, while each earlier one waits
/// a single poll interval.
pub proof fn lemma_completion_needs_finished(events: Seq<Event>)
    ensures
        coordinated_next(Phase::ShuttingDown, Event::Polled(true)) == (Phase::Done, Action::Finish),
        coordinated_next(Phase::ShuttingDown, Event::Polled(false)) == (
            Phase::ShuttingDown,
            Action::Sleep(POLL_INTERVAL_MS),
        ),
        coordinated_run(Phase::Waiting, events).0 == Phase::Done ==> exists|i: int, j: int|
            0 <= i < j < events.len() && events[i] is Signal && events[j] == Event::Polled(true),
    decreases events.len(),
{
    if events.len() > 0 {
        let init = events.drop_last();
        lemma_completion_needs_finished(init);
        lemma_signal_before_shutting_down(init);
        let mid = coordinated_run(Phase::Waiting, init).0;
        if coordinated_run(Phase::Waiting, events).0 == Phase::Done {
            if mid == Phase::Done {
                let (i, j) = choose|i: int, j: int|
                    0 <= i < j < init.len() && init[i] is Signal && init[j] == Event::Polled(true);
                assert(events[i] == init[i] && events[j] == init[j]);
            } else {
                assert(mid == Phase::ShuttingDown);
                let i = choose|i: int| 0 <= i < init.len() && init[i] is Signal;
                assert(events[i] == init[i]);
                assert(events[events.len() - 1] == Event::Polled(true));
            }
        }
    }
}

/// A coordinated listener that starts waiting has left `Waiting` for
/// `ShuttingDown` or `Done` only after some signal.
proof fn lemma_signal_before_shutting_down(events: Seq<Event>)
    ensures
        ({
            let p = coordinated_run(Phase::Waiting, events).0;
            p == Phase::ShuttingDown || p == Phase::Done
        }) ==> exists|i: int| 0 <= i < events.len() && events[i] is Signal,
    decreases events.len(),
{
    if events.len() > 0 {
        let init = events.drop_last();
        lemma_signal_before_shutting_down(init);
        let mid = coordinated_run(Phase::Waiting, init).0;
        if mid == Phase::ShuttingDown || mid == Phase::Done {
            let i = choose|i: int| 0 <= i < init.len() && init[i] is Signal;
            assert(events[i] == init[i]);
        } else {
            assert(events[events.len() - 1] == events.last());
        }
    }
}

/// Until a signal arrives, the coordinated listener keeps waiting (or gives up
/// when the stream ends) and produces no output.
pub proof fn lemma_no_signal_no_output(events: Seq<Event>)
    requires
        forall|i: int| 0 <= i < events.len() ==> !(events[i] is Signal),
    ensures
        ({
            let (p, acts) = coordinated_run(Phase::Waiting, events);
            &&& p == Phase::Waiting || p == Phase::Aborted
            &&& acts.len() == events.len()
            &&& forall|k: int| 0 <= k < acts.len() ==> acts[k] == Action::Idle || acts[k] == Action::Abort
        }),
    decreases events.len(),
{
    if events.len() > 0 {
        let init = events.drop_last();
        assert forall|i: int| 0 <= i < init.len() implies !(init[i] is Signal) by {
            assert(init[i] == events[i]);
        }
        lemma_no_signal_no_output(init);
        assert(!(events[events.len() - 1] is Signal));
    }
}

} // verus!
