use vstd::prelude::*;

verus! {

/// The shutdown record: two facts that only ever go from `false` to `true`.
#[derive(Clone, Copy, Debug, PartialEq, Eq, Structural)]
pub struct ShutdownState {
    /// A termination signal has been received.
    pub requested: bool,
    /// The application reports that its own shutdown work is done.
    pub finished: bool,
}

/// The operations on a [`ShutdownState`], as a caller sees them.
#[derive(Clone, Copy, Debug, PartialEq, Eq, Structural)]
pub enum Op {
    /// The listener records that a signal arrived.
    Request,
    /// The application reports that it has finished.
    MarkFinished,
    /// The application asks whether it should stop.
    ShouldShutdown,
    /// The listener checks whether the application has finished.
    IsFinished,
}

impl ShutdownState {
    /// The record after `op`.
    pub open spec fn apply(self, op: Op) -> ShutdownState {
        match op {
            Op::Request => ShutdownState { requested: true, ..self },
            Op::MarkFinished => ShutdownState { finished: true, ..self },
            Op::ShouldShutdown => self,
            Op::IsFinished => self,
        }
    }

    /// The record after each of `ops` in turn.
    pub open spec fn apply_all(self, ops: Seq<Op>) -> ShutdownState
        decreases ops.len(),
    {
        if ops.len() == 0 {
            self
        } else {
            self.apply_all(ops.drop_last()).apply(ops.last())
        }
    }

    /// A fresh record: nothing requested, nothing finished.
    pub fn new() -> (r: ShutdownState)
        ensures
            !r.requested,
            !r.finished,
    {
        ShutdownState { requested: false, finished: false }
    }

    /// Whether the application should stop taking new work.
    pub fn should_shutdown(&self) -> (r: bool)
        ensures
            r == self.requested,
    {
        self.requested
    }

    /// Whether the application has reported that it is done.
    pub fn is_finished(&self) -> (r: bool)
        ensures
            r == self.finished,
    {
        self.finished
    }

    /// Records that a termination signal arrived.
    pub fn request(&mut self)
        ensures
            final(self).requested,
            final(self).finished == old(self).finished,
            *final(self) == old(self).apply(Op::Request),
    {
        self.requested = true;
    }

    /// Records that the application has finished; calling it again changes nothing.
    pub fn mark_finished(&mut self)
        ensures
            final(self).finished,
            final(self).requested == old(self).requested,
            *final(self) == old(self).apply(Op::MarkFinished),
    {
        self.finished = true;
    }
}

impl Default for ShutdownState {
    fn default() -> (r: ShutdownState)
        ensures
            !r.requested,
            !r.finished,
    {
        ShutdownState::new()
    }
}

/// Once a shutdown has been requested, `should_shutdown` stays `true` whatever
/// follows; as long as no `Request` happens, it stays `false`; and likewise
/// `finished` stays `false` until a `MarkFinished`.
pub proof fn lemma_should_shutdown_monotone(s: ShutdownState, ops: Seq<Op>)
    ensures
        s.requested ==> s.apply_all(ops).requested,
        (!s.requested && forall|i: int| 0 <= i < ops.len() ==> ops[i] != Op::Request)
            ==> !s.apply_all(ops).requested,
        (!s.finished && forall|i: int| 0 <= i < ops.len() ==> ops[i] != Op::MarkFinished)
            ==> !s.apply_all(ops).finished,
    decreases ops.len(),
{
    if ops.len() > 0 {
        let init = ops.drop_last();
        lemma_should_shutdown_monotone(s, init);
        assert forall|i: int| 0 <= i < init.len() implies init[i] == ops[i] by {}
    }
}

/// Marking the record finished one or more times in a row leaves it as marking
/// it once does.
pub proof fn lemma_mark_finished_idempotent(s: ShutdownState, ops: Seq<Op>)
    requires
        ops.len() >= 1,
        forall|i: int| 0 <= i < ops.len() ==> ops[i] == Op::MarkFinished,
    ensures
        s.apply_all(ops) == s.apply(Op::MarkFinished),
    decreases ops.len(),
{
    let init = ops.drop_last();
    assert(ops.last() == Op::MarkFinished);
    if ops.len() > 1 {
        assert forall|i: int| 0 <= i < init.len() implies init[i] == Op::MarkFinished by {
            assert(init[i] == ops[i]);
        }
        lemma_mark_finished_idempotent(s, init);
    } else {
        assert(init =~= Seq::<Op>::empty());
    }
}

} // verus!
