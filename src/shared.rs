use vstd::prelude::*;
use vstd::rwlock::{RwLock, RwLockPredicate};

use crate::state::ShutdownState;

verus! {

/// What the lock holds: every record is allowed, since the order in which the
/// listener and the application set the two flags is theirs to keep.
struct AnyRecord;

impl RwLockPredicate<ShutdownState> for AnyRecord {
    open spec fn inv(self, v: ShutdownState) -> bool {
        true
    }
}

/// The shutdown record shared between the signal listener and any number of
/// application threads, behind a readers-writer lock.
///
/// What a read returns depends on what other threads did before it, so the
/// reads promise only a whole record, never a value: the transitions
/// themselves are the verified ones of [`ShutdownState`].
pub struct ShutdownSignalInner {
    state: RwLock<ShutdownState, AnyRecord>,
}

/// The handle that the listener and the application share.
pub type ShutdownSignal = std::sync::Arc<ShutdownSignalInner>;

impl ShutdownSignalInner {
    /// A record in which nothing is requested and nothing finished yet.
    pub fn new() -> ShutdownSignalInner {
        let fresh = ShutdownState::new();
        ShutdownSignalInner { state: RwLock::new(fresh, Ghost(AnyRecord)) }
    }

    /// A copy of the record as it stands at the moment of the read.
    fn snapshot(&self) -> ShutdownState {
        let handle = self.state.acquire_read();
        let current = *handle.borrow();
        handle.release_read();
        current
    }

    /// Whether a shutdown has been requested: the application polls this to
    /// decide when to stop taking new work.
    pub fn app_should_shutdown(&self) -> bool {
        self.snapshot().should_shutdown()
    }

    /// Reports that the application has finished its shutdown work; calling it
    /// again is harmless.
    pub fn app_finished_shutdown(&self) {
        let (mut current, handle) = self.state.acquire_write();
        current.mark_finished();
        handle.release_write(current);
    }

    /// Whether the application has reported that it finished: the listener
    /// polls this while it waits.
    pub fn finished_shutdown(&self) -> bool {
        self.snapshot().is_finished()
    }

    /// Records that a termination signal arrived.
    pub fn trigger_shutdown(&self) {
        let (mut current, handle) = self.state.acquire_write();
        current.request();
        handle.release_write(current);
    }
}

impl Default for ShutdownSignalInner {
    fn default() -> Self {
        ShutdownSignalInner::new()
    }
}

} // verus!
