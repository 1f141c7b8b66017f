//! Graceful-shutdown coordination: a two-flag shutdown record, the shared
//! handle that application code and the signal listener hold, and the
//! listener's decisions as a pure state machine.

mod listener;
mod shared;
mod state;

pub use listener::{
    coordinated_next, coordinated_run, coordinated_step, immediate_next, immediate_step,
    lemma_completion_needs_finished, lemma_no_signal_no_output, Action, Event, Phase,
    POLL_INTERVAL_MS,
};
pub use shared::{ShutdownSignal, ShutdownSignalInner};
pub use state::{lemma_mark_finished_idempotent, lemma_should_shutdown_monotone, Op, ShutdownState};
