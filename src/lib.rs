//! Control core of a chat-driven background monitor: a state controller that
//! admits at most one worker loop, the worker loop as a state machine, and a
//! coalescing cancel signal that cuts the loop's idle wait short.

mod laws;
mod monitor;
mod router;
mod signal;

pub use laws::{
    initial_system, lemma_at_most_one_worker, lemma_one_notification_per_cycle,
    lemma_op_keeps_one_worker, lemma_signal_before_wait, lemma_stop_completes,
    lemma_stopping_holds, live_count, raised, run, stop_distance, system_inv, system_next, Op,
    SystemModel,
};
pub use monitor::{
    Action, ControlError, DeliveryError, Event, ExitReason, InvocationError, Monitor,
    MonitorModel, Phase, WorkerLoop, WorkerModel, WorkerState, PROBE_INTERVAL_SECS,
};
pub use router::{after_command, reply_fits, status_spec, Command, Reply};
pub use signal::{CancelSignal, WaitOutcome, WaitPoll};
