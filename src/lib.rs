//! A small timer widget: a START/STOP pair of buttons that drive one
//! repeating job, with a log of what happened.
//!
//! The library holds the widget's state machine. It decides, for each
//! incoming message, how the state changes and what the host must do with
//! the scheduler and the console; the host carries those commands out.

mod laws;
mod log;
mod widget;

pub use laws::{
    lemma_cancel_after_start, lemma_running_iff_started, run, start_unended, started_and_not_ended,
};
pub use log::LogEntry;
pub use widget::{
    ConsoleCall, Effects, Frame, JobCommand, Message, Model, ModelView, JOB_LEFT_MESSAGE,
    ONE_SHOT_DELAY_SECS, TICK_COUNTER, TICK_PERIOD_SECS, TIMER_NAME,
};
