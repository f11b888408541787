//! Frame pacing for a render loop.
//!
//! A host marks the start and the end of every pipeline stage of a frame and
//! then asks the pacer to wait. The pacer forecasts how long the stages of
//! the next frame will take and sleeps just long enough for that work to end
//! on a refresh boundary of the display.
//!
//! All durations and points in time are counted in whole nanoseconds, and
//! refresh rates in millihertz.

pub mod error;
pub mod history;
pub mod host;
pub mod monitor;
pub mod pacer;
pub mod stage;
pub mod timestamp;

pub use crate::error::PacerError;
pub use crate::history::{FORECAST_WINDOW, HISTORY_CAPACITY};
pub use crate::monitor::{Monitor, LONGEST_INTERVAL, LOWEST_FREQUENCY};
pub use crate::pacer::{FramePacer, Internals, Options};
pub use crate::stage::{FrameStage, FrameStageStats};
pub use crate::timestamp::{narrow_nanos, ComparativeTimestamp};
