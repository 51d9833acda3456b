//! A scoped wall-clock timer for ad-hoc performance debugging.
//!
//! A [`BlockTimer`] captures a label and a monotonic clock reading when it is
//! created; when it is stopped, or at the latest when it goes out of scope, it
//! writes a single line of the form `<label>: <elapsed>` to the diagnostic
//! output stream. The elapsed time is rendered by [`PrettyDuration`], which
//! decomposes a nanosecond count into whole seconds and residual milliseconds,
//! microseconds and nanoseconds, and prints it in the coarsest non-zero unit
//! with one truncated decimal digit where applicable.

pub mod duration;
pub mod timer;

pub use duration::PrettyDuration;
pub use timer::BlockTimer;
pub use timer::nanos_from_duration;
pub use timer::nanos_from_parts;
pub use timer::report_line;
