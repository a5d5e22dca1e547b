//! A countdown adapter for a blocking delay primitive.
//!
//! The library stores a requested [`duration::Duration`] and, on demand,
//! asks a delay collaborator to block for that long, expressed as a
//! 32-bit microsecond count.  The collaborator sits behind the
//! [`timer::DelayProvider`] port; [`timer::RecordingDelay`] is a
//! spend-no-time collaborator that only records what was asked of it.

pub mod duration;
pub mod timer;

pub use duration::Duration;
pub use timer::DelayProvider;
pub use timer::RecordingDelay;
pub use timer::Timer;
