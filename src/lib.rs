//! Timers that can be stopped, restarted, cancelled and rescheduled.
//!
//! The timers here are closed state machines driven by a monotonic clock that
//! the caller reads. A timer only names the instant it is waiting for
//! (`deadline`); the event loop that owns it sleeps until that instant, or
//! forever when there is none, and then hands the current instant to `tick`.
//! `tick` changes the timer only when it actually fires, so a wait that loses a
//! race and is abandoned leaves the timer exactly as it was.
pub mod oneshot;
pub mod periodic;
pub mod time;

pub use oneshot::OneshotTimer;
pub use periodic::PeriodicTimer;
pub use time::{Duration, Instant};
