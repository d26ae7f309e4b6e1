//! A phi accrual failure detector: it watches the heartbeats of one resource
//! and keeps, in whole numbers, everything that the suspicion level phi is
//! computed from.
//!
//! The library holds what is decided in whole numbers, and proves it: the
//! ring of the latest heartbeat intervals, the sum of the intervals and the
//! sum of their squares, the bounds on the settings, and what a heartbeat
//! does to the state of a detector. Phi is arithmetic on doubles over the
//! numbers in [`PhiInputs`]. Who holds a detector reads its clock, takes the
//! inputs for that reading, compares phi with the threshold, and reports a
//! heartbeat together with that verdict.

pub mod buffer;
pub mod builder;
pub mod clock;
pub mod config;
pub mod detector;
pub mod error;
pub mod history;
pub mod time;
pub mod wide;

pub use crate::buffer::CircleBuffer;
pub use crate::builder::Builder;
pub use crate::clock::{Clock, DefaultClock, FakeClock};
pub use crate::config::Config;
pub use crate::detector::{DetectorState, FailureDetector, PhiInputs};
pub use crate::error::Error;
pub use crate::history::HeartbeatHistory;
pub use crate::wide::Wide;
