//! A workout interval timer.
//!
//! A routine prepares once and then alternates work and rest, round after
//! round. [`settings`] holds the three durations and reads them from the
//! command line, [`app`] keeps the running routine up to date with the clock,
//! and [`frame`] draws up what there is to show. [`routine`] is the
//! mathematical model that the contracts speak of, together with the rules
//! that every routine keeps.

pub mod app;
pub mod clock;
pub mod decimal;
pub mod frame;
pub mod options;
pub mod routine;
pub mod settings;
pub mod step;
