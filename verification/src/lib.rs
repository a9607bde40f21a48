//! Work-session billing tracker: timed sessions at an hourly rate, grouped
//! into billing periods, annotated with timestamped notes, and rendered into
//! invoice rows.
//!
//! Instants are local-clock seconds since the Unix epoch; money is integer
//! cents. The interactive terminal loop around [`recorder::Recorder`] lives
//! outside this crate: it feeds events in and performs the actions.

pub mod earnings;
pub mod model;
pub mod recorder;
pub mod render;
