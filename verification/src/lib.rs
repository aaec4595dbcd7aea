//! A break-reminder scheduling engine.
//!
//! The library tracks elapsed work time and decides when the next short
//! ("microbreak") or longer ("longbreak") rest prompt is due.  It owns the
//! user-tunable settings, the cumulative break-cycle counters, and the live
//! schedule, and reacts to user commands: start, pause, resume, skip,
//! postpone, complete, and settings updates.  Presentation of a break (window
//! creation, tray icons) is left to an unverified host layer, which feeds the
//! scheduler the current wall-clock time and acts on its decisions.

pub mod models;
pub mod scheduler;
pub mod timefmt;
