//! An escalating reminder: a counter that climbs through four severity
//! levels, the log of what was said at each tick, and the rules that decide
//! when the reminding stops.
//!
//! Everything here computes on plain values. Printing, sleeping and the
//! worker thread belong to the program that drives the library.

pub mod chance;
pub mod history;
pub mod level;
pub mod reminder;
pub mod session;
