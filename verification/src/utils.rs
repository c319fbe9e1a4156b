//! Time primitives shared by the rest of the crate.

pub mod calendar;
pub mod date_time_range;
pub mod instant;
pub mod rfc3339;
