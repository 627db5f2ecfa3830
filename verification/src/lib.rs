//! Intervals over ordered points, with open or closed edges, and recurrences
//! that produce date-time intervals one after another.

mod calendar;
pub mod dailyrecurrence;
pub mod dateinterval;
pub mod datetimeinterval;
pub mod interval;
pub mod recurrence;
pub mod timeinterval;
pub mod types;
