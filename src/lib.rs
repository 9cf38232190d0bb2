//! Recurring alarm scheduling: the alarm model, the minute-resolution trigger
//! predicate, the once-per-minute scheduler step, and the shared state with
//! the operations that the management API performs on it.
pub mod text;
pub mod clock;
pub mod alarm;
pub mod scheduler;
pub mod state;
pub mod routes;
