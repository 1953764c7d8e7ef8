//! The application: hunt states, transitions and their bookkeeping.
pub mod states;
pub mod control;
pub mod error;
