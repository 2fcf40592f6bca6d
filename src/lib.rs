//! Compound-interest calculator: the rules around the projection engine.
//!
//! Command-line arguments are read here, with the defaults that stand in for
//! missing ones; the library also holds the request's default number of years,
//! the yearly periods a projection runs over, and how each way a run can end
//! is reported to the user.
pub mod args;
pub mod cli;
pub mod error;
pub mod numeral;
pub mod schedule;
pub mod server;
