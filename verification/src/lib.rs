//! A feed monitor: poll a discussion-forum listing at a fixed cadence and
//! report every entry exactly once.
//!
//! The crate holds the decisions of the monitor and proves them: which
//! entries of a listing are new, how the record of seen entries grows, when
//! the next poll is due, and what is written to the console. The caller reads
//! the clock, performs the request and decodes the response.

pub mod cli;
pub mod entry;
pub mod fetch;
pub mod instant;
pub mod laws;
pub mod monitor;
pub mod report;
pub mod seen;
