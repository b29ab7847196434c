//! Row alignment and run coordination for a per-row Cohen's d table.
//!
//! Two expression matrices, a case group and a control group, describe the
//! same features row by row. This crate holds the parts of that computation
//! that are decided on names, counts and text: the positional comparison of the
//! row names, the counts the statistics divide by, the shape of the result
//! table, and the state machine that sequences a run. Numeric evaluation and
//! the reading and writing of tables are left to the caller.

pub mod alignment;
pub mod error;
pub mod record;
pub mod coordinator;
pub mod run;
pub mod samples;
pub mod table;
