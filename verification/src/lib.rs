//! Verified core of a coverage-report preparation pipeline.
//!
//! The pipeline discovers raw profile fragments in the working directory,
//! merges them into a single profile database with an external merge tool,
//! renders a report from that database with an external report tool (as
//! HTML, a terminal table, or an LCOV export), and finally deletes the
//! intermediate files unless asked not to.
//!
//! This crate holds the decision logic of that pipeline: which external
//! commands to run with which arguments, which output to capture, which
//! files to delete in which order, and which error each failure produces.
//! The unverified binary around it performs the filesystem and process
//! work and feeds the outcomes back in.

pub mod cleanup;
pub mod config;
pub mod errors;
pub mod invocation;
pub mod numfmt;
pub mod pipeline;
pub mod report;
