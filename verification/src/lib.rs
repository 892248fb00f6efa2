//! Running code fragments as external processes: the decisions.
//!
//! A host hands over a fragment of source text together with the evaluator
//! that should run it. This crate decides which command line that means,
//! which failure each step of a launch reports, and how the captured output
//! and the final status of the process are recorded while a background
//! reader drains its pipes. The host performs the file and process
//! operations themselves and reports what they gave.

pub mod error;
pub mod evaluator;
pub mod execute;
pub mod reader;
pub mod state;
pub mod status;
