//! A verified test-execution and grading engine.
//!
//! The library models one grading session over a list of test cases: an
//! optional setup command, a required run command with optional standard
//! input, capture and decoding of the child process's output, comparison of
//! the observed output against an expected value, and aggregation of a point
//! score. Spawning the operating-system processes is left to the caller; the
//! engine decides, step by step, which command to run next and what each
//! result means.

pub mod compare;
pub mod config;
pub mod grade;
pub mod orchestrate;
pub mod outcome;
pub mod pattern;
pub mod text;

pub use config::Comparison;
pub use config::TestCase;
