//! Keeps a set of locally cloned repositories in step with their remotes.
//!
//! The library holds the decisions: where configuration and logs live, how two
//! branch tips relate, whether a fast-forward is safe, and the per-repository
//! state machine that drives fetch, comparison and fast-forward. The program
//! around it performs the file, network and repository operations that the
//! machine asks for and hands the results back.

pub mod appvars;
pub mod batch;
pub mod config;
pub mod init;
pub mod logger;
pub mod machine;
pub mod model;
pub mod sync;
