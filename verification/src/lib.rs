//! Confirmation-gated removal of a directory tree.
//!
//! The crate holds the decisions of the tool and none of its I/O: how an
//! operator's answer is read, when a forced run skips the question, which
//! lines are reported, and how a run ends. A caller performs the writes, the
//! single read and the removal itself, and feeds what happened back in.

pub mod executor;
pub mod gate;
pub mod runs;
pub mod session;
pub mod text;
