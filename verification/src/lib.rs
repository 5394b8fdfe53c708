//! Run a command with its working directory changed to a target directory.
//!
//! The library holds the decisions of such a run: how a target path is read
//! as a naming template for a temporary directory, which directories have to
//! be provided and in which order, how the launch proceeds from one outcome
//! of the operating system to the next request, and which exit code reports
//! the result. The caller performs the requests and hands back what happened.

pub mod error;
pub mod guarantees;
pub mod launcher;
pub mod platform;
pub mod provision;
pub mod template;
