//! A three-step task: read a key file, send one HTTP GET, delete a file.
//!
//! The library holds what the task decides: the order of the steps, which
//! failure ends the run, and how a failure is rendered as text. File and
//! network access are the caller's part; the caller reports each result
//! back as an [`runner::Event`].

pub mod error;
pub mod laws;
pub mod runner;
pub mod transport;
