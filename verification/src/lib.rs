//! A small line-search and parallel work-simulation library.
//!
//! The library holds the verified core of a tool that filters the lines of a
//! text for a literal pattern and, separately, dispatches a fixed set of
//! workers over a round of simulated work items, watching a shared completion
//! tally through a polling progress monitor.  Thread spawning, sleeping,
//! terminal rendering and file reading live in the embedding program; the
//! planning, counting, filtering and monitoring decisions live here.

pub mod counter;
pub mod monitor;
pub mod plan;
pub mod round;
pub mod sampling;
pub mod search;
pub mod worker;
