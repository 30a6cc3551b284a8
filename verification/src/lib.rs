//! Decision logic of an RMBT measurement client: the protocol phases and
//! stages, the per-connection phase driver, the per-thread measurement
//! schedule, and the progress reports built from the threads' states.

pub mod client;
pub mod phase;
pub mod samples;
pub mod progress;
pub mod state;
pub mod runner;
pub mod cli;
pub mod json;
