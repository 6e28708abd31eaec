//! A synthetic FIFO writer: the run configuration, the CPU-affinity binding
//! step, the FIFO acquisition decision, and the timed write loop, each with a
//! verified contract. The surrounding process (argument parsing, the actual
//! filesystem and pipe calls, sleeping) drives these pieces from outside.

pub mod affinity;
pub mod config;
pub mod fifo;
pub mod session;
