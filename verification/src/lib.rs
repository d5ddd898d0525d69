//! Bootstrap logic for a desktop shell that launches a companion backend
//! process: ordered path-candidate resolution (first existing candidate
//! wins), a launch-supervisor state machine with a bounded liveness-polling
//! loop, and the fixed configuration data of the bootstrap window.
//!
//! All filesystem probes, HTTP liveness checks, process spawning and window
//! calls are performed by the host application, which feeds their outcomes
//! to the verified decision logic here as plain values.

pub mod config;
pub mod paths;
pub mod root;
pub mod runtime;
pub mod select;
pub mod supervisor;
