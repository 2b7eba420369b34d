//! Core of a desktop launcher that boots a local backend server process and
//! terminates it when the hosting window closes.
//!
//! The crate verifies the launcher's decision logic: locating a project root
//! by bounded upward search over a filesystem snapshot, probing for a bundled
//! interpreter, choosing a bootstrap script, building the child's launch
//! environment, and a supervisor that tracks at most one live child process.
//! The surrounding shell performs the actual filesystem probes, environment
//! reads, and process operations, and feeds their results in as plain values.

pub mod launch;
pub mod paths;
pub mod supervisor;
