//! Supervision of a sidecar: a backend process that a host application starts
//! for itself and must never leave behind.
//!
//! The supervisor finds the backend artifact ([`artifact`]) and the runtime
//! that executes it ([`runtime`]), plans the launch ([`launcher`]), keeps the
//! handle of the running child in a cell of its own ([`supervisor`]) and gives
//! it out for termination on the first host event that means the host is
//! going away ([`coordinator`]). Whatever goes wrong on the way is reported
//! ([`diagnostics`]) and never stops the host.
//!
//! The library decides; the host acts. Spawning and killing processes,
//! opening files and running the event loop are the host's part. It tells the
//! library what its surroundings are ([`host`]) and what came of each step,
//! and does what the library answers.

pub mod artifact;
pub mod coordinator;
pub mod diagnostics;
pub mod host;
pub mod launcher;
pub mod paths;
pub mod runtime;
pub mod supervisor;
