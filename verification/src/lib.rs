//! The lifecycle of a local inference backend for a desktop application: the
//! supervisor of an out-of-process sidecar server, and the control plane of an
//! in-process model engine.
//!
//! The library holds the decisions: what to start and stop and how, how an
//! update rolls back, what a download's record may become, which model is
//! loaded and how a generation is bounded. A caller performs each step that the
//! library names, on files, sockets and processes, and reports how the step
//! ended.

pub mod checksum;
pub mod client;
pub mod download;
pub mod files;
pub mod installer;
pub mod model;
pub mod service;
pub mod supervisor;
pub mod text;
pub mod update;
pub mod version;
