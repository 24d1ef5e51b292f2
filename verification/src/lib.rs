//! Verified core logic of the singboard service manager.
pub mod text;
pub mod version;
pub mod digest;
pub mod ipc;
pub mod quoting;
pub mod paths;
pub mod elevation;
pub mod protected;
pub mod runtime;
pub mod source_files;
pub mod service;
pub mod network;
pub mod telemetry;
pub mod update;
pub mod core_update;
pub mod migration;
pub mod launch;
