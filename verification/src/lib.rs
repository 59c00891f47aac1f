//! Supervision of externally launched tunnel worker processes and the
//! acquisition of their executable artifact.
//!
//! The crate models the decision logic of the system: command-line
//! construction, log classification and the fatal-pattern detector, the
//! bounded log buffer, the registry of running workers, proxy resolution,
//! download progress and cancellation, and archive extraction planning.
//! The surrounding process, network and file-system plumbing hands this
//! library plain values and carries out the actions it returns.

pub mod archive;
pub mod command;
pub mod configs;
pub mod download;
pub mod errors;
pub mod locate;
pub mod logbuf;
pub mod monitor;
pub mod proxy;
pub mod registry;
pub mod scan;
pub mod supervisor;
pub mod text;
pub mod version;
