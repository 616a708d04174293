//! Backend library for a desktop assistant workbench.
//!
//! The heart of the crate is [`bridge`], a supervisor for a long-lived
//! command-line subprocess: it owns the process handle, multiplexes the
//! subprocess's stdout and stderr into one ordered channel of tagged lines,
//! and republishes those lines to named sinks. The remaining modules hold the
//! pure logic of the surrounding application: path validation, configuration
//! records, chat-session bookkeeping, file metadata records, and the textual
//! skill-file format.
//!
//! All I/O (spawning the subprocess, reading its pipes, the file system, the
//! network) is performed by the embedding application, which drives the types
//! here with the outcomes of those operations.

pub mod bridge;
pub mod bridge_laws;
pub mod chat;
pub mod config;
pub mod error;
pub mod files;
pub mod ids;
pub mod paths;
pub mod response;
pub mod skills;
pub mod strutil;

pub use error::AppError;
pub use error::BridgeError;
