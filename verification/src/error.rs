//! Error types for the library.
//!
//! [`AppError`] covers the file, configuration, and network logic;
//! [`BridgeError`] covers the subprocess bridge, with one variant per failure
//! kind the bridge can report.

use vstd::prelude::*;
use vstd::string::StringExecFns;

verus! {

/// An application-level error, carrying a human-readable detail string.
#[derive(Debug)]
pub enum AppError {
    Io(String),
    Json(String),
    Request(String),
    PathValidation(String),
    FileNotFound(String),
    PermissionDenied(String),
    Config(String),
    Network(String),
    Cli(String),
    Database(String),
    Encryption(String),
    InvalidArgument(String),
    Timeout(String),
    Unknown(String),
}

/// The message prefix used by [`AppError::message`] for each variant.
pub open spec fn app_error_prefix(e: &AppError) -> Seq<char> {
    match e {
        AppError::Io(_) => "IO error: "@,
        AppError::Json(_) => "JSON error: "@,
        AppError::Request(_) => "Request error: "@,
        AppError::PathValidation(_) => "Path validation error: "@,
        AppError::FileNotFound(_) => "File not found: "@,
        AppError::PermissionDenied(_) => "Permission denied: "@,
        AppError::Config(_) => "Configuration error: "@,
        AppError::Network(_) => "Network error: "@,
        AppError::Cli(_) => "CLI error: "@,
        AppError::Database(_) => "Database error: "@,
        AppError::Encryption(_) => "Encryption error: "@,
        AppError::InvalidArgument(_) => "Invalid argument: "@,
        AppError::Timeout(_) => "Timeout: "@,
        AppError::Unknown(_) => "Unknown error: "@,
    }
}

/// The detail string held by an [`AppError`].
pub open spec fn app_error_detail(e: &AppError) -> Seq<char> {
    match e {
        AppError::Io(s) => s@,
        AppError::Json(s) => s@,
        AppError::Request(s) => s@,
        AppError::PathValidation(s) => s@,
        AppError::FileNotFound(s) => s@,
        AppError::PermissionDenied(s) => s@,
        AppError::Config(s) => s@,
        AppError::Network(s) => s@,
        AppError::Cli(s) => s@,
        AppError::Database(s) => s@,
        AppError::Encryption(s) => s@,
        AppError::InvalidArgument(s) => s@,
        AppError::Timeout(s) => s@,
        AppError::Unknown(s) => s@,
    }
}

impl AppError {
    /// Renders the error as a message: a variant-specific prefix followed by
    /// the detail string.
    pub fn message(&self) -> (r: String)
        ensures
            r@ == app_error_prefix(self) + app_error_detail(self),
    {
        match self {
            AppError::Io(s) => String::from_str("IO error: ").concat(s.as_str()),
            AppError::Json(s) => String::from_str("JSON error: ").concat(s.as_str()),
            AppError::Request(s) => String::from_str("Request error: ").concat(s.as_str()),
            AppError::PathValidation(s) => String::from_str("Path validation error: ").concat(
                s.as_str(),
            ),
            AppError::FileNotFound(s) => String::from_str("File not found: ").concat(s.as_str()),
            AppError::PermissionDenied(s) => String::from_str("Permission denied: ").concat(
                s.as_str(),
            ),
            AppError::Config(s) => String::from_str("Configuration error: ").concat(s.as_str()),
            AppError::Network(s) => String::from_str("Network error: ").concat(s.as_str()),
            AppError::Cli(s) => String::from_str("CLI error: ").concat(s.as_str()),
            AppError::Database(s) => String::from_str("Database error: ").concat(s.as_str()),
            AppError::Encryption(s) => String::from_str("Encryption error: ").concat(s.as_str()),
            AppError::InvalidArgument(s) => String::from_str("Invalid argument: ").concat(
                s.as_str(),
            ),
            AppError::Timeout(s) => String::from_str("Timeout: ").concat(s.as_str()),
            AppError::Unknown(s) => String::from_str("Unknown error: ").concat(s.as_str()),
        }
    }
}

/// A failure reported by the subprocess bridge.
#[derive(Debug)]
pub enum BridgeError {
    /// The executable could not be launched or its streams not captured.
    SpawnFailure(String),
    /// The operation needs a live process and none is held.
    NotRunning,
    /// Writing to the subprocess's input stream failed.
    WriteFailure(String),
    /// All producers exited and the channel is drained; no more output comes.
    ChannelClosed,
    /// A bounded wait for output elapsed without a line arriving.
    Timeout,
    /// The kill syscall failed; the handle is cleared regardless.
    TerminationFailure(String),
}

/// The message prefix used by [`BridgeError::message`] for each variant.
pub open spec fn bridge_error_prefix(e: &BridgeError) -> Seq<char> {
    match e {
        BridgeError::SpawnFailure(_) => "failed to start the subprocess: "@,
        BridgeError::NotRunning => "the subprocess is not running"@,
        BridgeError::WriteFailure(_) => "failed to write to the subprocess: "@,
        BridgeError::ChannelClosed => "the output channel is closed"@,
        BridgeError::Timeout => "timed out waiting for output"@,
        BridgeError::TerminationFailure(_) => "failed to terminate the subprocess: "@,
    }
}

/// The detail string held by a [`BridgeError`], empty for variants without one.
pub open spec fn bridge_error_detail(e: &BridgeError) -> Seq<char> {
    match e {
        BridgeError::SpawnFailure(s) => s@,
        BridgeError::NotRunning => Seq::empty(),
        BridgeError::WriteFailure(s) => s@,
        BridgeError::ChannelClosed => Seq::empty(),
        BridgeError::Timeout => Seq::empty(),
        BridgeError::TerminationFailure(s) => s@,
    }
}

impl BridgeError {
    /// Renders the error as a message: a variant-specific prefix followed by
    /// the detail string, if the variant carries one.
    pub fn message(&self) -> (r: String)
        ensures
            r@ == bridge_error_prefix(self) + bridge_error_detail(self),
    {
        let r = match self {
            BridgeError::SpawnFailure(s) => String::from_str(
                "failed to start the subprocess: ",
            ).concat(s.as_str()),
            BridgeError::NotRunning => String::from_str("the subprocess is not running"),
            BridgeError::WriteFailure(s) => String::from_str(
                "failed to write to the subprocess: ",
            ).concat(s.as_str()),
            BridgeError::ChannelClosed => String::from_str("the output channel is closed"),
            BridgeError::Timeout => String::from_str("timed out waiting for output"),
            BridgeError::TerminationFailure(s) => String::from_str(
                "failed to terminate the subprocess: ",
            ).concat(s.as_str()),
        };
        proof {
            assert(bridge_error_prefix(self) + bridge_error_detail(self) =~= r@);
        }
        r
    }
}

} // verus!
