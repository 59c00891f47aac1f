//! The error taxonomy of the supervisor and of the artifact acquisition
//! pipeline.

use vstd::prelude::*;

verus! {

#[derive(Clone, Copy, PartialEq, Eq, Structural, Debug)]
pub enum CoreError {
    /// No candidate path for the worker executable exists.
    ExecutableNotFound,
    /// The OS refused to start the worker process.
    SpawnFailed,
    /// The OS call that terminates a process itself failed.
    TerminationFailed,
    /// The archive's filename suffix is neither of the two supported kinds.
    UnsupportedArchiveFormat,
    /// No entry of the archive is the worker executable.
    ExecutableNotFoundInArchive,
    /// The archive could not be read or decoded.
    ArchiveReadFailed,
    /// The download request could not be sent or its body not read.
    NetworkRequestFailed,
    /// The server answered with a non-success status.
    HttpStatusError(u16),
    /// A file could not be created, written or removed.
    FileIOFailed,
    /// The download was cancelled cooperatively.
    Cancelled,
    /// The explicit proxy settings do not form a usable proxy URL.
    ProxyConfigInvalid,
}

/// The short human-readable name of each failure.
pub open spec fn describe_spec(e: CoreError) -> Seq<char> {
    match e {
        CoreError::ExecutableNotFound => "worker executable not found"@,
        CoreError::SpawnFailed => "failed to start process"@,
        CoreError::TerminationFailed => "failed to stop process"@,
        CoreError::UnsupportedArchiveFormat => "unsupported archive format"@,
        CoreError::ExecutableNotFoundInArchive => "worker executable not found in archive"@,
        CoreError::ArchiveReadFailed => "failed to read archive"@,
        CoreError::HttpStatusError(_) => "server returned an error status"@,
        CoreError::NetworkRequestFailed => "network request failed"@,
        CoreError::FileIOFailed => "file operation failed"@,
        CoreError::Cancelled => "download cancelled"@,
        CoreError::ProxyConfigInvalid => "invalid proxy configuration"@,
    }
}

impl CoreError {
    /// A short human-readable name for the failure, for notification texts.
    pub fn describe(&self) -> (r: String)
        ensures
            r@ == describe_spec(*self),
            r@.len() > 0,
    {
        let s = match self {
            CoreError::ExecutableNotFound => "worker executable not found",
            CoreError::SpawnFailed => "failed to start process",
            CoreError::TerminationFailed => "failed to stop process",
            CoreError::UnsupportedArchiveFormat => "unsupported archive format",
            CoreError::ExecutableNotFoundInArchive => "worker executable not found in archive",
            CoreError::ArchiveReadFailed => "failed to read archive",
            CoreError::NetworkRequestFailed => "network request failed",
            CoreError::HttpStatusError(_) => "server returned an error status",
            CoreError::FileIOFailed => "file operation failed",
            CoreError::Cancelled => "download cancelled",
            CoreError::ProxyConfigInvalid => "invalid proxy configuration",
        };
        proof {
            reveal_strlit("worker executable not found");
            reveal_strlit("failed to start process");
            reveal_strlit("failed to stop process");
            reveal_strlit("unsupported archive format");
            reveal_strlit("worker executable not found in archive");
            reveal_strlit("failed to read archive");
            reveal_strlit("network request failed");
            reveal_strlit("server returned an error status");
            reveal_strlit("file operation failed");
            reveal_strlit("download cancelled");
            reveal_strlit("invalid proxy configuration");
        }
        String::from_str(s)
    }
}

} // verus!
