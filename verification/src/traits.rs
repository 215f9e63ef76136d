//! The three capabilities of a host, each an interface with interchangeable
//! backends, and the error vocabulary that every capability operation uses.

use vstd::prelude::*;
use std::path::Path;
use std::path::PathBuf;

use crate::text::concat;

verus! {

/// Why a capability operation failed.
#[derive(Clone, Debug, PartialEq, Eq)]
pub enum CapError {
    Unsupported(String),
    DependencyMissing(String),
    PermissionDenied(String),
    /// An I/O failure, with the text of the underlying error.
    Io(String),
    Network(String),
    Timeout,
    Other(String),
}

/// The result of a capability operation.
pub type CapResult<T> = Result<T, CapError>;

/// The text that describes a capability error.
pub open spec fn cap_error_text(e: CapError) -> Seq<char> {
    match e {
        CapError::Unsupported(m) => "unsupported: "@ + m@,
        CapError::DependencyMissing(m) => "dependency missing: "@ + m@,
        CapError::PermissionDenied(m) => "permission denied: "@ + m@,
        CapError::Io(m) => "io error: "@ + m@,
        CapError::Network(m) => "network error: "@ + m@,
        CapError::Timeout => "timeout"@,
        CapError::Other(m) => m@,
    }
}

impl CapError {
    /// The text that describes the error.
    pub fn message(&self) -> (text: String)
        ensures
            text@ == cap_error_text(*self),
    {
        match self {
            CapError::Unsupported(m) => concat("unsupported: ", m.as_str()),
            CapError::DependencyMissing(m) => concat("dependency missing: ", m.as_str()),
            CapError::PermissionDenied(m) => concat("permission denied: ", m.as_str()),
            CapError::Io(m) => concat("io error: ", m.as_str()),
            CapError::Network(m) => concat("network error: ", m.as_str()),
            CapError::Timeout => "timeout".to_string(),
            CapError::Other(m) => m.clone(),
        }
    }
}

/// File operations. A backend reports every failure as a [`CapError`] and
/// never panics.
pub trait FilesystemOps: Send + Sync {
    fn read_file(&self, path: &Path) -> CapResult<Vec<u8>>;

    /// Writes a file, creating missing parent directories.
    fn write_file(&self, path: &Path, data: &[u8]) -> CapResult<()>;

    fn remove_file(&self, path: &Path) -> CapResult<()>;

    fn create_dir_all(&self, path: &Path) -> CapResult<()>;

    fn remove_dir_all(&self, path: &Path) -> CapResult<()>;

    fn path_exists(&self, path: &Path) -> bool;

    fn temp_dir(&self) -> PathBuf;
}

/// Network operations.
pub trait NetworkOps: Send + Sync {
    /// Resolves a host name to at least one address.
    fn dns_resolve(&self, host: &str) -> CapResult<Vec<String>>;

    /// Performs an HTTPS GET and returns the status code with the start of
    /// the body.
    fn https_get(&self, url: &str, timeout_ms: u64) -> CapResult<(u16, String)>;
}

/// Clipboard operations.
pub trait ClipboardOps: Send + Sync {
    fn read_text(&self) -> CapResult<String>;

    fn write_text(&self, text: &str) -> CapResult<()>;
}

} // verus!
