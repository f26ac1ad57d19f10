//! The orchestrator of sandboxed-path classification.
//!
//! A caller references a file by a validated relative path. The use case
//! resolves it inside the sandbox, has the file opened and memory-mapped,
//! and classifies the mapped bytes under a deadline. A file that does not
//! exist is reported as not-found, distinct from every other I/O failure,
//! which surface as internal errors.

use vstd::prelude::*;

use crate::errors::ApplicationError;
use crate::path::RelativePath;
use crate::sandbox::is_descendant_of;
use crate::sandbox::joined_path;
use crate::sandbox::PathSandbox;

verus! {

/// How opening the resolved file failed.
#[derive(Clone, Debug, PartialEq, Eq)]
pub enum FileOpenError {
    /// The resolved path names nothing.
    NotFound,
    /// Any other I/O failure, with its rendered text.
    Other(String),
}

/// Classification of a file referenced through the sandbox.
pub struct AnalyzePathUseCase {
    sandbox: PathSandbox,
    analysis_timeout_secs: u64,
}

impl AnalyzePathUseCase {
    pub closed spec fn spec_root(&self) -> Seq<char> {
        self.sandbox@
    }

    pub closed spec fn spec_timeout_secs(&self) -> u64 {
        self.analysis_timeout_secs
    }

    pub fn new(sandbox: PathSandbox, analysis_timeout_secs: u64) -> (r: Self)
        ensures
            r.spec_root() == sandbox@,
            r.spec_timeout_secs() == analysis_timeout_secs,
    {
        AnalyzePathUseCase { sandbox, analysis_timeout_secs }
    }

    /// The deadline each engine call of this use case is wrapped in.
    pub fn timeout_secs(&self) -> (r: u64)
        ensures
            r == self.spec_timeout_secs(),
    {
        self.analysis_timeout_secs
    }

    /// Resolves the validated path inside the sandbox. Resolution cannot
    /// fail for a validated path, and the result always lies under the
    /// root.
    pub fn resolve(&self, path: &RelativePath) -> (r: Result<String, ApplicationError>)
        ensures
            r matches Ok(p) && p@ == joined_path(self.spec_root(), path@) && is_descendant_of(
                p@,
                self.spec_root(),
            ),
    {
        match self.sandbox.resolve_path(path) {
            Ok(p) => Ok(p),
            Err(e) => Err(ApplicationError::from_validation(e)),
        }
    }

    /// The failure reported when the resolved file cannot be opened: a
    /// missing file is not-found and carries the resolved path; any other
    /// failure is an internal error with the underlying text.
    pub fn open_failed(resolved_path: &str, err: &FileOpenError) -> (r: ApplicationError)
        ensures
            match err {
                FileOpenError::NotFound => r matches ApplicationError::NotFound(m) && m@
                    == resolved_path@,
                FileOpenError::Other(io_msg) => r matches ApplicationError::InternalError(m) && m@
                    == "Failed to open file for analysis: "@ + io_msg@,
            },
    {
        match err {
            FileOpenError::NotFound => ApplicationError::NotFound(resolved_path.to_owned()),
            FileOpenError::Other(io_msg) => {
                let mut s = String::from_str("Failed to open file for analysis: ");
                s.append(io_msg.as_str());
                ApplicationError::InternalError(s)
            },
        }
    }

    /// The failure reported when the mapping attempt itself fails and no
    /// fallback is taken.
    pub fn mmap_failed(io_msg: &str) -> (r: ApplicationError)
        ensures
            r matches ApplicationError::InternalError(m) && m@
                == "Failed to mmap file for analysis: "@ + io_msg@,
    {
        let mut s = String::from_str("Failed to mmap file for analysis: ");
        s.append(io_msg);
        ApplicationError::InternalError(s)
    }
}

} // verus!
