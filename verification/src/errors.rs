//! The fatal error taxonomy of the pipeline.
//!
//! Every failure here aborts the whole run. The one soft failure — a
//! modification-time query that errors for a single entry — is not an
//! error at all: the entry is silently dropped by the time filter.

use vstd::prelude::*;

verus! {

/// A condition that aborts the whole run.
#[derive(Clone, Copy, PartialEq, Eq, Structural, Debug)]
pub enum FatalError {
    /// Opening or authenticating the source connection failed.
    SourceConnect,
    /// Opening or authenticating the target connection failed.
    TargetConnect,
    /// The directory listing request failed.
    List,
    /// The user-supplied pattern is not a valid regex.
    InvalidPattern,
    /// Fetching a file from the source failed.
    Retrieve,
    /// Switching the target's working directory failed.
    ChangeDirectory,
    /// Uploading a file to the target failed.
    Store,
}

impl FatalError {
    /// The process exit code for this error: 2 for a connect or
    /// authentication failure, 3 for a listing failure, 4 for a transfer
    /// failure, 5 for a malformed pattern.
    pub fn exit_code(&self) -> (r: u8)
        ensures
            r == self.spec_exit_code(),
            r != 0,
    {
        match self {
            FatalError::SourceConnect => 2,
            FatalError::TargetConnect => 2,
            FatalError::List => 3,
            FatalError::InvalidPattern => 5,
            FatalError::Retrieve => 4,
            FatalError::ChangeDirectory => 4,
            FatalError::Store => 4,
        }
    }

    /// The exit code: connect and authentication failures share 2, listing
    /// failures 3, transfer failures 4, a malformed pattern 5.
    pub open spec fn spec_exit_code(self) -> u8 {
        match self {
            FatalError::SourceConnect => 2,
            FatalError::TargetConnect => 2,
            FatalError::List => 3,
            FatalError::InvalidPattern => 5,
            FatalError::Retrieve => 4,
            FatalError::ChangeDirectory => 4,
            FatalError::Store => 4,
        }
    }

    /// A short description of the error, for diagnostics.
    pub fn describe(&self) -> (r: &'static str)
        ensures
            r@.len() > 0,
    {
        let s = match self {
            FatalError::SourceConnect => "source connection or login failed",
            FatalError::TargetConnect => "target connection or login failed",
            FatalError::List => "directory listing failed",
            FatalError::InvalidPattern => "invalid regex pattern",
            FatalError::Retrieve => "file retrieval failed",
            FatalError::ChangeDirectory => "target directory change failed",
            FatalError::Store => "file upload failed",
        };
        proof {
            reveal_strlit("source connection or login failed");
            reveal_strlit("target connection or login failed");
            reveal_strlit("directory listing failed");
            reveal_strlit("invalid regex pattern");
            reveal_strlit("file retrieval failed");
            reveal_strlit("target directory change failed");
            reveal_strlit("file upload failed");
        }
        s
    }
}

} // verus!
