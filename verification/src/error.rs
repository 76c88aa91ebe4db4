//! Error taxonomy for source acquisition and extraction.
//!
//! Every subsystem reports a typed error; the pipeline propagates the
//! first failure unchanged, so the kinds here are the ones a caller can
//! observe.  Each kind renders to one diagnostic line via [`SourceError::message`].

use vstd::prelude::*;

verus! {

/// An error raised while acquiring sources, applying patches, or
/// extracting archives.
#[derive(Debug, Clone, PartialEq, Eq)]
pub enum SourceError {
    /// Pass-through failure from a filesystem operation.
    Io(String),
    /// Failure while downloading a source from a URL.
    Url(String),
    /// Failure while walking a directory tree.
    WalkDir(String),
    /// Failure from a recursive filesystem copy.
    FileSystemError(String),
    /// Failure while stripping a path prefix.
    StripPrefixError(String),
    /// A download did not match its expected checksum.
    ValidationFailed,
    /// A referenced file does not exist.
    FileNotFound(String),
    /// The external `patch` capability is unavailable.
    PatchNotFound,
    /// The external `tar` capability is unavailable.
    TarNotFound,
    /// A patch failed to apply; carries the captured diagnostic text.
    PatchFailed(String),
    /// Archive extraction failed; carries the captured process output.
    ExtractionError(String),
    /// A source-control operation failed.
    GitError(String),
    /// A source-control operation failed, described by a fixed string.
    GitErrorStr(&'static str),
    /// A condition not otherwise classified.
    UnknownError(String),
    /// A condition not otherwise classified, described by a fixed string.
    UnknownErrorStr(&'static str),
    /// Failure while walking a tree under ignore-file rules.
    IgnoreError(String),
    /// A glob pattern failed to parse.
    Glob(String),
    /// No checksum was provided for a download URL.
    NoChecksum(String),
}

/// Mathematical model of [`SourceError`]: the same kinds over character
/// sequences.
pub enum SourceErrorV {
    /// Pass-through failure from a filesystem operation.
    Io(Seq<char>),
    /// Failure while downloading a source from a URL.
    Url(Seq<char>),
    /// Failure while walking a directory tree.
    WalkDir(Seq<char>),
    /// Failure from a recursive filesystem copy.
    FileSystemError(Seq<char>),
    /// Failure while stripping a path prefix.
    StripPrefixError(Seq<char>),
    /// A download did not match its expected checksum.
    ValidationFailed,
    /// A referenced file does not exist.
    FileNotFound(Seq<char>),
    /// The external `patch` capability is unavailable.
    PatchNotFound,
    /// The external `tar` capability is unavailable.
    TarNotFound,
    /// A patch failed to apply.
    PatchFailed(Seq<char>),
    /// Archive extraction failed.
    ExtractionError(Seq<char>),
    /// A source-control operation failed.
    GitError(Seq<char>),
    /// A source-control operation failed, described by a fixed string.
    GitErrorStr(Seq<char>),
    /// A condition not otherwise classified.
    UnknownError(Seq<char>),
    /// A condition not otherwise classified, described by a fixed string.
    UnknownErrorStr(Seq<char>),
    /// Failure while walking a tree under ignore-file rules.
    IgnoreError(Seq<char>),
    /// A glob pattern failed to parse.
    Glob(Seq<char>),
    /// No checksum was provided for a download URL.
    NoChecksum(Seq<char>),
}

impl View for SourceError {
    type V = SourceErrorV;

    open spec fn view(&self) -> SourceErrorV {
        match self {
            SourceError::Io(m) => SourceErrorV::Io(m@),
            SourceError::Url(m) => SourceErrorV::Url(m@),
            SourceError::WalkDir(m) => SourceErrorV::WalkDir(m@),
            SourceError::FileSystemError(m) => SourceErrorV::FileSystemError(m@),
            SourceError::StripPrefixError(m) => SourceErrorV::StripPrefixError(m@),
            SourceError::ValidationFailed => SourceErrorV::ValidationFailed,
            SourceError::FileNotFound(p) => SourceErrorV::FileNotFound(p@),
            SourceError::PatchNotFound => SourceErrorV::PatchNotFound,
            SourceError::TarNotFound => SourceErrorV::TarNotFound,
            SourceError::PatchFailed(m) => SourceErrorV::PatchFailed(m@),
            SourceError::ExtractionError(m) => SourceErrorV::ExtractionError(m@),
            SourceError::GitError(m) => SourceErrorV::GitError(m@),
            SourceError::GitErrorStr(m) => SourceErrorV::GitErrorStr(m@),
            SourceError::UnknownError(m) => SourceErrorV::UnknownError(m@),
            SourceError::UnknownErrorStr(m) => SourceErrorV::UnknownErrorStr(m@),
            SourceError::IgnoreError(m) => SourceErrorV::IgnoreError(m@),
            SourceError::Glob(m) => SourceErrorV::Glob(m@),
            SourceError::NoChecksum(u) => SourceErrorV::NoChecksum(u@),
        }
    }
}

impl SourceError {
    /// The one-line diagnostic rendering of this error.
    pub open spec fn message_spec(&self) -> Seq<char> {
        match self {
            SourceError::Io(m) => "IO Error: "@ + m@,
            SourceError::Url(m) => "Failed to download source from url: "@ + m@,
            SourceError::WalkDir(m) => "WalkDir Error: "@ + m@,
            SourceError::FileSystemError(m) => "FileSystem error: '"@ + m@ + "'"@,
            SourceError::StripPrefixError(m) => "StripPrefixError Error: "@ + m@,
            SourceError::ValidationFailed => "Download could not be validated with checksum!"@,
            SourceError::FileNotFound(p) => "File not found: "@ + p@,
            SourceError::PatchNotFound => "Could not find `patch` executable"@,
            SourceError::TarNotFound => "Could not find `tar` executable"@,
            SourceError::PatchFailed(m) => "Failed to apply patch: "@ + m@,
            SourceError::ExtractionError(m) => "Failed to extract archive: "@ + m@,
            SourceError::GitError(m) => "Failed to run git command: "@ + m@,
            SourceError::GitErrorStr(m) => "Failed to run git command: "@ + m@,
            SourceError::UnknownError(m) => m@,
            SourceError::UnknownErrorStr(m) => m@,
            SourceError::IgnoreError(_) => "Could not walk dir"@,
            SourceError::Glob(_) => "Failed to parse glob pattern"@,
            SourceError::NoChecksum(u) => "No checksum found for url: "@ + u@,
        }
    }

    /// Render this error as one diagnostic line.
    pub fn message(&self) -> (r: String)
        ensures
            r@ == self.message_spec(),
    {
        match self {
            SourceError::Io(m) => String::from_str("IO Error: ").concat(m.as_str()),
            SourceError::Url(m) => {
                String::from_str("Failed to download source from url: ").concat(m.as_str())
            },
            SourceError::WalkDir(m) => String::from_str("WalkDir Error: ").concat(m.as_str()),
            SourceError::FileSystemError(m) => {
                String::from_str("FileSystem error: '").concat(m.as_str()).concat("'")
            },
            SourceError::StripPrefixError(m) => {
                String::from_str("StripPrefixError Error: ").concat(m.as_str())
            },
            SourceError::ValidationFailed => {
                String::from_str("Download could not be validated with checksum!")
            },
            SourceError::FileNotFound(p) => String::from_str("File not found: ").concat(p.as_str()),
            SourceError::PatchNotFound => String::from_str("Could not find `patch` executable"),
            SourceError::TarNotFound => String::from_str("Could not find `tar` executable"),
            SourceError::PatchFailed(m) => {
                String::from_str("Failed to apply patch: ").concat(m.as_str())
            },
            SourceError::ExtractionError(m) => {
                String::from_str("Failed to extract archive: ").concat(m.as_str())
            },
            SourceError::GitError(m) => {
                String::from_str("Failed to run git command: ").concat(m.as_str())
            },
            SourceError::GitErrorStr(m) => {
                String::from_str("Failed to run git command: ").concat(m)
            },
            SourceError::UnknownError(m) => m.clone(),
            SourceError::UnknownErrorStr(m) => String::from_str(m),
            SourceError::IgnoreError(_) => String::from_str("Could not walk dir"),
            SourceError::Glob(_) => String::from_str("Failed to parse glob pattern"),
            SourceError::NoChecksum(u) => {
                String::from_str("No checksum found for url: ").concat(u.as_str())
            },
        }
    }
}

} // verus!
