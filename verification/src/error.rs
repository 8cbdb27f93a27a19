//! The errors the library reports.

use vstd::prelude::*;

verus! {

/// Why an operation failed.
///
/// `LanguageModel` is used narrowly: a draft that reached the workflow was
/// structurally unusable. Failures of the model call itself never surface;
/// they end in the heuristic draft.
#[derive(Debug)]
pub enum AppError {
    /// A required setting is missing, or a persisted file is corrupt.
    Configuration(String),
    /// The underlying repository operation failed.
    VersionControl(String),
    /// The tracker rejected the request or could not be reached.
    IssueTracker(String),
    /// A produced draft had an empty title, description or branch summary.
    LanguageModel(String),
    /// The file system refused access to a configuration or cache file.
    Io(std::io::Error),
}

pub type AppResult<T> = Result<T, AppError>;

impl From<std::io::Error> for AppError {
    fn from(error: std::io::Error) -> (out: Self) {
        AppError::Io(error)
    }
}

impl vstd::std_specs::convert::FromSpecImpl<std::io::Error> for AppError {
    open spec fn obeys_from_spec() -> bool {
        true
    }

    open spec fn from_spec(error: std::io::Error) -> Self {
        AppError::Io(error)
    }
}

/// The kinds of error, without what they carry.
#[derive(Debug, Clone, Copy, PartialEq, Eq, Structural)]
pub enum ErrorKind {
    Configuration,
    VersionControl,
    IssueTracker,
    LanguageModel,
    Io,
}

impl AppError {
    /// Whether this is the error of kind `kind` that reads `message`. An
    /// I/O error carries no message of the library and reads as none.
    pub open spec fn reads(self, kind: ErrorKind, message: Seq<char>) -> bool {
        match self {
            AppError::Configuration(text) => kind is Configuration && text@ == message,
            AppError::VersionControl(text) => kind is VersionControl && text@ == message,
            AppError::IssueTracker(text) => kind is IssueTracker && text@ == message,
            AppError::LanguageModel(text) => kind is LanguageModel && text@ == message,
            AppError::Io(_) => false,
        }
    }

    /// The kind of this error.
    pub open spec fn kind_of(self) -> ErrorKind {
        match self {
            AppError::Configuration(_) => ErrorKind::Configuration,
            AppError::VersionControl(_) => ErrorKind::VersionControl,
            AppError::IssueTracker(_) => ErrorKind::IssueTracker,
            AppError::LanguageModel(_) => ErrorKind::LanguageModel,
            AppError::Io(_) => ErrorKind::Io,
        }
    }

    /// The kind of this error.
    pub fn kind(&self) -> (kind: ErrorKind)
        ensures
            kind == self.kind_of(),
    {
        match self {
            AppError::Configuration(_) => ErrorKind::Configuration,
            AppError::VersionControl(_) => ErrorKind::VersionControl,
            AppError::IssueTracker(_) => ErrorKind::IssueTracker,
            AppError::LanguageModel(_) => ErrorKind::LanguageModel,
            AppError::Io(_) => ErrorKind::Io,
        }
    }
}

} // verus!
