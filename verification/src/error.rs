//! Failures of a probe or a refresh.

use vstd::prelude::*;

verus! {

/// How the version-control backend classified a fault.
#[derive(Clone, Copy, Debug, PartialEq, Eq, Structural)]
pub enum BackendErrorKind {
    /// The thing asked for (a repository, a branch, a remote) is not there.
    NotFound,
    /// Any other fault: corruption, I/O, a rejected authentication.
    Other,
}

/// A fault reported by the version-control backend.
#[derive(Debug)]
pub struct BackendError {
    pub kind: BackendErrorKind,
    pub message: String,
}

/// Mathematical value of a [`BackendError`].
pub struct BackendErrorView {
    pub kind: BackendErrorKind,
    pub message: Seq<char>,
}

impl View for BackendError {
    type V = BackendErrorView;

    open spec fn view(&self) -> BackendErrorView {
        BackendErrorView { kind: self.kind, message: self.message@ }
    }
}

impl BackendError {
    /// A backend fault of kind [`BackendErrorKind::Other`] with the given message.
    pub fn other(message: &str) -> (e: BackendError)
        ensures
            e@ == (BackendErrorView { kind: BackendErrorKind::Other, message: message@ }),
    {
        BackendError { kind: BackendErrorKind::Other, message: message.to_owned() }
    }

    /// Whether the backend reported that what was asked for is absent.
    pub fn is_not_found(&self) -> (b: bool)
        ensures
            b == (self@.kind == BackendErrorKind::NotFound),
    {
        self.kind == BackendErrorKind::NotFound
    }

    /// A copy with the same kind and message.
    pub fn duplicate(&self) -> (e: BackendError)
        ensures
            e@ == self@,
    {
        BackendError { kind: self.kind, message: self.message.clone() }
    }
}

/// Why a probe or a refresh failed.
#[derive(Debug)]
pub enum Error {
    /// The backend reported a fault.
    GitError(BackendError),
    /// The cache directory could not be created or read.
    IoError(String),
    /// No credential type offered by the transport could be served.
    NoCredentials,
    /// A failure of a dependency that fits no other variant.
    Other(String),
}

/// Mathematical value of an [`Error`].
pub enum ErrorView {
    GitError(BackendErrorView),
    IoError(Seq<char>),
    NoCredentials,
    Other(Seq<char>),
}

impl View for Error {
    type V = ErrorView;

    open spec fn view(&self) -> ErrorView {
        match self {
            Error::GitError(e) => ErrorView::GitError(e@),
            Error::IoError(m) => ErrorView::IoError(m@),
            Error::NoCredentials => ErrorView::NoCredentials,
            Error::Other(m) => ErrorView::Other(m@),
        }
    }
}

impl ErrorView {
    /// Whether this is the backend saying that what was asked for is absent.
    pub open spec fn not_found(self) -> bool {
        self matches ErrorView::GitError(b) && b.kind == BackendErrorKind::NotFound
    }

    /// A backend fault of kind `Other` with the given message.
    pub open spec fn backend(message: Seq<char>) -> ErrorView {
        ErrorView::GitError(BackendErrorView { kind: BackendErrorKind::Other, message })
    }
}

impl Error {
    /// Whether this is the backend saying that what was asked for is absent.
    pub fn is_not_found(&self) -> (b: bool)
        ensures
            b == self@.not_found(),
    {
        match self {
            Error::GitError(e) => e.is_not_found(),
            _ => false,
        }
    }

    /// A backend fault of kind `Other` with the given message.
    pub fn backend(message: &str) -> (e: Error)
        ensures
            e@ == ErrorView::backend(message@),
    {
        Error::GitError(BackendError::other(message))
    }

    /// A copy with the same variant and contents.
    pub fn duplicate(&self) -> (e: Error)
        ensures
            e@ == self@,
    {
        match self {
            Error::GitError(b) => Error::GitError(b.duplicate()),
            Error::IoError(m) => Error::IoError(m.clone()),
            Error::NoCredentials => Error::NoCredentials,
            Error::Other(m) => Error::Other(m.clone()),
        }
    }
}

} // verus!
