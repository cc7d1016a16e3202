//! The ways in which reading a repository's state can fail.

use crate::backend::{error_display, error_text};
use vstd::prelude::*;
use vstd::string::*;

verus! {

/// What a failure of the backend means to this library.
#[derive(Clone, Copy, Debug, PartialEq, Eq, Structural)]
pub enum ErrorKind {
    /// What was asked for does not exist.
    NotFound,
    /// The head names a branch that has no commit yet.
    UnbornBranch,
    /// Anything else.
    Other,
}

/// Why no state could be given for a repository.
#[derive(Debug, PartialEq, Eq)]
pub enum ClassificationError {
    /// The starting directory lies in no repository.
    NotARepository,
    /// The backend failed on a query; `message` is its own account of it.
    BackendQueryFailure { message: String },
    /// The upstream of `local_branch` has a name that is not valid text.
    NonTextReferenceName { local_branch: String },
    /// The head is on a branch, and the backend has no short name for it.
    InternalPrecondition,
}

/// A `ClassificationError` with its texts as sequences of characters.
pub enum ClassificationErrorView {
    NotARepository,
    BackendQueryFailure { message: Seq<char> },
    NonTextReferenceName { local_branch: Seq<char> },
    InternalPrecondition,
}

impl View for ClassificationError {
    type V = ClassificationErrorView;

    open spec fn view(&self) -> ClassificationErrorView {
        match self {
            ClassificationError::NotARepository => ClassificationErrorView::NotARepository,
            ClassificationError::BackendQueryFailure { message } => {
                ClassificationErrorView::BackendQueryFailure { message: message@ }
            },
            ClassificationError::NonTextReferenceName { local_branch } => {
                ClassificationErrorView::NonTextReferenceName { local_branch: local_branch@ }
            },
            ClassificationError::InternalPrecondition => {
                ClassificationErrorView::InternalPrecondition
            },
        }
    }
}

impl ClassificationErrorView {
    /// The sentence that describes the failure to a person.
    pub open spec fn message(self) -> Seq<char> {
        match self {
            ClassificationErrorView::NotARepository => "not a git repository"@,
            ClassificationErrorView::BackendQueryFailure { message } => message,
            ClassificationErrorView::NonTextReferenceName { local_branch } => {
                "non-UTF8 upstream branch name for local branch  "@ + local_branch
            },
            ClassificationErrorView::InternalPrecondition => {
                "the branch at the head has no short name"@
            },
        }
    }
}

impl ClassificationError {
    /// What a failed query means once a repository is open: always a
    /// `BackendQueryFailure`, with `message` as its text.
    pub fn query_failure(message: String) -> (error: ClassificationError)
        ensures
            error@ == (ClassificationErrorView::BackendQueryFailure { message: message@ }),
    {
        ClassificationError::BackendQueryFailure { message }
    }

    /// What a failure to open a repository means: `NotARepository` where the
    /// backend found none, a `BackendQueryFailure` with `message` as its
    /// text otherwise.
    pub fn discovery_failure(kind: ErrorKind, message: String) -> (error: ClassificationError)
        ensures
            kind == ErrorKind::NotFound ==> error@ == ClassificationErrorView::NotARepository,
            kind != ErrorKind::NotFound ==> error@ == (ClassificationErrorView::BackendQueryFailure {
                message: message@,
            }),
    {
        match kind {
            ErrorKind::NotFound => ClassificationError::NotARepository,
            _ => ClassificationError::BackendQueryFailure { message },
        }
    }

    /// The failure of a query as this library reports it: a
    /// `BackendQueryFailure` whose message is what the backend's failure
    /// writes of itself.
    pub(crate) fn from_backend(error: &git2::Error) -> (failure: ClassificationError)
        ensures
            failure@ == (ClassificationErrorView::BackendQueryFailure {
                message: error_display(error),
            }),
    {
        ClassificationError::query_failure(error_text(error))
    }

    /// The sentence that describes the failure to a person.
    pub fn message(&self) -> (text: String)
        ensures
            text@ == self@.message(),
    {
        match self {
            ClassificationError::NotARepository => String::from_str("not a git repository"),
            ClassificationError::BackendQueryFailure { message } => message.clone(),
            ClassificationError::NonTextReferenceName { local_branch } => {
                String::from_str("non-UTF8 upstream branch name for local branch  ").concat(
                    local_branch.as_str(),
                )
            },
            ClassificationError::InternalPrecondition => {
                String::from_str("the branch at the head has no short name")
            },
        }
    }
}

} // verus!
