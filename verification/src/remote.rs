//! A branch, the upstream that it follows and the distance between them.

use crate::backend::{
    branch_reference, error_kind, error_text, find_local_branch, graph_ahead_behind,
    peel_to_commit_id, reference_name, upstream,
};
use crate::error::{ClassificationError, ClassificationErrorView, ErrorKind};
use vstd::prelude::*;
use vstd::string::*;

verus! {

/// How far a local branch and its upstream have drifted apart: the number of
/// commits that only the local branch leads to, and the number that only the
/// upstream leads to.
#[derive(Debug, Clone, Copy, PartialEq, Eq)]
pub struct Distance {
    pub ahead: usize,
    pub behind: usize,
}

/// The upstream of a local branch: the full name of its reference, such as
/// `refs/remotes/origin/main`, and, where it is known, the distance to it.
#[derive(Debug, Clone, PartialEq, Eq)]
pub struct Remote {
    pub branch: String,
    pub distance: Option<Distance>,
}

/// A `Remote` with its name as a sequence of characters.
pub struct RemoteView {
    pub branch: Seq<char>,
    pub distance: Option<Distance>,
}

/// A local branch: its short name and, where it has one, its upstream.
#[derive(Debug, Clone, PartialEq, Eq)]
pub struct BranchInfo {
    pub name: String,
    pub remote: Option<Remote>,
}

/// A `BranchInfo` with its names as sequences of characters.
pub struct BranchInfoView {
    pub name: Seq<char>,
    pub remote: Option<RemoteView>,
}

impl View for Remote {
    type V = RemoteView;

    open spec fn view(&self) -> RemoteView {
        RemoteView { branch: self.branch@, distance: self.distance }
    }
}

impl View for BranchInfo {
    type V = BranchInfoView;

    open spec fn view(&self) -> BranchInfoView {
        BranchInfoView {
            name: self.name@,
            remote: match self.remote {
                Some(remote) => Some(remote@),
                None => None,
            },
        }
    }
}

impl BranchInfoView {
    /// The distance to the upstream as `(ahead, behind)`; `(0, 0)` where the
    /// branch has no upstream or the distance to it is not known.
    pub open spec fn ahead_behind(self) -> (usize, usize) {
        match self.remote {
            Some(RemoteView { distance: Some(distance), .. }) => (distance.ahead, distance.behind),
            _ => (0, 0),
        }
    }
}

impl Distance {
    /// The two counts as `(ahead, behind)`.
    pub fn as_pair(self) -> (pair: (usize, usize))
        ensures
            pair == (self.ahead, self.behind),
    {
        (self.ahead, self.behind)
    }
}

impl Remote {
    /// The distance to the upstream, where it is known.
    pub fn distance(&self) -> (distance: Option<Distance>)
        ensures
            distance == self.distance,
    {
        self.distance
    }

    /// What it means that the backend could not give the upstream of a
    /// branch: where it found none, the branch has no upstream, which is no
    /// failure; anything else is a `BackendQueryFailure` with `message` as
    /// its text.
    pub fn without_upstream(kind: ErrorKind, message: String) -> (outcome: Result<
        Option<Remote>,
        ClassificationError,
    >)
        ensures
            match outcome {
                Ok(found) => kind == ErrorKind::NotFound && found is None,
                Err(error) => kind != ErrorKind::NotFound && error@ == (
                ClassificationErrorView::BackendQueryFailure { message: message@ }),
            },
    {
        match kind {
            ErrorKind::NotFound => Ok(None),
            _ => Err(ClassificationError::query_failure(message)),
        }
    }

    /// The upstream of `local_branch`, from what the backend has answered:
    /// the full name of the upstream, `None` where that name is not valid text,
    /// and the two counts of the distance. Without a name this fails with an
    /// error that names `local_branch`; with one, the result holds that name
    /// and both counts.
    pub fn tracking(
        upstream_name: Option<String>,
        local_branch: &str,
        ahead: usize,
        behind: usize,
    ) -> (outcome: Result<Remote, ClassificationError>)
        ensures
            match (upstream_name, outcome) {
                (Some(name), Ok(remote)) => remote@ == (RemoteView {
                    branch: name@,
                    distance: Some(Distance { ahead, behind }),
                }),
                (None, Err(error)) => error@ == (ClassificationErrorView::NonTextReferenceName {
                    local_branch: local_branch@,
                }),
                _ => false,
            },
    {
        match upstream_name {
            Some(name) => Ok(Remote { branch: name, distance: Some(Distance { ahead, behind }) }),
            None => Err(
                ClassificationError::NonTextReferenceName {
                    local_branch: String::from_str(local_branch),
                },
            ),
        }
    }

    /// Looks up the upstream of the local branch `local_branch` in `repo`
    /// and the distance to it. `Ok(None)` says that the branch has no
    /// upstream. An upstream that is found always comes with its distance.
    /// Every failure of the backend but that one is handed on as a
    /// `BackendQueryFailure`; an upstream whose name is not valid text is
    /// reported with the name of the local branch.
    pub fn from_repo(repo: &git2::Repository, local_branch: &str) -> (outcome: Result<
        Option<Remote>,
        ClassificationError,
    >)
        ensures
            outcome matches Ok(Some(remote)) ==> remote.distance is Some,
            outcome matches Err(error) ==> error is BackendQueryFailure || error@ == (
            ClassificationErrorView::NonTextReferenceName { local_branch: local_branch@ }),
    {
        let branch = match find_local_branch(repo, local_branch) {
            Ok(branch) => branch,
            Err(error) => {
                return Err(ClassificationError::from_backend(&error));
            },
        };
        let followed = match upstream(&branch) {
            Ok(followed) => followed,
            Err(error) => {
                return Remote::without_upstream(error_kind(&error), error_text(&error));
            },
        };
        let local_commit = match peel_to_commit_id(branch_reference(&branch)) {
            Ok(id) => id,
            Err(error) => {
                return Err(ClassificationError::from_backend(&error));
            },
        };
        let upstream_commit = match peel_to_commit_id(branch_reference(&followed)) {
            Ok(id) => id,
            Err(error) => {
                return Err(ClassificationError::from_backend(&error));
            },
        };
        let (ahead, behind) = match graph_ahead_behind(repo, local_commit, upstream_commit) {
            Ok(counts) => counts,
            Err(error) => {
                return Err(ClassificationError::from_backend(&error));
            },
        };
        let upstream_name = reference_name(branch_reference(&followed));
        match Remote::tracking(upstream_name, local_branch, ahead, behind) {
            Ok(remote) => Ok(Some(remote)),
            Err(error) => Err(error),
        }
    }
}

impl BranchInfo {
    /// The distance to the upstream as `(ahead, behind)`; `(0, 0)` where the
    /// branch has no upstream or the distance to it is not known.
    pub fn ahead_behind(&self) -> (pair: (usize, usize))
        ensures
            pair == self@.ahead_behind(),
    {
        match &self.remote {
            Some(remote) => match remote.distance() {
                Some(distance) => distance.as_pair(),
                None => (0, 0),
            },
            None => (0, 0),
        }
    }
}

} // verus!
