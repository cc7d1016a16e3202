//! The state of a repository, how it is read and how it is shown.

use crate::backend::{
    discover, error_kind, error_text, head, head_detached, peel_to_commit_id, shorthand,
};
use crate::error::{ClassificationError, ClassificationErrorView, ErrorKind};
use crate::oid::ObjectId;
use crate::remote::{BranchInfo, BranchInfoView, Remote};
use crate::status::{Counts, Status};
use crate::text::{decimal, lemma_decimal_digits, lemma_hex_digits, push_decimal};
use vstd::prelude::*;
use vstd::string::*;

verus! {

/// The state of a repository: exactly one of three.
#[derive(Debug, PartialEq, Eq)]
pub enum GitInfo {
    /// The head is on a branch, at the commit `oid`.
    Branch { branch: BranchInfo, status: Status, oid: ObjectId },
    /// The head points at the commit `oid` and at no branch.
    Detached { oid: ObjectId },
    /// The head names a branch that has no commit yet.
    Unborn,
}

/// A `GitInfo` with its texts as sequences of characters and its counts as
/// natural numbers.
pub enum GitInfoView {
    Branch { branch: BranchInfoView, status: Counts, oid: ObjectId },
    Detached { oid: ObjectId },
    Unborn,
}

impl View for GitInfo {
    type V = GitInfoView;

    open spec fn view(&self) -> GitInfoView {
        match self {
            GitInfo::Branch { branch, status, oid } => GitInfoView::Branch {
                branch: branch@,
                status: status@,
                oid: *oid,
            },
            GitInfo::Detached { oid } => GitInfoView::Detached { oid: *oid },
            GitInfo::Unborn => GitInfoView::Unborn,
        }
    }
}

impl GitInfoView {
    /// The line that shows the state: seven fields with one space between
    /// them and no line end. On a branch they are the name of the branch,
    /// the commits ahead of and behind the upstream, and the four counts of
    /// the working copy. A detached head shows as a colon and the commit's
    /// identifier, an unborn branch as a question mark, both with six zeros.
    pub open spec fn prompt(self) -> Seq<char> {
        match self {
            GitInfoView::Branch { branch, status, .. } => {
                branch.name + " "@ + decimal(branch.ahead_behind().0 as nat) + " "@ + decimal(
                    branch.ahead_behind().1 as nat,
                ) + " "@ + status.text()
            },
            GitInfoView::Detached { oid } => ":"@ + oid.text() + " 0 0 0 0 0 0"@,
            GitInfoView::Unborn => "? 0 0 0 0 0 0"@,
        }
    }

    /// An upstream that is held always comes with its distance.
    pub open spec fn upstream_has_distance(self) -> bool {
        self matches GitInfoView::Branch { branch, .. } ==> (branch.remote matches Some(remote)
            ==> remote.distance is Some)
    }
}

/// On a branch without an upstream, or with one whose distance is not
/// known, both distance fields of the line are zero: the line is the name of
/// the branch, then ` 0 0 `, then the four counts.
pub proof fn lemma_prompt_without_distance(info: GitInfoView)
    requires
        info matches GitInfoView::Branch { branch, .. } && !(branch.remote matches Some(remote)
            && remote.distance is Some),
    ensures
        info matches GitInfoView::Branch { branch, status, .. } && info.prompt() == branch.name
            + " 0 0 "@ + status.text(),
{
    reveal_strlit(" ");
    reveal_strlit(" 0 0 ");
    reveal_strlit("0123456789abcdef");
    assert(decimal(0) =~= seq!['0']);
    if let GitInfoView::Branch { branch, status, .. } = info {
        assert(info.prompt() =~= branch.name + " 0 0 "@ + status.text());
    }
}

/// The line holds no line end, unless the name of the branch holds one.
pub proof fn lemma_prompt_one_line(info: GitInfoView)
    requires
        info matches GitInfoView::Branch { branch, .. } ==> !branch.name.contains('\n'),
    ensures
        !info.prompt().contains('\n'),
{
    reveal_strlit(" ");
    reveal_strlit(":");
    reveal_strlit(" 0 0 0 0 0 0");
    reveal_strlit("? 0 0 0 0 0 0");
    let line = info.prompt();
    match info {
        GitInfoView::Branch { branch, status, .. } => {
            lemma_decimal_digits(branch.ahead_behind().0 as nat);
            lemma_decimal_digits(branch.ahead_behind().1 as nat);
            lemma_decimal_digits(status.staged);
            lemma_decimal_digits(status.conflicts);
            lemma_decimal_digits(status.changed);
            lemma_decimal_digits(status.untracked);
            assert forall|i: int| 0 <= i < line.len() implies line[i] != '\n' by {
                if i < branch.name.len() {
                    assert(branch.name.contains(line[i]));
                }
            }
        },
        GitInfoView::Detached { oid } => {
            lemma_hex_digits(oid.bytes@);
            assert forall|i: int| 0 <= i < line.len() implies line[i] != '\n' by {}
        },
        GitInfoView::Unborn => {
            assert forall|i: int| 0 <= i < line.len() implies line[i] != '\n' by {}
        },
    }
}

impl GitInfo {
    /// What it means that the backend could not resolve the head: on an
    /// unborn branch the state is `Unborn`, which is no failure; anything
    /// else is a `BackendQueryFailure` with `message` as its text.
    pub fn without_head(kind: ErrorKind, message: String) -> (outcome: Result<
        GitInfo,
        ClassificationError,
    >)
        ensures
            match outcome {
                Ok(info) => kind == ErrorKind::UnbornBranch && info@ == GitInfoView::Unborn,
                Err(error) => kind != ErrorKind::UnbornBranch && error@ == (
                ClassificationErrorView::BackendQueryFailure { message: message@ }),
            },
    {
        match kind {
            ErrorKind::UnbornBranch => Ok(GitInfo::Unborn),
            _ => Err(ClassificationError::query_failure(message)),
        }
    }

    /// The name of the branch at the head, from the short name that the
    /// backend gave for it. A head that is on a branch has one; where the
    /// backend gave none, this fails with `InternalPrecondition`.
    pub fn branch_name(short_name: Option<String>) -> (outcome: Result<String, ClassificationError>)
        ensures
            match (short_name, outcome) {
                (Some(given), Ok(name)) => name@ == given@,
                (None, Err(error)) => error@ == ClassificationErrorView::InternalPrecondition,
                _ => false,
            },
    {
        match short_name {
            Some(name) => Ok(name),
            None => Err(ClassificationError::InternalPrecondition),
        }
    }

    /// What it means that the head was resolved to the commit `oid` and that
    /// the backend has said whether it is detached: a detached head is the
    /// state `Detached` at that commit, and nothing more is asked; a head
    /// that is not detached is on a branch, of which more has to be read
    /// before the state is known.
    pub fn at_commit(detached: bool, oid: ObjectId) -> (state: Option<GitInfo>)
        ensures
            detached ==> (state matches Some(info) && info@ == (GitInfoView::Detached { oid })),
            !detached ==> state is None,
    {
        if detached {
            Some(GitInfo::Detached { oid })
        } else {
            None
        }
    }

    /// The state of a head on the branch `name`, at the commit `oid`, with
    /// the upstream `remote` and the counts `status` of the working copy:
    /// it holds all four as they were read.
    pub fn on_branch(name: String, remote: Option<Remote>, status: Status, oid: ObjectId) -> (info:
        GitInfo)
        ensures
            info@ == (GitInfoView::Branch {
                branch: (BranchInfo { name, remote })@,
                status: status@,
                oid,
            }),
    {
        GitInfo::Branch { branch: BranchInfo { name, remote }, status, oid }
    }

    /// Reads the state of `repo`. The head is resolved first: an unborn
    /// branch gives `Unborn` at once, a detached head gives `Detached` with
    /// the commit it points at, and neither looks at the working copy. On a
    /// branch the upstream is looked up, then the working copy is scanned.
    /// The first failure of the backend ends the reading and is handed on;
    /// since `repo` is open, that is never `NotARepository`.
    pub fn from_repo(repo: &git2::Repository) -> (outcome: Result<GitInfo, ClassificationError>)
        ensures
            outcome matches Ok(info) ==> info@.upstream_has_distance(),
            outcome matches Err(error) ==> !(error is NotARepository),
    {
        let head = match head(repo) {
            Ok(head) => head,
            Err(error) => {
                return GitInfo::without_head(error_kind(&error), error_text(&error));
            },
        };
        let oid = match peel_to_commit_id(&head) {
            Ok(id) => ObjectId::from_oid(id),
            Err(error) => {
                return Err(ClassificationError::from_backend(&error));
            },
        };
        match head_detached(repo) {
            Ok(detached) => {
                if let Some(info) = GitInfo::at_commit(detached, oid) {
                    return Ok(info);
                }
            },
            Err(error) => {
                return Err(ClassificationError::from_backend(&error));
            },
        }
        let name = match GitInfo::branch_name(shorthand(&head)) {
            Ok(name) => name,
            Err(error) => {
                return Err(error);
            },
        };
        let remote = match Remote::from_repo(repo, name.as_str()) {
            Ok(remote) => remote,
            Err(error) => {
                return Err(error);
            },
        };
        let status = match Status::from_repo(repo) {
            Ok(status) => status,
            Err(error) => {
                return Err(error);
            },
        };
        Ok(GitInfo::on_branch(name, remote, status, oid))
    }

    /// The line that shows the state in a prompt.
    pub fn prompt(&self) -> (line: String)
        ensures
            line@ == self@.prompt(),
    {
        match self {
            GitInfo::Branch { branch, status, .. } => {
                let (ahead, behind) = branch.ahead_behind();
                let mut line = branch.name.clone();
                line.append(" ");
                push_decimal(&mut line, ahead);
                line.append(" ");
                push_decimal(&mut line, behind);
                line.append(" ");
                let counts = status.display_stat();
                line.append(counts.as_str());
                assert(line@ =~= self@.prompt());
                line
            },
            GitInfo::Detached { oid } => {
                let mut line = String::from_str(":");
                let id = oid.to_hex();
                line.append(id.as_str());
                line.append(" 0 0 0 0 0 0");
                line
            },
            GitInfo::Unborn => String::from_str("? 0 0 0 0 0 0"),
        }
    }
}

/// Opens the repository that holds the directory `start` and reads its
/// state. Where `start` lies in no repository this fails with
/// `NotARepository`.
pub fn info(start: &str) -> (outcome: Result<GitInfo, ClassificationError>)
    ensures
        outcome matches Ok(info) ==> info@.upstream_has_distance(),
{
    match discover(start) {
        Ok(repo) => GitInfo::from_repo(&repo),
        Err(error) => Err(
            ClassificationError::discovery_failure(error_kind(&error), error_text(&error)),
        ),
    }
}

} // verus!
