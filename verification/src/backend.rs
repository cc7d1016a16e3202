//! The calls into `git2`. Nothing in this file is proved: each function
//! here makes one query and its contract, where it has one, is taken from
//! the source of `git2`. What a query finds on disk gets no contract; what
//! a value of `git2` holds in itself gets a name, and the function that
//! reads it is claimed to return what the name stands for.

use crate::error::ErrorKind;
use vstd::prelude::*;

verus! {

/// A handle to a repository on disk.
#[verifier::external_type_specification]
#[verifier::external_body]
pub struct ExRepository(git2::Repository);

/// A reference of a repository, such as its head.
#[verifier::external_type_specification]
#[verifier::external_body]
pub struct ExReference<'repo>(git2::Reference<'repo>);

/// A local or remote-tracking branch.
#[verifier::external_type_specification]
#[verifier::external_body]
pub struct ExBranch<'repo>(git2::Branch<'repo>);

/// The list of entries that one status scan has found.
#[verifier::external_type_specification]
#[verifier::external_body]
pub struct ExStatuses<'repo>(git2::Statuses<'repo>);

/// The identifier of an object, as `git2` holds it.
#[verifier::external_type_specification]
#[verifier::external_body]
pub struct ExOid(git2::Oid);

/// A failure that `git2` reports.
#[verifier::external_type_specification]
#[verifier::external_body]
pub struct ExError(git2::Error);

/// The flag bits of the entries of a status list, in the order of the list.
/// A status list is a snapshot: it does not change once the scan has made it.
pub uninterp spec fn status_list_flags(list: &git2::Statuses<'_>) -> Seq<u32>;

/// The bytes that an identifier holds. They are part of the value: the same
/// identifier holds the same bytes wherever it is read.
pub uninterp spec fn oid_contents(oid: git2::Oid) -> Seq<u8>;

/// What a failure writes of itself when it is displayed. It is made of what
/// the failure holds, its message, class and code, and of nothing else.
pub uninterp spec fn error_display(error: &git2::Error) -> Seq<char>;

/// `git2::Repository::discover`: opens the repository that holds the
/// directory `start`, searching upwards. Nothing is claimed of the outcome.
#[verifier::external_body]
pub(crate) fn discover(start: &str) -> (found: Result<git2::Repository, git2::Error>) {
    git2::Repository::discover(start)
}

/// `git2::Repository::head`: resolves the head to a reference. Nothing is
/// claimed of the outcome.
#[verifier::external_body]
pub(crate) fn head(repo: &git2::Repository) -> (found: Result<git2::Reference<'_>, git2::Error>) {
    repo.head()
}

/// `git2::Repository::head_detached`: whether the head points at a commit
/// and not at a branch. Nothing is claimed of the outcome.
#[verifier::external_body]
pub(crate) fn head_detached(repo: &git2::Repository) -> (detached: Result<bool, git2::Error>) {
    repo.head_detached()
}

/// `git2::Reference::peel_to_commit`, then `git2::Commit::id`: the commit
/// that the reference leads to. Nothing is claimed of the outcome.
#[verifier::external_body]
pub(crate) fn peel_to_commit_id(reference: &git2::Reference<'_>) -> (id: Result<
    git2::Oid,
    git2::Error,
>) {
    reference.peel_to_commit().map(|commit| commit.id())
}

/// `git2::Reference::shorthand`: the short name of the reference, `None`
/// where that name is not UTF-8. Nothing is claimed of the outcome.
#[verifier::external_body]
pub(crate) fn shorthand(reference: &git2::Reference<'_>) -> (name: Option<String>) {
    reference.shorthand().map(|name| name.to_owned())
}

/// `git2::Repository::find_branch` with `git2::BranchType::Local`: the local
/// branch called `name`. Nothing is claimed of the outcome.
#[verifier::external_body]
pub(crate) fn find_local_branch<'repo>(repo: &'repo git2::Repository, name: &str) -> (found: Result<
    git2::Branch<'repo>,
    git2::Error,
>) {
    repo.find_branch(name, git2::BranchType::Local)
}

/// `git2::Branch::upstream`: the remote-tracking branch that `branch`
/// follows. Nothing is claimed of the outcome.
#[verifier::external_body]
pub(crate) fn upstream<'repo>(branch: &git2::Branch<'repo>) -> (found: Result<
    git2::Branch<'repo>,
    git2::Error,
>) {
    branch.upstream()
}

/// `git2::Branch::get`: the reference that the branch is. Nothing is claimed
/// of the outcome.
#[verifier::external_body]
pub(crate) fn branch_reference<'a, 'repo>(branch: &'a git2::Branch<'repo>) -> (reference:
    &'a git2::Reference<'repo>) {
    branch.get()
}

/// `git2::Reference::name`: the full name of the reference, `None` where
/// that name is not UTF-8. Nothing is claimed of the outcome.
#[verifier::external_body]
pub(crate) fn reference_name(reference: &git2::Reference<'_>) -> (name: Option<String>) {
    reference.name().map(|name| name.to_owned())
}

/// `git2::Repository::graph_ahead_behind`: how many commits lead to `local`
/// and not to `upstream`, and how many the other way. Nothing is claimed of
/// the outcome.
#[verifier::external_body]
pub(crate) fn graph_ahead_behind(
    repo: &git2::Repository,
    local: git2::Oid,
    upstream: git2::Oid,
) -> (counts: Result<(usize, usize), git2::Error>) {
    repo.graph_ahead_behind(local, upstream)
}

/// `git2::Repository::statuses`, with options that are the default of
/// `git2::StatusOptions::new` but for `include_untracked`, which is set as
/// asked. Nothing is claimed of the outcome.
#[verifier::external_body]
pub(crate) fn statuses(repo: &git2::Repository, include_untracked: bool) -> (list: Result<
    git2::Statuses<'_>,
    git2::Error,
>) {
    let mut options = git2::StatusOptions::new();
    options.include_untracked(include_untracked);
    repo.statuses(Some(&mut options))
}

/// `git2::Statuses::len`: the number of entries of the list.
#[verifier::external_body]
pub(crate) fn status_list_len(list: &git2::Statuses<'_>) -> (len: usize)
    ensures
        len == status_list_flags(list).len(),
{
    list.len()
}

/// `git2::Statuses::get`, then `git2::StatusEntry::status` and the `bits`
/// of that: the flag bits of the entry at `index`, `None` past the end of
/// the list.
#[verifier::external_body]
pub(crate) fn status_list_get(list: &git2::Statuses<'_>, index: usize) -> (bits: Option<u32>)
    ensures
        index < status_list_flags(list).len() ==> bits == Some(
            status_list_flags(list)[index as int],
        ),
        index >= status_list_flags(list).len() ==> bits is None,
{
    list.get(index).map(|entry| entry.status().bits())
}

/// `git2::Error::code`, of which this library tells two values from the
/// rest. Nothing is claimed of the outcome.
#[verifier::external_body]
pub(crate) fn error_kind(error: &git2::Error) -> (kind: ErrorKind) {
    match error.code() {
        git2::ErrorCode::NotFound => ErrorKind::NotFound,
        git2::ErrorCode::UnbornBranch => ErrorKind::UnbornBranch,
        _ => ErrorKind::Other,
    }
}

/// The `Display` of `git2::Error`: the message of the failure, followed by
/// its class and code where it has them. The text is claimed to be the one
/// that `error_display` names, and nothing is claimed of what it says.
#[verifier::external_body]
pub(crate) fn error_text(error: &git2::Error) -> (text: String)
    ensures
        text@ == error_display(error),
{
    error.to_string()
}

/// `git2::Oid::as_bytes`: the twenty bytes of the identifier. They are
/// claimed to be the ones that `oid_contents` names, and nothing is claimed
/// of their values.
#[verifier::external_body]
pub(crate) fn oid_bytes(oid: git2::Oid) -> (bytes: [u8; 20])
    ensures
        bytes@ == oid_contents(oid),
{
    let mut bytes = [0u8; 20];
    bytes.copy_from_slice(oid.as_bytes());
    bytes
}

} // verus!
