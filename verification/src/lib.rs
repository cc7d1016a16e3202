//! The state of a git working directory as one line of text, for a shell
//! prompt to show.
//!
//! `info::GitInfo::from_repo` reads the state of an open repository: on a
//! branch, at a detached head, or on a branch without a commit.
//! `info::GitInfo::prompt` writes a state as seven fields with a space
//! between them: what the head is at, how far the branch is ahead of and
//! behind its upstream, and how many paths are staged, in conflict, changed
//! and untracked.
//!
//! The questions to the repository are put in `backend`, the one file that
//! is taken on trust. What is done with each answer is proved:
//! - `flags` tells the category of a path from its change flags,
//! - `status` counts the paths of a scan,
//! - `remote` holds a branch, its upstream and the distance between them,
//! - `oid` holds the identifier of a commit,
//! - `text` writes numbers and identifiers as text,
//! - `error` names what can go wrong.

pub mod backend;
pub mod error;
pub mod flags;
pub mod info;
pub mod oid;
pub mod remote;
pub mod status;
pub mod text;
