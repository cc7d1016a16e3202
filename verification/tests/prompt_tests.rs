use git_prompt::error::{ClassificationError, ErrorKind};
use git_prompt::info::GitInfo;
use git_prompt::oid::ObjectId;
use git_prompt::remote::{BranchInfo, Distance, Remote};
use git_prompt::status::Status;

fn sample_id() -> ObjectId {
    ObjectId::from_bytes([
        0x01, 0x23, 0x45, 0x67, 0x89, 0xab, 0xcd, 0xef, 0x00, 0xff, 0x10, 0x0f, 0xf0, 0x7f, 0x80,
        0xa0, 0x0a, 0xde, 0xad, 0x42,
    ])
}

fn on_branch(name: &str, remote: Option<Remote>, status: Status) -> GitInfo {
    GitInfo::Branch { branch: BranchInfo { name: String::from(name), remote }, status, oid: sample_id() }
}

#[test]
fn from_bytes_keeps_the_bytes() {
    assert_eq!(ObjectId::from_bytes([7; 20]).bytes, [7; 20]);
}

#[test]
fn to_hex_is_forty_lower_case_digits() {
    assert_eq!(sample_id().to_hex(), "0123456789abcdef00ff100ff07f80a00adead42");
    assert_eq!(ObjectId::from_bytes([0; 20]).to_hex(), "0000000000000000000000000000000000000000");
    assert_eq!(ObjectId::from_bytes([0xff; 20]).to_hex(), "ffffffffffffffffffffffffffffffffffffffff");
}

#[test]
fn to_hex_agrees_with_git2() {
    let text = "0123456789abcdef00ff100ff07f80a00adead42";
    let theirs = git2::Oid::from_str(text).unwrap();
    let mut bytes = [0u8; 20];
    bytes.copy_from_slice(theirs.as_bytes());
    assert_eq!(ObjectId::from_bytes(bytes).to_hex(), theirs.to_string());
    assert_eq!(ObjectId::from_bytes(bytes), sample_id());
}

#[test]
fn prompt_of_an_unborn_branch() {
    assert_eq!(GitInfo::Unborn.prompt(), "? 0 0 0 0 0 0");
}

#[test]
fn prompt_of_a_detached_head() {
    let info = GitInfo::Detached { oid: sample_id() };
    assert_eq!(info.prompt(), ":0123456789abcdef00ff100ff07f80a00adead42 0 0 0 0 0 0");
}

#[test]
fn prompt_of_a_detached_head_does_not_shorten_the_identifier() {
    let info = GitInfo::Detached { oid: ObjectId::from_bytes([0xab; 20]) };
    let line = info.prompt();
    assert_eq!(line.len(), 1 + 40 + 12);
    assert_eq!(line, format!(":{} 0 0 0 0 0 0", "ab".repeat(20)));
}

#[test]
fn prompt_on_a_branch_without_upstream() {
    let info = on_branch("main", None, Status { staged: 1, conflicts: 2, changed: 3, untracked: 4 });
    assert_eq!(info.prompt(), "main 0 0 1 2 3 4");
}

#[test]
fn prompt_on_a_clean_branch_without_upstream() {
    let info = on_branch("main", None, Status { staged: 0, conflicts: 0, changed: 0, untracked: 0 });
    assert_eq!(info.prompt(), "main 0 0 0 0 0 0");
}

#[test]
fn prompt_on_a_branch_with_upstream_and_distance() {
    let remote = Remote { branch: String::from("refs/remotes/origin/main"), distance: Some(Distance { ahead: 2, behind: 1 }) };
    let info = on_branch("main", Some(remote), Status { staged: 0, conflicts: 0, changed: 5, untracked: 0 });
    assert_eq!(info.prompt(), "main 2 1 0 0 5 0");
}

#[test]
fn prompt_on_a_branch_with_upstream_without_distance() {
    let remote = Remote { branch: String::from("refs/remotes/origin/main"), distance: None };
    let info = on_branch("main", Some(remote), Status { staged: 9, conflicts: 0, changed: 0, untracked: 11 });
    assert_eq!(info.prompt(), "main 0 0 9 0 0 11");
}

#[test]
fn prompt_keeps_the_branch_name_as_it_is() {
    let info = on_branch("feature/über-prompt", None, Status { staged: 0, conflicts: 0, changed: 0, untracked: 1 });
    assert_eq!(info.prompt(), "feature/über-prompt 0 0 0 0 0 1");
}

#[test]
fn prompt_with_long_numbers() {
    let remote = Remote { branch: String::from("refs/remotes/origin/main"), distance: Some(Distance { ahead: 120, behind: 3004 }) };
    let info = on_branch("dev", Some(remote), Status { staged: 10, conflicts: 20, changed: 30, untracked: 40 });
    assert_eq!(info.prompt(), "dev 120 3004 10 20 30 40");
}

#[test]
fn prompt_has_no_line_end() {
    assert!(!GitInfo::Unborn.prompt().ends_with('\n'));
    assert!(!GitInfo::Detached { oid: sample_id() }.prompt().ends_with('\n'));
    let info = on_branch("main", None, Status { staged: 0, conflicts: 0, changed: 0, untracked: 0 });
    assert!(!info.prompt().ends_with('\n'));
}

#[test]
fn a_head_on_an_unborn_branch_is_unborn() {
    assert_eq!(GitInfo::without_head(ErrorKind::UnbornBranch, String::from("unborn")), Ok(GitInfo::Unborn));
}

#[test]
fn any_other_failure_to_resolve_the_head_is_handed_on() {
    assert_eq!(
        GitInfo::without_head(ErrorKind::NotFound, String::from("reference not found")),
        Err(ClassificationError::BackendQueryFailure { message: String::from("reference not found") })
    );
    assert_eq!(
        GitInfo::without_head(ErrorKind::Other, String::from("corrupt")),
        Err(ClassificationError::BackendQueryFailure { message: String::from("corrupt") })
    );
}

#[test]
fn a_short_name_is_the_branch_name() {
    assert_eq!(GitInfo::branch_name(Some(String::from("main"))), Ok(String::from("main")));
}

#[test]
fn a_branch_without_short_name_is_an_internal_precondition() {
    assert_eq!(GitInfo::branch_name(None), Err(ClassificationError::InternalPrecondition));
}

#[test]
fn a_detached_head_at_a_commit_is_detached_at_that_commit() {
    assert_eq!(GitInfo::at_commit(true, sample_id()), Some(GitInfo::Detached { oid: sample_id() }));
    let other = ObjectId::from_bytes([3; 20]);
    assert_eq!(GitInfo::at_commit(true, other), Some(GitInfo::Detached { oid: other }));
}

#[test]
fn a_head_that_is_not_detached_is_no_state_yet() {
    assert_eq!(GitInfo::at_commit(false, sample_id()), None);
}

#[test]
fn on_branch_holds_what_it_is_given() {
    let remote = Remote {
        branch: String::from("refs/remotes/origin/main"),
        distance: Some(Distance { ahead: 2, behind: 1 }),
    };
    let status = Status { staged: 1, conflicts: 2, changed: 3, untracked: 4 };
    let info = GitInfo::on_branch(String::from("main"), Some(remote.clone()), status, sample_id());
    assert_eq!(
        info,
        GitInfo::Branch {
            branch: BranchInfo { name: String::from("main"), remote: Some(remote) },
            status,
            oid: sample_id(),
        }
    );
    assert_eq!(info.prompt(), "main 2 1 1 2 3 4");
}

#[test]
fn on_branch_without_upstream_has_no_remote() {
    let status = Status { staged: 0, conflicts: 0, changed: 0, untracked: 7 };
    let info = GitInfo::on_branch(String::from("topic"), None, status, sample_id());
    assert_eq!(
        info,
        GitInfo::Branch {
            branch: BranchInfo { name: String::from("topic"), remote: None },
            status,
            oid: sample_id(),
        }
    );
}
