use git_prompt::flags::{
    PathFlags, CONFLICTED, INDEX_CHANGES, INDEX_DELETED, INDEX_MODIFIED, INDEX_RENAMED,
    INDEX_TYPECHANGE, WT_CHANGES, WT_DELETED, WT_MODIFIED, WT_NEW, WT_RENAMED, WT_TYPECHANGE,
};

#[test]
fn flag_values_are_those_of_git2() {
    assert_eq!(INDEX_MODIFIED, git2::Status::INDEX_MODIFIED.bits());
    assert_eq!(INDEX_DELETED, git2::Status::INDEX_DELETED.bits());
    assert_eq!(INDEX_RENAMED, git2::Status::INDEX_RENAMED.bits());
    assert_eq!(INDEX_TYPECHANGE, git2::Status::INDEX_TYPECHANGE.bits());
    assert_eq!(WT_NEW, git2::Status::WT_NEW.bits());
    assert_eq!(WT_MODIFIED, git2::Status::WT_MODIFIED.bits());
    assert_eq!(WT_DELETED, git2::Status::WT_DELETED.bits());
    assert_eq!(WT_TYPECHANGE, git2::Status::WT_TYPECHANGE.bits());
    assert_eq!(WT_RENAMED, git2::Status::WT_RENAMED.bits());
    assert_eq!(CONFLICTED, git2::Status::CONFLICTED.bits());
}

#[test]
fn masks_are_the_unions_of_their_flags() {
    let index = git2::Status::INDEX_MODIFIED
        | git2::Status::INDEX_DELETED
        | git2::Status::INDEX_TYPECHANGE
        | git2::Status::INDEX_RENAMED;
    let worktree = git2::Status::WT_MODIFIED
        | git2::Status::WT_DELETED
        | git2::Status::WT_TYPECHANGE
        | git2::Status::WT_RENAMED;
    assert_eq!(INDEX_CHANGES, index.bits());
    assert_eq!(WT_CHANGES, worktree.bits());
    assert_eq!(INDEX_CHANGES, 0x1e);
    assert_eq!(WT_CHANGES, 0xf00);
}

#[test]
fn from_bits_keeps_the_bits() {
    assert_eq!(PathFlags::from_bits(0).bits, 0);
    assert_eq!(PathFlags::from_bits(0x8102).bits, 0x8102);
    assert_eq!(PathFlags::from_bits(u32::MAX).bits, u32::MAX);
}

#[test]
fn predicates_agree_with_git2_on_every_flag_set() {
    let index = git2::Status::INDEX_MODIFIED
        | git2::Status::INDEX_DELETED
        | git2::Status::INDEX_TYPECHANGE
        | git2::Status::INDEX_RENAMED;
    let worktree = git2::Status::WT_MODIFIED
        | git2::Status::WT_DELETED
        | git2::Status::WT_TYPECHANGE
        | git2::Status::WT_RENAMED;
    for bits in 0..=0xffffu32 {
        let theirs = git2::Status::from_bits_truncate(bits);
        let ours = PathFlags::from_bits(theirs.bits());
        assert_eq!(ours.is_conflicted(), theirs.is_conflicted());
        assert_eq!(ours.is_changed(), theirs.intersects(worktree));
        assert_eq!(ours.is_untracked(), theirs.is_wt_new());
        assert_eq!(ours.is_staged(), theirs.intersects(index));
    }
}

#[test]
fn intersects_is_true_when_any_flag_of_the_mask_is_set() {
    let flags = PathFlags::from_bits(WT_DELETED);
    assert!(flags.intersects(WT_CHANGES));
    assert!(flags.intersects(WT_DELETED));
    assert!(!flags.intersects(WT_MODIFIED));
    assert!(!flags.intersects(INDEX_CHANGES));
    assert!(!flags.intersects(0));
    assert!(!PathFlags::from_bits(0).intersects(u32::MAX));
}

#[test]
fn each_working_copy_change_counts_as_changed() {
    for flag in [WT_MODIFIED, WT_DELETED, WT_TYPECHANGE, WT_RENAMED] {
        let flags = PathFlags::from_bits(flag);
        assert!(flags.is_changed());
        assert!(!flags.is_staged());
        assert!(!flags.is_untracked());
        assert!(!flags.is_conflicted());
    }
}

#[test]
fn each_index_change_counts_as_staged() {
    for flag in [INDEX_MODIFIED, INDEX_DELETED, INDEX_TYPECHANGE, INDEX_RENAMED] {
        let flags = PathFlags::from_bits(flag);
        assert!(flags.is_staged());
        assert!(!flags.is_changed());
        assert!(!flags.is_untracked());
        assert!(!flags.is_conflicted());
    }
}

#[test]
fn a_new_path_in_the_working_copy_is_untracked_and_nothing_else() {
    let flags = PathFlags::from_bits(WT_NEW);
    assert!(flags.is_untracked());
    assert!(!flags.is_changed());
    assert!(!flags.is_staged());
    assert!(!flags.is_conflicted());
}

#[test]
fn a_conflicted_path_is_conflicted_whatever_else_it_is() {
    assert!(PathFlags::from_bits(CONFLICTED).is_conflicted());
    assert!(PathFlags::from_bits(CONFLICTED | WT_MODIFIED | INDEX_MODIFIED).is_conflicted());
    assert!(!PathFlags::from_bits(!CONFLICTED).is_conflicted());
}

#[test]
fn a_path_new_in_the_index_or_ignored_counts_nowhere() {
    for theirs in [git2::Status::INDEX_NEW, git2::Status::IGNORED, git2::Status::CURRENT] {
        let flags = PathFlags::from_bits(theirs.bits());
        assert!(!flags.is_staged());
        assert!(!flags.is_changed());
        assert!(!flags.is_untracked());
        assert!(!flags.is_conflicted());
    }
}
