use git_branch::locate::locate_start;
use git_branch::locate::marker_target;
use git_branch::locate::on_git_entry;
use git_branch::locate::on_linked_head;
use git_branch::locate::GitEntry;
use git_branch::locate::Step;

#[test]
fn test_locate_start_empty_path() {
    assert_eq!(locate_start(""), Step::Finished(None));
}

#[test]
fn test_locate_start_nonempty_path() {
    assert_eq!(locate_start("/some/project/dir"), Step::Probe);
    assert_eq!(locate_start("."), Step::Probe);
}

#[test]
fn test_on_git_entry_directory_with_branch() {
    let entry = GitEntry::Directory {
        head: Some("ref: refs/heads/develop\n".to_string()),
    };
    assert_eq!(
        on_git_entry(&entry),
        Step::Finished(Some("develop".to_string()))
    );
}

#[test]
fn test_on_git_entry_directory_unreadable_head() {
    let entry = GitEntry::Directory { head: None };
    assert_eq!(on_git_entry(&entry), Step::Finished(None));
}

#[test]
fn test_on_git_entry_directory_unparseable_head() {
    let entry = GitEntry::Directory {
        head: Some("not-a-valid-ref".to_string()),
    };
    assert_eq!(on_git_entry(&entry), Step::Finished(None));
}

#[test]
fn test_on_git_entry_marker() {
    let entry = GitEntry::Marker {
        contents: Some("gitdir: /repo/.git/worktrees/wt\n".to_string()),
    };
    assert_eq!(
        on_git_entry(&entry),
        Step::ReadLinkedHead("/repo/.git/worktrees/wt/HEAD".to_string())
    );
}

#[test]
fn test_on_git_entry_marker_malformed() {
    let entry = GitEntry::Marker {
        contents: Some("no gitdir line here".to_string()),
    };
    assert_eq!(on_git_entry(&entry), Step::Ascend);
}

#[test]
fn test_on_git_entry_marker_unreadable() {
    let entry = GitEntry::Marker { contents: None };
    assert_eq!(on_git_entry(&entry), Step::Ascend);
}

#[test]
fn test_on_git_entry_missing() {
    assert_eq!(on_git_entry(&GitEntry::Missing), Step::Ascend);
}

#[test]
fn test_on_linked_head_readable() {
    assert_eq!(
        on_linked_head(Some("ref: refs/heads/main\n".to_string())),
        Step::Finished(Some("main".to_string()))
    );
}

#[test]
fn test_on_linked_head_unreadable() {
    assert_eq!(on_linked_head(None), Step::Ascend);
}

#[test]
fn test_marker_target() {
    assert_eq!(
        marker_target("gitdir: ../repo/.git\n"),
        Some("../repo/.git/HEAD".to_string())
    );
    assert_eq!(marker_target("something else"), None);
    assert_eq!(marker_target(""), None);
}
