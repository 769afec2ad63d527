use mount_sync::exclusion::exclusion_path_candidates;
use mount_sync::path::SyncPath;
use mount_sync::sync::{EntryKind, MountEntry};
use mount_sync::tracker::SyncTracker;

fn p(text: &str) -> SyncPath {
    SyncPath::from_text(text)
}

#[test]
fn exclusion_matching_handles_absolute_obsidian_paths() {
    let mut tracker = SyncTracker::new();
    tracker.set_excluded_patterns(&vec![
        ".obsidian".to_string(),
        ".obsidian/**".to_string(),
        "**/.obsidian".to_string(),
        "**/.obsidian/**".to_string(),
    ]);

    let absolute_dir =
        p("/Users/test/Library/CloudStorage/Dropbox/Hybridcipher_development/.obsidian");
    let absolute_file = absolute_dir.join_text("workspace.json");

    assert!(tracker.is_path_excluded(&absolute_dir));
    assert!(tracker.is_path_excluded(&absolute_file));
}

#[test]
fn exclusion_matching_handles_absolute_target_paths() {
    let mut tracker = SyncTracker::new();
    tracker.set_excluded_patterns(&vec!["target/**".to_string(), "**/target/**".to_string()]);

    let absolute_file = p("/Users/test/project/target/debug/deps/hybridcipher_client");
    assert!(tracker.is_path_excluded(&absolute_file));
}

#[test]
fn patterns_that_are_not_well_formed_are_dropped() {
    let mut tracker = SyncTracker::new();
    tracker.set_excluded_patterns(&vec!["[".to_string(), "*.log".to_string()]);
    assert_eq!(tracker.settings.excluded_patterns.len(), 1);
    assert_eq!(tracker.settings.excluded_patterns[0], "*.log");
    assert!(tracker.is_path_excluded(&p("/mount/a.log")));
    assert!(!tracker.is_path_excluded(&p("/mount/a.txt")));
}

#[test]
fn without_patterns_nothing_is_left_out() {
    let tracker = SyncTracker::new();
    assert!(!tracker.is_path_excluded(&p("/mount/a.log")));
}

#[test]
fn candidates_begin_with_the_path_as_it_is_written() {
    assert_eq!(
        exclusion_path_candidates(&p("/a/b")),
        vec!["/a/b", "a/b", "a/b", "b"]
    );
    assert_eq!(
        exclusion_path_candidates(&p("./x/./y")),
        vec!["./x/./y", "x/./y", "x/y", "y"]
    );
    let mut tracker = SyncTracker::new();
    tracker.set_excluded_patterns(&vec!["x/./y".to_string()]);
    assert!(tracker.is_path_excluded(&p("./x/./y")));
    assert!(!tracker.is_path_excluded(&p("./x/y")));
}

#[test]
fn candidates_are_the_ends_of_a_path() {
    let candidates = exclusion_path_candidates(&p("/a/b/c"));
    assert!(candidates.contains(&"c".to_string()));
    assert!(candidates.contains(&"b/c".to_string()));
    assert!(candidates.contains(&"a/b/c".to_string()));
}

#[test]
fn entries_of_the_mount_are_told_apart() {
    let mut tracker = SyncTracker::new();
    tracker.set_excluded_patterns(&vec!["*.log".to_string()]);
    assert_eq!(
        tracker.mount_entry(EntryKind::Symlink, &p("/mount/a")),
        MountEntry::Ignore
    );
    assert_eq!(
        tracker.mount_entry(EntryKind::Other, &p("/mount/a")),
        MountEntry::Ignore
    );
    assert_eq!(
        tracker.mount_entry(EntryKind::Directory, &p("/mount/a")),
        MountEntry::Directory
    );
    assert_eq!(
        tracker.mount_entry(EntryKind::File, &p("/mount/a")),
        MountEntry::File
    );
    assert_eq!(
        tracker.mount_entry(EntryKind::File, &p("/mount/a.log")),
        MountEntry::Ignore
    );
}
