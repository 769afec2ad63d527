use mount_sync::encrypt::{encryption_label, remembered_name, staged_encrypted_path};
use mount_sync::errors::MountSyncError;
use mount_sync::names::{
    collision_safe_path, decrypted_directory_target_path, decrypted_target_path,
    encrypted_directory_metadata_path_for, encrypted_path_for, hard_link_block_reason,
    is_directory_metadata_file, is_temp_like_name, known_transactional_database_name,
    normalize_relative_path, sanitize_mount_file_name, strip_encrypted_suffix,
    transactional_format_reason, truncate_to_char_boundary, MAX_COMPONENT_LEN,
};
use mount_sync::path::{PathMap, PathName, SyncPath};
use mount_sync::staging::{
    atomic_temp_path, encrypted_state, resolution_temp_path, should_cleanup_encrypted_temp,
    StateEntry,
};
use mount_sync::sync::{encrypted_entry, EncryptedEntry, EntryKind};
use mount_sync::table::TableKey;

fn p(text: &str) -> SyncPath {
    SyncPath::from_text(text)
}

fn message(err: MountSyncError) -> String {
    err.message()
}

#[test]
fn temp_like_name_detection_covers_windows_pdf_editor_patterns() {
    for name in [
        "~wang_2020_nature_intergrated_photonic.pdf",
        "wang_2020_nature_intergrated_photonic.pdf.bak",
        "#wang_2020_nature_intergrated_photonic.pdf#",
        ".~lock.wang_2020_nature_intergrated_photonic.pdf#",
        "wang_2020_nature_intergrated_photonic.pdf~",
    ] {
        assert!(
            is_temp_like_name(name),
            "expected temp-like name to be detected: {name}"
        );
    }
}

#[test]
fn temp_like_name_detection_keeps_normal_pdf_names() {
    for name in [
        "wang_2020_nature_intergrated_photonic.pdf",
        "team-notes.bakery.pdf",
        "tilde-analysis.pdf",
    ] {
        assert!(
            !is_temp_like_name(name),
            "expected normal name to remain syncable: {name}"
        );
    }
}

#[test]
fn empty_name_is_not_temporary() {
    assert!(!is_temp_like_name(""));
    assert!(is_temp_like_name(".DS_Store"));
    assert!(is_temp_like_name("REPORT.TMP"));
    assert!(!is_temp_like_name("#draft"));
}

#[test]
fn mounted_paths_lead_to_encrypted_ones_and_back() {
    let encrypted = encrypted_path_for(&p("/enc"), &p("/mount"), &p("/mount/a/b.txt")).unwrap();
    assert_eq!(encrypted.display(), "/enc/a/b.txt.encrypted");
    let back = decrypted_target_path(&p("/enc"), &encrypted, &p("/mount"), &None).unwrap();
    assert_eq!(back.display(), "/mount/a/b.txt");
}

#[test]
fn stored_names_lead_back_where_the_suffix_is_part_of_the_name() {
    let encrypted =
        encrypted_path_for(&p("/enc"), &p("/mount"), &p("/mount/x.encrypted")).unwrap();
    assert_eq!(encrypted.display(), "/enc/x.encrypted.encrypted");
    let without = decrypted_target_path(&p("/enc"), &encrypted, &p("/mount"), &None).unwrap();
    assert_eq!(without.display(), "/mount/x");
    let stored = Some("x.encrypted".to_string());
    let with = decrypted_target_path(&p("/enc"), &encrypted, &p("/mount"), &stored).unwrap();
    assert_eq!(with.display(), "/mount/x.encrypted");
    let other = Some("report.txt".to_string());
    let renamed = decrypted_target_path(&p("/enc"), &encrypted, &p("/mount"), &other).unwrap();
    assert_eq!(renamed.display(), "/mount/report.txt");
}

#[test]
fn paths_outside_the_roots_are_refused() {
    let err = encrypted_path_for(&p("/enc"), &p("/mount"), &p("/other/a.txt")).unwrap_err();
    assert_eq!(
        message(err),
        "Format error: Decrypted file /other/a.txt is outside mount root"
    );
    let err =
        decrypted_target_path(&p("/enc"), &p("/other/a.encrypted"), &p("/mount"), &None).unwrap_err();
    assert_eq!(
        message(err),
        "Format error: Encrypted file is outside the selected root"
    );
    let err =
        encrypted_directory_metadata_path_for(&p("/enc"), &p("/mount"), &p("/other")).unwrap_err();
    assert_eq!(
        message(err),
        "Format error: Directory /other is outside mount root"
    );
    let err = decrypted_directory_target_path(&p("/enc"), &p("/other/x"), &p("/mount")).unwrap_err();
    assert_eq!(
        message(err),
        "Format error: Encrypted directory metadata is outside the selected root"
    );
}

#[test]
fn directories_lead_to_their_metadata_and_back() {
    let metadata =
        encrypted_directory_metadata_path_for(&p("/enc"), &p("/mount"), &p("/mount/a/b")).unwrap();
    assert_eq!(metadata.display(), "/enc/a/b/.hybridcipher_dir.encrypted");
    assert!(is_directory_metadata_file(&metadata));
    let back = decrypted_directory_target_path(&p("/enc"), &metadata, &p("/mount")).unwrap();
    assert_eq!(back.display(), "/mount/a/b");
    let root = encrypted_directory_metadata_path_for(&p("/enc"), &p("/mount"), &p("/mount")).unwrap();
    let back = decrypted_directory_target_path(&p("/enc"), &root, &p("/mount")).unwrap();
    assert!(back.same(&p("/mount")));
    assert_eq!(back.display(), "/mount/");
}

#[test]
fn unusable_names_are_replaced() {
    assert_eq!(
        sanitize_mount_file_name("a/b", "id"),
        ("a_b".to_string(), true)
    );
    assert_eq!(
        sanitize_mount_file_name("", "id"),
        ("unnamed".to_string(), true)
    );
    assert_eq!(
        sanitize_mount_file_name("..", "id"),
        ("unnamed".to_string(), true)
    );
    assert_eq!(
        sanitize_mount_file_name("plain.txt", "id"),
        ("plain.txt".to_string(), false)
    );
}

#[test]
fn long_names_are_cut_and_marked() {
    let long = "x".repeat(300);
    let (name, changed) = sanitize_mount_file_name(&long, "0123456789abcdef");
    assert!(changed);
    assert_eq!(name.len(), MAX_COMPONENT_LEN);
    assert!(name.ends_with(".sanitized-0123456789ab"));
    let wide = "\u{e9}".repeat(200);
    let (name, _) = sanitize_mount_file_name(&wide, "id");
    assert!(name.len() <= MAX_COMPONENT_LEN);
    assert!(name.ends_with(".sanitized-id"));
}

#[test]
fn colliding_names_are_marked() {
    assert_eq!(
        collision_safe_path(&p("/mount/a.txt"), "abcdefabcdefabcdef").display(),
        "/mount/a.txt.collision-abcdefabcdef"
    );
}

#[test]
fn text_is_cut_between_characters() {
    assert_eq!(truncate_to_char_boundary("h\u{e9}llo", 2), "h");
    assert_eq!(truncate_to_char_boundary("h\u{e9}llo", 3), "h\u{e9}");
    assert_eq!(truncate_to_char_boundary("abc", 10), "abc");
}

#[test]
fn encrypted_suffix_is_taken_off_as_often_as_it_stands() {
    assert_eq!(strip_encrypted_suffix("a.txt.encrypted"), "a.txt");
    assert_eq!(strip_encrypted_suffix("a.encrypted.encrypted"), "a");
    assert_eq!(strip_encrypted_suffix("a.txt"), "a.txt");
}

#[test]
fn paths_keep_how_they_are_written() {
    for text in ["", "/", "a", "./x/./y", "/a//b/", "a/../b", "//x", "a/."] {
        assert_eq!(p(text).display(), text);
    }
    assert!(p("/a//b/").same(&p("/a/b")));
    assert!(p("a/./b").same(&p("a/b")));
    assert!(!p("./a").same(&p("a")));
    assert_eq!(p("/a/").join_text("b").display(), "/a/b");
    assert_eq!(p("/a/.").join_text("b").display(), "/a/./b");
    assert_eq!(p("/a").join_text("/b").display(), "/b");
    assert_eq!(p("").join_text("b").display(), "b");
    assert_eq!(p("/a//b/./c/").parent().unwrap().display(), "/a//b");
    assert_eq!(p("/a").parent().unwrap().display(), "/");
    assert_eq!(p("a").parent().unwrap().display(), "");
    assert_eq!(
        p("/m/./a//b/").strip_prefix(&p("/m")).unwrap().display(),
        "a//b"
    );
    assert_eq!(p("/a//b").strip_prefix(&p("/")).unwrap().display(), "a//b");
    assert_eq!(p("/m").strip_prefix(&p("/m/")).unwrap().display(), "");
    assert_eq!(p("/a//b").sibling("c").display(), "/a/c");
}

#[test]
fn written_parts_lead_to_the_same_paths() {
    for text in ["/a//b/./c/", "./x/./y", "a", "/a", "//x//", "a/../b/."] {
        let path = p(text);
        let above = path.parent().unwrap();
        assert!(p(&above.display()).same(&above));
        let rest = path.strip_prefix(&above).unwrap();
        assert!(p(&rest.display()).same(&rest));
        assert!(above.join(&rest).same(&path));
        assert!(p(&above.join(&rest).display()).same(&path));
    }
}

#[test]
fn maps_keep_the_path_that_came_first() {
    let mut map: PathMap<u32> = PathMap::new();
    map.insert(p("/m//a"), 1);
    map.insert(p("/m/b"), 2);
    map.insert(p("/m/a/"), 3);
    assert_eq!(map.len(), 2);
    assert_eq!(map.get(&p("/m/./a")), Some(&3));
    assert_eq!(map.keys[0].display(), "/m//a");
    assert_eq!(map.remove(&p("/m/a")), Some(3));
    assert_eq!(map.keys[0].display(), "/m/b");
}

#[test]
fn bytes_that_are_no_text_show_the_names_that_they_write() {
    let raw = SyncPath::from_bytes(&b"/m//a\xff/./b.txt".to_vec());
    assert_eq!(raw.display(), "/m//a\u{fffd}/./b.txt");
    assert_eq!(raw.name_count(), 3);
    let above = raw.parent().unwrap();
    assert_eq!(above.display(), "/m//a\u{fffd}");
    assert!(matches!(above.name(1), PathName::Raw(bytes) if bytes == b"a\xff"));
    let rest = raw.strip_prefix(&above).unwrap();
    assert_eq!(rest.display(), "b.txt");
    assert_eq!(p("/e").join(&rest).display(), "/e/b.txt");
    let relative = SyncPath::from_bytes(&b"./\xfe".to_vec());
    assert_eq!(relative.display(), "./\u{fffd}");
    assert!(!relative.is_absolute());
    assert_eq!(p("/e").join(&relative).display(), "/e/./\u{fffd}");
    assert_eq!(p("/e").join(&relative).name_count(), 2);
}

#[test]
fn relative_paths_become_labels() {
    assert_eq!(normalize_relative_path(&p("a/b.txt")), "a/b.txt");
    assert_eq!(normalize_relative_path(&p("/a/b.txt")), "a/b.txt");
    assert_eq!(normalize_relative_path(&p("")), "unknown_file");
    let label = normalize_relative_path(&p("a\\\\b"));
    assert_eq!(label, "a//b");
    assert_eq!(normalize_relative_path(&p(&label)), label);
    assert_eq!(
        encryption_label(&p("/mount/"), &p("/mount//a/./b.txt")).unwrap(),
        "a/./b.txt"
    );
    assert_eq!(
        encryption_label(&p("/mount"), &p("/mount/a\\b.txt")).unwrap(),
        "a/b.txt"
    );
    assert_eq!(
        message(encryption_label(&p("/mount"), &p("/x/a")).unwrap_err()),
        "Format error: Decrypted file /x/a is outside mount root"
    );
}

#[test]
fn databases_and_packages_are_set_apart() {
    assert!(known_transactional_database_name("notes.SQLITE"));
    assert!(known_transactional_database_name("notes.db-wal"));
    assert!(!known_transactional_database_name("notes.txt"));
    assert_eq!(
        transactional_format_reason(&p("/mount"), &p("/mount/x/notes.sqlite")),
        Some("database/journal file notes.sqlite requires atomic-set sync".to_string())
    );
    assert_eq!(
        transactional_format_reason(&p("/mount"), &p("/mount/Photos.photoslibrary/a/b.jpg")),
        Some("package-like directory Photos.photoslibrary requires atomic-set sync".to_string())
    );
    assert_eq!(
        transactional_format_reason(&p("/mount"), &p("/mount/a.txt")),
        None
    );
}

#[test]
fn hard_links_are_set_apart() {
    assert_eq!(
        hard_link_block_reason(&p("/mount/a"), true, 2),
        Some(
            "hard-linked file /mount/a has 2 links; sync mount does not preserve hard-link semantics"
                .to_string()
        )
    );
    assert_eq!(hard_link_block_reason(&p("/mount/a"), true, 1), None);
    assert_eq!(hard_link_block_reason(&p("/mount/a"), false, 3), None);
}

#[test]
fn unfinished_files_stand_beside_their_place() {
    assert_eq!(
        atomic_temp_path(&p("/state/pending.json"), "u1").unwrap().display(),
        "/state/pending.json.tmp-u1"
    );
    assert_eq!(
        message(atomic_temp_path(&p("/"), "u1").unwrap_err()),
        "Format error: Path / has no parent directory"
    );
    assert_eq!(
        resolution_temp_path(&p("/mount/a.txt"), "u1").unwrap().display(),
        "/mount/a.txt.resolve-u1"
    );
    assert_eq!(
        message(resolution_temp_path(&p("/"), "u1").unwrap_err()),
        "Format error: Conflict destination / has no parent directory"
    );
    assert_eq!(
        staged_encrypted_path(&p("/enc/a.encrypted"), "tmp-", "u1").unwrap().display(),
        "/enc/.hybridcipher-tmp/tmp-u1.a.encrypted"
    );
    assert_eq!(
        message(staged_encrypted_path(&p("/"), "tmp-", "u1").unwrap_err()),
        "Format error: Encrypted file path / has no parent directory"
    );
}

#[test]
fn old_unfinished_files_are_removed() {
    assert!(should_cleanup_encrypted_temp(false, Some(300)));
    assert!(!should_cleanup_encrypted_temp(false, Some(299)));
    assert!(!should_cleanup_encrypted_temp(false, None));
    assert!(!should_cleanup_encrypted_temp(true, Some(1000)));
}

#[test]
fn entries_of_the_encrypted_side_are_told_apart() {
    assert_eq!(
        encrypted_entry(true, &p("/enc/.hybridcipher-tmp")),
        EncryptedEntry::CleanUp
    );
    assert_eq!(encrypted_entry(true, &p("/enc/a")), EncryptedEntry::Descend);
    assert_eq!(encrypted_entry(false, &p("/enc/a.txt")), EncryptedEntry::Ignore);
    assert_eq!(
        encrypted_entry(false, &p("/enc/a.txt.encrypted")),
        EncryptedEntry::File
    );
    assert_eq!(
        encrypted_entry(false, &p("/enc/.hybridcipher_dir.encrypted")),
        EncryptedEntry::DirectoryMetadata
    );
    assert_eq!(
        encrypted_state(EntryKind::Directory, &p("/enc/.hybridcipher-tmp")),
        StateEntry::Skip
    );
    assert_eq!(
        encrypted_state(EntryKind::Directory, &p("/enc/a")),
        StateEntry::Descend
    );
    assert_eq!(
        encrypted_state(EntryKind::File, &p("/enc/a.encrypted")),
        StateEntry::Encrypted
    );
    assert_eq!(
        encrypted_state(EntryKind::Symlink, &p("/enc/a.encrypted")),
        StateEntry::Skip
    );
    assert_eq!(
        encrypted_state(EntryKind::File, &p("/enc/a.txt")),
        StateEntry::Skip
    );
}

#[test]
fn names_that_are_not_text_are_shown_with_a_replacement() {
    let raw = SyncPath::from_bytes(&b"/mount/./a\xffb".to_vec());
    assert!(raw.is_absolute());
    assert_eq!(raw.name_count(), 2);
    assert!(matches!(raw.name(0), PathName::Text(name) if name == "mount"));
    assert!(matches!(raw.name(1), PathName::Raw(bytes) if bytes == b"a\xffb"));
    assert_eq!(raw.display(), "/mount/./a\u{fffd}b");
    assert_eq!(raw.file_name_text(), None);
    let encrypted = encrypted_path_for(&p("/enc"), &p("/mount"), &raw).unwrap();
    assert_eq!(encrypted.display(), "/enc/a\u{fffd}b.encrypted");
}

#[test]
fn remembered_names_come_first() {
    assert_eq!(
        remembered_name(&p("/mount/a.txt"), Some("b.txt".to_string())),
        Some("b.txt".to_string())
    );
    assert_eq!(
        remembered_name(&p("/mount/a.txt"), None),
        Some("a.txt".to_string())
    );
}
