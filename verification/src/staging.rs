//! Files that are written beside their place first, and what is left of them.

use vstd::prelude::*;
use vstd::string::*;

use crate::errors::{is_format, MountSyncError};
use crate::names::{directory_metadata_path, is_directory_metadata_file, ENCRYPTED_TMP_DIR_NAME};
use crate::path::{
    extension, file_name, file_name_text, join_text, parent, shown, PathView, SyncPath,
};
use crate::sync::EntryKind;
use crate::text::{concat3, same_text};

verus! {

/// From which age on an unfinished encrypted file is removed, in seconds.
pub const ENCRYPTED_TMP_CLEANUP_AGE_SECS: u64 = 300;

/// Where a file is written before it gets its place.
pub open spec fn beside(
    path: PathView,
    name: Seq<char>,
    mark: Seq<char>,
    unique: Seq<char>,
) -> Option<PathView> {
    match parent(path) {
        Some(dir) => Some(join_text(dir, name + mark + unique)),
        None => None,
    }
}

/// The name of a file as it is shown, or another where it has none.
pub open spec fn shown_name(path: PathView, other: Seq<char>) -> Seq<char> {
    match file_name(path) {
        Some(name) => shown(name),
        None => other,
    }
}

/// Where a journal is written before it gets its place.
pub fn atomic_temp_path(path: &SyncPath, unique: &str) -> (res: Result<SyncPath, MountSyncError>)
    ensures
        ({
            let place = beside(
                path@,
                shown_name(path@, "pending_deletions"@),
                ".tmp-"@,
                unique@,
            );
            match res {
                Ok(staged) => place == Some(staged@),
                Err(err) => place is None && is_format(
                    err,
                    "Path "@ + path@.text + " has no parent directory"@,
                ),
            }
        }),
{
    let name = match path.file_name() {
        Some(name) => name.lossy(),
        None => "pending_deletions".to_owned(),
    };
    match path.parent() {
        Some(dir) => {
            let text = concat3(name.as_str(), ".tmp-", unique);
            Ok(dir.join_text(text.as_str()))
        },
        None => {
            let text = path.display();
            Err(
                MountSyncError::Format(concat3("Path ", text.as_str(), " has no parent directory")),
            )
        },
    }
}

/// The name of a file where it is text, or another.
pub open spec fn text_name(path: PathView, other: Seq<char>) -> Seq<char> {
    match file_name_text(path) {
        Some(name) => name,
        None => other,
    }
}

/// Where the file that settles a conflict is written before it gets its place.
pub fn resolution_temp_path(path: &SyncPath, unique: &str) -> (res: Result<
    SyncPath,
    MountSyncError,
>)
    ensures
        ({
            let place = beside(path@, text_name(path@, "resolved"@), ".resolve-"@, unique@);
            match res {
                Ok(staged) => place == Some(staged@),
                Err(err) => place is None && is_format(
                    err,
                    "Conflict destination "@ + path@.text + " has no parent directory"@,
                ),
            }
        }),
{
    let name = match path.file_name_text() {
        Some(name) => name,
        None => "resolved".to_owned(),
    };
    match path.parent() {
        Some(dir) => {
            let text = concat3(name.as_str(), ".resolve-", unique);
            Ok(dir.join_text(text.as_str()))
        },
        None => {
            let text = path.display();
            Err(
                MountSyncError::Format(
                    concat3("Conflict destination ", text.as_str(), " has no parent directory"),
                ),
            )
        },
    }
}

/// Whether an unfinished encrypted file is removed, by its age in seconds where that is known.
/// Directories stay.
pub fn should_cleanup_encrypted_temp(is_dir: bool, age_secs: Option<u64>) -> (res: bool)
    ensures
        res == (!is_dir && (age_secs matches Some(age) && age >= ENCRYPTED_TMP_CLEANUP_AGE_SECS)),
{
    match age_secs {
        Some(age) => !is_dir && age >= ENCRYPTED_TMP_CLEANUP_AGE_SECS,
        None => false,
    }
}

/// What an entry of an encrypted directory says of the directory.
#[derive(Debug, Clone, Copy, PartialEq, Eq, Structural)]
pub enum StateEntry {
    /// Nothing.
    Skip,
    /// What its own entries say.
    Descend,
    /// The directory holds something encrypted.
    Encrypted,
}

/// What an entry of an encrypted directory says of the directory.
pub open spec fn state_of(kind: EntryKind, path: PathView) -> StateEntry {
    match kind {
        EntryKind::Symlink => StateEntry::Skip,
        EntryKind::Directory => if file_name_text(path) == Some(ENCRYPTED_TMP_DIR_NAME@) {
            StateEntry::Skip
        } else {
            StateEntry::Descend
        },
        _ => if directory_metadata_path(path) || extension(path) == Some("encrypted"@) {
            StateEntry::Encrypted
        } else {
            StateEntry::Skip
        },
    }
}

/// What an entry of an encrypted directory says of the directory.
pub fn encrypted_state(kind: EntryKind, path: &SyncPath) -> (res: StateEntry)
    ensures
        res == state_of(kind, path@),
{
    match kind {
        EntryKind::Symlink => StateEntry::Skip,
        EntryKind::Directory => if path.file_name_is(ENCRYPTED_TMP_DIR_NAME) {
            StateEntry::Skip
        } else {
            StateEntry::Descend
        },
        _ => {
            let coded = match path.extension() {
                Some(ext) => same_text(ext.as_str(), "encrypted"),
                None => false,
            };
            if coded || is_directory_metadata_file(path) {
                StateEntry::Encrypted
            } else {
                StateEntry::Skip
            }
        },
    }
}

} // verus!
