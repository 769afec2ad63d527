//! The folder in which deleted files are kept for a while.

use vstd::prelude::*;
use vstd::string::*;

use crate::errors::MountSyncError;
use crate::local_only::{name_or, parse_utc, read_stamp, STAMP_FORMAT};
use crate::path::{file_name, join_text, shown, PathView, SyncPath};
use crate::text::{
    byte_length, chars_of, concat2, concat3, decimal, decimal_text, finishes_with, fit_bytes,
    fitting_prefix, text_bytes, text_of,
};
use crate::tracker::{SyncTracker, UtcNanos};

verus! {

/// The name under which a deleted file is kept.
pub open spec fn retention_name(stamp: Seq<char>, path: PathView) -> Seq<char> {
    stamp + "_"@ + name_or(path, "unknown"@)
}

/// Where a deleted file is kept, and where the time of its deletion is noted.
pub fn retention_paths(folder: &SyncPath, stamp: &str, path: &SyncPath) -> (res: (
    SyncPath,
    SyncPath,
))
    ensures
        res.0@ == join_text(folder@, retention_name(stamp@, path@)),
        res.1@ == join_text(folder@, retention_name(stamp@, path@) + ".meta.json"@),
{
    let name = match path.file_name() {
        Some(name) => name.lossy(),
        None => "unknown".to_owned(),
    };
    let kept = concat3(stamp, "_", name.as_str());
    let noted = concat2(kept.as_str(), ".meta.json");
    (folder.join_text(kept.as_str()), folder.join_text(noted.as_str()))
}

/// The part of the retention folder for mounted files whose encrypted form is gone.
pub fn plaintext_retention_folder(folder: &SyncPath) -> (res: SyncPath)
    ensures
        res@ == join_text(folder@, "plaintext-orphans"@),
{
    folder.join_text("plaintext-orphans")
}

/// What is noted beside a file in the retention folder.
#[derive(Debug, Clone, Copy)]
pub enum RetentionNote {
    /// Nothing.
    Absent,
    /// Something that cannot be read.
    Unreadable,
    /// When the file was deleted.
    DeletedAt(UtcNanos),
}

/// A point in time from whole seconds.
pub open spec fn secs_to_nanos(secs: i64) -> int {
    secs * 1_000_000_000
}

/// The time that the first characters of a name write.
pub open spec fn name_time(name: Seq<char>) -> Option<i64> {
    let head = fitting_prefix(name, 15);
    if text_bytes(name) >= 16 && name.len() > 8 && name[8] == '_' && text_bytes(head) == 15 {
        read_stamp(head)
    } else {
        None
    }
}

/// When a file came to the retention folder: as noted beside it, else as its name writes, else
/// when it was last modified.
pub open spec fn retained_at(
    name: Seq<char>,
    note: RetentionNote,
    modified: Option<UtcNanos>,
    now: UtcNanos,
) -> Option<int> {
    match note {
        RetentionNote::DeletedAt(at) => Some(at as int),
        RetentionNote::Unreadable => Some(now as int),
        RetentionNote::Absent => match name_time(name) {
            Some(secs) => Some(secs_to_nanos(secs)),
            None => match modified {
                Some(at) => Some(at as int),
                None => None,
            },
        },
    }
}

/// A file has been in the retention folder for more than the given days, in whole seconds. A
/// time in the future is taken for now.
pub open spec fn retention_over(at: int, now: int, days: u32) -> bool {
    now - at >= 0 && (now - at) / 1_000_000_000 > days * 86400
}

fn time_from_name(name: &str) -> (res: Option<i64>)
    ensures
        res == name_time(name@),
{
    let chars = chars_of(name);
    let long_enough = match byte_length(&chars) {
        Some(n) => n >= 16,
        None => true,
    };
    if !long_enough || chars.len() <= 8 || chars[8] != '_' {
        return None;
    }
    let head = fit_bytes(&chars, 15);
    match byte_length(&head) {
        Some(n) => {
            if n != 15 {
                return None;
            }
        },
        None => {
            return None;
        },
    }
    let text = text_of(&head);
    parse_utc(text.as_str(), STAMP_FORMAT)
}

fn is_over(at: UtcNanos, now: UtcNanos, days: u32) -> (res: bool)
    ensures
        res == retention_over(at as int, now as int, days),
{
    let limit: i128 = (days as i128 * 86400 + 1) * 1_000_000_000;
    match now.checked_sub(limit) {
        Some(latest) => at <= latest,
        None => false,
    }
}

impl SyncTracker {
    /// Whether a file in the retention folder is to be removed for good. Notes stay as long as
    /// the files that they stand beside.
    pub fn retention_expired(
        &self,
        name: &str,
        note: RetentionNote,
        modified: Option<UtcNanos>,
        now: UtcNanos,
    ) -> (res: bool)
        ensures
            res == (!".meta.json"@.is_suffix_of(name@) && match retained_at(
                name@,
                note,
                modified,
                now,
            ) {
                Some(at) => retention_over(
                    at,
                    now as int,
                    self.settings.deletion_config.retention_days,
                ),
                None => false,
            }),
    {
        let chars = chars_of(name);
        if finishes_with(&chars, ".meta.json") {
            return false;
        }
        let at: UtcNanos = match note {
            RetentionNote::DeletedAt(at) => at,
            RetentionNote::Unreadable => now,
            RetentionNote::Absent => match time_from_name(name) {
                Some(secs) => secs as i128 * 1_000_000_000,
                None => match modified {
                    Some(at) => at,
                    None => {
                        return false;
                    },
                },
            },
        };
        is_over(at, now, self.settings.deletion_config.retention_days)
    }

    /// Where an encrypted file goes whose mounted form was deleted while nothing was mounted:
    /// into the retention folder, or nowhere where there is none.
    pub fn apply_encrypted_deletion(&self, encrypted_path: &SyncPath, secs: u64) -> (res: Result<
        Option<SyncPath>,
        MountSyncError,
    >)
        ensures
            match res {
                Ok(None) => self.settings.deletion_config.retention_folder is None,
                Ok(Some(target)) => self.settings.deletion_config.retention_folder matches Some(
                    folder,
                ) && file_name(encrypted_path@) matches Some(name) && target@ == join_text(
                    folder@,
                    decimal(secs as nat) + "_"@ + shown(name),
                ),
                Err(err) => self.settings.deletion_config.retention_folder is Some && file_name(
                    encrypted_path@,
                ) is None && (err matches MountSyncError::InvalidPath(p) && p@ == encrypted_path@),
            },
    {
        match &self.settings.deletion_config.retention_folder {
            None => Ok(None),
            Some(folder) => match encrypted_path.file_name() {
                Some(name) => {
                    let text = name.lossy();
                    let digits = decimal_text(secs);
                    let kept = concat3(digits.as_str(), "_", text.as_str());
                    Ok(Some(folder.join_text(kept.as_str())))
                },
                None => Err(MountSyncError::InvalidPath(encrypted_path.duplicate())),
            },
        }
    }
}

} // verus!
