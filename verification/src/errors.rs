//! Errors of a sync mount, and what their messages say.

use vstd::prelude::*;
use vstd::string::*;

use crate::path::{SyncPath};
use crate::text::{ascii_lower, blank, contains_text, has_text, is_blank, lower_ascii};

verus! {

/// What can go wrong in a sync mount.
#[derive(Debug)]
pub enum MountSyncError {
    /// An I/O error: the code of the operating system, where there is one, and the message.
    Io { code: Option<i32>, message: String },
    Format(String),
    Crypto(String),
    UnstableFile(String),
    PathExcluded(String),
    InvalidPath(SyncPath),
}

/// The error is about a format, and has the message.
pub open spec fn is_format(err: MountSyncError, message: Seq<char>) -> bool {
    match err {
        MountSyncError::Format(m) => m@ == message,
        _ => false,
    }
}

/// The message of an error.
#[verifier::opaque]
pub open spec fn error_message(err: MountSyncError) -> Seq<char> {
    match err {
        MountSyncError::Io { code, message } => "I/O error: "@ + message@,
        MountSyncError::Format(m) => "Format error: "@ + m@,
        MountSyncError::Crypto(m) => "Crypto error: "@ + m@,
        MountSyncError::UnstableFile(m) => "Unstable file during sync: "@ + m@,
        MountSyncError::PathExcluded(m) => "Path excluded from encryption: "@ + m@,
        MountSyncError::InvalidPath(path) => "Invalid path: "@ + path@.text,
    }
}

impl MountSyncError {
    /// The message of the error.
    pub fn message(&self) -> (res: String)
        ensures
            res@ == error_message(*self),
    {
        proof {
            reveal(error_message);
        }
        let mut res = String::new();
        match self {
            MountSyncError::Io { code: _, message } => {
                res.append("I/O error: ");
                res.append(message.as_str());
            },
            MountSyncError::Format(m) => {
                res.append("Format error: ");
                res.append(m.as_str());
            },
            MountSyncError::Crypto(m) => {
                res.append("Crypto error: ");
                res.append(m.as_str());
            },
            MountSyncError::UnstableFile(m) => {
                res.append("Unstable file during sync: ");
                res.append(m.as_str());
            },
            MountSyncError::PathExcluded(m) => {
                res.append("Path excluded from encryption: ");
                res.append(m.as_str());
            },
            MountSyncError::InvalidPath(path) => {
                let shown = path.display();
                res.append("Invalid path: ");
                res.append(shown.as_str());
            },
        }
        assert(res@ =~= error_message(*self));
        res
    }
}

/// The message says that a volume is full.
#[verifier::opaque]
pub open spec fn says_low_space(message: Seq<char>) -> bool {
    let lower = ascii_lower(message);
    ||| contains_text(lower, "no space left on device"@)
    ||| contains_text(lower, "not enough space on the disk"@)
    ||| contains_text(lower, "disk full"@)
    ||| contains_text(lower, "storage full"@)
    ||| contains_text(lower, "enospc"@)
}

/// Whether a message says that a volume is full.
pub fn error_message_is_low_space(message: &str) -> (res: bool)
    ensures
        res == says_low_space(message@),
{
    proof {
        reveal(says_low_space);
    }
    let lower = lower_ascii(message);
    has_text(&lower, "no space left on device") || has_text(&lower, "not enough space on the disk")
        || has_text(&lower, "disk full") || has_text(&lower, "storage full") || has_text(
        &lower,
        "enospc",
    )
}

/// The error was caused by a full volume.
#[verifier::opaque]
pub open spec fn low_space_error(err: MountSyncError) -> bool {
    match err {
        MountSyncError::Io { code, message } => code == Some(28i32) || code == Some(112i32)
            || says_low_space(message@),
        MountSyncError::Format(m) => says_low_space(m@),
        MountSyncError::Crypto(m) => says_low_space(m@),
        MountSyncError::UnstableFile(m) => says_low_space(m@),
        MountSyncError::PathExcluded(_) => false,
        MountSyncError::InvalidPath(_) => false,
    }
}

/// Whether an I/O error was caused by a full volume: by its code on Linux or Windows, or by
/// its message.
pub fn is_low_space_io_error(code: Option<i32>, message: &str) -> (res: bool)
    ensures
        res == (code == Some(28i32) || code == Some(112i32) || says_low_space(message@)),
{
    let by_code = match code {
        Some(n) => n == 28 || n == 112,
        None => false,
    };
    by_code || error_message_is_low_space(message)
}

/// Whether an error was caused by a full volume.
pub fn is_low_space_error(err: &MountSyncError) -> (res: bool)
    ensures
        res == low_space_error(*err),
{
    proof {
        reveal(low_space_error);
    }
    match err {
        MountSyncError::Io { code, message } => is_low_space_io_error(*code, message.as_str()),
        MountSyncError::Format(m) => error_message_is_low_space(m.as_str()),
        MountSyncError::Crypto(m) => error_message_is_low_space(m.as_str()),
        MountSyncError::UnstableFile(m) => error_message_is_low_space(m.as_str()),
        MountSyncError::PathExcluded(_) => false,
        MountSyncError::InvalidPath(_) => false,
    }
}

/// The message says that the file was changing, so that another attempt may succeed.
#[verifier::opaque]
pub open spec fn says_retryable(message: Seq<char>) -> bool {
    let lower = ascii_lower(message);
    ||| contains_text(lower, "unstable file"@)
    ||| contains_text(lower, "changed during read"@)
    ||| contains_text(lower, "mid-write"@)
}

/// Whether a failed commit may succeed at another attempt.
pub fn pending_writeback_error_is_retryable(message: &str) -> (res: bool)
    ensures
        res == says_retryable(message@),
{
    proof {
        reveal(says_retryable);
    }
    let lower = lower_ascii(message);
    has_text(&lower, "unstable file") || has_text(&lower, "changed during read") || has_text(
        &lower,
        "mid-write",
    )
}

/// The text of an optional message.
pub open spec fn opt_text(message: Option<String>) -> Option<Seq<char>> {
    match message {
        Some(m) => Some(m@),
        None => None,
    }
}

/// The message is one, and another attempt will not help.
pub open spec fn says_terminal(message: Option<Seq<char>>) -> bool {
    match message {
        Some(m) => !is_blank(m) && !says_retryable(m),
        None => false,
    }
}

/// Whether a failed commit will not succeed at another attempt.
pub fn pending_writeback_error_is_terminal(message: &Option<String>) -> (res: bool)
    ensures
        res == says_terminal(opt_text(*message)),
{
    match message {
        Some(m) => !blank(m.as_str()) && !pending_writeback_error_is_retryable(m.as_str()),
        None => false,
    }
}

/// A copy of an optional text.
pub fn copy_opt_text(text: &Option<String>) -> (res: Option<String>)
    ensures
        opt_text(res) == opt_text(*text),
        res == *text,
{
    match text {
        Some(t) => Some(t.clone()),
        None => None,
    }
}

} // verus!
