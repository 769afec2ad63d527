//! Room on the volumes of a mount, and what is written when it runs out.

use vstd::prelude::*;
use vstd::string::*;

use crate::errors::{is_format, low_space_error, says_low_space, MountSyncError};
use crate::path::{parent, starts_with, PathKey, PathSet, PathView, SyncPath};
use crate::text::{ascii_lower, concat3, contains_text, decimal, decimal_text, match_at};

verus! {

pub const LOW_SPACE_WARNING_RESERVE_BYTES: u64 = 256 * 1024 * 1024;
pub const LOW_SPACE_JOURNAL_RESERVE_BYTES: u64 = 256 * 1024;
pub const LOW_SPACE_ATOMIC_WRITE_OVERHEAD_BYTES: u64 = 4 * 1024 * 1024;
pub const LOW_SPACE_DIRECTORY_CREATE_BYTES: u64 = 4096;

/// The message of an operation for which there is no room.
pub open spec fn budget_message(
    operation: Seq<char>,
    shown: Seq<char>,
    required: u64,
    reserve: u64,
    available: u64,
) -> Seq<char> {
    "No space left on device for "@ + operation + " at "@ + shown + ": need "@ + decimal(
        required as nat,
    ) + " bytes plus "@ + decimal(reserve as nat) + " bytes reserve, only "@ + decimal(
        available as nat,
    ) + " bytes available"@
}

/// The error of an operation for which there is no room.
pub fn low_space_budget_error(
    operation: &str,
    path: &SyncPath,
    required_bytes: u64,
    reserve_bytes: u64,
    available_bytes: u64,
) -> (res: MountSyncError)
    ensures
        is_format(
            res,
            budget_message(operation@, path@.text, required_bytes, reserve_bytes, available_bytes),
        ),
{
    let shown = path.display();
    let required = decimal_text(required_bytes);
    let reserve = decimal_text(reserve_bytes);
    let available = decimal_text(available_bytes);
    let mut message = concat3("No space left on device for ", operation, " at ");
    message.append(shown.as_str());
    message.append(": need ");
    message.append(required.as_str());
    message.append(" bytes plus ");
    message.append(reserve.as_str());
    message.append(" bytes reserve, only ");
    message.append(available.as_str());
    message.append(" bytes available");
    MountSyncError::Format(message)
}

/// The message of a change that is refused while the mount is read-only for want of space.
pub open spec fn readonly_message(shown: Seq<char>) -> Seq<char> {
    "No space left on device: sync mount is in read-only degraded mode for "@ + shown
}

/// The error of a change that is refused while the mount is read-only for want of space.
pub fn low_space_readonly_error(path: &SyncPath) -> (res: MountSyncError)
    ensures
        is_format(res, readonly_message(path@.text)),
{
    let shown = path.display();
    let mut message = "No space left on device: sync mount is in read-only degraded mode for ".to_owned();
    message.append(shown.as_str());
    MountSyncError::Format(message)
}

/// The room that an operation asks for, with the reserve, as far as a `u64` can hold it.
pub open spec fn budget(required: u64, reserve: u64) -> u64 {
    if required + reserve > u64::MAX {
        u64::MAX
    } else {
        (required + reserve) as u64
    }
}

/// Whether there is room for an operation. Where the room is not known there is.
pub fn ensure_space_budget(
    path: &SyncPath,
    available: Option<u64>,
    required_bytes: u64,
    reserve_bytes: u64,
    operation: &str,
) -> (res: Result<(), MountSyncError>)
    ensures
        res is Err <==> (available is Some && available->0 < budget(required_bytes, reserve_bytes)),
        res matches Err(err) ==> is_format(
            err,
            budget_message(operation@, path@.text, required_bytes, reserve_bytes, available->0),
        ),
{
    match available {
        None => Ok(()),
        Some(room) => {
            if room < required_bytes.saturating_add(reserve_bytes) {
                Err(low_space_budget_error(operation, path, required_bytes, reserve_bytes, room))
            } else {
                Ok(())
            }
        },
    }
}

/// Whether a volume has less room than the reserve. Where the room is not known it has not.
pub fn volume_below_reserve(available: Option<u64>, reserve_bytes: u64) -> (res: bool)
    ensures
        res == (available matches Some(room) && room < reserve_bytes),
{
    match available {
        Some(room) => room < reserve_bytes,
        None => false,
    }
}

/// A volume: where it is mounted, how many bytes that path is written with, and its room.
#[derive(Debug)]
pub struct Volume {
    pub mount_point: SyncPath,
    pub mount_point_len: usize,
    pub available: u64,
}

/// The position of the volume that holds a path among the first `n`: of those above the path
/// the one whose mount point is written with the most bytes, and the last of several.
pub open spec fn holding(volumes: Seq<Volume>, path: PathView, n: int) -> Option<int>
    decreases n,
{
    if n <= 0 {
        None
    } else {
        let before = holding(volumes, path, n - 1);
        let here = volumes[n - 1];
        if !starts_with(path, here.mount_point@) {
            before
        } else {
            match before {
                Some(i) => if volumes[i].mount_point_len <= here.mount_point_len {
                    Some(n - 1)
                } else {
                    before
                },
                None => Some(n - 1),
            }
        }
    }
}

/// The room on the volume that holds a path.
pub fn available_space_for_path(volumes: &Vec<Volume>, path: &SyncPath) -> (res: Option<u64>)
    ensures
        res == match holding(volumes@, path@, volumes@.len() as int) {
            Some(i) => Some(volumes@[i].available),
            None => None,
        },
{
    let mut best: Option<usize> = None;
    let mut i: usize = 0;
    while i < volumes.len()
        invariant
            i <= volumes.len(),
            best matches Some(k) ==> k < i,
            match best {
                Some(k) => holding(volumes@, path@, i as int) == Some(k as int),
                None => holding(volumes@, path@, i as int) is None,
            },
        decreases volumes.len() - i,
    {
        if path.starts_with(&volumes[i].mount_point) {
            let better = match best {
                Some(k) => volumes[k].mount_point_len <= volumes[i].mount_point_len,
                None => true,
            };
            if better {
                best = Some(i);
            }
        }
        i += 1;
    }
    match best {
        Some(k) => Some(volumes[k].available),
        None => None,
    }
}

/// The nearest path at or above `path` that is there.
pub open spec fn nearest_present(path: PathView, present: Set<PathKey>) -> Option<PathView>
    decreases path.names.len(),
{
    if present.contains(path.key()) {
        Some(path)
    } else if path.names.len() == 0 {
        None
    } else {
        nearest_present(parent(path)->0, present)
    }
}

/// The nearest path at or above `path` that is there.
pub fn existing_ancestor(path: &SyncPath, present: &PathSet) -> (res: Option<SyncPath>)
    requires
        present.wf(),
    ensures
        match res {
            Some(found) => nearest_present(path@, present@.keys()) == Some(found@),
            None => nearest_present(path@, present@.keys()) is None,
        },
    decreases path@.names.len(),
{
    if present.contains_key(path) {
        return Some(path.duplicate());
    }
    match path.parent() {
        Some(dir) => existing_ancestor(&dir, present),
        None => None,
    }
}

/// Which volumes of a mount have less room than the reserve.
#[derive(Debug, Clone, Copy, PartialEq, Eq, Structural)]
pub struct SpaceWarningState {
    pub mount_low: bool,
    pub encrypted_low: bool,
    pub journal_low: bool,
}

/// The texts of some warnings.
pub open spec fn space_warnings(state: SpaceWarningState) -> Seq<Seq<char>> {
    (if state.mount_low {
        seq!["mount volume below reserve"@]
    } else {
        Seq::empty()
    }) + (if state.encrypted_low {
        seq!["encrypted volume below reserve"@]
    } else {
        Seq::empty()
    }) + (if state.journal_low {
        seq!["journal volume below reserve"@]
    } else {
        Seq::empty()
    })
}

impl SpaceWarningState {
    /// No volume is short of room.
    pub fn none() -> (res: SpaceWarningState)
        ensures
            res == (SpaceWarningState {
                mount_low: false,
                encrypted_low: false,
                journal_low: false,
            }),
    {
        SpaceWarningState { mount_low: false, encrypted_low: false, journal_low: false }
    }

    /// The warnings, one for each volume that is short of room.
    pub fn warnings(&self) -> (res: Vec<String>)
        ensures
            crate::exclusion::texts(res@) == space_warnings(*self),
    {
        let mut res: Vec<String> = Vec::new();
        if self.mount_low {
            res.push("mount volume below reserve".to_owned());
        }
        if self.encrypted_low {
            res.push("encrypted volume below reserve".to_owned());
        }
        if self.journal_low {
            res.push("journal volume below reserve".to_owned());
        }
        assert(crate::exclusion::texts(res@) =~= space_warnings(*self));
        res
    }

    /// Whether any volume is short of room.
    pub fn any(&self) -> (res: bool)
        ensures
            res == (self.mount_low || self.encrypted_low || self.journal_low),
    {
        self.mount_low || self.encrypted_low || self.journal_low
    }
}

/// The permission bits without those that allow writing.
pub fn readonly_mode(mode: u32) -> (res: u32)
    ensures
        res == mode & !0o222u32,
        res & 0o222 == 0,
        res | (mode & 0o222) == mode,
{
    let res: u32 = mode & !0o222u32;
    assert((mode & !0o222u32) & 0o222 == 0) by (bit_vector);
    assert((mode & !0o222u32) | (mode & 0o222) == mode) by (bit_vector);
    res
}

/// The permission bits with that which allows the owner to write.
pub fn writable_mode(mode: u32) -> (res: u32)
    ensures
        res == mode | 0o200u32,
        res & 0o200 == 0o200,
{
    let res: u32 = mode | 0o200u32;
    assert((mode | 0o200u32) & 0o200 == 0o200) by (bit_vector);
    res
}

/// An error that an operation lacks room is recognised as one.
pub proof fn budget_errors_are_low_space(
    err: MountSyncError,
    operation: Seq<char>,
    shown: Seq<char>,
    required: u64,
    reserve: u64,
    available: u64,
)
    requires
        is_format(err, budget_message(operation, shown, required, reserve, available)) || is_format(
            err,
            readonly_message(shown),
        ),
    ensures
        low_space_error(err),
{
    reveal(low_space_error);
    reveal(says_low_space);
    let message = match err {
        MountSyncError::Format(m) => m@,
        _ => Seq::empty(),
    };
    reveal_strlit("No space left on device for ");
    reveal_strlit("No space left on device: sync mount is in read-only degraded mode for ");
    reveal_strlit("no space left on device");
    let lower = ascii_lower(message);
    let wanted = "no space left on device"@;
    assert(lower.subrange(0, 23) =~= wanted);
    assert(match_at(lower, wanted, 0));
    assert(contains_text(lower, wanted));
}

} // verus!
