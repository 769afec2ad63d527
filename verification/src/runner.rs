//! Where the files around a mount stand, and what is checked before it starts and after it ends.

use vstd::prelude::*;
use vstd::string::*;
use vstd::utf8::encode_utf8;

use crate::config::opt_path;
use crate::conflicts::{uuid_shown, uuid_text};
use crate::digest::{content_digest, hex, hex_text, sha256_of};
use crate::path::{
    extension, file_name, file_name_text, join_text, shown, starts_with, PathView, SyncPath,
};
use crate::text::{
    blank, blank_iff_trim_empty, chars_of, concat2, concat3, contains_text, decimal, decimal_text,
    finishes_with, first_piece, has_text, same_text, split, trim,
};

verus! {

/// How a mount is made.
#[derive(Debug, Clone, Copy, PartialEq, Eq, Structural)]
pub enum MountStrategy {
    /// A directory that is kept the same as the encrypted one.
    Sync,
    /// A file system in user space.
    Fuse,
}

/// What was found of the support for file systems in user space.
pub struct FuseFacts<'a> {
    /// The system is Linux.
    pub linux: bool,
    pub device_exists: bool,
    /// Why the device could not be opened.
    pub open_error: Option<&'a str>,
    pub has_fusermount3: bool,
    pub has_fusermount: bool,
}

/// What stands in the way of a file system in user space.
pub open spec fn fuse_obstacle(facts: FuseFacts) -> Option<Seq<char>> {
    if !facts.linux {
        Some("FUSE mounts are only available on Linux in this build."@)
    } else if !facts.device_exists {
        Some(
            "FUSE device /dev/fuse not found. Install fuse3/fuse and ensure the kernel module is loaded."@,
        )
    } else if facts.open_error is Some {
        Some(
            "Cannot access /dev/fuse: "@ + facts.open_error->0@
                + ". Add your user to the 'fuse' group and adjust permissions."@,
        )
    } else if !facts.has_fusermount3 && !facts.has_fusermount {
        Some(
            "Neither fusermount3 nor fusermount found in PATH. Install the fuse3 (preferred) or fuse packages."@,
        )
    } else {
        None
    }
}

/// Whether a file system in user space can be made.
pub fn fuse_prereqs(facts: &FuseFacts) -> (res: Result<(), String>)
    ensures
        match res {
            Ok(()) => fuse_obstacle(*facts) is None,
            Err(message) => fuse_obstacle(*facts) == Some(message@),
        },
{
    if !facts.linux {
        return Err("FUSE mounts are only available on Linux in this build.".to_owned());
    }
    if !facts.device_exists {
        return Err(
            "FUSE device /dev/fuse not found. Install fuse3/fuse and ensure the kernel module is loaded.".to_owned(),
        );
    }
    if let Some(err) = facts.open_error {
        return Err(
            concat3(
                "Cannot access /dev/fuse: ",
                err,
                ". Add your user to the 'fuse' group and adjust permissions.",
            ),
        );
    }
    if !facts.has_fusermount3 && !facts.has_fusermount {
        return Err(
            "Neither fusermount3 nor fusermount found in PATH. Install the fuse3 (preferred) or fuse packages.".to_owned(),
        );
    }
    Ok(())
}

/// How a mount is made: as a file system where that is possible, which it is on Linux alone, else
/// as a directory.
pub fn determine_mount_strategy(facts: &FuseFacts) -> (res: MountStrategy)
    ensures
        !facts.linux ==> res == MountStrategy::Sync,
        res == if fuse_obstacle(*facts) is None {
            MountStrategy::Fuse
        } else {
            MountStrategy::Sync
        },
{
    match fuse_prereqs(facts) {
        Ok(()) => MountStrategy::Fuse,
        Err(_) => MountStrategy::Sync,
    }
}

/// How a file system in user space is made.
pub struct MountOptions {
    pub allow_other: bool,
    pub readonly: bool,
    pub volume_name: Option<String>,
    pub cache_size_mb: u64,
    pub max_operations: u64,
    pub debug: bool,
}

/// The options for a volume.
pub fn build_mount_options(volume_label: &str) -> (res: MountOptions)
    ensures
        !res.allow_other,
        !res.readonly,
        res.volume_name matches Some(name) && name@ == volume_label@,
        res.cache_size_mb == 256,
        res.max_operations == 64,
        !res.debug,
{
    MountOptions {
        allow_other: false,
        readonly: false,
        volume_name: Some(volume_label.to_owned()),
        cache_size_mb: 256,
        max_operations: 64,
        debug: false,
    }
}

/// Whether there is something to unmount: a mounted file system. A directory needs nothing.
pub fn unmount_mountpoint(strategy: MountStrategy, mounted: bool) -> (res: bool)
    ensures
        res == (strategy == MountStrategy::Fuse && mounted),
{
    match strategy {
        MountStrategy::Fuse => mounted,
        MountStrategy::Sync => false,
    }
}

/// How the run of a file system ends. Once it was unmounted on request, an error about the mount
/// is none.
pub fn fuse_mount_ended(result: Result<(), String>, unmounted: bool) -> (res: Result<(), String>)
    ensures
        match result {
            Ok(()) => res == Ok::<(), String>(()),
            Err(message) => if unmounted && contains_text(message@, "mount"@) {
                res == Ok::<(), String>(())
            } else {
                res == result
            },
        },
{
    match result {
        Ok(()) => Ok(()),
        Err(message) => {
            if unmounted && has_text(&chars_of(message.as_str()), "mount") {
                Ok(())
            } else {
                Err(message)
            }
        },
    }
}

/// The bytes by which a mount is told from others: its two directories as they are written.
pub open spec fn mount_identity(mountpoint: Seq<char>, encrypted_dir: Seq<char>) -> Seq<u8> {
    encode_utf8(mountpoint).push(124u8) + encode_utf8(encrypted_dir)
}

/// The digest by which a mount is told from others.
pub open spec fn mount_digest(mountpoint: Seq<char>, encrypted_dir: Seq<char>) -> Seq<u8> {
    sha256_of(mount_identity(mountpoint, encrypted_dir))
}

fn push_bytes(to: &mut Vec<u8>, from: &[u8])
    ensures
        final(to)@ == old(to)@ + from@,
{
    let mut i: usize = 0;
    assert(from@.take(0) =~= Seq::<u8>::empty());
    while i < from.len()
        invariant
            i <= from@.len(),
            to@ == old(to)@ + from@.take(i as int),
        decreases from@.len() - i,
    {
        to.push(from[i]);
        i += 1;
        assert(to@ =~= old(to)@ + from@.take(i as int));
    }
    assert(from@.take(from@.len() as int) =~= from@);
}

fn identify(mountpoint: &SyncPath, encrypted_dir: &SyncPath) -> (res: [u8; 32])
    ensures
        res@ == mount_digest(mountpoint@.text, encrypted_dir@.text),
{
    let mut bytes: Vec<u8> = Vec::new();
    let mount = mountpoint.display();
    let encrypted = encrypted_dir.display();
    push_bytes(&mut bytes, mount.as_str().as_bytes());
    bytes.push(124u8);
    push_bytes(&mut bytes, encrypted.as_str().as_bytes());
    assert(bytes@ =~= mount_identity(mountpoint@.text, encrypted_dir@.text));
    content_digest(bytes.as_slice())
}

/// A file in the configuration directory that belongs to one mount.
pub open spec fn mount_file(
    config_dir: PathView,
    mountpoint: Seq<char>,
    encrypted_dir: Seq<char>,
    before: Seq<char>,
    after: Seq<char>,
) -> PathView {
    join_text(config_dir, before + hex(mount_digest(mountpoint, encrypted_dir)) + after)
}

fn mount_file_path(
    config_dir: &SyncPath,
    mountpoint: &SyncPath,
    encrypted_dir: &SyncPath,
    before: &str,
    after: &str,
) -> (res: SyncPath)
    ensures
        res@ == mount_file(config_dir@, mountpoint@.text, encrypted_dir@.text, before@, after@),
{
    let digest = identify(mountpoint, encrypted_dir);
    let digits = hex_text(digest.as_slice(), 32);
    assert(digest@.take(32) =~= digest@);
    let name = concat3(before, digits.as_str(), after);
    config_dir.join_text(name.as_str())
}

/// The file that tells that a mount was left cleanly.
pub fn mount_clean_marker_path(
    config_dir: &SyncPath,
    mountpoint: &SyncPath,
    encrypted_dir: &SyncPath,
) -> (res: SyncPath)
    ensures
        res@ == mount_file(
            config_dir@,
            mountpoint@.text,
            encrypted_dir@.text,
            "mount_clean_"@,
            ".marker"@,
        ),
{
    mount_file_path(config_dir, mountpoint, encrypted_dir, "mount_clean_", ".marker")
}

/// The file that holds what is known of a mount.
pub fn mount_sync_baseline_path(
    config_dir: &SyncPath,
    mountpoint: &SyncPath,
    encrypted_dir: &SyncPath,
) -> (res: SyncPath)
    ensures
        res@ == mount_file(
            config_dir@,
            mountpoint@.text,
            encrypted_dir@.text,
            "mount_baseline_"@,
            ".json"@,
        ),
{
    mount_file_path(config_dir, mountpoint, encrypted_dir, "mount_baseline_", ".json")
}

/// The name by which a mount is kept aside.
pub open spec fn recovery_name(mountpoint: PathView) -> Seq<char> {
    match file_name(mountpoint) {
        Some(name) => shown(name),
        None => "mount"@,
    }
}

/// The directory in which the content of a mount is kept aside.
pub open spec fn recovery_dir(
    config_dir: PathView,
    mountpoint: PathView,
    encrypted_dir: PathView,
    secs: u64,
) -> PathView {
    join_text(
        join_text(config_dir, "mount_recovery"@),
        decimal(secs as nat) + "_"@ + recovery_name(mountpoint) + "_"@ + hex(
            mount_digest(mountpoint.text, encrypted_dir.text).take(6),
        ),
    )
}

/// The directory in which the content of a mount is kept aside, by the time in seconds.
pub fn mount_recovery_path(
    config_dir: &SyncPath,
    mountpoint: &SyncPath,
    encrypted_dir: &SyncPath,
    secs: u64,
) -> (res: SyncPath)
    ensures
        res@ == recovery_dir(config_dir@, mountpoint@, encrypted_dir@, secs),
{
    let digest = identify(mountpoint, encrypted_dir);
    let digits = hex_text(digest.as_slice(), 6);
    let number = decimal_text(secs);
    let shown_name = match mountpoint.file_name() {
        Some(name) => name.lossy(),
        None => "mount".to_owned(),
    };
    let mut name = concat3(number.as_str(), "_", shown_name.as_str());
    name.append("_");
    name.append(digits.as_str());
    config_dir.join_text("mount_recovery").join_text(name.as_str())
}

/// The value of decimal digits.
pub open spec fn digits_value(digits: Seq<char>) -> nat
    decreases digits.len(),
{
    if digits.len() == 0 {
        0
    } else {
        digits_value(digits.drop_last()) * 10 + (digits.last() as int - 48) as nat
    }
}

/// A character is a decimal digit.
pub open spec fn is_digit(c: char) -> bool {
    '0' <= c <= '9'
}

/// The digits of a number, without the sign that may stand before them.
pub open spec fn unsigned_part(text: Seq<char>) -> Seq<char> {
    if text.len() > 1 && text[0] == '+' {
        text.skip(1)
    } else {
        text
    }
}

/// The number that a text gives, if it is one and fits.
pub open spec fn number_in(text: Seq<char>) -> Option<u64> {
    let digits = unsigned_part(text);
    if digits.len() > 0 && (forall|i: int| 0 <= i < digits.len() ==> is_digit(#[trigger] digits[i]))
        && digits_value(digits) <= u64::MAX {
        Some(digits_value(digits) as u64)
    } else {
        None
    }
}

proof fn more_digits_are_more(digits: Seq<char>, n: int)
    requires
        0 <= n <= digits.len(),
    ensures
        digits_value(digits.take(n)) <= digits_value(digits),
    decreases digits.len() - n,
{
    if n == digits.len() {
        assert(digits.take(n) =~= digits);
    } else {
        more_digits_are_more(digits, n + 1);
        assert(digits.take(n + 1).drop_last() =~= digits.take(n));
    }
}

/// Reads a number.
pub fn read_number(text: &str) -> (res: Option<u64>)
    ensures
        res == number_in(text@),
{
    let chars = chars_of(text);
    let start: usize = if chars.len() > 1 && chars[0] == '+' {
        1
    } else {
        0
    };
    let ghost digits = unsigned_part(text@);
    assert(digits =~= chars@.skip(start as int));
    if chars.len() == start {
        return None;
    }
    let mut value: u64 = 0;
    let mut i: usize = start;
    while i < chars.len()
        invariant
            start <= i <= chars@.len(),
            start <= 1,
            digits == chars@.skip(start as int),
            digits == unsigned_part(text@),
            value == digits_value(digits.take(i - start)),
            forall|k: int| 0 <= k < i - start ==> is_digit(#[trigger] digits[k]),
        decreases chars@.len() - i,
    {
        let c: char = chars[i];
        assert(digits[i - start] == c);
        if !(c >= '0' && c <= '9') {
            return None;
        }
        proof {
            assert(digits.take(i - start + 1).drop_last() =~= digits.take(i - start));
            assert(digits.take(i - start + 1).last() == c);
            more_digits_are_more(digits, i - start + 1);
        }
        let d: u64 = (c as u32 - 48) as u64;
        if value > 1844674407370955161u64 || (value == 1844674407370955161u64 && d > 5) {
            return None;
        }
        value = value * 10 + d;
        i += 1;
    }
    assert(digits.take(digits.len() as int) =~= digits);
    Some(value)
}

/// A directory of things kept aside is older than it has to be. One whose name does not begin with
/// a time stays.
pub open spec fn recovery_expired(name: Seq<char>, now: u64, retention_days: u64) -> bool {
    match number_in(split(name, '_')[0]) {
        Some(made) => now - made > retention_days * 86400 && retention_days * 86400 <= u64::MAX,
        None => false,
    }
}

/// Whether a directory of things kept aside is removed.
pub fn recovery_dir_expired(name: &str, now: u64, retention_days: u64) -> (res: bool)
    ensures
        res == recovery_expired(name@, now, retention_days),
{
    let first = first_piece(name, '_');
    match read_number(first.as_str()) {
        Some(made) => {
            let limit: u128 = retention_days as u128 * 86400u128;
            now > made && limit <= u64::MAX as u128 && (now - made) as u128 > limit
        },
        None => false,
    }
}

/// The name of a journal: that of its kind, with the scope where there is one.
pub open spec fn journal_name(base: Seq<char>, scope: Option<Seq<char>>) -> Seq<char> {
    match scope {
        Some(id) if trim(id).len() > 0 => base + "_"@ + id + ".json"@,
        _ => base + ".json"@,
    }
}

/// A journal in the configuration directory, for all mounts or for one.
pub open spec fn journal_at(
    config_dir: PathView,
    base: Seq<char>,
    scope: Option<Seq<char>>,
) -> PathView {
    join_text(config_dir, journal_name(base, scope))
}

/// An optional text, as its characters.
pub open spec fn opt_str(text: Option<&str>) -> Option<Seq<char>> {
    match text {
        Some(t) => Some(t@),
        None => None,
    }
}

/// A journal in the configuration directory, for all mounts or for one.
pub fn scoped_journal(config_dir: &SyncPath, base: &str, scope: Option<&str>) -> (res: SyncPath)
    ensures
        res@ == journal_at(config_dir@, base@, opt_str(scope)),
{
    if let Some(id) = scope {
        proof {
            blank_iff_trim_empty(id@);
        }
        if !blank(id) {
            let mut name = concat3(base, "_", id);
            name.append(".json");
            return config_dir.join_text(name.as_str());
        }
    }
    let name = concat2(base, ".json");
    config_dir.join_text(name.as_str())
}

/// The last name of a path is a text that ends in `_mount`.
pub open spec fn has_mount_name(path: PathView) -> bool {
    file_name_text(path) matches Some(name) && "_mount"@.is_suffix_of(name)
}

/// Why a directory is not emptied: only those below `~/.hybridcipher` whose name ends in `_mount`
/// are.
pub open spec fn cleanup_refusal(path: PathView, home: Option<PathView>) -> Option<Seq<char>> {
    match home {
        None => Some("Unable to resolve home directory for safety check"@),
        Some(home_dir) => if !starts_with(path, join_text(home_dir, ".hybridcipher"@)) {
            Some(
                "CRITICAL: Refusing to clean path "@ + path.text
                    + " - not a mountpoint directory (not under ~/.hybridcipher)"@,
            )
        } else if !has_mount_name(path) {
            Some(
                "CRITICAL: Path "@ + path.text
                    + " does not look like a mountpoint directory. Refusing to clean."@,
            )
        } else {
            None
        },
    }
}

/// Whether a directory is emptied, if there is one. Only a directory of mounts is.
pub fn check_mountpoint_cleanup(path: &SyncPath, exists: bool, home: &Option<SyncPath>) -> (res:
    Result<bool, String>)
    ensures
        match res {
            Ok(there) => there == exists && (exists ==> cleanup_refusal(
                path@,
                opt_path(*home),
            ) is None),
            Err(message) => exists && cleanup_refusal(path@, opt_path(*home))
                == Some(message@),
        },
{
    if !exists {
        return Ok(false);
    }
    let home_dir = match home {
        Some(dir) => dir,
        None => {
            return Err("Unable to resolve home directory for safety check".to_owned());
        },
    };
    let base = home_dir.join_text(".hybridcipher");
    let text = path.display();
    if !path.starts_with(&base) {
        return Err(
            concat3(
                "CRITICAL: Refusing to clean path ",
                text.as_str(),
                " - not a mountpoint directory (not under ~/.hybridcipher)",
            ),
        );
    }
    let named = match path.file_name_text() {
        Some(name) => finishes_with(&chars_of(name.as_str()), "_mount"),
        None => false,
    };
    if !named {
        return Err(
            concat3(
                "CRITICAL: Path ",
                text.as_str(),
                " does not look like a mountpoint directory. Refusing to clean.",
            ),
        );
    }
    Ok(true)
}

/// A file that holds a request.
pub open spec fn is_request(path: PathView) -> bool {
    extension(path) == Some("json"@)
}

/// Whether a file holds a request.
pub fn is_request_file(path: &SyncPath) -> (res: bool)
    ensures
        res == is_request(path@),
{
    match path.extension() {
        Some(ext) => same_text(ext.as_str(), "json"),
        None => false,
    }
}

/// The file in which a request is answered.
pub fn answer_path(result_dir: &SyncPath, request_id: u128) -> (res: SyncPath)
    ensures
        res@ == join_text(result_dir@, uuid_shown(request_id) + ".json"@),
{
    let id = uuid_text(request_id);
    let name = concat2(id.as_str(), ".json");
    result_dir.join_text(name.as_str())
}

/// Only a directory below `~/.hybridcipher` whose last name is a text that ends in `_mount` is ever
/// emptied.
pub proof fn only_mounts_are_emptied(path: PathView, home: Option<PathView>)
    ensures
        cleanup_refusal(path, home) is None <==> {
            &&& home is Some
            &&& starts_with(path, join_text(home->0, ".hybridcipher"@))
            &&& file_name_text(path) is Some
            &&& "_mount"@.is_suffix_of(file_name_text(path)->0)
        },
{
}

} // verus!
