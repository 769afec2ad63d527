//! How files are named on both sides of a mount, and which names are set apart.

use vstd::prelude::*;
use vstd::string::*;

use crate::errors::{is_format, opt_text, MountSyncError};
use crate::path::{
    extension, file_name, file_name_text, join, join_text, parent, parse, shown, sibling,
    strip_prefix, PathView, SyncPath,
};
use crate::text::{
    ascii_lower, begins_with, byte_length, chars_of, concat2, concat3, decimal, decimal_text,
    drop_back, drop_front, finishes_with, fit_bytes, fitting_prefix, lower_ascii, replace_char,
    replaced, same_text, slice_chars, strip_back, strip_front, text_bytes, text_of,
};

verus! {

/// The name of the file that holds the encrypted metadata of a directory.
pub const DIRECTORY_METADATA_FILE_NAME: &'static str = ".hybridcipher_dir.encrypted";

/// The name of the directory for unfinished encrypted files.
pub const ENCRYPTED_TMP_DIR_NAME: &'static str = ".hybridcipher-tmp";

/// The longest name that a mounted file is given, in bytes.
pub const MAX_COMPONENT_LEN: usize = 240;

/// A relative path as one label, from how it is written: slashes between the names and none at
/// the ends.
#[verifier::opaque]
pub open spec fn relative_label(relative: PathView) -> Seq<char> {
    let label = replaced(relative.text, '\\', '/');
    let trimmed = strip_back(strip_front(label, '/'), '/');
    if trimmed.len() > 0 {
        trimmed
    } else {
        match file_name_text(relative) {
            Some(name) => name,
            None => "unknown_file"@,
        }
    }
}

/// A relative path as one label.
pub fn normalize_relative_path(relative: &SyncPath) -> (res: String)
    ensures
        res@ == relative_label(relative@),
{
    proof {
        reveal(relative_label);
    }
    let shown = relative.display();
    let label = replace_char(shown.as_str(), '\\', '/');
    let chars = chars_of(label.as_str());
    let front = drop_front(&chars, '/');
    let trimmed = drop_back(&front, '/');
    if trimmed.len() > 0 {
        return text_of(&trimmed);
    }
    match relative.file_name_text() {
        Some(name) => name,
        None => "unknown_file".to_owned(),
    }
}

/// The longest prefix of a text that fits in `max_len` bytes.
pub fn truncate_to_char_boundary(value: &str, max_len: usize) -> (res: String)
    ensures
        res@ == fitting_prefix(value@, max_len as nat),
{
    let chars = chars_of(value);
    let kept = fit_bytes(&chars, max_len);
    text_of(&kept)
}

/// What is left of a number after another is taken off, and zero where it is too small.
pub open spec fn left_over(a: int, b: int) -> nat {
    if a >= b {
        (a - b) as nat
    } else {
        0
    }
}

/// The name that sets a file apart: as much of `name` as fits, a marker, and the first bytes
/// of the file's identifier.
#[verifier::opaque]
pub open spec fn marked_name(name: Seq<char>, marker: Seq<char>, file_id: Seq<char>) -> Seq<char> {
    let suffix = fitting_prefix(file_id, 12);
    let mark = "."@ + marker + "-"@;
    let room = left_over(MAX_COMPONENT_LEN as int, (text_bytes(mark) + text_bytes(suffix)) as int);
    fitting_prefix(name, room) + mark + suffix
}

/// The name that sets a file apart with the given marker.
pub fn safe_name_with_suffix(name: &str, marker: &str, file_id: &str) -> (res: String)
    ensures
        res@ == marked_name(name@, marker@, file_id@),
{
    proof {
        reveal(marked_name);
    }
    let id = chars_of(file_id);
    let suffix = fit_bytes(&id, 12);
    let mut mark = ".".to_owned();
    mark.append(marker);
    mark.append("-");
    let mark_chars = chars_of(mark.as_str());
    let mark_len = byte_length(&mark_chars);
    let suffix_len = byte_length(&suffix);
    let room: usize = match (mark_len, suffix_len) {
        (Some(a), Some(b)) => if a <= MAX_COMPONENT_LEN && b <= MAX_COMPONENT_LEN - a {
            MAX_COMPONENT_LEN - a - b
        } else {
            0
        },
        _ => 0,
    };
    let base = truncate_to_char_boundary(name, room);
    let suffix_text = text_of(&suffix);
    concat3(base.as_str(), mark.as_str(), suffix_text.as_str())
}

/// The name of a file whose own name another file has.
pub fn collision_safe_name(name: &str, file_id: &str) -> (res: String)
    ensures
        res@ == marked_name(name@, "collision"@, file_id@),
{
    safe_name_with_suffix(name, "collision", file_id)
}

/// The name of a file whose own name is too long.
pub fn sanitized_safe_name(name: &str, file_id: &str) -> (res: String)
    ensures
        res@ == marked_name(name@, "sanitized"@, file_id@),
{
    safe_name_with_suffix(name, "sanitized", file_id)
}

/// The path at which a file goes whose own path another file has.
#[verifier::opaque]
pub open spec fn collision_path(target: PathView, file_id: Seq<char>) -> PathView {
    let name = match file_name_text(target) {
        Some(name) => name,
        None => "collision"@,
    };
    sibling(target, marked_name(name, "collision"@, file_id))
}

/// The path at which a file goes whose own path another file has.
pub fn collision_safe_path(target: &SyncPath, file_id: &str) -> (res: SyncPath)
    ensures
        res@ == collision_path(target@, file_id@),
{
    proof {
        reveal(collision_path);
    }
    let name = match target.file_name_text() {
        Some(name) => name,
        None => "collision".to_owned(),
    };
    let new_name = collision_safe_name(name.as_str(), file_id);
    target.sibling(new_name.as_str())
}

/// A name that a mounted file can have: no slash, not empty, not `.` or `..`, not too long.
pub open spec fn sanitized_name(name: Seq<char>, file_id: Seq<char>) -> Seq<char> {
    let flat = replaced(name, '/', '_');
    let named = if flat.len() == 0 || flat == "."@ || flat == ".."@ {
        "unnamed"@
    } else {
        flat
    };
    if text_bytes(named) > MAX_COMPONENT_LEN {
        marked_name(named, "sanitized"@, file_id)
    } else {
        named
    }
}

/// A name that a mounted file can have, and whether it differs from the given one.
pub fn sanitize_mount_file_name(name: &str, file_id: &str) -> (res: (String, bool))
    ensures
        res.0@ == sanitized_name(name@, file_id@),
        res.1 == (replaced(name@, '/', '_') != name@ || name@.len() == 0 || name@ == "."@ || name@
            == ".."@ || text_bytes(replaced(name@, '/', '_')) > MAX_COMPONENT_LEN),
{
    let mut sanitized = replace_char(name, '/', '_');
    let ghost flat = sanitized@;
    let mut changed = !same_text(sanitized.as_str(), name);
    proof {
        reveal_strlit(".");
        reveal_strlit("..");
        reveal_strlit("unnamed");
        assert(name@.len() == 0 ==> flat =~= name@);
        assert(flat.len() == 0 ==> flat =~= name@);
        if name@ == "."@ || name@ == ".."@ {
            assert(flat =~= name@);
        }
        if flat == "."@ || flat == ".."@ {
            assert forall|i: int| 0 <= i < flat.len() implies flat[i] == name@[i] by {
                assert(flat[i] != '_');
            }
            assert(flat =~= name@);
        }
        reveal_with_fuel(text_bytes, 3);
        reveal_with_fuel(text_bytes, 8);
    }
    if sanitized.unicode_len() == 0 || same_text(sanitized.as_str(), ".") || same_text(
        sanitized.as_str(),
        "..",
    ) {
        sanitized = "unnamed".to_owned();
        changed = true;
        assert(text_bytes(flat) <= MAX_COMPONENT_LEN);
        assert(text_bytes(sanitized@) <= MAX_COMPONENT_LEN);
    }
    let chars = chars_of(sanitized.as_str());
    let too_long = match byte_length(&chars) {
        Some(n) => n > MAX_COMPONENT_LEN,
        None => true,
    };
    if too_long {
        sanitized = sanitized_safe_name(sanitized.as_str(), file_id);
        changed = true;
    }
    (sanitized, changed)
}

/// A name that editors and systems give to files which are not meant to last.
pub open spec fn temp_like(name: Seq<char>) -> bool {
    let lower = ascii_lower(name);
    name.len() > 0 && {
        ||| "~"@.is_prefix_of(name)
        ||| ".#"@.is_prefix_of(name)
        ||| ".~lock."@.is_prefix_of(name)
        ||| "#"@.is_prefix_of(name) && "#"@.is_suffix_of(name)
        ||| ".___jb_tmp___"@.is_prefix_of(name)
        ||| ".goutputstream-"@.is_prefix_of(name)
        ||| lower == ".ds_store"@
        ||| lower == ".trashes"@
        ||| lower == ".temporaryitems"@
        ||| ".swp"@.is_suffix_of(lower)
        ||| ".swo"@.is_suffix_of(lower)
        ||| ".swx"@.is_suffix_of(lower)
        ||| ".bak"@.is_suffix_of(lower)
        ||| ".tmp"@.is_suffix_of(lower)
        ||| ".temp"@.is_suffix_of(lower)
        ||| ".part"@.is_suffix_of(lower)
        ||| "~"@.is_suffix_of(lower)
    }
}

/// Whether a name is one that files have which are not meant to last.
pub fn is_temp_like_name(name: &str) -> (res: bool)
    ensures
        res == temp_like(name@),
{
    let chars = chars_of(name);
    if chars.len() == 0 {
        return false;
    }
    if begins_with(&chars, "~") || begins_with(&chars, ".#") || begins_with(&chars, ".~lock.") || (
    begins_with(&chars, "#") && finishes_with(&chars, "#")) {
        return true;
    }
    if begins_with(&chars, ".___jb_tmp___") || begins_with(&chars, ".goutputstream-") {
        return true;
    }
    let lower = lower_ascii(name);
    let lower_text = text_of(&lower);
    same_text(lower_text.as_str(), ".ds_store") || same_text(lower_text.as_str(), ".trashes")
        || same_text(lower_text.as_str(), ".temporaryitems") || finishes_with(&lower, ".swp")
        || finishes_with(&lower, ".swo") || finishes_with(&lower, ".swx") || finishes_with(
        &lower,
        ".bak",
    ) || finishes_with(&lower, ".tmp") || finishes_with(&lower, ".temp") || finishes_with(
        &lower,
        ".part",
    ) || finishes_with(&lower, "~")
}

/// The path is that of a directory's encrypted metadata.
pub open spec fn directory_metadata_path(path: PathView) -> bool {
    file_name_text(path) == Some(DIRECTORY_METADATA_FILE_NAME@)
}

/// Whether a path is that of a directory's encrypted metadata.
pub fn is_directory_metadata_file(path: &SyncPath) -> (res: bool)
    ensures
        res == directory_metadata_path(path@),
{
    path.file_name_is(DIRECTORY_METADATA_FILE_NAME)
}

/// Where the encrypted metadata of a mounted directory goes.
pub open spec fn directory_metadata_target(
    encrypted_root: PathView,
    mount_root: PathView,
    directory: PathView,
) -> Option<PathView> {
    match strip_prefix(directory, mount_root) {
        Some(relative) => Some(
            join_text(join(encrypted_root, relative), DIRECTORY_METADATA_FILE_NAME@),
        ),
        None => None,
    }
}

/// Where the encrypted metadata of a mounted directory goes.
pub fn encrypted_directory_metadata_path_for(
    encrypted_root: &SyncPath,
    mount_root: &SyncPath,
    directory_path: &SyncPath,
) -> (res: Result<SyncPath, MountSyncError>)
    ensures
        match res {
            Ok(path) => directory_metadata_target(encrypted_root@, mount_root@, directory_path@)
                == Some(path@),
            Err(err) => directory_metadata_target(encrypted_root@, mount_root@, directory_path@)
                is None && is_format(
                err,
                "Directory "@ + directory_path@.text + " is outside mount root"@,
            ),
        },
{
    match directory_path.strip_prefix(mount_root) {
        Some(relative) => Ok(
            encrypted_root.join(&relative).join_text(DIRECTORY_METADATA_FILE_NAME),
        ),
        None => {
            let shown = directory_path.display();
            Err(
                MountSyncError::Format(
                    concat3("Directory ", shown.as_str(), " is outside mount root"),
                ),
            )
        },
    }
}

/// The mounted directory that encrypted directory metadata belongs to.
pub open spec fn directory_target(
    encrypted_root: PathView,
    encrypted_path: PathView,
    mount_root: PathView,
) -> Option<PathView> {
    match strip_prefix(encrypted_path, encrypted_root) {
        Some(relative) => Some(
            match parent(relative) {
                Some(dir) => join(mount_root, dir),
                None => join_text(mount_root, ""@),
            },
        ),
        None => None,
    }
}

/// The mounted directory that encrypted directory metadata belongs to.
pub fn decrypted_directory_target_path(
    encrypted_root: &SyncPath,
    encrypted_path: &SyncPath,
    mount_root: &SyncPath,
) -> (res: Result<SyncPath, MountSyncError>)
    ensures
        match res {
            Ok(path) => directory_target(encrypted_root@, encrypted_path@, mount_root@) == Some(
                path@,
            ),
            Err(err) => directory_target(encrypted_root@, encrypted_path@, mount_root@) is None
                && is_format(err, "Encrypted directory metadata is outside the selected root"@),
        },
{
    match encrypted_path.strip_prefix(encrypted_root) {
        Some(relative) => {
            match relative.parent() {
                Some(dir) => Ok(mount_root.join(&dir)),
                None => Ok(mount_root.join_text("")),
            }
        },
        None => Err(
            MountSyncError::Format(
                "Encrypted directory metadata is outside the selected root".to_owned(),
            ),
        ),
    }
}

/// The extension marks a directory that its application treats as one document.
pub open spec fn package_extension(ext: Seq<char>) -> bool {
    let e = ascii_lower(ext);
    ||| e == "app"@
    ||| e == "bundle"@
    ||| e == "pkg"@
    ||| e == "pages"@
    ||| e == "numbers"@
    ||| e == "key"@
    ||| e == "rtfd"@
    ||| e == "playground"@
    ||| e == "xcodeproj"@
    ||| e == "xcworkspace"@
    ||| e == "photoslibrary"@
    ||| e == "photolibrary"@
    ||| e == "aplibrary"@
    ||| e == "band"@
    ||| e == "logicx"@
}

fn is_package_extension(ext: &str) -> (res: bool)
    ensures
        res == package_extension(ext@),
{
    let lower = lower_ascii(ext);
    let text = text_of(&lower);
    let e = text.as_str();
    same_text(e, "app") || same_text(e, "bundle") || same_text(e, "pkg") || same_text(e, "pages")
        || same_text(e, "numbers") || same_text(e, "key") || same_text(e, "rtfd") || same_text(
        e,
        "playground",
    ) || same_text(e, "xcodeproj") || same_text(e, "xcworkspace") || same_text(e, "photoslibrary")
        || same_text(e, "photolibrary") || same_text(e, "aplibrary") || same_text(e, "band")
        || same_text(e, "logicx")
}

/// The name is that of a directory which its application treats as one document.
pub open spec fn package_name(name: Seq<char>) -> bool {
    match extension(parse(name)) {
        Some(ext) => package_extension(ext),
        None => false,
    }
}

/// Whether a name is that of a directory which its application treats as one document.
pub fn is_transactional_package_name(name: &str) -> (res: bool)
    ensures
        res == package_name(name@),
{
    match SyncPath::from_text(name).extension() {
        Some(ext) => is_package_extension(ext.as_str()),
        None => false,
    }
}

/// The extension is one of database files.
pub open spec fn database_extension(ext: Seq<char>) -> bool {
    ||| ext == "db"@
    ||| ext == "db3"@
    ||| ext == "sqlite"@
    ||| ext == "sqlite3"@
    ||| ext == "sqlitedb"@
}

/// The name, already in small letters, ends in the extension of a database file.
pub open spec fn database_name(name: Seq<char>) -> bool {
    match extension(parse(name)) {
        Some(ext) => database_extension(ext),
        None => false,
    }
}

fn is_database_name(name: &str) -> (res: bool)
    ensures
        res == database_name(name@),
{
    match SyncPath::from_text(name).extension() {
        Some(ext) => {
            let e = ext.as_str();
            same_text(e, "db") || same_text(e, "db3") || same_text(e, "sqlite") || same_text(
                e,
                "sqlite3",
            ) || same_text(e, "sqlitedb")
        },
        None => false,
    }
}

/// The name, already in small letters, is that of a database's side file with the suffix.
pub open spec fn side_file(name: Seq<char>, suffix: Seq<char>) -> bool {
    suffix.is_suffix_of(name) && database_name(name.take(name.len() - suffix.len()))
}

fn is_side_file(lower: &Vec<char>, suffix: &str) -> (res: bool)
    ensures
        res == side_file(lower@, suffix@),
{
    if !finishes_with(lower, suffix) {
        return false;
    }
    let n: usize = suffix.unicode_len();
    let end: usize = lower.len() - n;
    let base = slice_chars(lower, 0, end);
    assert(base@ =~= lower@.take(end as int));
    let base_text = text_of(&base);
    is_database_name(base_text.as_str())
}

/// The name is that of a database file or of one of its side files.
pub open spec fn database_file(name: Seq<char>) -> bool {
    let lower = ascii_lower(name);
    ||| database_name(lower)
    ||| side_file(lower, "-wal"@)
    ||| side_file(lower, "-shm"@)
    ||| side_file(lower, "-journal"@)
}

/// Whether a name is that of a database file or of one of its side files.
pub fn known_transactional_database_name(name: &str) -> (res: bool)
    ensures
        res == database_file(name@),
{
    let lower = lower_ascii(name);
    let text = text_of(&lower);
    is_database_name(text.as_str()) || is_side_file(&lower, "-wal") || is_side_file(&lower, "-shm")
        || is_side_file(&lower, "-journal")
}

/// The name of the nearest directory above `path` that is one document.
pub open spec fn package_above(path: PathView) -> Option<Seq<char>>
    decreases path.names.len(),
{
    if path.names.len() == 0 {
        None
    } else {
        let dir = parent(path)->0;
        match file_name_text(dir) {
            Some(name) => if package_name(name) {
                Some(name)
            } else {
                package_above(dir)
            },
            None => package_above(dir),
        }
    }
}

/// The name of the nearest directory above `relative` that is one document.
pub fn transactional_package_ancestor(relative: &SyncPath) -> (res: Option<String>)
    ensures
        match res {
            Some(name) => package_above(relative@) == Some(name@),
            None => package_above(relative@) is None,
        },
    decreases relative@.names.len(),
{
    match relative.parent() {
        None => None,
        Some(dir) => {
            match dir.file_name_text() {
                Some(name) => {
                    if is_transactional_package_name(name.as_str()) {
                        Some(name)
                    } else {
                        transactional_package_ancestor(&dir)
                    }
                },
                None => transactional_package_ancestor(&dir),
            }
        },
    }
}

/// Why a path under `mount_root` is not synced on its own, if that is so.
pub open spec fn transactional_reason(mount_root: PathView, path: PathView) -> Option<Seq<char>> {
    match strip_prefix(path, mount_root) {
        None => None,
        Some(relative) => match package_above(relative) {
            Some(name) => Some(
                "package-like directory "@ + name + " requires atomic-set sync"@,
            ),
            None => match file_name_text(path) {
                Some(name) => if database_file(name) {
                    Some("database/journal file "@ + name + " requires atomic-set sync"@)
                } else {
                    None
                },
                None => None,
            },
        },
    }
}

/// Why a path under `mount_root` is not synced on its own, if that is so.
pub fn transactional_format_reason(mount_root: &SyncPath, path: &SyncPath) -> (res: Option<String>)
    ensures
        match res {
            Some(reason) => transactional_reason(mount_root@, path@) == Some(reason@),
            None => transactional_reason(mount_root@, path@) is None,
        },
{
    let relative = match path.strip_prefix(mount_root) {
        Some(relative) => relative,
        None => {
            return None;
        },
    };
    if let Some(name) = transactional_package_ancestor(&relative) {
        return Some(
            concat3("package-like directory ", name.as_str(), " requires atomic-set sync"),
        );
    }
    match path.file_name_text() {
        Some(name) => {
            if known_transactional_database_name(name.as_str()) {
                Some(
                    concat3("database/journal file ", name.as_str(), " requires atomic-set sync"),
                )
            } else {
                None
            }
        },
        None => None,
    }
}

/// The file has more than one name.
pub open spec fn is_hard_linked(is_file: bool, links: u64) -> bool {
    is_file && links > 1
}

/// Why a file is not synced because of its number of links, if that is so.
pub open spec fn hard_link_reason(shown: Seq<char>, is_file: bool, links: u64) -> Option<
    Seq<char>,
> {
    if is_hard_linked(is_file, links) {
        Some(
            "hard-linked file "@ + shown + " has "@ + decimal(links as nat)
                + " links; sync mount does not preserve hard-link semantics"@,
        )
    } else {
        None
    }
}

/// Why a file is not synced because of its number of links, if that is so.
pub fn hard_link_block_reason(path: &SyncPath, is_file: bool, links: u64) -> (res: Option<String>)
    ensures
        match res {
            Some(reason) => hard_link_reason(path@.text, is_file, links) == Some(reason@),
            None => hard_link_reason(path@.text, is_file, links) is None,
        },
{
    if !is_file || links <= 1 {
        return None;
    }
    let shown = path.display();
    let count = decimal_text(links);
    let mut reason = concat3("hard-linked file ", shown.as_str(), " has ");
    reason.append(count.as_str());
    reason.append(" links; sync mount does not preserve hard-link semantics");
    Some(reason)
}

/// The path with its file name, where it has one, replaced by what a text writes.
pub open spec fn with_file_name(path: PathView, text: Seq<char>) -> PathView {
    match file_name(path) {
        Some(_) => sibling(path, text),
        None => join_text(path, text),
    }
}

pub(crate) fn set_file_name(path: &SyncPath, text: &str) -> (res: SyncPath)
    ensures
        res@ == with_file_name(path@, text@),
{
    match path.file_name() {
        Some(_) => path.sibling(text),
        None => path.join_text(text),
    }
}

/// Where the encrypted form of a mounted file goes.
pub open spec fn encrypted_target(
    encrypted_root: PathView,
    mount_root: PathView,
    decrypted_path: PathView,
) -> Option<PathView> {
    match strip_prefix(decrypted_path, mount_root) {
        Some(relative) => {
            let name = match file_name(relative) {
                Some(name) => shown(name),
                None => "file"@,
            };
            Some(join(encrypted_root, with_file_name(relative, name + ".encrypted"@)))
        },
        None => None,
    }
}

/// Where the encrypted form of a mounted file goes.
pub fn encrypted_path_for(
    encrypted_root: &SyncPath,
    mount_root: &SyncPath,
    decrypted_path: &SyncPath,
) -> (res: Result<SyncPath, MountSyncError>)
    ensures
        match res {
            Ok(path) => encrypted_target(encrypted_root@, mount_root@, decrypted_path@) == Some(
                path@,
            ),
            Err(err) => encrypted_target(encrypted_root@, mount_root@, decrypted_path@) is None
                && is_format(
                err,
                "Decrypted file "@ + decrypted_path@.text + " is outside mount root"@,
            ),
        },
{
    match decrypted_path.strip_prefix(mount_root) {
        Some(relative) => {
            let name = match relative.file_name() {
                Some(name) => name.lossy(),
                None => "file".to_owned(),
            };
            let encrypted_name = concat2(name.as_str(), ".encrypted");
            let target = set_file_name(&relative, encrypted_name.as_str());
            Ok(encrypted_root.join(&target))
        },
        None => {
            let shown = decrypted_path.display();
            Err(
                MountSyncError::Format(
                    concat3("Decrypted file ", shown.as_str(), " is outside mount root"),
                ),
            )
        },
    }
}

/// The name without `.encrypted` at its end, as often as that stands there.
pub open spec fn without_encrypted(name: Seq<char>) -> Seq<char>
    decreases name.len(),
{
    if ".encrypted"@.is_suffix_of(name) && ".encrypted"@.len() > 0 {
        without_encrypted(name.take(name.len() - ".encrypted"@.len()))
    } else {
        name
    }
}

/// The name without `.encrypted` at its end, as often as that stands there.
pub fn strip_encrypted_suffix(name: &str) -> (res: String)
    ensures
        res@ == without_encrypted(name@),
{
    let mut chars = chars_of(name);
    proof {
        reveal_strlit(".encrypted");
        assert(".encrypted"@.len() == 10);
    }
    while finishes_with(&chars, ".encrypted")
        invariant
            ".encrypted"@.len() == 10,
            without_encrypted(name@) == without_encrypted(chars@),
        decreases chars@.len(),
    {
        let end: usize = chars.len() - 10;
        let kept = slice_chars(&chars, 0, end);
        assert(kept@ =~= chars@.take(end as int));
        chars = kept;
    }
    text_of(&chars)
}

/// The name of the mounted form of an encrypted file: the one stored with it, or else its own
/// name without `.encrypted`.
pub open spec fn decrypted_name(encrypted_path: PathView, original_name: Option<Seq<char>>) -> Seq<
    char,
> {
    match original_name {
        Some(name) => name,
        None => match file_name_text(encrypted_path) {
            Some(name) => without_encrypted(name),
            None => "decrypted"@,
        },
    }
}

/// The name of the mounted form of an encrypted file.
pub fn decrypted_file_name(encrypted_path: &SyncPath, original_name: &Option<String>) -> (res:
    String)
    ensures
        res@ == decrypted_name(encrypted_path@, opt_text(*original_name)),
{
    if let Some(name) = original_name {
        return name.clone();
    }
    match encrypted_path.file_name_text() {
        Some(name) => strip_encrypted_suffix(name.as_str()),
        None => "decrypted".to_owned(),
    }
}

/// Where the mounted form of an encrypted file goes.
pub open spec fn decrypted_target(
    encrypted_root: PathView,
    encrypted_path: PathView,
    mount_root: PathView,
    original_name: Option<Seq<char>>,
) -> Option<PathView> {
    match strip_prefix(encrypted_path, encrypted_root) {
        Some(relative) => Some(
            with_file_name(
                join(mount_root, relative),
                decrypted_name(encrypted_path, original_name),
            ),
        ),
        None => None,
    }
}

/// Where the mounted form of an encrypted file goes.
pub fn decrypted_target_path(
    encrypted_root: &SyncPath,
    encrypted_path: &SyncPath,
    mount_root: &SyncPath,
    original_name: &Option<String>,
) -> (res: Result<SyncPath, MountSyncError>)
    ensures
        match res {
            Ok(path) => decrypted_target(
                encrypted_root@,
                encrypted_path@,
                mount_root@,
                opt_text(*original_name),
            ) == Some(path@),
            Err(err) => decrypted_target(
                encrypted_root@,
                encrypted_path@,
                mount_root@,
                opt_text(*original_name),
            ) is None && is_format(err, "Encrypted file is outside the selected root"@),
        },
{
    match encrypted_path.strip_prefix(encrypted_root) {
        Some(relative) => {
            let target = mount_root.join(&relative);
            let name = decrypted_file_name(encrypted_path, original_name);
            Ok(set_file_name(&target, name.as_str()))
        },
        None => Err(
            MountSyncError::Format("Encrypted file is outside the selected root".to_owned()),
        ),
    }
}

} // verus!
