//! Which names, patterns, messages and settings count as what.

use vstd::prelude::*;
use vstd::string::*;

use crate::config::{
    configured, settings_in, toml_section, with_settings, MountSettings, MountSyncConfig,
};
use crate::errors::{
    error_message, low_space_error, says_low_space, says_retryable, says_terminal, MountSyncError,
};
use crate::exclusion::{
    all_text, any_text_matches, candidates, excluded, exclusion_texts, glob_match, valid_glob,
    valid_patterns,
};
use crate::names::{
    database_file, database_name, hard_link_reason, package_above, package_name, side_file,
    temp_like, transactional_reason, without_encrypted,
};
use crate::path::{extension, file_name_text, parent, strip_prefix, PathView};
use crate::staging::{state_of, StateEntry};
use crate::sync::{encrypted_entry_of, EncryptedEntry, EntryKind};
use crate::text::{ascii_lower, contains_text, is_blank, match_at};

verus! {

proof fn lowered_parts(a: Seq<char>, b: Seq<char>)
    ensures
        ascii_lower(a + b) == ascii_lower(a) + ascii_lower(b),
        ascii_lower(ascii_lower(a)) == ascii_lower(a),
{
    assert(ascii_lower(a + b) =~= ascii_lower(a) + ascii_lower(b));
    assert(ascii_lower(ascii_lower(a)) =~= ascii_lower(a));
}

proof fn found_in_the_middle(before: Seq<char>, text: Seq<char>, after: Seq<char>, pattern: Seq<char>)
    requires
        contains_text(text, pattern),
    ensures
        contains_text(before + text + after, pattern),
{
    let at = choose|at: int| #[trigger] match_at(text, pattern, at);
    let whole = before + text + after;
    assert(whole.subrange(before.len() + at, before.len() + at + pattern.len()) =~= text.subrange(
        at,
        at + pattern.len(),
    ));
    assert(match_at(whole, pattern, before.len() + at));
}

/// A message that tells of want of room does so whatever stands before and behind it, and in capital
/// letters as well.
pub proof fn want_of_room_is_heard(before: Seq<char>, message: Seq<char>, after: Seq<char>)
    ensures
        says_low_space(message) ==> says_low_space(before + message + after),
        says_low_space(message) == says_low_space(ascii_lower(message)),
        says_retryable(message) ==> says_retryable(before + message + after),
        says_retryable(message) == says_retryable(ascii_lower(message)),
{
    reveal(says_low_space);
    reveal(says_retryable);
    let lower = ascii_lower(message);
    let a = ascii_lower(before);
    let b = ascii_lower(after);
    lowered_parts(message, after);
    lowered_parts(before, message);
    lowered_parts(before + message, after);
    assert(ascii_lower(before + message + after) =~= a + lower + b);
    if contains_text(lower, "no space left on device"@) {
        found_in_the_middle(a, lower, b, "no space left on device"@);
    }
    if contains_text(lower, "not enough space on the disk"@) {
        found_in_the_middle(a, lower, b, "not enough space on the disk"@);
    }
    if contains_text(lower, "disk full"@) {
        found_in_the_middle(a, lower, b, "disk full"@);
    }
    if contains_text(lower, "storage full"@) {
        found_in_the_middle(a, lower, b, "storage full"@);
    }
    if contains_text(lower, "enospc"@) {
        found_in_the_middle(a, lower, b, "enospc"@);
    }
    if contains_text(lower, "unstable file"@) {
        found_in_the_middle(a, lower, b, "unstable file"@);
    }
    if contains_text(lower, "changed during read"@) {
        found_in_the_middle(a, lower, b, "changed during read"@);
    }
    if contains_text(lower, "mid-write"@) {
        found_in_the_middle(a, lower, b, "mid-write"@);
    }
}

/// The phrases by which systems tell that a volume is full are understood.
pub proof fn full_volumes_are_understood(message: Seq<char>)
    ensures
        ({
            ||| message == "No space left on device"@
            ||| message == "There is not enough space on the disk."@
            ||| message == "ENOSPC"@
            ||| message == "Disk full"@
            ||| message == "storage full"@
        }) ==> says_low_space(message),
{
    reveal(says_low_space);
    reveal_strlit("No space left on device");
    reveal_strlit("There is not enough space on the disk.");
    reveal_strlit("ENOSPC");
    reveal_strlit("Disk full");
    reveal_strlit("storage full");
    reveal_strlit("no space left on device");
    reveal_strlit("not enough space on the disk");
    reveal_strlit("disk full");
    reveal_strlit("enospc");
    let lower = ascii_lower(message);
    if message == "No space left on device"@ {
        assert(lower.subrange(0, 23) =~= "no space left on device"@);
        assert(match_at(lower, "no space left on device"@, 0));
    }
    if message == "There is not enough space on the disk."@ {
        assert(lower.subrange(9, 37) =~= "not enough space on the disk"@);
        assert(match_at(lower, "not enough space on the disk"@, 9));
    }
    if message == "ENOSPC"@ {
        assert(lower.subrange(0, 6) =~= "enospc"@);
        assert(match_at(lower, "enospc"@, 0));
    }
    if message == "Disk full"@ {
        assert(lower.subrange(0, 9) =~= "disk full"@);
        assert(match_at(lower, "disk full"@, 0));
    }
    if message == "storage full"@ {
        assert(lower.subrange(0, 12) =~= "storage full"@);
        assert(match_at(lower, "storage full"@, 0));
    }
}

/// An error of the system is one for want of room by its code alone; any other by its message. A
/// path that is kept out or cannot be used never is.
pub proof fn errors_tell_of_want_of_room(err: MountSyncError)
    ensures
        err matches MountSyncError::Io { code, message } ==> {
            &&& code == Some(28i32) || code == Some(112i32) ==> low_space_error(err)
            &&& code != Some(28i32) && code != Some(112i32) ==> low_space_error(err)
                == says_low_space(message@)
        },
        err matches MountSyncError::Format(m) ==> low_space_error(err) == says_low_space(m@),
        err matches MountSyncError::Crypto(m) ==> low_space_error(err) == says_low_space(m@),
        err matches MountSyncError::UnstableFile(m) ==> low_space_error(err) == says_low_space(m@),
        err is PathExcluded || err is InvalidPath ==> !low_space_error(err),
{
    reveal(low_space_error);
}

/// A change whose encryption failed is tried again exactly if the file was changing meanwhile, or no
/// error is told; that an unstable file is told of so is understood.
pub proof fn changing_files_are_tried_again(message: Option<Seq<char>>, err: MountSyncError)
    ensures
        message is None ==> !says_terminal(message),
        message is Some && is_blank(message->0) ==> !says_terminal(message),
        message is Some && !is_blank(message->0) ==> says_terminal(message) == !says_retryable(
            message->0,
        ),
        err is UnstableFile ==> !says_terminal(Some(error_message(err))),
{
    reveal(says_retryable);
    reveal(error_message);
    if let MountSyncError::UnstableFile(m) = err {
        reveal_strlit("Unstable file during sync: ");
        reveal_strlit("unstable file");
        let head = "Unstable file during sync: "@;
        let lower = ascii_lower(head);
        assert(lower.subrange(0, 13) =~= "unstable file"@);
        assert(match_at(lower, "unstable file"@, 0));
        lowered_parts(head, m@);
        found_in_the_middle(Seq::empty(), lower, ascii_lower(m@), "unstable file"@);
        assert(Seq::<char>::empty() + lower + ascii_lower(m@) =~= ascii_lower(error_message(err)));
    }
}

/// A path is kept out by several patterns exactly if one of them keeps it out: more patterns keep
/// out more, and their order makes no difference.
pub proof fn patterns_keep_out_together(
    patterns: Seq<Seq<char>>,
    more: Seq<Seq<char>>,
    path: PathView,
)
    ensures
        excluded(patterns + more, path) <==> excluded(patterns, path) || excluded(more, path),
        !excluded(Seq::empty(), path),
{
    let all = patterns + more;
    let tested = exclusion_texts(path);
    if excluded(all, path) {
        let i = choose|i: int|
            0 <= i < all.len() && #[trigger] any_text_matches(all[i], exclusion_texts(path));
        if i < patterns.len() {
            assert(any_text_matches(patterns[i], tested));
        } else {
            assert(any_text_matches(more[i - patterns.len()], tested));
        }
    }
    if excluded(patterns, path) {
        let i = choose|i: int|
            0 <= i < patterns.len() && #[trigger] any_text_matches(
                patterns[i],
                exclusion_texts(path),
            );
        assert(any_text_matches(all[i], tested));
    }
    if excluded(more, path) {
        let i = choose|i: int|
            0 <= i < more.len() && #[trigger] any_text_matches(more[i], exclusion_texts(path));
        assert(any_text_matches(all[patterns.len() + i], tested));
    }
}

/// A pattern that fits the name of a file keeps it out wherever it lies, and so does one that fits
/// its path, or its path from any of its directories on.
pub proof fn names_and_paths_are_kept_out(pattern: Seq<char>, path: PathView, i: int)
    requires
        ({
            ||| file_name_text(path) is Some && glob_match(
                pattern,
                file_name_text(path)->0,
            )
            ||| all_text(path) && glob_match(pattern, path.text)
            ||| 0 <= i < candidates(path.text).len() && glob_match(
                pattern,
                candidates(path.text)[i],
            )
        }),
    ensures
        excluded(seq![pattern], path),
{
    let tested = exclusion_texts(path);
    let n = tested.len() as int;
    let from: int = if all_text(path) {
        1
    } else {
        0
    };
    if file_name_text(path) is Some && glob_match(
        pattern,
        file_name_text(path)->0,
    ) {
        assert(tested[n - 1] == file_name_text(path)->0);
    } else if all_text(path) && glob_match(pattern, path.text) {
        assert(tested[0] == path.text);
    } else {
        assert(tested[from + i] == candidates(path.text)[i]);
    }
    assert(any_text_matches(pattern, tested));
    assert(seq![pattern][0] == pattern);
}

/// The patterns that can be read are used, in their order, and no others.
pub proof fn readable_patterns_are_used(raw: Seq<Seq<char>>, pattern: Seq<char>)
    ensures
        valid_patterns(raw).contains(pattern) <==> raw.contains(pattern)
            && valid_glob(pattern),
    decreases raw.len(),
{
    if raw.len() > 0 {
        let front = raw.drop_last();
        readable_patterns_are_used(front, pattern);
        assert(raw =~= front.push(raw.last()));
        let used = valid_patterns(raw);
        if used.contains(pattern) && !valid_patterns(front).contains(pattern) {
            let i = choose|i: int| 0 <= i < used.len() && used[i] == pattern;
            if i < valid_patterns(front).len() {
                assert(valid_patterns(front)[i] == pattern);
            }
            assert(raw[raw.len() - 1] == pattern);
        }
        if valid_patterns(front).contains(pattern) {
            let i = choose|i: int|
                0 <= i < valid_patterns(front).len() && valid_patterns(front)[i] == pattern;
            assert(used[i] == pattern);
        }
        if raw.contains(pattern) && !front.contains(pattern) {
            let i = choose|i: int| 0 <= i < raw.len() && raw[i] == pattern;
            if i < front.len() {
                assert(front[i] == pattern);
            }
            if valid_glob(pattern) {
                assert(used[used.len() - 1] == pattern);
            }
        }
        if front.contains(pattern) {
            let i = choose|i: int| 0 <= i < front.len() && front[i] == pattern;
            assert(raw[i] == pattern);
        }
    }
}

/// A name with an ending that programs give to files which they are still writing counts as
/// temporary, in capital letters as well.
pub proof fn unfinished_names_are_temporary(name: Seq<char>, ending: Seq<char>)
    requires
        ({
            let end = ascii_lower(ending);
            ||| end == ".tmp"@
            ||| end == ".temp"@
            ||| end == ".part"@
            ||| end == ".bak"@
            ||| end == ".swp"@
            ||| end == ".swo"@
            ||| end == ".swx"@
            ||| end == "~"@
        }),
    ensures
        temp_like(name + ending),
{
    reveal_strlit(".tmp");
    reveal_strlit(".temp");
    reveal_strlit(".part");
    reveal_strlit(".bak");
    reveal_strlit(".swp");
    reveal_strlit(".swo");
    reveal_strlit(".swx");
    reveal_strlit("~");
    lowered_parts(name, ending);
    let lower = ascii_lower(name + ending);
    let end = ascii_lower(ending);
    assert(end.len() == ending.len());
    assert(lower.skip(lower.len() - end.len()) =~= end);
    assert(end.is_suffix_of(lower));
}

/// A name that begins as the marks of editors and office programs do counts as temporary.
pub proof fn marked_names_are_temporary(name: Seq<char>)
    ensures
        temp_like("~"@ + name),
        temp_like(".#"@ + name),
        temp_like(".~lock."@ + name),
        temp_like(".___jb_tmp___"@ + name),
        temp_like(".goutputstream-"@ + name),
        temp_like("#"@ + name + "#"@),
{
    reveal_strlit("~");
    reveal_strlit(".#");
    reveal_strlit(".~lock.");
    reveal_strlit(".___jb_tmp___");
    reveal_strlit(".goutputstream-");
    reveal_strlit("#");
    assert(("~"@ + name).take(1) =~= "~"@);
    assert((".#"@ + name).take(2) =~= ".#"@);
    assert((".~lock."@ + name).take(7) =~= ".~lock."@);
    assert((".___jb_tmp___"@ + name).take(13) =~= ".___jb_tmp___"@);
    assert((".goutputstream-"@ + name).take(15) =~= ".goutputstream-"@);
    let marked = "#"@ + name + "#"@;
    assert(marked.take(1) =~= "#"@);
    assert(marked.skip(marked.len() - 1) =~= "#"@);
    assert("~"@.is_prefix_of("~"@ + name));
    assert(".#"@.is_prefix_of(".#"@ + name));
    assert(".~lock."@.is_prefix_of(".~lock."@ + name));
    assert(".___jb_tmp___"@.is_prefix_of(".___jb_tmp___"@ + name));
    assert(".goutputstream-"@.is_prefix_of(".goutputstream-"@ + name));
    assert("#"@.is_prefix_of(marked));
    assert("#"@.is_suffix_of(marked));
}

/// A letter, a digit, a blank or an underscore.
pub open spec fn is_ordinary(c: char) -> bool {
    ||| 'a' <= c <= 'z'
    ||| 'A' <= c <= 'Z'
    ||| '0' <= c <= '9'
    ||| c == ' '
    ||| c == '_'
}

proof fn endings_stand_at_the_end(text: Seq<char>, ending: Seq<char>)
    requires
        ending.is_suffix_of(text),
        ending.len() > 0,
    ensures
        text.len() >= ending.len(),
        text[text.len() - ending.len()] == ending[0],
{
    assert(text.skip(text.len() - ending.len()) =~= ending);
    assert(text.skip(text.len() - ending.len())[0] == ending[0]);
}

proof fn beginnings_stand_at_the_beginning(text: Seq<char>, beginning: Seq<char>)
    requires
        beginning.is_prefix_of(text),
        beginning.len() > 0,
    ensures
        text.len() >= beginning.len(),
        text[0] == beginning[0],
{
    assert(text.take(beginning.len() as int) =~= beginning);
    assert(text.take(beginning.len() as int)[0] == beginning[0]);
}

/// A name of letters, digits, blanks and underscores alone is not temporary, nor is an empty one.
#[verifier::spinoff_prover]
pub proof fn ordinary_names_are_not_temporary(name: Seq<char>)
    requires
        forall|i: int| 0 <= i < name.len() ==> is_ordinary(#[trigger] name[i]),
    ensures
        !temp_like(name),
{
    reveal_strlit("~");
    reveal_strlit(".#");
    reveal_strlit(".~lock.");
    reveal_strlit("#");
    reveal_strlit(".___jb_tmp___");
    reveal_strlit(".goutputstream-");
    reveal_strlit(".ds_store");
    reveal_strlit(".trashes");
    reveal_strlit(".temporaryitems");
    reveal_strlit(".swp");
    reveal_strlit(".swo");
    reveal_strlit(".swx");
    reveal_strlit(".bak");
    reveal_strlit(".tmp");
    reveal_strlit(".temp");
    reveal_strlit(".part");
    let lower = ascii_lower(name);
    assert forall|i: int| 0 <= i < name.len() implies {
        &&& #[trigger] lower[i] != '.'
        &&& lower[i] != '~'
        &&& name[i] != '.'
        &&& name[i] != '~'
        &&& name[i] != '#'
    } by {
        assert(is_ordinary(name[i]));
    }
    if name.len() > 0 {
        assert(is_ordinary(name[0]));
        assert(lower[0] != '.');
        if "~"@.is_prefix_of(name) {
            beginnings_stand_at_the_beginning(name, "~"@);
        }
        if ".#"@.is_prefix_of(name) {
            beginnings_stand_at_the_beginning(name, ".#"@);
        }
        if ".~lock."@.is_prefix_of(name) {
            beginnings_stand_at_the_beginning(name, ".~lock."@);
        }
        if "#"@.is_prefix_of(name) {
            beginnings_stand_at_the_beginning(name, "#"@);
        }
        if ".___jb_tmp___"@.is_prefix_of(name) {
            beginnings_stand_at_the_beginning(name, ".___jb_tmp___"@);
        }
        if ".goutputstream-"@.is_prefix_of(name) {
            beginnings_stand_at_the_beginning(name, ".goutputstream-"@);
        }
        assert(lower != ".ds_store"@);
        assert(lower != ".trashes"@);
        assert(lower != ".temporaryitems"@);
        if ".swp"@.is_suffix_of(lower) {
            endings_stand_at_the_end(lower, ".swp"@);
        }
        if ".swo"@.is_suffix_of(lower) {
            endings_stand_at_the_end(lower, ".swo"@);
        }
        if ".swx"@.is_suffix_of(lower) {
            endings_stand_at_the_end(lower, ".swx"@);
        }
        if ".bak"@.is_suffix_of(lower) {
            endings_stand_at_the_end(lower, ".bak"@);
        }
        if ".tmp"@.is_suffix_of(lower) {
            endings_stand_at_the_end(lower, ".tmp"@);
        }
        if ".temp"@.is_suffix_of(lower) {
            endings_stand_at_the_end(lower, ".temp"@);
        }
        if ".part"@.is_suffix_of(lower) {
            endings_stand_at_the_end(lower, ".part"@);
        }
        if "~"@.is_suffix_of(lower) {
            endings_stand_at_the_end(lower, "~"@);
        }
    }
}

/// The files that a database writes beside itself belong to it: they are held back as it is.
pub proof fn side_files_belong_to_their_database(name: Seq<char>)
    requires
        database_name(ascii_lower(name)),
    ensures
        database_file(name),
        database_file(name + "-wal"@),
        database_file(name + "-shm"@),
        database_file(name + "-journal"@),
{
    reveal_strlit("-wal");
    reveal_strlit("-shm");
    reveal_strlit("-journal");
    let lower = ascii_lower(name);
    lowered_parts(name, "-wal"@);
    lowered_parts(name, "-shm"@);
    lowered_parts(name, "-journal"@);
    assert(ascii_lower("-wal"@) =~= "-wal"@);
    assert(ascii_lower("-shm"@) =~= "-shm"@);
    assert(ascii_lower("-journal"@) =~= "-journal"@);
    let wal = lower + "-wal"@;
    let shm = lower + "-shm"@;
    let journal = lower + "-journal"@;
    assert(wal.skip(lower.len() as int) =~= "-wal"@);
    assert(shm.skip(lower.len() as int) =~= "-shm"@);
    assert(journal.skip(lower.len() as int) =~= "-journal"@);
    assert(wal.take(lower.len() as int) =~= lower);
    assert(shm.take(lower.len() as int) =~= lower);
    assert(journal.take(lower.len() as int) =~= lower);
    assert("-wal"@.is_suffix_of(wal));
    assert("-shm"@.is_suffix_of(shm));
    assert("-journal"@.is_suffix_of(journal));
    assert(side_file(wal, "-wal"@));
    assert(side_file(shm, "-shm"@));
    assert(side_file(journal, "-journal"@));
}

/// Whatever lies in a package, at any depth, is held back with it; and only what lies in one is, as
/// far as packages go.
pub proof fn packages_hold_what_is_in_them(path: PathView, directory: PathView)
    requires
        path.names.len() > 0,
        parent(path) == Some(directory),
    ensures
        package_above(path) is Some <==> (file_name_text(directory) is Some && package_name(
            file_name_text(directory)->0,
        )) || package_above(directory) is Some,
        directory.names.len() == 0 && file_name_text(directory) is None ==> package_above(path)
            is None,
{
}

/// A file below the mount is held back exactly if it lies in a package or belongs to a database.
pub proof fn packages_and_databases_are_held_back(mount_root: PathView, path: PathView)
    ensures
        transactional_reason(mount_root, path) is Some <==> {
            &&& strip_prefix(path, mount_root) is Some
            &&& {
                ||| package_above(strip_prefix(path, mount_root)->0) is Some
                ||| file_name_text(path) is Some && database_file(file_name_text(path)->0)
            }
        },
{
}

/// A file is held back for its links exactly if it has more than one name; directories are not.
pub proof fn linked_files_are_held_back(shown: Seq<char>, is_file: bool, links: u64)
    ensures
        hard_link_reason(shown, is_file, links) is Some <==> is_file && links >= 2,
{
}

/// The ending of encrypted files is taken off a name however often it stands there, and nothing
/// else is.
pub proof fn endings_come_off(name: Seq<char>)
    ensures
        without_encrypted(name + ".encrypted"@) == without_encrypted(name),
        !".encrypted"@.is_suffix_of(without_encrypted(name)),
        !".encrypted"@.is_suffix_of(name) ==> without_encrypted(name) == name,
        without_encrypted(name).is_prefix_of(name),
    decreases name.len(),
{
    reveal_strlit(".encrypted");
    let longer = name + ".encrypted"@;
    assert(longer.skip(name.len() as int) =~= ".encrypted"@);
    assert(longer.take(longer.len() - ".encrypted"@.len()) =~= name);
    assert(".encrypted"@.is_suffix_of(longer));
    if ".encrypted"@.is_suffix_of(name) {
        endings_come_off(name.take(name.len() - ".encrypted"@.len()));
    }
}

/// On the encrypted side a file counts exactly if it has the ending of encrypted files: as the
/// metadata of its directory if it has the name of that, and as a file otherwise. Every directory
/// is gone through but the one for unfinished files.
pub proof fn encrypted_files_are_recognised(path: PathView)
    ensures
        encrypted_entry_of(false, path) == EncryptedEntry::Ignore <==> extension(path)
            != Some("encrypted"@),
        encrypted_entry_of(false, path) != EncryptedEntry::Descend,
        encrypted_entry_of(false, path) != EncryptedEntry::CleanUp,
        encrypted_entry_of(true, path) == EncryptedEntry::Descend || encrypted_entry_of(true, path)
            == EncryptedEntry::CleanUp,
        file_name_text(path) != Some(".hybridcipher-tmp"@) ==> encrypted_entry_of(true, path)
            == EncryptedEntry::Descend,
        file_name_text(path) == Some(".hybridcipher-tmp"@) ==> encrypted_entry_of(true, path)
            == EncryptedEntry::CleanUp,
        extension(path) == Some("encrypted"@) && file_name_text(path) != Some(
            ".hybridcipher_dir.encrypted"@,
        ) ==> encrypted_entry_of(false, path) == EncryptedEntry::File && state_of(
            EntryKind::File,
            path,
        ) == StateEntry::Encrypted,
        state_of(EntryKind::Symlink, path) == StateEntry::Skip,
        file_name_text(path) == Some(".hybridcipher-tmp"@) ==> state_of(EntryKind::Directory, path)
            == StateEntry::Skip,
{
}

/// A setting that is given in its range is taken over, one that is missing or out of it is not, and
/// no other is touched; given twice, it is the same as given once.
pub proof fn given_settings_are_taken_over(before: MountSyncConfig, given: MountSettings)
    ensures
        ({
            let after = with_settings(before, given);
            &&& given.min_consecutive_missing_scans matches Some(v) ==> 0 < v <= u32::MAX ==> after.deletion.min_consecutive_missing_scans == v
            &&& !(given.min_consecutive_missing_scans matches Some(v) && v > 0)
                ==> after.deletion.min_consecutive_missing_scans
                == before.deletion.min_consecutive_missing_scans
            &&& given.retention_days matches Some(v) ==> 0 < v <= u32::MAX ==> after.deletion.retention_days == v
            &&& !(given.retention_days matches Some(v) && v > 0) ==> after.deletion.retention_days
                == before.deletion.retention_days
            &&& given.rapid_scan_total_duration_ms matches Some(v) ==> 0 < v ==> after.deletion.rapid_scan_total_duration_ms == v
            &&& !(given.rapid_scan_total_duration_ms matches Some(v) && v > 0)
                ==> after.deletion.rapid_scan_total_duration_ms
                == before.deletion.rapid_scan_total_duration_ms
            &&& given.sparse_skip_size_bytes matches Some(v) ==> 0 <= v ==> after.sparse_skip_size_bytes == v
            &&& !(given.sparse_skip_size_bytes matches Some(v) && v >= 0)
                ==> after.sparse_skip_size_bytes == before.sparse_skip_size_bytes
            &&& given.stream_threshold_bytes matches Some(v) ==> 0 <= v ==> after.stream_threshold_bytes == v
            &&& !(given.stream_threshold_bytes matches Some(v) && v >= 0)
                ==> after.stream_threshold_bytes == before.stream_threshold_bytes
            &&& given.stream_chunk_size_bytes matches Some(v) ==> 0 < v ==> after.stream_chunk_size_bytes == v
            &&& !(given.stream_chunk_size_bytes matches Some(v) && v > 0)
                ==> after.stream_chunk_size_bytes == before.stream_chunk_size_bytes
            &&& given.stream_stability_age_secs matches Some(v) ==> 0 <= v ==> after.stream_stability_age_secs == v
            &&& !(given.stream_stability_age_secs matches Some(v) && v >= 0)
                ==> after.stream_stability_age_secs == before.stream_stability_age_secs
            &&& given.startup_local_delete_max_actions matches Some(v) ==> 0 < v <= usize::MAX ==> after.startup_local_delete_max_actions == v
            &&& !(given.startup_local_delete_max_actions matches Some(v) && v > 0)
                ==> after.startup_local_delete_max_actions
                == before.startup_local_delete_max_actions
            &&& after.deletion.retention_folder == before.deletion.retention_folder
            &&& with_settings(after, given) == after
        }),
{
}

/// Of several documents the later ones override the earlier ones, one without a section for mounts
/// changes nothing, and documents that are read one after the other are as good as all at once.
pub proof fn later_documents_win(
    before: MountSyncConfig,
    documents: Seq<Seq<char>>,
    more: Seq<Seq<char>>,
    last: Seq<char>,
)
    ensures
        configured(before, documents + more) == configured(configured(before, documents), more),
        !toml_section(last, "mount"@) ==> configured(before, documents.push(last))
            == configured(before, documents),
        toml_section(last, "mount"@) ==> configured(before, documents.push(last))
            == with_settings(configured(before, documents), settings_in(last)),
    decreases more.len(),
{
    assert(documents.push(last).drop_last() =~= documents);
    if more.len() == 0 {
        assert(documents + more =~= documents);
    } else {
        later_documents_win(before, documents, more.drop_last(), last);
        assert((documents + more).drop_last() =~= documents + more.drop_last());
    }
}

} // verus!
