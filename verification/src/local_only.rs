//! Files that stay on this side of the mount: copies kept after a conflict or
//! after an unclean restart, recognised by a marker and a time in their names.

use vstd::prelude::*;
use vstd::string::*;

use crate::path::{
    file_name, file_name_text, join_one_name, one_name, parent, parse_one_name, same_path, shown,
    sibling, split_without_separator, NameView, PathKey, PathSet, PathView, SyncPath,
};
use crate::text::{
    chars_of, concat3, decimal, decimal_text, digit_char, find_last, first_piece, last_match,
    last_match_is_unique, match_at, slice_chars, split, text_of,
};

verus! {

/// How the time is written in a name.
pub const STAMP_FORMAT: &'static str = "%Y%m%d_%H%M%S";

/// The first second after the years that are written with four digits.
pub const STAMP_END_SECS: i64 = 253402300800;

/// The first second that `chrono` can tell: that with which the year -262143 begins.
pub const FIRST_SECS: i64 = -8334601228800;

/// The last second that `chrono` can tell: that with which the year 262142 ends.
pub const LAST_SECS: i64 = 8210266876799;

/// The time, in whole seconds since 1970, as `chrono` writes it.
pub uninterp spec fn utc_stamp(secs: i64) -> Seq<char>;

/// The time that `chrono` reads from a text, in whole seconds since 1970.
pub uninterp spec fn read_stamp(text: Seq<char>) -> Option<i64>;

/// A decimal digit.
pub open spec fn is_digit(c: char) -> bool {
    '0' <= c <= '9'
}

/// The text begins with eight digits, an underscore and six digits.
pub open spec fn begins_with_stamp(text: Seq<char>) -> bool {
    text.len() >= 15 && forall|i: int|
        0 <= i < 15 ==> if i == 8 {
            #[trigger] text[i] == '_'
        } else {
            is_digit(text[i])
        }
}

/// `chrono::DateTime::format` with year, month, day, an underscore, hour, minute and second: the
/// years from 1970 to 9999 have four digits and the other parts two each.
#[verifier::external_body]
fn format_utc(secs: i64, pattern: &str) -> (res: String)
    requires
        FIRST_SECS <= secs <= LAST_SECS,
        pattern@ == STAMP_FORMAT@,
    ensures
        res@ == utc_stamp(secs),
        0 <= secs < STAMP_END_SECS ==> res@.len() == 15 && begins_with_stamp(res@),
{
    chrono::DateTime::from_timestamp(secs, 0).unwrap_or_default().format(pattern).to_string()
}

/// `chrono::NaiveDateTime::parse_from_str` with the same pattern, taken as UTC: it gives back
/// the time that was written.
#[verifier::external_body]
pub(crate) fn parse_utc(text: &str, pattern: &str) -> (res: Option<i64>)
    requires
        pattern@ == STAMP_FORMAT@,
    ensures
        res == read_stamp(text@),
        forall|secs: i64|
            0 <= secs < STAMP_END_SECS && text@ == #[trigger] utc_stamp(secs) ==> res == Some(secs),
{
    chrono::NaiveDateTime::parse_from_str(text, pattern).ok().map(|time| time.and_utc().timestamp())
}

/// The time as it stands in a name.
pub fn stamp_text(secs: i64) -> (res: String)
    requires
        FIRST_SECS <= secs <= LAST_SECS,
    ensures
        res@ == utc_stamp(secs),
        0 <= secs < STAMP_END_SECS ==> res@.len() == 15 && begins_with_stamp(res@),
{
    format_utc(secs, STAMP_FORMAT)
}

/// The marker as it stands in a name.
pub open spec fn mark(marker: Seq<char>) -> Seq<char> {
    "."@ + marker + "-"@
}

/// The name of the copy number `index` of a file at the given time.
pub open spec fn copy_name(
    name: Seq<char>,
    marker: Seq<char>,
    stamp: Seq<char>,
    index: int,
) -> Seq<char> {
    let base = name + mark(marker) + stamp;
    if index == 0 {
        base
    } else {
        base + "-"@ + decimal(index as nat)
    }
}

/// The name of a path as it is shown, or another name where it has none.
pub open spec fn name_or(path: PathView, fallback: Seq<char>) -> Seq<char> {
    match file_name(path) {
        Some(name) => shown(name),
        None => fallback,
    }
}

/// The path of the copy number `index`.
pub open spec fn copy_path(
    path: PathView,
    marker: Seq<char>,
    fallback: Seq<char>,
    stamp: Seq<char>,
    index: int,
) -> PathView {
    sibling(path, copy_name(name_or(path, fallback), marker, stamp, index))
}

/// The number of the first copy from `from` on whose path is free, and 999 where none is.
pub open spec fn first_free(
    path: PathView,
    marker: Seq<char>,
    fallback: Seq<char>,
    stamp: Seq<char>,
    taken: Set<PathKey>,
    from: int,
) -> int
    decreases 999 - from,
{
    if from >= 999 || !taken.contains(copy_path(path, marker, fallback, stamp, from).key()) {
        from
    } else {
        first_free(path, marker, fallback, stamp, taken, from + 1)
    }
}

/// Where fewer than all numbers are taken, the chosen one is free.
pub proof fn free_copy_is_free(
    path: PathView,
    marker: Seq<char>,
    fallback: Seq<char>,
    stamp: Seq<char>,
    taken: Set<PathKey>,
    from: int,
)
    requires
        first_free(path, marker, fallback, stamp, taken, from) < 999,
    ensures
        !taken.contains(
            copy_path(
                path,
                marker,
                fallback,
                stamp,
                first_free(path, marker, fallback, stamp, taken, from),
            ).key(),
        ),
    decreases 999 - from,
{
    if !(from >= 999 || !taken.contains(copy_path(path, marker, fallback, stamp, from).key())) {
        free_copy_is_free(path, marker, fallback, stamp, taken, from + 1);
    }
}

/// The path of the copy of a file.
pub open spec fn local_copy_path(
    path: PathView,
    marker: Seq<char>,
    fallback: Seq<char>,
    stamp: Seq<char>,
    taken: Set<PathKey>,
) -> PathView {
    copy_path(
        path,
        marker,
        fallback,
        stamp,
        first_free(path, marker, fallback, stamp, taken, 0),
    )
}

/// The path of the copy number `index`.
fn candidate(path: &SyncPath, name: &str, marker: &str, stamp: &str, index: u64) -> (res: SyncPath)
    ensures
        res@ == sibling(path@, copy_name(name@, marker@, stamp@, index as int)),
{
    let mark = concat3(".", marker, "-");
    let mut text = concat3(name, mark.as_str(), stamp);
    if index > 0 {
        let digits = decimal_text(index);
        text.append("-");
        text.append(digits.as_str());
    }
    path.sibling(text.as_str())
}

/// The path of the copy of a file: named by its marker and the time, with a number where
/// other files have that path already.
pub fn timestamped_local_only_path(
    path: &SyncPath,
    marker: &str,
    fallback_name: &str,
    stamp: &str,
    taken: &PathSet,
) -> (res: SyncPath)
    requires
        taken.wf(),
    ensures
        res@ == local_copy_path(path@, marker@, fallback_name@, stamp@, taken@.keys()),
{
    let name = match path.file_name() {
        Some(name) => name.lossy(),
        None => fallback_name.to_owned(),
    };
    let mut index: u64 = 0;
    let ghost goal = first_free(path@, marker@, fallback_name@, stamp@, taken@.keys(), 0);
    while index < 999
        invariant
            index <= 999,
            taken.wf(),
            name@ == name_or(path@, fallback_name@),
            goal == first_free(
                path@,
                marker@,
                fallback_name@,
                stamp@,
                taken@.keys(),
                index as int,
            ),
            goal == first_free(path@, marker@, fallback_name@, stamp@, taken@.keys(), 0),
        decreases 999 - index,
    {
        let path_here = candidate(path, name.as_str(), marker, stamp, index);
        if !taken.contains_key(&path_here) {
            return path_here;
        }
        index += 1;
    }
    candidate(path, name.as_str(), marker, stamp, index)
}

/// The part of a name after its last marker.
pub open spec fn after_mark(name: Seq<char>, marker: Seq<char>) -> Option<Seq<char>> {
    match last_match(name, mark(marker)) {
        Some(at) => Some(name.skip(at + mark(marker).len())),
        None => None,
    }
}

/// The path is that of a copy with the given marker.
pub open spec fn has_marker(path: PathView, marker: Seq<char>) -> bool {
    match file_name_text(path) {
        Some(name) => match after_mark(name, marker) {
            Some(rest) => begins_with_stamp(rest),
            None => false,
        },
        None => false,
    }
}

/// The part of a path's name after its last marker.
pub fn timestamped_local_only_suffix(path: &SyncPath, marker: &str) -> (res: Option<String>)
    ensures
        match res {
            Some(rest) => file_name_text(path@) is Some && after_mark(
                file_name_text(path@)->0,
                marker@,
            ) == Some(rest@),
            None => file_name_text(path@) is None || after_mark(
                file_name_text(path@)->0,
                marker@,
            ) is None,
        },
{
    let name = match path.file_name_text() {
        Some(name) => name,
        None => {
            return None;
        },
    };
    let mark = concat3(".", marker, "-");
    let chars = chars_of(name.as_str());
    let wanted = chars_of(mark.as_str());
    let n: usize = chars.len();
    match find_last(&chars, &wanted) {
        Some(at) => {
            let rest = slice_chars(&chars, at + wanted.len(), n);
            assert(rest@ =~= chars@.skip(at + wanted@.len()));
            Some(text_of(&rest))
        },
        None => None,
    }
}

/// Whether a path is that of a copy with the given marker.
pub fn has_timestamped_local_only_marker(path: &SyncPath, marker: &str) -> (res: bool)
    ensures
        res == has_marker(path@, marker@),
{
    let suffix = match timestamped_local_only_suffix(path, marker) {
        Some(suffix) => suffix,
        None => {
            return false;
        },
    };
    let chars = chars_of(suffix.as_str());
    if chars.len() < 15 {
        return false;
    }
    let mut i: usize = 0;
    while i < 15
        invariant
            i <= 15 <= chars.len(),
            has_marker(path@, marker@) == begins_with_stamp(chars@),
            forall|k: int|
                0 <= k < i ==> if k == 8 {
                    #[trigger] chars@[k] == '_'
                } else {
                    is_digit(chars@[k])
                },
        decreases 15 - i,
    {
        let c = chars[i];
        if i == 8 {
            if c != '_' {
                return false;
            }
        } else if !('0' <= c && c <= '9') {
            return false;
        }
        i += 1;
    }
    true
}

/// The time in the name of a copy, in whole seconds since 1970.
pub open spec fn marked_time(path: PathView, marker: Seq<char>) -> Option<i64> {
    match file_name_text(path) {
        Some(name) => match after_mark(name, marker) {
            Some(rest) => read_stamp(split(rest, '-')[0]),
            None => None,
        },
        None => None,
    }
}

/// The time in the name of a copy, in whole seconds since 1970. For a copy that was named at a
/// time, that time is read back.
pub fn parse_local_only_timestamp(path: &SyncPath, marker: &str) -> (res: Option<i64>)
    ensures
        res == marked_time(path@, marker@),
        forall|live: PathView, fallback: Seq<char>, secs: i64, taken: Set<PathKey>|
            {
                &&& same_path(
                    path@,
                    #[trigger] local_copy_path(live, marker@, fallback, utc_stamp(secs), taken),
                )
                &&& one_name(name_or(live, fallback))
                &&& !marker@.contains('/')
                &&& !marker@.contains('.')
                &&& 0 <= secs < STAMP_END_SECS
                &&& begins_with_stamp(utc_stamp(secs))
                &&& utc_stamp(secs).len() == 15
            } ==> res == Some(secs),
{
    proof {
        assert forall|live: PathView, fallback: Seq<char>, secs: i64, taken: Set<PathKey>|
            {
                &&& same_path(
                    path@,
                    #[trigger] local_copy_path(live, marker@, fallback, utc_stamp(secs), taken),
                )
                &&& one_name(name_or(live, fallback))
                &&& !marker@.contains('/')
                &&& !marker@.contains('.')
                &&& 0 <= secs < STAMP_END_SECS
                &&& begins_with_stamp(utc_stamp(secs))
                &&& utc_stamp(secs).len() == 15
            } implies {
            &&& file_name_text(path@) is Some
            &&& after_mark(file_name_text(path@)->0, marker@) is Some
            &&& split(after_mark(file_name_text(path@)->0, marker@)->0, '-')[0] == utc_stamp(secs)
        } by {
            copy_holds_stamp(live, marker@, fallback, utc_stamp(secs), taken);
        }
    }
    match timestamped_local_only_suffix(path, marker) {
        Some(suffix) => {
            let stamp = first_piece(suffix.as_str(), '-');
            parse_utc(stamp.as_str(), STAMP_FORMAT)
        },
        None => None,
    }
}

/// The path of a conflict copy.
pub fn conflict_path_for(path: &SyncPath, stamp: &str, taken: &PathSet) -> (res: SyncPath)
    requires
        taken.wf(),
    ensures
        res@ == local_copy_path(path@, "conflict"@, "conflict"@, stamp@, taken@.keys()),
{
    timestamped_local_only_path(path, "conflict", "conflict", stamp, taken)
}

/// Whether a path is that of a conflict copy.
pub fn is_conflict_file(path: &SyncPath) -> (res: bool)
    ensures
        res == has_marker(path@, "conflict"@),
{
    has_timestamped_local_only_marker(path, "conflict")
}

/// The path of a copy recovered after an unclean restart.
pub fn recovered_pending_path_for(path: &SyncPath, stamp: &str, taken: &PathSet) -> (res: SyncPath)
    requires
        taken.wf(),
    ensures
        res@ == local_copy_path(
            path@,
            "recovered-pending"@,
            "recovered-pending"@,
            stamp@,
            taken@.keys(),
        ),
{
    timestamped_local_only_path(path, "recovered-pending", "recovered-pending", stamp, taken)
}

/// Whether a path is that of a copy recovered after an unclean restart.
pub fn is_recovered_pending_file(path: &SyncPath) -> (res: bool)
    ensures
        res == has_marker(path@, "recovered-pending"@),
{
    has_timestamped_local_only_marker(path, "recovered-pending")
}

/// The name of the file that a copy was made of.
pub open spec fn before_mark(name: Seq<char>, marker: Seq<char>) -> Seq<char> {
    match last_match(name, mark(marker)) {
        Some(at) => name.take(at),
        None => name,
    }
}

/// The path of the file that a copy was made of.
pub open spec fn live_path(path: PathView, marker: Seq<char>, fallback: Seq<char>) -> PathView {
    let name = match file_name_text(path) {
        Some(name) => name,
        None => fallback,
    };
    sibling(path, before_mark(name, marker))
}

fn derive_live_path(path: &SyncPath, marker: &str, fallback: &str) -> (res: SyncPath)
    ensures
        res@ == live_path(path@, marker@, fallback@),
{
    let name = match path.file_name_text() {
        Some(name) => name,
        None => fallback.to_owned(),
    };
    let mark = concat3(".", marker, "-");
    let chars = chars_of(name.as_str());
    let wanted = chars_of(mark.as_str());
    match find_last(&chars, &wanted) {
        Some(at) => {
            let base = slice_chars(&chars, 0, at);
            assert(base@ =~= chars@.take(at as int));
            let text = text_of(&base);
            path.sibling(text.as_str())
        },
        None => path.sibling(name.as_str()),
    }
}

/// The path of the file that a conflict copy was made of.
pub fn derive_live_path_from_conflict_path(path: &SyncPath) -> (res: SyncPath)
    ensures
        res@ == live_path(path@, "conflict"@, "conflict"@),
{
    derive_live_path(path, "conflict", "conflict")
}

/// The path of the file that a recovered copy was made of.
pub fn derive_live_path_from_recovered_pending_path(path: &SyncPath) -> (res: SyncPath)
    ensures
        res@ == live_path(path@, "recovered-pending"@, "recovered"@),
{
    derive_live_path(path, "recovered-pending", "recovered")
}

proof fn decimal_is_digits(n: nat)
    ensures
        forall|i: int| 0 <= i < decimal(n).len() ==> is_digit(#[trigger] decimal(n)[i]),
    decreases n,
{
    assert forall|d: int| 0 <= d < 10 implies is_digit(#[trigger] digit_char(d)) by {}
    if n >= 10 {
        let front = decimal(n / 10);
        decimal_is_digits(n / 10);
        let last = digit_char((n % 10) as int);
        assert(is_digit(last));
        assert forall|i: int| 0 <= i < decimal(n).len() implies is_digit(
            #[trigger] decimal(n)[i],
        ) by {
            if i < front.len() {
                assert(decimal(n)[i] == front[i]);
            } else {
                assert(decimal(n)[i] == last);
            }
        }
    } else {
        assert(is_digit(digit_char(n as int)));
    }
}

/// In the name of a copy the last marker is the one that was added, whatever the file is called.
proof fn added_mark_is_last(name: Seq<char>, marker: Seq<char>, stamp: Seq<char>, index: int)
    requires
        !marker.contains('.'),
        begins_with_stamp(stamp),
        stamp.len() == 15,
        index >= 0,
    ensures
        last_match(copy_name(name, marker, stamp, index), mark(marker)) == Some(name.len() as int),
{
    reveal_strlit(".");
    reveal_strlit("-");
    let whole = copy_name(name, marker, stamp, index);
    let m = mark(marker);
    let at = name.len() as int;
    assert(whole.subrange(at, at + m.len()) =~= m);
    decimal_is_digits(index as nat);
    assert forall|j: int| at < j implies !match_at(whole, m, j) by {
        if match_at(whole, m, j) {
            assert(whole.subrange(j, j + m.len())[0] == whole[j]);
            assert(m[0] == '.');
            let k = j - at;
            if k < m.len() {
                assert(whole[j] == m[k]);
                if k < m.len() - 1 {
                    assert(m[k] == marker[k - 1]);
                    assert(marker.contains(marker[k - 1]));
                }
            } else if k < m.len() + 15 {
                assert(whole[j] == stamp[k - m.len()]);
            } else if k == m.len() + 15 {
                assert(whole[j] == '-');
            } else {
                let d = k - m.len() - 16;
                assert(whole[j] == decimal(index as nat)[d]);
            }
        }
    }
    last_match_is_unique(whole, m, at);
}

/// The path of a copy ends in the name that the copy was given.
proof fn copy_path_name(
    path: PathView,
    marker: Seq<char>,
    fallback: Seq<char>,
    stamp: Seq<char>,
    index: int,
)
    requires
        one_name(name_or(path, fallback)),
        !marker.contains('/'),
        begins_with_stamp(stamp),
        stamp.len() == 15,
        index >= 0,
    ensures
        ({
            let name = copy_name(name_or(path, fallback), marker, stamp, index);
            let copy = copy_path(path, marker, fallback, stamp, index);
            let above = if path.names.len() > 0 {
                path.names.drop_last()
            } else {
                path.names
            };
            &&& one_name(name)
            &&& name.len() > 2
            &&& copy.names == above.push(NameView::Text(name))
            &&& file_name_text(copy) == Some(name)
        }),
{
    reveal_strlit(".");
    reveal_strlit("..");
    reveal_strlit("-");
    let base = name_or(path, fallback);
    let name = copy_name(base, marker, stamp, index);
    decimal_is_digits(index as nat);
    assert forall|i: int| 0 <= i < name.len() implies name[i] != '/' by {
        let m = mark(marker);
        if i < base.len() {
            assert(base.contains(base[i]));
        } else if i < base.len() + m.len() {
            let k = i - base.len();
            assert(name[i] == m[k]);
            if 0 < k < m.len() - 1 {
                assert(m[k] == marker[k - 1]);
                assert(marker.contains(marker[k - 1]));
            }
        } else if i < base.len() + m.len() + 15 {
            assert(name[i] == stamp[i - base.len() - m.len()]);
        } else if i == base.len() + m.len() + 15 {
            assert(name[i] == '-');
        } else {
            assert(name[i] == decimal(index as nat)[i - base.len() - m.len() - 16]);
        }
    }
    parse_one_name(name);
    match parent(path) {
        Some(dir) => {
            join_one_name(dir, name);
        },
        None => {
            assert(path.names.push(NameView::Text(name)) =~= seq![NameView::Text(name)]);
        },
    }
}

proof fn first_free_in_range(
    path: PathView,
    marker: Seq<char>,
    fallback: Seq<char>,
    stamp: Seq<char>,
    taken: Set<PathKey>,
    from: int,
)
    requires
        0 <= from <= 999,
    ensures
        from <= first_free(path, marker, fallback, stamp, taken, from) <= 999,
    decreases 999 - from,
{
    if from < 999 && taken.contains(copy_path(path, marker, fallback, stamp, from).key()) {
        first_free_in_range(path, marker, fallback, stamp, taken, from + 1);
    }
}

/// The copy of a file is recognised as one by its name.
pub proof fn copy_is_recognised(
    path: PathView,
    marker: Seq<char>,
    fallback: Seq<char>,
    stamp: Seq<char>,
    taken: Set<PathKey>,
)
    requires
        one_name(name_or(path, fallback)),
        !marker.contains('/'),
        !marker.contains('.'),
        begins_with_stamp(stamp),
        stamp.len() == 15,
    ensures
        has_marker(local_copy_path(path, marker, fallback, stamp, taken), marker),
{
    first_free_in_range(path, marker, fallback, stamp, taken, 0);
    let index = first_free(path, marker, fallback, stamp, taken, 0);
    let base = name_or(path, fallback);
    let name = copy_name(base, marker, stamp, index);
    copy_path_name(path, marker, fallback, stamp, index);
    added_mark_is_last(base, marker, stamp, index);
    let rest = name.skip((base.len() + mark(marker).len()) as int);
    assert(rest.len() >= 15);
    assert forall|i: int| 0 <= i < 15 implies if i == 8 {
        #[trigger] rest[i] == '_'
    } else {
        is_digit(rest[i])
    } by {
        assert(rest[i] == stamp[i]);
    }
}

/// From the copy of a file the path of the file is found again.
pub proof fn copy_leads_back(
    path: PathView,
    marker: Seq<char>,
    fallback: Seq<char>,
    live_fallback: Seq<char>,
    stamp: Seq<char>,
    taken: Set<PathKey>,
)
    requires
        file_name_text(path) is Some,
        one_name(file_name_text(path)->0),
        !marker.contains('/'),
        !marker.contains('.'),
        begins_with_stamp(stamp),
        stamp.len() == 15,
    ensures
        same_path(
            live_path(
                local_copy_path(path, marker, fallback, stamp, taken),
                marker,
                live_fallback,
            ),
            path,
        ),
{
    first_free_in_range(path, marker, fallback, stamp, taken, 0);
    let index = first_free(path, marker, fallback, stamp, taken, 0);
    let base = file_name_text(path)->0;
    let name = copy_name(base, marker, stamp, index);
    copy_path_name(path, marker, fallback, stamp, index);
    added_mark_is_last(base, marker, stamp, index);
    let copy = local_copy_path(path, marker, fallback, stamp, taken);
    assert(copy.absolute == path.absolute) by {
        parse_one_name(name);
    }
    assert(name.take(base.len() as int) =~= base);
    assert(copy.names.drop_last() =~= path.names.drop_last());
    join_one_name(parent(copy)->0, base);
    assert(path.names.drop_last().push(NameView::Text(base)) =~= path.names);
}

/// The first piece of a text is what stands before the first separator.
proof fn first_piece_ends_at_separator(head: Seq<char>, sep: char, tail: Seq<char>)
    requires
        !head.contains(sep),
    ensures
        split(head.push(sep) + tail, sep)[0] == head,
        split(head.push(sep) + tail, sep).len() >= 2,
    decreases tail.len(),
{
    let whole = head.push(sep) + tail;
    if tail.len() == 0 {
        assert(whole =~= head.push(sep));
        assert(whole.drop_last() =~= head);
        split_without_separator(head, sep);
    } else {
        first_piece_ends_at_separator(head, sep, tail.drop_last());
        assert(whole.drop_last() =~= head.push(sep) + tail.drop_last());
    }
}

/// What stands before the first hyphen after the marker of a copy is the time.
proof fn copy_holds_stamp(
    path: PathView,
    marker: Seq<char>,
    fallback: Seq<char>,
    stamp: Seq<char>,
    taken: Set<PathKey>,
)
    requires
        one_name(name_or(path, fallback)),
        !marker.contains('/'),
        !marker.contains('.'),
        begins_with_stamp(stamp),
        stamp.len() == 15,
    ensures
        ({
            let copy = local_copy_path(path, marker, fallback, stamp, taken);
            &&& file_name_text(copy) is Some
            &&& after_mark(file_name_text(copy)->0, marker) is Some
            &&& split(after_mark(file_name_text(copy)->0, marker)->0, '-')[0] == stamp
        }),
{
    first_free_in_range(path, marker, fallback, stamp, taken, 0);
    let index = first_free(path, marker, fallback, stamp, taken, 0);
    let base = name_or(path, fallback);
    let name = copy_name(base, marker, stamp, index);
    copy_path_name(path, marker, fallback, stamp, index);
    added_mark_is_last(base, marker, stamp, index);
    let rest = name.skip((base.len() + mark(marker).len()) as int);
    assert(!stamp.contains('-')) by {
        if stamp.contains('-') {
            let i = choose|i: int| 0 <= i < stamp.len() && stamp[i] == '-';
            assert(if i == 8 {
                stamp[i] == '_'
            } else {
                is_digit(stamp[i])
            });
        }
    }
    reveal_strlit("-");
    if index == 0 {
        assert(rest =~= stamp);
        split_without_separator(stamp, '-');
    } else {
        assert(rest =~= stamp.push('-') + decimal(index as nat));
        first_piece_ends_at_separator(stamp, '-', decimal(index as nat));
    }
}

} // verus!
