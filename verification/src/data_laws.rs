//! What is read from files: headers, the data of files with holes, and numbers in names.

use vstd::prelude::*;
use vstd::utf8::*;

use crate::header::{
    brief_fault, first_separator, header_fault, json_fault, json_number_at, json_text_at, line_end,
    line_end_moves, line_starts, parsed_as, separator_at, size_after, stores_path,
    ParsedEncryptedFile,
};
use crate::preview::{preview_text, units, utf16_text};
use crate::runner::{
    digits_value, is_digit, mount_identity, number_in, recovery_expired, unsigned_part,
};
use crate::sparse::{
    covered, found_parts, lies_in, next_seek, zero_outside, SeekOutcome, SeekStep, SparseExtent,
};
use crate::text::{decimal, split};

verus! {

/// The header ends at the first line that is the separator: no line before it is, and where no line
/// is, no header is found.
pub proof fn headers_end_at_the_first_separator(data: Seq<u8>, from: int)
    requires
        line_starts(data, from) || from == data.len(),
    ensures
        match first_separator(data, from) {
            Some(at) => {
                &&& from <= at < data.len()
                &&& separator_at(data, at)
                &&& forall|k: int| from <= k < at ==> !(#[trigger] separator_at(data, k))
            },
            None => forall|k: int| from <= k < data.len() ==> !(#[trigger] separator_at(data, k)),
        },
    decreases data.len() - from,
{
    if from < data.len() && !separator_at(data, from) {
        line_end_moves(data, from);
        let next = line_end(data, from);
        headers_end_at_the_first_separator(data, next);
        assert forall|k: int| from < k < next implies !(#[trigger] separator_at(data, k)) by {
            assert(data[k - 1] != 10);
        }
    }
}

/// A file of which the header is found can be read exactly if that is a JSON document with an
/// identifier, an epoch and, where the whole file is wanted, a path that is not blank.
pub proof fn headers_need_an_identifier_and_an_epoch(contents: Seq<u8>)
    ensures
        brief_fault(contents) is None <==> {
            let at = first_separator(contents, 0);
            let header = contents.take(at->0);
            &&& at is Some
            &&& json_fault(header) is None
            &&& json_text_at(header, "file_id"@) is Some
            &&& json_number_at(header, "epoch_id"@) is Some
        },
        header_fault(contents) is None <==> brief_fault(contents) is None && stores_path(
            contents.take(first_separator(contents, 0)->0),
        ),
{
}

/// What is read of an encrypted file is what its header says; its content is kept with it unless it
/// is in pieces, and then its size is what is left of the file after the header.
pub proof fn files_are_read_as_they_say(
    contents: Seq<u8>,
    file_len: u64,
    chunked_version: u32,
    parsed: ParsedEncryptedFile,
)
    requires
        header_fault(contents) is None,
        parsed_as(contents, file_len, chunked_version, parsed),
        contents.len() == file_len,
    ensures
        ({
            let at = first_separator(contents, 0)->0;
            let header = contents.take(at);
            let offset = line_end(contents, at);
            let m = parsed.metadata;
            let pieces = m.content_chunk_size is Some || m.header_version->0 >= chunked_version;
            &&& json_text_at(header, "file_id"@) == Some(m.file_id@)
            &&& json_text_at(header, "file_path"@) == Some(m.file_path@)
            &&& json_number_at(header, "epoch_id"@) == Some(m.epoch_id)
            &&& json_number_at(header, "chunk_size"@) == m.content_chunk_size
            &&& pieces ==> m.encrypted_content@.len() == 0
            &&& !pieces ==> contents.take(offset) + m.encrypted_content@ == contents
            &&& m.encrypted_size == contents.len() - offset
            &&& json_number_at(header, "header_version"@) is None ==> m.header_version == Some(1u32)
            &&& json_number_at(header, "file_size"@) is Some ==> m.content_size == json_number_at(
                header,
                "file_size"@,
            )->0
        }),
{
    let at = first_separator(contents, 0)->0;
    headers_end_at_the_first_separator(contents, 0);
    line_end_moves(contents, at);
    let offset = line_end(contents, at);
    assert(contents.take(offset) + contents.skip(offset) =~= contents);
}

/// What is left of a file after its header is never more than the file, and nothing where the
/// header is longer.
pub proof fn sizes_leave_out_the_header(file_len: u64, offset: int)
    requires
        0 <= offset,
    ensures
        offset <= file_len ==> size_after(file_len, offset) + offset == file_len,
        offset > file_len ==> size_after(file_len, offset) == 0,
{
}

/// Up to where a search for data got, with the file's length at its end.
pub open spec fn searched_to(size: u64, step: SeekStep) -> int {
    match step {
        SeekStep::FindData(at) => at as int,
        SeekStep::FindHole(at) => at as int,
        _ => size as int,
    }
}

/// The answer of the system is true: it passes over no data.
pub open spec fn is_true(content: Seq<u8>, step: SeekStep, outcome: SeekOutcome) -> bool {
    match (step, outcome) {
        (SeekStep::FindData(from), SeekOutcome::At(at)) => at >= from && forall|k: int|
            from <= k < at && k < content.len() ==> #[trigger] content[k] == 0u8,
        (SeekStep::FindData(from), SeekOutcome::NoMore) => forall|k: int|
            from <= k < content.len() ==> #[trigger] content[k] == 0u8,
        (SeekStep::FindHole(from), SeekOutcome::At(at)) => at >= from,
        _ => true,
    }
}

/// Every byte before a place that is not zero lies in one of the parts.
pub open spec fn found_before(content: Seq<u8>, extents: Seq<SparseExtent>, place: int) -> bool {
    forall|k: int|
        0 <= k < place && k < content.len() && !covered(extents, k) ==> #[trigger] content[k] == 0u8
}

/// A search finds all data up to the place where it got, as long as the answers are true: at its
/// end, nothing but zeros lies outside of the parts.
pub proof fn searches_find_all_data(
    content: Seq<u8>,
    extents: Seq<SparseExtent>,
    step: SeekStep,
    outcome: SeekOutcome,
)
    requires
        content.len() <= u64::MAX,
        found_before(content, extents, searched_to(content.len() as u64, step)),
        is_true(content, step, outcome),
        next_seek(content.len() as u64, step, outcome) != SeekStep::Unsupported,
    ensures
        ({
            let size = content.len() as u64;
            let next = next_seek(size, step, outcome);
            let parts = found_parts(extents, step, outcome);
            &&& found_before(content, parts, searched_to(size, next))
            &&& next == SeekStep::Finished ==> zero_outside(content, parts)
        }),
{
    let size = content.len() as u64;
    let next = next_seek(size, step, outcome);
    let parts = found_parts(extents, step, outcome);
    let place = searched_to(size, next);
    assert forall|k: int|
        0 <= k < place && k < content.len() && !covered(parts, k) implies #[trigger] content[k]
        == 0u8 by {
        if covered(extents, k) {
            let i = choose|i: int| 0 <= i < extents.len() && lies_in(#[trigger] extents[i], k);
            assert(lies_in(parts[i], k));
        }
        if let SeekStep::FindHole(from) = step {
            if let SeekOutcome::At(at) = outcome {
                if from <= k < at {
                    assert(lies_in(parts[parts.len() - 1], k));
                }
            }
        }
    }
}

proof fn decimals_are_digits(n: nat)
    ensures
        decimal(n).len() > 0,
        forall|i: int| 0 <= i < decimal(n).len() ==> is_digit(#[trigger] decimal(n)[i]),
        digits_value(decimal(n)) == n,
    decreases n,
{
    reveal_with_fuel(digits_value, 2);
    if n >= 10 {
        decimals_are_digits(n / 10);
        let text = decimal(n);
        assert(text.drop_last() =~= decimal(n / 10));
        assert forall|i: int| 0 <= i < text.len() implies is_digit(#[trigger] text[i]) by {
            if i < text.len() - 1 {
                assert(text[i] == decimal(n / 10)[i]);
            }
        }
    } else {
        assert(decimal(n).drop_last() =~= Seq::empty());
    }
}

/// A number that was written in decimal is read again, with a plus sign before it as well.
pub proof fn written_numbers_are_read(n: u64)
    ensures
        number_in(decimal(n as nat)) == Some(n),
        number_in(seq!['+'] + decimal(n as nat)) == Some(n),
{
    decimals_are_digits(n as nat);
    let text = decimal(n as nat);
    assert(is_digit(text[0]));
    let signed = seq!['+'] + text;
    assert(signed.skip(1) =~= text);
    assert(unsigned_part(signed) == text);
}

/// A text is read as a number only if all of it is digits but for a plus sign before them.
pub proof fn only_digits_are_numbers(text: Seq<char>, i: int)
    requires
        0 <= i < text.len(),
        !is_digit(text[i]),
        i > 0 || text[0] != '+' || text.len() == 1,
    ensures
        number_in(text) is None,
{
    if text.len() > 1 && text[0] == '+' {
        assert(text.skip(1)[i - 1] == text[i]);
    }
}

proof fn first_piece_ends_at_the_mark(head: Seq<char>, rest: Seq<char>, sep: char)
    requires
        forall|i: int| 0 <= i < head.len() ==> #[trigger] head[i] != sep,
    ensures
        split(head, sep) == seq![head],
        split(head + seq![sep] + rest, sep)[0] == head,
        split(head + seq![sep] + rest, sep).len() >= 2,
    decreases head.len() + rest.len(),
{
    if rest.len() > 0 {
        first_piece_ends_at_the_mark(head, rest.drop_last(), sep);
        let whole = head + seq![sep] + rest;
        assert(whole.drop_last() =~= head + seq![sep] + rest.drop_last());
    } else {
        let whole = head + seq![sep] + rest;
        assert(whole.drop_last() =~= head);
        assert(whole.last() == sep);
        if head.len() > 0 {
            first_piece_ends_at_the_mark(head.drop_last(), rest, sep);
            assert(split(head, sep) =~= seq![head]) by {
                assert(head.drop_last().push(head.last()) =~= head);
            }
        } else {
            assert(head =~= Seq::empty());
        }
    }
}

/// A directory for recovered files is removed by the time that its name begins with: as soon as more
/// seconds have passed than the days have, and never before. One without a time in its name stays.
pub proof fn recovered_files_are_kept_for_days(
    made: u64,
    rest: Seq<char>,
    now: u64,
    days: u64,
)
    requires
        days * 86_400 <= u64::MAX,
    ensures
        recovery_expired(decimal(made as nat) + seq!['_'] + rest, now, days) <==> now > made + days
            * 86_400,
{
    let head = decimal(made as nat);
    decimals_are_digits(made as nat);
    assert forall|i: int| 0 <= i < head.len() implies #[trigger] head[i] != '_' by {
        assert(is_digit(head[i]));
    }
    first_piece_ends_at_the_mark(head, rest, '_');
    written_numbers_are_read(made);
}

/// A file with a zero byte is no text, and so is none whose length is odd unless it is UTF-8.
pub proof fn binary_files_have_no_preview(bytes: Seq<u8>, i: int)
    ensures
        0 <= i < bytes.len() && bytes[i] == 0 ==> preview_text(bytes) is None,
        preview_text(bytes) is Some && !valid_utf8(bytes) ==> {
            &&& bytes.len() >= 2
            &&& bytes.len() % 2 == 0
            &&& (bytes[0] == 0xff && bytes[1] == 0xfe) || (bytes[0] == 0xfe && bytes[1] == 0xff)
            &&& preview_text(bytes) == utf16_text(units(bytes, bytes[0] == 0xff))
        },
{
    if 0 <= i < bytes.len() && bytes[i] == 0 {
        assert(bytes.contains(bytes[i]));
    }
}

/// The order of the bytes is taken as the mark tells: the same text, written in one order and in the
/// other, has the same units.
pub proof fn byte_order_is_told_by_the_mark(little: Seq<u8>, big: Seq<u8>)
    requires
        little.len() == big.len(),
        little.len() >= 2,
        little.len() % 2 == 0,
        forall|k: int|
            1 <= k < little.len() / 2 ==> #[trigger] little[2 * k] == big[2 * k + 1] && little[2 * k
                + 1] == big[2 * k],
    ensures
        units(little, true) == units(big, false),
        units(little, true).len() == (little.len() - 2) / 2,
{
    let a = units(little, true);
    let b = units(big, false);
    assert forall|i: int| 0 <= i < a.len() implies a[i] == b[i] by {
        assert(little[2 * (i + 1)] == big[2 * (i + 1) + 1]);
    }
    assert(a =~= b);
}

/// Mounts of other places have other identities, unless a name holds the mark between the two.
pub proof fn mounts_are_told_apart(
    mountpoint: Seq<char>,
    encrypted_dir: Seq<char>,
    other_dir: Seq<char>,
)
    requires
        mount_identity(mountpoint, encrypted_dir) == mount_identity(mountpoint, other_dir),
    ensures
        encode_utf8(encrypted_dir) == encode_utf8(other_dir),
{
    let head = encode_utf8(mountpoint).push(124u8);
    let n = head.len() as int;
    assert(mount_identity(mountpoint, encrypted_dir).skip(n) =~= encode_utf8(
        encrypted_dir,
    ));
    assert(mount_identity(mountpoint, other_dir).skip(n) =~= encode_utf8(other_dir));
}

} // verus!
