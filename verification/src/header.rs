//! Encrypted files: a JSON header, a separator line, and the encrypted content.

use vstd::prelude::*;
use vstd::string::*;

use crate::errors::{is_format, opt_text, MountSyncError};
use crate::path::SyncPath;
use crate::text::{blank, concat2, is_blank};

verus! {

/// What `serde_json` says against bytes that are no JSON document.
pub uninterp spec fn json_fault(bytes: Seq<u8>) -> Option<Seq<char>>;

/// The string that `serde_json` finds under a key of a JSON document.
pub uninterp spec fn json_text_at(bytes: Seq<u8>, key: Seq<char>) -> Option<Seq<char>>;

/// The unsigned number that `serde_json` finds under a key of a JSON document.
pub uninterp spec fn json_number_at(bytes: Seq<u8>, key: Seq<char>) -> Option<u64>;

/// The bytes that `base64` reads from a text in the standard alphabet.
pub uninterp spec fn base64_bytes(text: Seq<char>) -> Option<Seq<u8>>;

/// The identifier that `uuid` reads from a text.
pub uninterp spec fn uuid_of(text: Seq<char>) -> Option<u128>;

/// The time that `chrono` reads from a text by RFC 3339: whole seconds since 1970 and
/// nanoseconds.
pub uninterp spec fn rfc3339_time(text: Seq<char>) -> Option<(i64, u32)>;

/// `serde_json::from_slice`: the message of its error, where the bytes are no JSON document.
#[verifier::external_body]
fn json_error(bytes: &Vec<u8>) -> (res: Option<String>)
    ensures
        match res {
            Some(message) => json_fault(bytes@) == Some(message@),
            None => json_fault(bytes@) is None,
        },
{
    serde_json::from_slice::<serde_json::Value>(bytes).err().map(|err| err.to_string())
}

/// `serde_json::from_slice`, `serde_json::Value::get` and `serde_json::Value::as_str`: the string
/// under a key, where the bytes are a JSON document that has one there.
#[verifier::external_body]
fn json_text(bytes: &Vec<u8>, key: &str) -> (res: Option<String>)
    ensures
        match res {
            Some(text) => json_text_at(bytes@, key@) == Some(text@),
            None => json_text_at(bytes@, key@) is None,
        },
{
    let value = serde_json::from_slice::<serde_json::Value>(bytes).ok()?;
    value.get(key)?.as_str().map(|text| text.to_string())
}

/// `serde_json::from_slice`, `serde_json::Value::get` and `serde_json::Value::as_u64`: the
/// unsigned number under a key, where the bytes are a JSON document that has one there.
#[verifier::external_body]
fn json_number(bytes: &Vec<u8>, key: &str) -> (res: Option<u64>)
    ensures
        res == json_number_at(bytes@, key@),
{
    let value = serde_json::from_slice::<serde_json::Value>(bytes).ok()?;
    value.get(key)?.as_u64()
}

/// The bytes of an optional vector.
pub open spec fn opt_bytes(bytes: Option<Vec<u8>>) -> Option<Seq<u8>> {
    match bytes {
        Some(b) => Some(b@),
        None => None,
    }
}

/// `base64::Engine::decode` of the standard engine: the bytes that a text encodes.
#[verifier::external_body]
fn base64_decode(text: &str) -> (res: Option<Vec<u8>>)
    ensures
        opt_bytes(res) == base64_bytes(text@),
{
    base64::Engine::decode(&base64::engine::general_purpose::STANDARD, text).ok()
}

/// `uuid::Uuid::parse_str`: the identifier that a text writes, as a number.
#[verifier::external_body]
pub(crate) fn uuid_parse(text: &str) -> (res: Option<u128>)
    ensures
        res == uuid_of(text@),
{
    uuid::Uuid::parse_str(text).ok().map(|id| id.as_u128())
}

/// `chrono::DateTime::parse_from_rfc3339`: the time that a text writes, taken in UTC.
#[verifier::external_body]
fn rfc3339_parse(text: &str) -> (res: Option<(i64, u32)>)
    ensures
        res == rfc3339_time(text@),
{
    let time = chrono::DateTime::parse_from_rfc3339(text).ok()?;
    Some((time.timestamp(), time.timestamp_subsec_nanos()))
}

/// The separator between the header and the content.
pub open spec fn separator() -> Seq<u8> {
    seq![
        45u8,
        45u8,
        45u8,
        69u8,
        78u8,
        67u8,
        82u8,
        89u8,
        80u8,
        84u8,
        69u8,
        68u8,
        95u8,
        68u8,
        65u8,
        84u8,
        65u8,
        45u8,
        45u8,
        45u8,
    ]
}

/// The line is the separator, with or without the end of the line.
pub open spec fn separator_line(line: Seq<u8>) -> bool {
    line == separator() || line == separator().push(10u8)
}

fn separator_bytes() -> (res: Vec<u8>)
    ensures
        res@ == separator(),
{
    let res: Vec<u8> = vec![
        45u8, 45u8, 45u8, 69u8, 78u8, 67u8, 82u8, 89u8, 80u8, 84u8, 69u8, 68u8, 95u8, 68u8, 65u8,
        84u8, 65u8, 45u8, 45u8, 45u8,
    ];
    assert(res@ =~= separator());
    res
}

/// Whether a line, with the end of the line where it has one, is the separator.
pub fn is_separator_line(line: &Vec<u8>) -> (res: bool)
    ensures
        res == separator_line(line@),
{
    let wanted = separator_bytes();
    let n: usize = wanted.len();
    if line.len() != n && line.len() != n + 1 {
        return false;
    }
    let mut i: usize = 0;
    while i < n
        invariant
            i <= n,
            n == wanted@.len(),
            wanted@ == separator(),
            n <= line.len() <= n + 1,
            forall|k: int| 0 <= k < i ==> line@[k] == wanted@[k],
        decreases n - i,
    {
        if line[i] != wanted[i] {
            return false;
        }
        i += 1;
    }
    if line.len() == n {
        assert(line@ =~= separator());
        return true;
    }
    let res = line[n] == 10;
    if res {
        assert(line@ =~= separator().push(10u8));
    }
    res
}

/// A line begins at position `at`.
pub open spec fn line_starts(data: Seq<u8>, at: int) -> bool {
    0 <= at < data.len() && (at == 0 || data[at - 1] == 10)
}

/// The position after the line that holds position `at`.
pub open spec fn line_end(data: Seq<u8>, at: int) -> int
    decreases data.len() - at,
{
    if at < 0 || at >= data.len() {
        data.len() as int
    } else if data[at] == 10 {
        at + 1
    } else {
        line_end(data, at + 1)
    }
}

/// The separator line begins at position `at`.
pub open spec fn separator_at(data: Seq<u8>, at: int) -> bool {
    line_starts(data, at) && separator_line(data.subrange(at, line_end(data, at)))
}

/// The position of the first separator line from the line at `from` on.
pub open spec fn first_separator(data: Seq<u8>, from: int) -> Option<int>
    decreases data.len() - from,
{
    if from < 0 || from >= data.len() {
        None
    } else if separator_at(data, from) {
        Some(from)
    } else {
        proof {
            line_end_moves(data, from);
        }
        first_separator(data, line_end(data, from))
    }
}

/// A line ends after its start, at the first end of line or at the end of the data.
pub proof fn line_end_moves(data: Seq<u8>, at: int)
    requires
        0 <= at < data.len(),
    ensures
        at < line_end(data, at) <= data.len(),
        line_end(data, at) < data.len() ==> data[line_end(data, at) - 1] == 10,
        forall|k: int| at <= k < line_end(data, at) - 1 ==> data[k] != 10,
    decreases data.len() - at,
{
    reveal_with_fuel(line_end, 2);
    if data[at] != 10 && at + 1 < data.len() {
        line_end_moves(data, at + 1);
    }
}

proof fn line_end_in_front(header: Seq<u8>, content: Seq<u8>, at: int)
    requires
        0 <= at < header.len(),
        header.last() == 10,
    ensures
        line_end(header + content, at) == line_end(header, at),
        line_end(header, at) <= header.len(),
    decreases header.len() - at,
{
    let whole = header + content;
    reveal_with_fuel(line_end, 2);
    assert(whole[at] == header[at]);
    if header[at] != 10 {
        assert(at + 1 < header.len());
        line_end_in_front(header, content, at + 1);
    }
}

proof fn separator_in_front(header: Seq<u8>, content: Seq<u8>, from: int)
    requires
        0 <= from < header.len(),
        header.last() == 10,
        line_starts(header, from),
        first_separator(header, from) is Some,
    ensures
        first_separator(header + content, from) == first_separator(header, from),
    decreases header.len() - from,
{
    let whole = header + content;
    line_end_in_front(header, content, from);
    line_end_moves(header, from);
    let end = line_end(header, from);
    assert(whole.subrange(from, end) =~= header.subrange(from, end));
    assert(from > 0 ==> whole[from - 1] == header[from - 1]);
    assert(separator_at(whole, from) == separator_at(header, from));
    if !separator_at(header, from) {
        assert(first_separator(header, from) == first_separator(header, end));
        assert(end < header.len());
        separator_in_front(header, content, end);
    }
}

/// A header that ends with the separator line is found again in front of any content, and the
/// content follows it.
pub proof fn content_follows_header(header: Seq<u8>, content: Seq<u8>)
    requires
        header.len() > 0,
        header.last() == 10,
        first_separator(header, 0) is Some,
        line_end(header, first_separator(header, 0)->0) == header.len(),
    ensures
        first_separator(header + content, 0) == first_separator(header, 0),
        line_end(header + content, first_separator(header, 0)->0) == header.len(),
        (header + content).skip(header.len() as int) == content,
{
    separator_in_front(header, content, 0);
    separator_is_inside(header, 0);
    let at = first_separator(header, 0)->0;
    line_end_in_front(header, content, at);
    assert((header + content).skip(header.len() as int) =~= content);
}

proof fn separator_is_inside(data: Seq<u8>, from: int)
    requires
        first_separator(data, from) is Some,
    ensures
        0 <= first_separator(data, from)->0 < data.len(),
        separator_at(data, first_separator(data, from)->0),
    decreases data.len() - from,
{
    if !separator_at(data, from) {
        line_end_moves(data, from);
        separator_is_inside(data, line_end(data, from));
    }
}

/// What stands before the separator, and the position of what follows it.
pub fn split_header(data: &Vec<u8>) -> (res: Option<(Vec<u8>, usize)>)
    ensures
        match res {
            Some((header, offset)) => first_separator(data@, 0) matches Some(at) && header@
                == data@.take(at) && offset == line_end(data@, at) && offset <= data@.len(),
            None => first_separator(data@, 0) is None,
        },
{
    let mut from: usize = 0;
    let n: usize = data.len();
    let mut header: Vec<u8> = Vec::new();
    assert(data@.take(0) =~= header@);
    while from < n
        invariant
            from <= n,
            n == data@.len(),
            from < n ==> line_starts(data@, from as int),
            first_separator(data@, 0) == first_separator(data@, from as int),
            header@ == data@.take(from as int),
        decreases n - from,
    {
        let mut line: Vec<u8> = Vec::new();
        let mut i: usize = from;
        let mut ended = false;
        while i < n && !ended
            invariant
                from <= i <= n,
                n == data@.len(),
                line@ == data@.subrange(from as int, i as int),
                ended ==> line_end(data@, from as int) == i,
                !ended ==> line_end(data@, from as int) == line_end(data@, i as int),
                ended ==> i > from,
            decreases n - i + if ended { 0int } else { 1int },
        {
            let b = data[i];
            line.push(b);
            assert(data@.subrange(from as int, i + 1) =~= data@.subrange(from as int, i as int).push(
                data@[i as int],
            ));
            if b == 10 {
                ended = true;
            }
            i += 1;
        }
        proof {
            line_end_moves(data@, from as int);
        }
        assert(i == line_end(data@, from as int));
        if is_separator_line(&line) {
            return Some((header, i));
        }
        let ghost before = header@;
        header.append(&mut line);
        assert(header@ =~= data@.take(i as int));
        from = i;
    }
    None
}

/// The metadata of an encrypted file.
#[derive(Debug)]
pub struct EncryptedFileMetadata {
    pub file_id: String,
    /// The path that is stored with the file.
    pub file_path: String,
    pub group_id: Option<u128>,
    pub epoch_id: u64,
    pub header_version: Option<u32>,
    pub wrapped_file_key: Option<Vec<u8>>,
    pub key_wrap_nonce: Option<Vec<u8>>,
    pub key_wrap_aad_hash: Option<Vec<u8>>,
    pub content_nonce: Option<Vec<u8>>,
    pub content_chunk_size: Option<u64>,
    pub content_size: u64,
    pub encrypted_size: u64,
    /// When the file was encrypted, where the header says so.
    pub created_at: Option<(i64, u32)>,
    pub encrypted_content: Vec<u8>,
}

/// An encrypted file: its metadata, and the name that it had.
#[derive(Debug)]
pub struct ParsedEncryptedFile {
    pub metadata: EncryptedFileMetadata,
    pub original_name: Option<String>,
}

/// The first thing that is wrong with the header of a file, where only its identifier and epoch
/// are asked for.
pub open spec fn brief_fault(contents: Seq<u8>) -> Option<Seq<char>> {
    match first_separator(contents, 0) {
        None => Some("Invalid encrypted file format: separator not found"@),
        Some(at) => {
            let header = contents.take(at);
            match json_fault(header) {
                Some(message) => Some("Failed to parse metadata: "@ + message),
                None => if json_text_at(header, "file_id"@) is None {
                    Some("Missing file_id in metadata"@)
                } else if json_number_at(header, "epoch_id"@) is None {
                    Some("Missing epoch_id in metadata"@)
                } else {
                    None
                },
            }
        },
    }
}

/// The header stores the path of the file.
pub open spec fn stores_path(header: Seq<u8>) -> bool {
    json_text_at(header, "file_path"@) matches Some(path) && !is_blank(path)
}

/// The first thing that is wrong with the header of a file.
pub open spec fn header_fault(contents: Seq<u8>) -> Option<Seq<char>> {
    match brief_fault(contents) {
        Some(message) => Some(message),
        None => if stores_path(contents.take(first_separator(contents, 0)->0)) {
            None
        } else {
            Some("Missing file_path in metadata"@)
        },
    }
}

fn read_header(contents: &Vec<u8>) -> (res: Result<(Vec<u8>, usize, String, u64), MountSyncError>)
    ensures
        match res {
            Ok((header, offset, file_id, epoch_id)) => {
                let at = first_separator(contents@, 0);
                &&& brief_fault(contents@) is None
                &&& at is Some
                &&& header@ == contents@.take(at->0)
                &&& offset == line_end(contents@, at->0)
                &&& offset <= contents@.len()
                &&& json_text_at(header@, "file_id"@) == Some(file_id@)
                &&& json_number_at(header@, "epoch_id"@) == Some(epoch_id)
            },
            Err(err) => brief_fault(contents@) is Some && is_format(err, brief_fault(contents@)->0),
        },
{
    let (header, offset) = match split_header(contents) {
        Some(found) => found,
        None => {
            return Err(
                MountSyncError::Format(
                    "Invalid encrypted file format: separator not found".to_owned(),
                ),
            );
        },
    };
    if let Some(message) = json_error(&header) {
        return Err(
            MountSyncError::Format(concat2("Failed to parse metadata: ", message.as_str())),
        );
    }
    let file_id = match json_text(&header, "file_id") {
        Some(file_id) => file_id,
        None => {
            return Err(MountSyncError::Format("Missing file_id in metadata".to_owned()));
        },
    };
    let epoch_id: u64 = match json_number(&header, "epoch_id") {
        Some(epoch_id) => epoch_id,
        None => {
            return Err(MountSyncError::Format("Missing epoch_id in metadata".to_owned()));
        },
    };
    Ok((header, offset, file_id, epoch_id))
}

/// What is left of the file after the header.
pub open spec fn size_after(file_len: u64, offset: int) -> u64 {
    if file_len >= offset {
        (file_len - offset) as u64
    } else {
        0
    }
}

/// The identifier, the epoch and the size of the content of an encrypted file, from the start
/// of it up to the separator line at least, and from its length.
pub fn parse_encrypted_header_only(contents: &Vec<u8>, file_len: u64) -> (res: Result<
    (String, u64, u64),
    MountSyncError,
>)
    ensures
        match res {
            Ok((file_id, epoch_id, encrypted_size)) => {
                let at = first_separator(contents@, 0);
                &&& brief_fault(contents@) is None
                &&& json_text_at(contents@.take(at->0), "file_id"@) == Some(file_id@)
                &&& json_number_at(contents@.take(at->0), "epoch_id"@) == Some(epoch_id)
                &&& encrypted_size == size_after(file_len, line_end(contents@, at->0))
            },
            Err(err) => brief_fault(contents@) is Some && is_format(err, brief_fault(contents@)->0),
        },
{
    let (_header, offset, file_id, epoch_id) = read_header(contents)?;
    Ok((file_id, epoch_id, file_len.saturating_sub(offset as u64)))
}

/// The bytes that a header stores in base64 under a key.
pub open spec fn stored_bytes(header: Seq<u8>, key: Seq<char>) -> Option<Seq<u8>> {
    match json_text_at(header, key) {
        Some(text) => base64_bytes(text),
        None => None,
    }
}

fn read_bytes(header: &Vec<u8>, key: &str) -> (res: Option<Vec<u8>>)
    ensures
        opt_bytes(res) == stored_bytes(header@, key@),
{
    match json_text(header, key) {
        Some(text) => base64_decode(text.as_str()),
        None => None,
    }
}

/// The version of a header, and 1 where it says none. A larger number is cut to its lowest bits.
pub open spec fn version_of(header: Seq<u8>) -> u32 {
    match json_number_at(header, "header_version"@) {
        Some(v) => v as u32,
        None => 1,
    }
}

/// The size of the content before it was encrypted.
pub open spec fn content_size_of(header: Seq<u8>) -> u64 {
    match json_number_at(header, "file_size"@) {
        Some(size) => size,
        None => match json_number_at(header, "original_size"@) {
            Some(size) => size,
            None => 0,
        },
    }
}

/// The parsed file is what the header and the content say. The content is kept with it unless
/// it was encrypted in chunks.
pub open spec fn parsed_as(
    contents: Seq<u8>,
    file_len: u64,
    chunked_version: u32,
    parsed: ParsedEncryptedFile,
) -> bool {
    let at = first_separator(contents, 0)->0;
    let header = contents.take(at);
    let offset = line_end(contents, at);
    let m = parsed.metadata;
    let chunked = version_of(header) >= chunked_version || json_number_at(header, "chunk_size"@)
        is Some;
    &&& Some(m.file_id@) == json_text_at(header, "file_id"@)
    &&& Some(m.file_path@) == json_text_at(header, "file_path"@)
    &&& m.group_id == match json_text_at(header, "group_id"@) {
        Some(text) => uuid_of(text),
        None => None,
    }
    &&& Some(m.epoch_id) == json_number_at(header, "epoch_id"@)
    &&& m.header_version == Some(version_of(header))
    &&& opt_bytes(m.wrapped_file_key) == stored_bytes(header, "wrapped_file_key"@)
    &&& opt_bytes(m.key_wrap_nonce) == stored_bytes(header, "key_wrap_nonce"@)
    &&& opt_bytes(m.key_wrap_aad_hash) == stored_bytes(header, "key_wrap_aad_hash"@)
    &&& opt_bytes(m.content_nonce) == stored_bytes(header, "content_nonce"@)
    &&& m.content_chunk_size == json_number_at(header, "chunk_size"@)
    &&& m.content_size == content_size_of(header)
    &&& m.created_at == match json_text_at(header, "encrypted_at"@) {
        Some(text) => rfc3339_time(text),
        None => None,
    }
    &&& m.encrypted_content@ == if chunked {
        Seq::empty()
    } else {
        contents.skip(offset)
    }
    &&& m.encrypted_size == if m.encrypted_content@.len() == 0 {
        size_after(file_len, offset)
    } else {
        m.encrypted_content@.len() as u64
    }
    &&& opt_text(parsed.original_name) == json_text_at(header, "original_name"@)
}

/// Reads an encrypted file. `contents` holds its start up to the separator line, and all of it
/// where the content is not in chunks; `chunked_version` is the first version of the header of
/// which the content is in chunks.
pub fn parse_encrypted_file(contents: &Vec<u8>, file_len: u64, chunked_version: u32) -> (res: Result<
    ParsedEncryptedFile,
    MountSyncError,
>)
    ensures
        match res {
            Ok(parsed) => header_fault(contents@) is None && parsed_as(
                contents@,
                file_len,
                chunked_version,
                parsed,
            ),
            Err(err) => header_fault(contents@) is Some && is_format(
                err,
                header_fault(contents@)->0,
            ),
        },
{
    let (header, offset, file_id, epoch_id) = read_header(contents)?;
    let content_size: u64 = match json_number(&header, "file_size") {
        Some(size) => size,
        None => match json_number(&header, "original_size") {
            Some(size) => size,
            None => 0,
        },
    };
    let content_chunk_size = json_number(&header, "chunk_size");
    let original_name = json_text(&header, "original_name");
    let group_id = match json_text(&header, "group_id") {
        Some(text) => uuid_parse(text.as_str()),
        None => None,
    };
    let version: u32 = match json_number(&header, "header_version") {
        Some(v) => #[verifier::truncate] (v as u32),
        None => 1,
    };
    let file_path = match json_text(&header, "file_path") {
        Some(path) => path,
        None => {
            return Err(MountSyncError::Format("Missing file_path in metadata".to_owned()));
        },
    };
    if blank(file_path.as_str()) {
        return Err(MountSyncError::Format("Missing file_path in metadata".to_owned()));
    }
    let created_at = match json_text(&header, "encrypted_at") {
        Some(text) => rfc3339_parse(text.as_str()),
        None => None,
    };
    let chunked = version >= chunked_version || content_chunk_size.is_some();
    let mut encrypted_content: Vec<u8> = Vec::new();
    if !chunked {
        let mut i: usize = offset;
        assert(encrypted_content@ =~= contents@.subrange(offset as int, offset as int));
        while i < contents.len()
            invariant
                offset <= i <= contents.len(),
                encrypted_content@ == contents@.subrange(offset as int, i as int),
            decreases contents.len() - i,
        {
            encrypted_content.push(contents[i]);
            assert(contents@.subrange(offset as int, i + 1) =~= contents@.subrange(
                offset as int,
                i as int,
            ).push(contents@[i as int]));
            i += 1;
        }
        assert(encrypted_content@ =~= contents@.skip(offset as int));
    }
    let encrypted_size: u64 = if encrypted_content.len() == 0 {
        file_len.saturating_sub(offset as u64)
    } else {
        encrypted_content.len() as u64
    };
    let metadata = EncryptedFileMetadata {
        file_id,
        file_path,
        group_id,
        epoch_id,
        header_version: Some(version),
        wrapped_file_key: read_bytes(&header, "wrapped_file_key"),
        key_wrap_nonce: read_bytes(&header, "key_wrap_nonce"),
        key_wrap_aad_hash: read_bytes(&header, "key_wrap_aad_hash"),
        content_nonce: read_bytes(&header, "content_nonce"),
        content_chunk_size,
        content_size,
        encrypted_size,
        created_at,
        encrypted_content,
    };
    Ok(ParsedEncryptedFile { metadata, original_name })
}

/// Reads an encrypted file that lies under a root; where the root is makes no difference.
pub fn parse_encrypted_file_with_root(
    _encrypted_root: &SyncPath,
    contents: &Vec<u8>,
    file_len: u64,
    chunked_version: u32,
) -> (res: Result<ParsedEncryptedFile, MountSyncError>)
    ensures
        match res {
            Ok(parsed) => header_fault(contents@) is None && parsed_as(
                contents@,
                file_len,
                chunked_version,
                parsed,
            ),
            Err(err) => header_fault(contents@) is Some && is_format(
                err,
                header_fault(contents@)->0,
            ),
        },
{
    parse_encrypted_file(contents, file_len, chunked_version)
}

} // verus!
