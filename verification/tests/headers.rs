use mount_sync::encrypt::{build_metadata_record, encrypted_header};
use mount_sync::header::{
    is_separator_line, parse_encrypted_file, parse_encrypted_file_with_root,
    parse_encrypted_header_only, split_header, ParsedEncryptedFile,
};
use mount_sync::path::SyncPath;

const SEPARATOR: &str = "---ENCRYPTED_DATA---\n";

fn file(header: &str, content: &[u8]) -> Vec<u8> {
    let mut bytes = header.as_bytes().to_vec();
    bytes.push(b'\n');
    bytes.extend_from_slice(SEPARATOR.as_bytes());
    bytes.extend_from_slice(content);
    bytes
}

fn full_header() -> String {
    [
        "{\"file_id\":\"id-1\",\"file_path\":\"a/b.txt\",\"epoch_id\":7,",
        "\"group_id\":\"67e55044-10b1-426f-9247-bb680e5fe0c8\",\"header_version\":1,",
        "\"wrapped_file_key\":\"AQID\",\"key_wrap_nonce\":\"BAU=\",\"key_wrap_aad_hash\":\"Bg==\",",
        "\"content_nonce\":\"BwgJ\",\"file_size\":4,\"encrypted_at\":\"2026-03-11T12:00:00Z\",",
        "\"original_name\":\"b.txt\"}",
    ]
    .concat()
}

fn parsed(header: &str, content: &[u8]) -> Result<ParsedEncryptedFile, String> {
    let bytes = file(header, content);
    let len = bytes.len() as u64;
    parse_encrypted_file(&bytes, len, 2).map_err(|err| err.message())
}

#[test]
fn headers_are_read() {
    let found = parsed(&full_header(), b"test").unwrap();
    let m = &found.metadata;
    assert_eq!(m.file_id, "id-1");
    assert_eq!(m.file_path, "a/b.txt");
    assert_eq!(m.epoch_id, 7);
    assert_eq!(m.group_id, Some(0x67e55044_10b1_426f_9247_bb680e5fe0c8));
    assert_eq!(m.header_version, Some(1));
    assert_eq!(m.wrapped_file_key, Some(vec![1, 2, 3]));
    assert_eq!(m.key_wrap_nonce, Some(vec![4, 5]));
    assert_eq!(m.key_wrap_aad_hash, Some(vec![6]));
    assert_eq!(m.content_nonce, Some(vec![7, 8, 9]));
    assert_eq!(m.content_chunk_size, None);
    assert_eq!(m.content_size, 4);
    assert_eq!(m.created_at, Some((1773230400, 0)));
    assert_eq!(m.encrypted_content, b"test".to_vec());
    assert_eq!(m.encrypted_size, 4);
    assert_eq!(found.original_name.as_deref(), Some("b.txt"));
}

#[test]
fn content_in_chunks_stays_where_it_is() {
    let header = "{\"file_id\":\"x\",\"file_path\":\"x\",\"epoch_id\":1,\"chunk_size\":4096,\"original_size\":9}";
    let found = parsed(header, b"0123456789").unwrap();
    assert_eq!(found.metadata.content_chunk_size, Some(4096));
    assert!(found.metadata.encrypted_content.is_empty());
    assert_eq!(found.metadata.encrypted_size, 10);
    assert_eq!(found.metadata.content_size, 9);
    let version = "{\"file_id\":\"x\",\"file_path\":\"x\",\"epoch_id\":1,\"header_version\":2}";
    let found = parsed(version, b"0123").unwrap();
    assert!(found.metadata.encrypted_content.is_empty());
    assert_eq!(found.metadata.encrypted_size, 4);
    assert_eq!(found.metadata.content_size, 0);
}

#[test]
fn faulty_headers_are_refused() {
    let no_separator = b"{}\n".to_vec();
    assert_eq!(
        parse_encrypted_file(&no_separator, 3, 2).unwrap_err().message(),
        "Format error: Invalid encrypted file format: separator not found"
    );
    assert!(parsed("{", b"")
        .unwrap_err()
        .starts_with("Format error: Failed to parse metadata: EOF while parsing"));
    assert_eq!(
        parsed("{}", b"").unwrap_err(),
        "Format error: Missing file_id in metadata"
    );
    assert_eq!(
        parsed("{\"file_id\":\"x\",\"epoch_id\":\"1\"}", b"").unwrap_err(),
        "Format error: Missing epoch_id in metadata"
    );
    assert_eq!(
        parsed("{\"file_id\":\"x\",\"epoch_id\":1,\"file_path\":\"  \"}", b"").unwrap_err(),
        "Format error: Missing file_path in metadata"
    );
}

#[test]
fn fields_that_cannot_be_read_are_left_out() {
    let header = "{\"file_id\":\"x\",\"file_path\":\"x\",\"epoch_id\":1,\"wrapped_file_key\":\"%%\",\"group_id\":\"no\",\"encrypted_at\":\"soon\"}";
    let found = parsed(header, b"1").unwrap();
    assert_eq!(found.metadata.wrapped_file_key, None);
    assert_eq!(found.metadata.group_id, None);
    assert_eq!(found.metadata.created_at, None);
}

#[test]
fn brief_headers_give_what_is_asked_for() {
    let bytes = file("{\"file_id\":\"x\",\"epoch_id\":5}", b"12345");
    let len = bytes.len() as u64;
    assert_eq!(
        parse_encrypted_header_only(&bytes, len).unwrap(),
        ("x".to_string(), 5, 5)
    );
}

#[test]
fn the_root_makes_no_difference() {
    let bytes = file(&full_header(), b"test");
    let len = bytes.len() as u64;
    let found =
        parse_encrypted_file_with_root(&SyncPath::from_text("/enc"), &bytes, len, 2).unwrap();
    assert_eq!(found.metadata.file_id, "id-1");
}

#[test]
fn content_follows_the_separator() {
    let bytes = file("{}", b"---ENCRYPTED_DATA---\nrest");
    let (header, offset) = split_header(&bytes).unwrap();
    assert_eq!(header, b"{}\n".to_vec());
    assert_eq!(&bytes[offset..], b"---ENCRYPTED_DATA---\nrest");
    assert!(is_separator_line(&b"---ENCRYPTED_DATA---\n".to_vec()));
    assert!(is_separator_line(&b"---ENCRYPTED_DATA---".to_vec()));
    assert!(!is_separator_line(&b"--ENCRYPTED_DATA---".to_vec()));
}

#[test]
fn headers_to_be_written_need_their_keys() {
    let found = parsed(&full_header(), b"test").unwrap();
    let header = encrypted_header(&found.metadata, 99, &Some("n".to_string())).unwrap();
    assert_eq!(header.original_size, 99);
    assert_eq!(header.header_version, 1);
    assert_eq!(header.wrapped_file_key, vec![1, 2, 3]);
    assert_eq!(header.original_name.as_deref(), Some("n"));
    let bare = parsed("{\"file_id\":\"x\",\"file_path\":\"x\",\"epoch_id\":1}", b"1").unwrap();
    assert_eq!(
        encrypted_header(&bare.metadata, 1, &None).unwrap_err().message(),
        "Format error: Missing wrapped_file_key"
    );
}

#[test]
fn metadata_records_repeat_the_header() {
    let found = parsed(&full_header(), b"test").unwrap();
    let record = build_metadata_record(&found.metadata, 4, [3; 32], 17);
    assert_eq!(record.file_path, "a/b.txt");
    assert_eq!(record.file_id.as_deref(), Some("id-1"));
    assert_eq!(record.epoch_id, 7);
    assert_eq!(record.file_size, 4);
    assert_eq!(record.integrity_hash, [3; 32]);
    assert_eq!(record.encrypted_size, 4);
    assert_eq!(record.modified_at, 17);
    assert_eq!(record.encrypted_at, 17);
}
