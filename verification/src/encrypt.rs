//! Encrypting a mounted file: under which identifier and name, how, and what follows on it.

use vstd::prelude::*;
use vstd::string::*;

use crate::config::STREAM_CHUNK_SIZE_BYTES;
use crate::deletion::{digest_refreshed, refresh_digest};
use crate::directories::writeback_allowed;
use crate::errors::{copy_opt_text, is_format, opt_text, MountSyncError};
use crate::header::EncryptedFileMetadata;
use crate::names::{normalize_relative_path, relative_label, ENCRYPTED_TMP_DIR_NAME};
use crate::path::{
    copy_bytes, file_name, file_name_text, join_text, parent, same_path, shown, strip_prefix,
    PathKey, PathSet, PathView, SyncPath, TextEntries,
};
use crate::pending::path_values;
use crate::scan::{id_is_taken, streams};
use crate::space::{budget, LOW_SPACE_ATOMIC_WRITE_OVERHEAD_BYTES};
use crate::table::TableKey;
use crate::text::concat3;
use crate::tracker::{
    Digest, FileLedger, FileMetadataData, FileSignature, PendingWork, SyncTracker, UtcNanos,
};

verus! {

/// Under which identifier a mounted file is encrypted, and what is done with the one that is
/// written on it.
#[derive(Debug)]
pub struct FileIdChoice {
    pub file_id: Option<String>,
    /// The identifier that is written on the file belongs to another, and is taken off.
    pub clear_attribute: bool,
    /// The identifier of the encrypted file is written on the file.
    pub write_attribute: bool,
}

/// The identifier under which a mounted file is encrypted: that which is written on it, unless
/// another file has it, else that of its encrypted form.
pub open spec fn desired_id(
    ids: TextEntries<PathView>,
    path: PathView,
    attribute: Option<Seq<char>>,
    encrypted_id: Option<Seq<char>>,
    present: Set<PathKey>,
) -> Option<Seq<char>> {
    if attribute is Some && !id_is_taken(ids, attribute, path, present) {
        attribute
    } else {
        encrypted_id
    }
}

/// How a mounted file is encrypted.
#[derive(Debug, Clone, Copy, PartialEq, Eq, Structural)]
pub enum EncryptMethod {
    /// Its pieces without the holes between them, piece by piece.
    Sparse { chunk_size: usize },
    /// Piece by piece.
    Streaming { chunk_size: usize },
    /// As a whole.
    Whole,
}

/// The size of the pieces that is set.
pub open spec fn chunk_size_of(tracker: SyncTracker) -> Option<usize> {
    let size = tracker.settings.stream_chunk_size_bytes;
    if size == 0 || size > usize::MAX {
        None
    } else {
        Some(size as usize)
    }
}

/// How a mounted file is encrypted.
pub open spec fn encrypt_method(tracker: SyncTracker, len: u64, sparse: bool) -> EncryptMethod {
    let chunk = chunk_size_of(tracker);
    if sparse {
        EncryptMethod::Sparse {
            chunk_size: match chunk {
                Some(size) => size,
                None => STREAM_CHUNK_SIZE_BYTES as usize,
            },
        }
    } else if streams(tracker.settings.stream_threshold_bytes, len) && chunk is Some {
        EncryptMethod::Streaming { chunk_size: chunk->0 }
    } else {
        EncryptMethod::Whole
    }
}

/// The room that an encrypted file takes while it is written. A sparse file is packed first and
/// encrypted twice over.
pub open spec fn ciphertext_budget(len: u64, sparse: Option<(u64, u64)>) -> u64 {
    match sparse {
        Some((packed, ciphertext)) => {
            let twice = if ciphertext * 2 > u64::MAX {
                u64::MAX
            } else {
                (ciphertext * 2) as u64
            };
            budget(budget(packed, twice), LOW_SPACE_ATOMIC_WRITE_OVERHEAD_BYTES)
        },
        None => budget(len, LOW_SPACE_ATOMIC_WRITE_OVERHEAD_BYTES),
    }
}

/// The message of a file that changed while it was encrypted.
pub open spec fn changed_message(shown: Seq<char>, method: EncryptMethod) -> Seq<char> {
    "File "@ + shown + match method {
        EncryptMethod::Sparse { .. } => " changed during sparse encryption; deferring encryption"@,
        EncryptMethod::Streaming { .. } =>
            " changed during streaming encryption; deferring encryption"@,
        EncryptMethod::Whole => " changed during read (likely mid-write); deferring encryption"@,
    }
}

/// Whether a file stayed the same while it was encrypted.
pub fn check_unchanged(
    path: &SyncPath,
    method: EncryptMethod,
    before: FileSignature,
    after: FileSignature,
) -> (res: Result<(), MountSyncError>)
    ensures
        match res {
            Ok(()) => before == after,
            Err(err) => before != after && (err matches MountSyncError::UnstableFile(m) && m@
                == changed_message(path@.text, method)),
        },
{
    if before == after {
        return Ok(());
    }
    let shown = path.display();
    let end = match method {
        EncryptMethod::Sparse { .. } => " changed during sparse encryption; deferring encryption",
        EncryptMethod::Streaming { .. } =>
            " changed during streaming encryption; deferring encryption",
        EncryptMethod::Whole => " changed during read (likely mid-write); deferring encryption",
    };
    Err(MountSyncError::UnstableFile(concat3("File ", shown.as_str(), end)))
}

/// The header of an encrypted file.
#[derive(Debug)]
pub struct EncryptedHeader {
    pub file_id: String,
    pub file_path: String,
    pub group_id: Option<u128>,
    pub epoch_id: u64,
    pub header_version: u32,
    pub wrapped_file_key: Vec<u8>,
    pub key_wrap_nonce: Vec<u8>,
    pub key_wrap_aad_hash: Vec<u8>,
    pub content_nonce: Vec<u8>,
    pub content_chunk_size: Option<u64>,
    pub original_size: u64,
    pub encrypted_size: u64,
    pub encrypted_at: Option<(i64, u32)>,
    pub original_name: Option<String>,
}

/// What is missing for the header of an encrypted file.
pub open spec fn header_lacks(metadata: EncryptedFileMetadata) -> Option<Seq<char>> {
    if metadata.wrapped_file_key is None {
        Some("Missing wrapped_file_key"@)
    } else if metadata.key_wrap_nonce is None {
        Some("Missing key_wrap_nonce"@)
    } else if metadata.key_wrap_aad_hash is None {
        Some("Missing key_wrap_aad_hash"@)
    } else if metadata.content_nonce is None {
        Some("Missing content_nonce"@)
    } else {
        None
    }
}

/// The header says what the metadata does. Where no version is given it is the first.
pub open spec fn header_of(
    header: EncryptedHeader,
    metadata: EncryptedFileMetadata,
    original_size: u64,
    original_name: Option<Seq<char>>,
) -> bool {
    &&& header.file_id@ == metadata.file_id@
    &&& header.file_path@ == metadata.file_path@
    &&& header.group_id == metadata.group_id
    &&& header.epoch_id == metadata.epoch_id
    &&& header.header_version == match metadata.header_version {
        Some(version) => version,
        None => 1,
    }
    &&& header.wrapped_file_key@ == metadata.wrapped_file_key->0@
    &&& header.key_wrap_nonce@ == metadata.key_wrap_nonce->0@
    &&& header.key_wrap_aad_hash@ == metadata.key_wrap_aad_hash->0@
    &&& header.content_nonce@ == metadata.content_nonce->0@
    &&& header.content_chunk_size == metadata.content_chunk_size
    &&& header.original_size == original_size
    &&& header.encrypted_size == metadata.encrypted_size
    &&& header.encrypted_at == metadata.created_at
    &&& opt_text(header.original_name) == original_name
}

fn required_part(part: &Option<Vec<u8>>, message: &str) -> (res: Result<Vec<u8>, MountSyncError>)
    ensures
        match res {
            Ok(bytes) => part is Some && bytes@ == part->0@,
            Err(err) => part is None && is_format(err, message@),
        },
{
    match part {
        Some(bytes) => Ok(copy_bytes(bytes)),
        None => Err(MountSyncError::Format(message.to_owned())),
    }
}

/// The header of an encrypted file.
pub fn encrypted_header(
    metadata: &EncryptedFileMetadata,
    original_size: u64,
    original_name: &Option<String>,
) -> (res: Result<EncryptedHeader, MountSyncError>)
    ensures
        match res {
            Ok(header) => header_lacks(*metadata) is None && header_of(
                header,
                *metadata,
                original_size,
                opt_text(*original_name),
            ),
            Err(err) => header_lacks(*metadata) is Some && is_format(
                err,
                header_lacks(*metadata)->0,
            ),
        },
{
    let wrapped_file_key = match required_part(
        &metadata.wrapped_file_key,
        "Missing wrapped_file_key",
    ) {
        Ok(bytes) => bytes,
        Err(err) => {
            return Err(err);
        },
    };
    let key_wrap_nonce = match required_part(&metadata.key_wrap_nonce, "Missing key_wrap_nonce") {
        Ok(bytes) => bytes,
        Err(err) => {
            return Err(err);
        },
    };
    let key_wrap_aad_hash = match required_part(
        &metadata.key_wrap_aad_hash,
        "Missing key_wrap_aad_hash",
    ) {
        Ok(bytes) => bytes,
        Err(err) => {
            return Err(err);
        },
    };
    let content_nonce = match required_part(&metadata.content_nonce, "Missing content_nonce") {
        Ok(bytes) => bytes,
        Err(err) => {
            return Err(err);
        },
    };
    let header_version: u32 = match metadata.header_version {
        Some(version) => version,
        None => 1,
    };
    Ok(
        EncryptedHeader {
            file_id: metadata.file_id.as_str().to_owned(),
            file_path: metadata.file_path.as_str().to_owned(),
            group_id: metadata.group_id,
            epoch_id: metadata.epoch_id,
            header_version,
            wrapped_file_key,
            key_wrap_nonce,
            key_wrap_aad_hash,
            content_nonce,
            content_chunk_size: metadata.content_chunk_size,
            original_size,
            encrypted_size: metadata.encrypted_size,
            encrypted_at: metadata.created_at,
            original_name: copy_opt_text(original_name),
        },
    )
}

/// The bytes that may be there.
pub open spec fn opt_bytes(part: Option<Vec<u8>>) -> Option<Seq<u8>> {
    match part {
        Some(bytes) => Some(bytes@),
        None => None,
    }
}

fn copy_opt_bytes(part: &Option<Vec<u8>>) -> (res: Option<Vec<u8>>)
    ensures
        opt_bytes(res) == opt_bytes(*part),
{
    match part {
        Some(bytes) => Some(copy_bytes(bytes)),
        None => None,
    }
}

/// What is stored about an encrypted file.
pub fn build_metadata_record(
    metadata: &EncryptedFileMetadata,
    file_size: u64,
    integrity_hash: Digest,
    now: UtcNanos,
) -> (res: FileMetadataData)
    ensures
        res.file_path@ == metadata.file_path@,
        opt_text(res.file_id) == Some(metadata.file_id@),
        res.group_id == metadata.group_id,
        res.epoch_id == metadata.epoch_id,
        res.header_version == metadata.header_version,
        opt_bytes(res.wrapped_file_key) == opt_bytes(metadata.wrapped_file_key),
        opt_bytes(res.key_wrap_nonce) == opt_bytes(metadata.key_wrap_nonce),
        opt_bytes(res.key_wrap_aad_hash) == opt_bytes(metadata.key_wrap_aad_hash),
        opt_bytes(res.content_nonce) == opt_bytes(metadata.content_nonce),
        res.content_chunk_size == metadata.content_chunk_size,
        res.algorithm@ == "chacha20poly1305"@,
        res.file_size == file_size,
        res.modified_at == now,
        res.integrity_hash == integrity_hash,
        res.encrypted_size == metadata.encrypted_size,
        res.encrypted_at == now,
        res.version == 1,
{
    FileMetadataData {
        file_path: metadata.file_path.as_str().to_owned(),
        file_id: Some(metadata.file_id.as_str().to_owned()),
        group_id: metadata.group_id,
        epoch_id: metadata.epoch_id,
        header_version: metadata.header_version,
        wrapped_file_key: copy_opt_bytes(&metadata.wrapped_file_key),
        key_wrap_nonce: copy_opt_bytes(&metadata.key_wrap_nonce),
        key_wrap_aad_hash: copy_opt_bytes(&metadata.key_wrap_aad_hash),
        content_nonce: copy_opt_bytes(&metadata.content_nonce),
        content_chunk_size: metadata.content_chunk_size,
        algorithm: "chacha20poly1305".to_owned(),
        file_size,
        modified_at: now,
        integrity_hash,
        encrypted_size: metadata.encrypted_size,
        encrypted_at: now,
        version: 1,
    }
}

/// Where an encrypted file is written before it gets its place.
pub open spec fn staging_path(path: PathView, prefix: Seq<char>, unique: Seq<char>) -> Option<
    PathView,
> {
    let name = match file_name(path) {
        Some(name) => shown(name),
        None => "encrypted"@,
    };
    match parent(path) {
        Some(dir) => Some(
            join_text(join_text(dir, ENCRYPTED_TMP_DIR_NAME@), prefix + unique + "."@ + name),
        ),
        None => None,
    }
}

/// Where an encrypted file is written before it gets its place.
pub fn staged_encrypted_path(path: &SyncPath, prefix: &str, unique: &str) -> (res: Result<
    SyncPath,
    MountSyncError,
>)
    ensures
        match res {
            Ok(staged) => staging_path(path@, prefix@, unique@) == Some(staged@),
            Err(err) => staging_path(path@, prefix@, unique@) is None && is_format(
                err,
                "Encrypted file path "@ + path@.text + " has no parent directory"@,
            ),
        },
{
    let name = match path.file_name() {
        Some(name) => name.lossy(),
        None => "encrypted".to_owned(),
    };
    match path.parent() {
        Some(dir) => {
            let mut text = concat3(prefix, unique, ".");
            text.append(name.as_str());
            let folder = dir.join_text(ENCRYPTED_TMP_DIR_NAME);
            Ok(folder.join_text(text.as_str()))
        },
        None => {
            let shown = path.display();
            Err(
                MountSyncError::Format(
                    concat3("Encrypted file path ", shown.as_str(), " has no parent directory"),
                ),
            )
        },
    }
}

/// The label under which a mounted file is encrypted: its path below the root, the same on every
/// device.
pub fn encryption_label(mount_root: &SyncPath, path: &SyncPath) -> (res: Result<
    String,
    MountSyncError,
>)
    ensures
        match res {
            Ok(label) => strip_prefix(path@, mount_root@) is Some && label@ == relative_label(
                strip_prefix(path@, mount_root@)->0,
            ),
            Err(err) => strip_prefix(path@, mount_root@) is None && is_format(
                err,
                "Decrypted file "@ + path@.text + " is outside mount root"@,
            ),
        },
{
    match path.strip_prefix(mount_root) {
        Some(relative) => Ok(normalize_relative_path(&relative)),
        None => {
            let shown = path.display();
            Err(
                MountSyncError::Format(
                    concat3("Decrypted file ", shown.as_str(), " is outside mount root"),
                ),
            )
        },
    }
}

/// The name under which a file is remembered: that which is written on it, else its own.
pub fn remembered_name(path: &SyncPath, attribute: Option<String>) -> (res: Option<String>)
    ensures
        opt_text(res) == if attribute is Some {
            opt_text(attribute)
        } else {
            file_name_text(path@)
        },
{
    match attribute {
        Some(name) => Some(name),
        None => path.file_name_text(),
    }
}

impl SyncTracker {
    /// Under which identifier a mounted file is encrypted.
    pub fn choose_file_id(
        &self,
        path: &SyncPath,
        attribute: Option<String>,
        encrypted_id: &Option<String>,
        present: &PathSet,
    ) -> (res: FileIdChoice)
        requires
            self.wf(),
            present.wf(),
        ensures
            ({
                let ids = path_values(self.files.file_id_to_mount_path@);
                let taken = id_is_taken(ids, opt_text(attribute), path@, present@.keys());
                &&& opt_text(res.file_id) == desired_id(
                    ids,
                    path@,
                    opt_text(attribute),
                    opt_text(*encrypted_id),
                    present@.keys(),
                )
                &&& res.clear_attribute == taken
                &&& res.write_attribute == ((attribute is None || taken) && encrypted_id is Some)
            }),
    {
        let mut clear_attribute = false;
        if let Some(text) = attribute {
            let taken = match self.files.file_id_to_mount_path.get(&text) {
                Some(other) => !other.same(path) && present.contains_key(other),
                None => false,
            };
            if !taken {
                return FileIdChoice {
                    file_id: Some(text),
                    clear_attribute: false,
                    write_attribute: false,
                };
            }
            clear_attribute = true;
        }
        FileIdChoice {
            file_id: copy_opt_text(encrypted_id),
            clear_attribute,
            write_attribute: encrypted_id.is_some(),
        }
    }

    /// How a mounted file is encrypted.
    pub fn choose_encrypt_method(&self, len: u64, sparse: bool) -> (res: EncryptMethod)
        ensures
            res == encrypt_method(*self, len, sparse),
    {
        let chunk = self.stream_chunk_size();
        if sparse {
            let chunk_size: usize = match chunk {
                Some(size) => size,
                None => STREAM_CHUNK_SIZE_BYTES as usize,
            };
            return EncryptMethod::Sparse { chunk_size };
        }
        if self.should_stream_file(len) {
            if let Some(chunk_size) = chunk {
                return EncryptMethod::Streaming { chunk_size };
            }
        }
        EncryptMethod::Whole
    }

    /// Whether there is room to encrypt a mounted file. For a sparse file the sizes of it without
    /// its holes and of that encrypted are given.
    pub fn plan_encryption(
        &self,
        path: &SyncPath,
        encrypted_path: &SyncPath,
        len: u64,
        sparse: Option<(u64, u64)>,
        room: Option<u64>,
        journal_room: Option<u64>,
    ) -> (res: Result<(), MountSyncError>)
        ensures
            writeback_allowed(
                *self,
                res,
                path@,
                encrypted_path@,
                ciphertext_budget(len, sparse),
                "encrypted writeback"@,
                room,
                journal_room,
            ),
    {
        let needed: u64 = match sparse {
            Some((packed, ciphertext)) => packed.saturating_add(
                ciphertext.saturating_add(ciphertext),
            ).saturating_add(LOW_SPACE_ATOMIC_WRITE_OVERHEAD_BYTES),
            None => len.saturating_add(LOW_SPACE_ATOMIC_WRITE_OVERHEAD_BYTES),
        };
        self.writeback_room(
            path,
            encrypted_path,
            needed,
            "encrypted writeback",
            room,
            journal_room,
        )
    }

    /// Notes that a mounted file was encrypted: the digests that it had then, and the metadata
    /// where it could not be stored.
    pub fn finish_encryption(
        &mut self,
        path: &SyncPath,
        encrypted_path: &SyncPath,
        content_hash: Digest,
        metadata_hash: Option<Digest>,
        unstored: Option<FileMetadataData>,
    )
        requires
            old(self).wf(),
        ensures
            final(self).wf(),
            final(self).files.decrypted_hashes@ == old(self).files.decrypted_hashes@.insert(
                path@,
                content_hash,
            ),
            final(self).files.decrypted_metadata_hashes@ == digest_refreshed(
                old(self).files.decrypted_metadata_hashes@,
                path@,
                metadata_hash,
            ),
            final(self).files == (FileLedger {
                decrypted_hashes: final(self).files.decrypted_hashes,
                decrypted_metadata_hashes: final(self).files.decrypted_metadata_hashes,
                ..old(self).files
            }),
            metadata_settled(old(self).work, final(self).work, encrypted_path@, unstored),
            *final(self) == (SyncTracker {
                files: final(self).files,
                work: final(self).work,
                ..*old(self)
            }),
    {
        self.settle_metadata(encrypted_path, unstored);
        self.files.decrypted_hashes.insert(path.duplicate(), content_hash);
        refresh_digest(&mut self.files.decrypted_metadata_hashes, path, metadata_hash);
    }

    /// Notes that the metadata of a directory was encrypted.
    pub fn finish_directory_metadata(
        &mut self,
        path: &SyncPath,
        encrypted_path: &SyncPath,
        metadata_hash: Option<Digest>,
        unstored: Option<FileMetadataData>,
    )
        requires
            old(self).wf(),
        ensures
            final(self).wf(),
            final(self).files.decrypted_directory_metadata_hashes@ == digest_refreshed(
                old(self).files.decrypted_directory_metadata_hashes@,
                path@,
                metadata_hash,
            ),
            final(self).files == (FileLedger {
                decrypted_directory_metadata_hashes: final(
                    self).files.decrypted_directory_metadata_hashes,
                ..old(self).files
            }),
            metadata_settled(old(self).work, final(self).work, encrypted_path@, unstored),
            *final(self) == (SyncTracker {
                files: final(self).files,
                work: final(self).work,
                ..*old(self)
            }),
    {
        self.settle_metadata(encrypted_path, unstored);
        self.refresh_decrypted_directory_metadata_hash(path, metadata_hash);
    }

    /// Notes that the metadata of an encrypted file was stored, or is still to be.
    pub fn settle_metadata(
        &mut self,
        encrypted_path: &SyncPath,
        unstored: Option<FileMetadataData>,
    )
        requires
            old(self).wf(),
        ensures
            final(self).wf(),
            metadata_settled(old(self).work, final(self).work, encrypted_path@, unstored),
            *final(self) == (SyncTracker { work: final(self).work, ..*old(self) }),
    {
        match unstored {
            Some(record) => {
                self.record_pending_metadata(encrypted_path, record);
            },
            None => {
                self.clear_pending_metadata(encrypted_path);
            },
        }
    }
}

/// The metadata still to be stored, after that of an encrypted file was stored or could not be.
pub open spec fn metadata_settled(
    before: PendingWork,
    after: PendingWork,
    encrypted_path: PathView,
    unstored: Option<FileMetadataData>,
) -> bool {
    let pending = before.pending_metadata@;
    &&& after.pending_metadata@ == match unstored {
        Some(record) => pending.insert(encrypted_path, record),
        None => pending.remove(encrypted_path),
    }
    &&& after.pending_metadata_dirty == (before.pending_metadata_dirty || unstored is Some
        || pending.contains_key(encrypted_path))
    &&& after == (PendingWork {
        pending_metadata: after.pending_metadata,
        pending_metadata_dirty: after.pending_metadata_dirty,
        ..before
    })
}

/// A file is encrypted under the identifier that is written on it as long as no other mounted
/// file has it, whatever its encrypted form says.
pub proof fn own_identifier_is_kept(
    ids: TextEntries<PathView>,
    path: PathView,
    attribute: Seq<char>,
    encrypted_id: Option<Seq<char>>,
    present: Set<PathKey>,
)
    requires
        ids.contains_key(attribute) ==> same_path(ids[attribute], path) || !present.contains(
            ids[attribute].key(),
        ),
    ensures
        desired_id(ids, path, Some(attribute), encrypted_id, present) == Some(attribute),
{
}

} // verus!
