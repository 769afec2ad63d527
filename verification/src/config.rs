//! Settings of a mount, and how a configuration file changes them.

use vstd::prelude::*;
use vstd::string::*;

use crate::exclusion::texts;
use crate::path::{join_text, PathView, SyncPath};

verus! {

pub const SPARSE_SKIP_SIZE_BYTES: u64 = 512 * 1024 * 1024;
pub const STREAM_THRESHOLD_BYTES: u64 = 1024 * 1024 * 1024;
pub const STREAM_CHUNK_SIZE_BYTES: u64 = 4 * 1024 * 1024;
pub const STREAM_STABILITY_AGE_SECS: u64 = 5;
pub const STARTUP_LOCAL_DELETE_MAX_ACTIONS: usize = 20;

/// The integer that `toml` finds in a document: in the table `section`, or in the table
/// `table` of it, under `key`.
pub uninterp spec fn toml_integer_at(
    contents: Seq<char>,
    section: Seq<char>,
    table: Option<Seq<char>>,
    key: Seq<char>,
) -> Option<i64>;

/// `toml` parses the document and finds the table `section` in it.
pub uninterp spec fn toml_section(contents: Seq<char>, section: Seq<char>) -> bool;

/// `toml::from_str` and `toml::Value::get`: whether a document parses and has a value under
/// `section`.
#[verifier::external_body]
fn toml_has_section(contents: &str, section: &str) -> (res: bool)
    ensures
        res == toml_section(contents@, section@),
{
    match toml::from_str::<toml::Value>(contents) {
        Ok(value) => value.get(section).is_some(),
        Err(_) => false,
    }
}

/// The text of an optional string slice.
pub open spec fn opt_str(text: Option<&str>) -> Option<Seq<char>> {
    match text {
        Some(t) => Some(t@),
        None => None,
    }
}

/// `toml::from_str`, `toml::Value::get` and `toml::Value::as_integer`: the integer under a key,
/// where the document parses and has an integer there.
#[verifier::external_body]
fn toml_integer(contents: &str, section: &str, table: Option<&str>, key: &str) -> (res: Option<i64>)
    ensures
        res == toml_integer_at(contents@, section@, opt_str(table), key@),
{
    let value = toml::from_str::<toml::Value>(contents).ok()?;
    let section = value.get(section)?;
    let holder = match table {
        Some(name) => section.get(name)?,
        None => section,
    };
    holder.get(key)?.as_integer()
}

/// How a deletion is confirmed, and for how long what was deleted is kept.
#[derive(Debug)]
pub struct DeletionConfig {
    pub min_consecutive_missing_scans: u32,
    pub rapid_scan_total_duration_ms: u64,
    pub retention_days: u32,
    /// The folder to which deleted files are moved before they are removed for good.
    pub retention_folder: Option<SyncPath>,
}

/// An optional path.
pub open spec fn opt_path(path: Option<SyncPath>) -> Option<PathView> {
    match path {
        Some(p) => Some(p@),
        None => None,
    }
}

/// A copy of an optional path.
pub fn copy_opt_path(path: &Option<SyncPath>) -> (res: Option<SyncPath>)
    ensures
        opt_path(res) == opt_path(*path),
{
    match path {
        Some(p) => Some(p.duplicate()),
        None => None,
    }
}

impl Default for DeletionConfig {
    fn default() -> (res: DeletionConfig)
        ensures
            res.min_consecutive_missing_scans == 7,
            res.rapid_scan_total_duration_ms == 2718,
            res.retention_days == 7,
            res.retention_folder is None,
    {
        DeletionConfig {
            min_consecutive_missing_scans: 7,
            rapid_scan_total_duration_ms: 2718,
            retention_days: 7,
            retention_folder: None,
        }
    }
}

impl DeletionConfig {
    /// The time between two scans, so that all of them take the total duration.
    pub fn rapid_scan_interval_ms(&self) -> (res: u64)
        requires
            self.min_consecutive_missing_scans > 0,
        ensures
            res == self.rapid_scan_total_duration_ms as int
                / self.min_consecutive_missing_scans as int,
    {
        self.rapid_scan_total_duration_ms / self.min_consecutive_missing_scans as u64
    }

    /// The settings with the retention folder in the user's configuration directory.
    pub fn with_retention_folder(self, user_config_dir: &SyncPath) -> (res: DeletionConfig)
        ensures
            opt_path(res.retention_folder) == Some(join_text(user_config_dir@, "retention"@)),
            res.min_consecutive_missing_scans == self.min_consecutive_missing_scans,
            res.rapid_scan_total_duration_ms == self.rapid_scan_total_duration_ms,
            res.retention_days == self.retention_days,
    {
        DeletionConfig {
            min_consecutive_missing_scans: self.min_consecutive_missing_scans,
            rapid_scan_total_duration_ms: self.rapid_scan_total_duration_ms,
            retention_days: self.retention_days,
            retention_folder: Some(user_config_dir.join_text("retention")),
        }
    }
}

/// The settings of a mount.
#[derive(Debug)]
pub struct MountSyncConfig {
    pub deletion: DeletionConfig,
    pub sparse_skip_size_bytes: u64,
    pub stream_threshold_bytes: u64,
    pub stream_chunk_size_bytes: u64,
    pub stream_stability_age_secs: u64,
    pub startup_local_delete_max_actions: usize,
}

impl Default for MountSyncConfig {
    fn default() -> (res: MountSyncConfig)
        ensures
            default_config(res),
    {
        MountSyncConfig {
            deletion: DeletionConfig::default(),
            sparse_skip_size_bytes: SPARSE_SKIP_SIZE_BYTES,
            stream_threshold_bytes: STREAM_THRESHOLD_BYTES,
            stream_chunk_size_bytes: STREAM_CHUNK_SIZE_BYTES,
            stream_stability_age_secs: STREAM_STABILITY_AGE_SECS,
            startup_local_delete_max_actions: STARTUP_LOCAL_DELETE_MAX_ACTIONS,
        }
    }
}

/// The settings of a mount that nothing has configured.
pub open spec fn default_config(config: MountSyncConfig) -> bool {
    &&& config.deletion.min_consecutive_missing_scans == 7
    &&& config.deletion.rapid_scan_total_duration_ms == 2718
    &&& config.deletion.retention_days == 7
    &&& config.deletion.retention_folder is None
    &&& config.sparse_skip_size_bytes == SPARSE_SKIP_SIZE_BYTES
    &&& config.stream_threshold_bytes == STREAM_THRESHOLD_BYTES
    &&& config.stream_chunk_size_bytes == STREAM_CHUNK_SIZE_BYTES
    &&& config.stream_stability_age_secs == STREAM_STABILITY_AGE_SECS
    &&& config.startup_local_delete_max_actions == STARTUP_LOCAL_DELETE_MAX_ACTIONS
}

/// The integers that a configuration gives for a mount.
#[derive(Debug, Clone, Copy)]
pub struct MountSettings {
    pub min_consecutive_missing_scans: Option<i64>,
    pub rapid_scan_total_duration_ms: Option<i64>,
    pub retention_days: Option<i64>,
    pub sparse_skip_size_bytes: Option<i64>,
    pub stream_threshold_bytes: Option<i64>,
    pub stream_chunk_size_bytes: Option<i64>,
    pub stream_stability_age_secs: Option<i64>,
    pub startup_local_delete_max_actions: Option<i64>,
}

/// A setting is given and is more than zero.
pub open spec fn given_positive(value: Option<i64>) -> bool {
    value matches Some(v) && v > 0
}

/// A setting is given and is not negative.
pub open spec fn given_natural(value: Option<i64>) -> bool {
    value matches Some(v) && v >= 0
}

/// The settings after those given in a configuration were taken over: one that is out of range
/// changes nothing, and one that is too large for its type is cut to its lowest bits.
pub open spec fn with_settings(before: MountSyncConfig, given: MountSettings) -> MountSyncConfig {
    MountSyncConfig {
        deletion: DeletionConfig {
            min_consecutive_missing_scans: if given_positive(given.min_consecutive_missing_scans) {
                given.min_consecutive_missing_scans->0 as u32
            } else {
                before.deletion.min_consecutive_missing_scans
            },
            rapid_scan_total_duration_ms: if given_positive(given.rapid_scan_total_duration_ms) {
                given.rapid_scan_total_duration_ms->0 as u64
            } else {
                before.deletion.rapid_scan_total_duration_ms
            },
            retention_days: if given_positive(given.retention_days) {
                given.retention_days->0 as u32
            } else {
                before.deletion.retention_days
            },
            retention_folder: before.deletion.retention_folder,
        },
        sparse_skip_size_bytes: if given_natural(given.sparse_skip_size_bytes) {
            given.sparse_skip_size_bytes->0 as u64
        } else {
            before.sparse_skip_size_bytes
        },
        stream_threshold_bytes: if given_natural(given.stream_threshold_bytes) {
            given.stream_threshold_bytes->0 as u64
        } else {
            before.stream_threshold_bytes
        },
        stream_chunk_size_bytes: if given_positive(given.stream_chunk_size_bytes) {
            given.stream_chunk_size_bytes->0 as u64
        } else {
            before.stream_chunk_size_bytes
        },
        stream_stability_age_secs: if given_natural(given.stream_stability_age_secs) {
            given.stream_stability_age_secs->0 as u64
        } else {
            before.stream_stability_age_secs
        },
        startup_local_delete_max_actions: if given_positive(
            given.startup_local_delete_max_actions,
        ) {
            given.startup_local_delete_max_actions->0 as usize
        } else {
            before.startup_local_delete_max_actions
        },
    }
}

fn positive(value: Option<i64>) -> (res: Option<i64>)
    ensures
        res == if given_positive(value) {
            value
        } else {
            None
        },
{
    match value {
        Some(v) => if v > 0 {
            Some(v)
        } else {
            None
        },
        None => None,
    }
}

fn natural(value: Option<i64>) -> (res: Option<i64>)
    ensures
        res == if given_natural(value) {
            value
        } else {
            None
        },
{
    match value {
        Some(v) => if v >= 0 {
            Some(v)
        } else {
            None
        },
        None => None,
    }
}

/// Takes over the settings that a configuration gives.
pub fn apply_settings(given: MountSettings, config: &mut MountSyncConfig)
    ensures
        *final(config) == with_settings(*old(config), given),
{
    if let Some(v) = positive(given.min_consecutive_missing_scans) {
        config.deletion.min_consecutive_missing_scans = #[verifier::truncate] (v as u32);
    }
    if let Some(v) = positive(given.rapid_scan_total_duration_ms) {
        config.deletion.rapid_scan_total_duration_ms = v as u64;
    }
    if let Some(v) = positive(given.retention_days) {
        config.deletion.retention_days = #[verifier::truncate] (v as u32);
    }
    if let Some(v) = natural(given.sparse_skip_size_bytes) {
        config.sparse_skip_size_bytes = v as u64;
    }
    if let Some(v) = natural(given.stream_threshold_bytes) {
        config.stream_threshold_bytes = v as u64;
    }
    if let Some(v) = positive(given.stream_chunk_size_bytes) {
        config.stream_chunk_size_bytes = v as u64;
    }
    if let Some(v) = natural(given.stream_stability_age_secs) {
        config.stream_stability_age_secs = v as u64;
    }
    if let Some(v) = positive(given.startup_local_delete_max_actions) {
        config.startup_local_delete_max_actions = #[verifier::truncate] (v as usize);
    }
}

/// The integers that a document gives for a mount.
pub open spec fn settings_in(contents: Seq<char>) -> MountSettings {
    let m = "mount"@;
    let d = Some("deletion"@);
    MountSettings {
        min_consecutive_missing_scans: toml_integer_at(
            contents,
            m,
            d,
            "min_consecutive_missing_scans"@,
        ),
        rapid_scan_total_duration_ms: toml_integer_at(
            contents,
            m,
            d,
            "rapid_scan_total_duration_ms"@,
        ),
        retention_days: toml_integer_at(contents, m, d, "retention_days"@),
        sparse_skip_size_bytes: toml_integer_at(contents, m, None, "sparse_skip_size_bytes"@),
        stream_threshold_bytes: toml_integer_at(contents, m, None, "stream_threshold_bytes"@),
        stream_chunk_size_bytes: toml_integer_at(contents, m, None, "stream_chunk_size_bytes"@),
        stream_stability_age_secs: toml_integer_at(contents, m, None, "stream_stability_age_secs"@),
        startup_local_delete_max_actions: toml_integer_at(
            contents,
            m,
            None,
            "startup_local_delete_max_actions"@,
        ),
    }
}

/// The settings after those of a document were taken over.
pub open spec fn configured_by(before: MountSyncConfig, contents: Seq<char>) -> MountSyncConfig {
    if toml_section(contents, "mount"@) {
        with_settings(before, settings_in(contents))
    } else {
        before
    }
}

/// The settings after those of several documents were taken over, a later document after an
/// earlier one.
pub open spec fn configured(before: MountSyncConfig, documents: Seq<Seq<char>>) -> MountSyncConfig
    decreases documents.len(),
{
    if documents.len() == 0 {
        before
    } else {
        configured_by(configured(before, documents.drop_last()), documents.last())
    }
}

/// Takes over the settings of a configuration document, and says whether it has any for a
/// mount.
pub fn apply_mount_config_from_str(contents: &str, config: &mut MountSyncConfig) -> (res: bool)
    ensures
        res == toml_section(contents@, "mount"@),
        *final(config) == configured_by(*old(config), contents@),
{
    if !toml_has_section(contents, "mount") {
        return false;
    }
    let deletion = Some("deletion");
    let given = MountSettings {
        min_consecutive_missing_scans: toml_integer(
            contents,
            "mount",
            deletion,
            "min_consecutive_missing_scans",
        ),
        rapid_scan_total_duration_ms: toml_integer(
            contents,
            "mount",
            deletion,
            "rapid_scan_total_duration_ms",
        ),
        retention_days: toml_integer(contents, "mount", deletion, "retention_days"),
        sparse_skip_size_bytes: toml_integer(contents, "mount", None, "sparse_skip_size_bytes"),
        stream_threshold_bytes: toml_integer(contents, "mount", None, "stream_threshold_bytes"),
        stream_chunk_size_bytes: toml_integer(contents, "mount", None, "stream_chunk_size_bytes"),
        stream_stability_age_secs: toml_integer(
            contents,
            "mount",
            None,
            "stream_stability_age_secs",
        ),
        startup_local_delete_max_actions: toml_integer(
            contents,
            "mount",
            None,
            "startup_local_delete_max_actions",
        ),
    };
    apply_settings(given, config);
    true
}

/// The settings of a mount after the given configuration documents, in the order in which they
/// are read, and whether any of them has settings for a mount.
pub fn load_mount_config(documents: &Vec<String>) -> (res: (MountSyncConfig, bool))
    ensures
        exists|start: MountSyncConfig|
            default_config(start) && res.0 == #[trigger] configured(start, texts(documents@)),
        res.1 == exists|i: int|
            0 <= i < documents@.len() && toml_section(#[trigger] documents@[i]@, "mount"@),
{
    let mut config = MountSyncConfig::default();
    let ghost start = config;
    let mut saw_any = false;
    let mut i: usize = 0;
    assert(texts(documents@).take(0) =~= Seq::empty());
    while i < documents.len()
        invariant
            i <= documents.len(),
            config == configured(start, texts(documents@).take(i as int)),
            saw_any == exists|k: int|
                0 <= k < i && toml_section(#[trigger] documents@[k]@, "mount"@),
        decreases documents.len() - i,
    {
        proof {
            assert(texts(documents@).take(i + 1).drop_last() =~= texts(documents@).take(i as int));
            assert(texts(documents@).take(i + 1).last() == documents@[i as int]@);
        }
        if apply_mount_config_from_str(documents[i].as_str(), &mut config) {
            saw_any = true;
        }
        i += 1;
    }
    assert(texts(documents@).take(documents@.len() as int) =~= texts(documents@));
    assert(default_config(start));
    (config, saw_any)
}

} // verus!
