//! What is shown of the copies that stay on this side, and how they are resolved.

use vstd::prelude::*;
use vstd::string::*;

use crate::config::opt_path;
use crate::conflicts::{copy_made_at, copy_time, uuid_shown, uuid_text};
use crate::errors::{is_format, opt_text, MountSyncError};
use crate::local_only::{
    derive_live_path_from_recovered_pending_path, live_path, stamp_text, utc_stamp, FIRST_SECS,
    LAST_SECS,
};
use crate::path::{
    file_name_text, join, join_text, strip_prefix, PathKey, PathSet, PathView, SyncPath,
};
use crate::path_order::{path_rank, path_rank_turned, ranked, sort_ranked, Ranked};
use crate::text::{concat2, concat3};
use crate::tracker::{
    path_views, ConflictBaseline, ConflictKind, FileLedger, HeldBack, LocalCopies, SyncTracker,
    UtcNanos,
};

verus! {

/// How a conflict is resolved.
#[derive(Debug, Clone, Copy, PartialEq, Eq, Structural)]
pub enum ConflictResolutionAction {
    KeepMountedFile,
    UseConflictCopy,
    MergeText,
    SaveConflictAsNew,
    ArchiveAndDismiss,
}

/// A wish to resolve a conflict.
#[derive(Debug)]
pub struct ConflictResolutionRequest {
    pub request_id: u128,
    pub conflict_id: u128,
    pub action: ConflictResolutionAction,
    pub merged_text: Option<String>,
    pub destination_path: Option<SyncPath>,
    pub requested_at: UtcNanos,
}

/// What came of a conflict.
#[derive(Debug)]
pub struct ConflictResolutionResult {
    pub resolved_conflict_id: u128,
    pub archive_paths: Vec<SyncPath>,
    pub live_path: Option<SyncPath>,
    pub requires_writeback: bool,
}

/// The answer to a wish to resolve a conflict.
#[derive(Debug)]
pub struct ConflictResolutionResponse {
    pub request_id: u128,
    pub success: bool,
    pub result: Option<ConflictResolutionResult>,
    pub error: Option<String>,
}

/// How a recovered copy is resolved.
#[derive(Debug, Clone, Copy, PartialEq, Eq, Structural)]
pub enum RecoveryCopyResolutionAction {
    ReplaceMountedFile,
    SaveAsNew,
    ArchiveAndDismiss,
}

/// A wish to resolve a recovered copy.
#[derive(Debug)]
pub struct RecoveryCopyResolutionRequest {
    pub request_id: u128,
    pub recovery_relative_path: SyncPath,
    pub action: RecoveryCopyResolutionAction,
    pub destination_path: Option<SyncPath>,
    pub requested_at: UtcNanos,
}

/// What came of a recovered copy.
#[derive(Debug)]
pub struct RecoveryCopyResolutionResult {
    pub resolved_recovery_relative_path: SyncPath,
    pub archive_paths: Vec<SyncPath>,
    pub live_path: Option<SyncPath>,
    pub requires_writeback: bool,
}

/// The answer to a wish to resolve a recovered copy.
#[derive(Debug)]
pub struct RecoveryCopyResolutionResponse {
    pub request_id: u128,
    pub success: bool,
    pub result: Option<RecoveryCopyResolutionResult>,
    pub error: Option<String>,
}

/// What is shown of a conflict.
#[derive(Debug)]
pub struct MountConflictRecord {
    pub id: u128,
    pub kind: ConflictKind,
    pub live_relative_path: SyncPath,
    pub conflict_relative_path: SyncPath,
    pub created_at: UtcNanos,
    pub edited: bool,
    pub live_exists: bool,
    pub text_merge_supported: bool,
    pub live_size_bytes: Option<u64>,
    pub conflict_size_bytes: u64,
}

/// What is shown of a conflict, with the texts of both files where they are text.
#[derive(Debug)]
pub struct MountConflictPreview {
    pub record: MountConflictRecord,
    pub live_path: SyncPath,
    pub conflict_path: SyncPath,
    pub live_text: Option<String>,
    pub conflict_text: Option<String>,
}

/// What is shown of a recovered copy.
#[derive(Debug)]
pub struct MountRecoveryCopyRecord {
    pub recovery_relative_path: SyncPath,
    pub live_relative_path: SyncPath,
    pub created_at: UtcNanos,
    pub live_exists: bool,
    pub text_preview_supported: bool,
    pub live_size_bytes: Option<u64>,
    pub recovery_size_bytes: u64,
}

/// What is shown of a recovered copy, with the texts of both files where they are text.
#[derive(Debug)]
pub struct MountRecoveryCopyPreview {
    pub record: MountRecoveryCopyRecord,
    pub live_path: SyncPath,
    pub recovery_path: SyncPath,
    pub live_text: Option<String>,
    pub recovery_text: Option<String>,
}

/// What a look at a copy and at the file that it belongs to found.
#[derive(Debug, Clone, Copy, PartialEq, Eq, Structural)]
pub struct CopyLook {
    pub copy_size: Option<u64>,
    pub live_size: Option<u64>,
    pub live_exists: bool,
    pub copy_is_text: bool,
    pub live_is_text: bool,
}

impl Ranked for MountConflictRecord {
    open spec fn precedes(self, other: Self) -> bool {
        let by_live = path_rank(self.live_relative_path@, other.live_relative_path@);
        by_live < 0 || (by_live == 0 && path_rank(
            self.conflict_relative_path@,
            other.conflict_relative_path@,
        ) <= 0)
    }

    proof fn comparable(a: Self, b: Self) {
        path_rank_turned(a.live_relative_path@, b.live_relative_path@);
        path_rank_turned(a.conflict_relative_path@, b.conflict_relative_path@);
    }

    fn comes_first(&self, other: &Self) -> (res: bool) {
        let by_live: i8 = self.live_relative_path.rank(&other.live_relative_path);
        by_live < 0 || (by_live == 0 && self.conflict_relative_path.rank(
            &other.conflict_relative_path,
        ) <= 0)
    }
}

impl Ranked for MountRecoveryCopyRecord {
    open spec fn precedes(self, other: Self) -> bool {
        let by_live = path_rank(self.live_relative_path@, other.live_relative_path@);
        by_live < 0 || (by_live == 0 && path_rank(
            self.recovery_relative_path@,
            other.recovery_relative_path@,
        ) <= 0)
    }

    proof fn comparable(a: Self, b: Self) {
        path_rank_turned(a.live_relative_path@, b.live_relative_path@);
        path_rank_turned(a.recovery_relative_path@, b.recovery_relative_path@);
    }

    fn comes_first(&self, other: &Self) -> (res: bool) {
        let by_live: i8 = self.live_relative_path.rank(&other.live_relative_path);
        by_live < 0 || (by_live == 0 && self.recovery_relative_path.rank(
            &other.recovery_relative_path,
        ) <= 0)
    }
}

/// A conflict is shown: both its files are in the mount, and the copy is there.
pub open spec fn conflict_is_shown(
    mount_root: PathView,
    conflict_path: PathView,
    baseline: ConflictBaseline,
    look: CopyLook,
) -> bool {
    strip_prefix(conflict_path, mount_root) is Some && strip_prefix(
        baseline.live_path@,
        mount_root,
    ) is Some && look.copy_size is Some
}

/// What is shown of a conflict.
pub open spec fn shows_conflict(
    record: MountConflictRecord,
    mount_root: PathView,
    conflict_path: PathView,
    baseline: ConflictBaseline,
    look: CopyLook,
) -> bool {
    &&& record.id == baseline.id
    &&& record.kind == baseline.kind
    &&& Some(record.live_relative_path@) == strip_prefix(baseline.live_path@, mount_root)
    &&& Some(record.conflict_relative_path@) == strip_prefix(conflict_path, mount_root)
    &&& record.created_at == baseline.created_at
    &&& record.edited == baseline.edited
    &&& record.live_exists == look.live_exists
    &&& record.text_merge_supported == (look.live_exists && look.copy_is_text && look.live_is_text)
    &&& record.live_size_bytes == look.live_size
    &&& Some(record.conflict_size_bytes) == look.copy_size
}

/// What is shown of a conflict.
pub fn conflict_record_for_path(
    mount_root: &SyncPath,
    conflict_path: &SyncPath,
    baseline: &ConflictBaseline,
    look: CopyLook,
) -> (res: Option<MountConflictRecord>)
    ensures
        res is Some <==> conflict_is_shown(mount_root@, conflict_path@, *baseline, look),
        res matches Some(record) ==> shows_conflict(
            record,
            mount_root@,
            conflict_path@,
            *baseline,
            look,
        ),
{
    let conflict_relative_path = match conflict_path.strip_prefix(mount_root) {
        Some(relative) => relative,
        None => {
            return None;
        },
    };
    let live_relative_path = match baseline.live_path.strip_prefix(mount_root) {
        Some(relative) => relative,
        None => {
            return None;
        },
    };
    let conflict_size_bytes: u64 = match look.copy_size {
        Some(size) => size,
        None => {
            return None;
        },
    };
    Some(
        MountConflictRecord {
            id: baseline.id,
            kind: baseline.kind,
            live_relative_path,
            conflict_relative_path,
            created_at: baseline.created_at,
            edited: baseline.edited,
            live_exists: look.live_exists,
            text_merge_supported: look.live_exists && look.copy_is_text && look.live_is_text,
            live_size_bytes: look.live_size,
            conflict_size_bytes,
        },
    )
}

/// The file that a recovered copy belongs to.
pub open spec fn recovered_from(recovery_path: PathView) -> PathView {
    live_path(recovery_path, "recovered-pending"@, "recovered"@)
}

/// What is shown of a recovered copy: its file and it are in the mount, and it is there.
pub fn recovery_copy_record_for_path(
    mount_root: &SyncPath,
    recovery_path: &SyncPath,
    look: CopyLook,
    now: UtcNanos,
) -> (res: Option<MountRecoveryCopyRecord>)
    ensures
        res is Some <==> strip_prefix(recovery_path@, mount_root@) is Some && strip_prefix(
            recovered_from(recovery_path@),
            mount_root@,
        ) is Some && look.copy_size is Some,
        res matches Some(record) ==> {
            &&& Some(record.recovery_relative_path@) == strip_prefix(recovery_path@, mount_root@)
            &&& Some(record.live_relative_path@) == strip_prefix(
                recovered_from(recovery_path@),
                mount_root@,
            )
            &&& record.created_at == copy_made_at(recovery_path@, "recovered-pending"@, now)
            &&& record.live_exists == look.live_exists
            &&& record.text_preview_supported == (look.copy_is_text && look.live_exists
                && look.live_is_text)
            &&& record.live_size_bytes == look.live_size
            &&& Some(record.recovery_size_bytes) == look.copy_size
        },
{
    let recovery_relative_path = match recovery_path.strip_prefix(mount_root) {
        Some(relative) => relative,
        None => {
            return None;
        },
    };
    let live = derive_live_path_from_recovered_pending_path(recovery_path);
    let live_relative_path = match live.strip_prefix(mount_root) {
        Some(relative) => relative,
        None => {
            return None;
        },
    };
    let recovery_size_bytes: u64 = match look.copy_size {
        Some(size) => size,
        None => {
            return None;
        },
    };
    Some(
        MountRecoveryCopyRecord {
            recovery_relative_path,
            live_relative_path,
            created_at: copy_time(recovery_path, "recovered-pending", now),
            live_exists: look.live_exists,
            text_preview_supported: look.copy_is_text && look.live_exists && look.live_is_text,
            live_size_bytes: look.live_size,
            recovery_size_bytes,
        },
    )
}

/// Puts the conflicts in the order in which they are shown: by their files, then by the copies.
pub fn order_conflict_records(records: Vec<MountConflictRecord>) -> (res: Vec<MountConflictRecord>)
    ensures
        res@ == ranked(records@),
{
    sort_ranked(records)
}

/// Puts the recovered copies in the order in which they are shown: by their files, then by the
/// copies.
pub fn order_recovery_records(records: Vec<MountRecoveryCopyRecord>) -> (res: Vec<
    MountRecoveryCopyRecord,
>)
    ensures
        res@ == ranked(records@),
{
    sort_ranked(records)
}

/// One step of a resolution.
#[derive(Debug)]
pub enum ResolutionStep {
    /// Copy a file, with its metadata and times, to the archive.
    Archive { source: SyncPath, target: SyncPath },
    /// Put the content of a file, with its metadata and times, in the place of another.
    Replace { source: SyncPath, destination: SyncPath },
    /// Like `Replace`, and the metadata of the file that was there before stays.
    ReplaceKeepingMetadata { source: SyncPath, destination: SyncPath },
    /// Make an ordinary writable file of a copy.
    MakeOrdinary { path: SyncPath },
    /// Write a text in the place of a file.
    WriteText { destination: SyncPath, text: String },
    /// Remove a file.
    Remove { path: SyncPath },
}

/// One step of a resolution, as plain values.
pub enum StepView {
    Archive { source: PathView, target: PathView },
    Replace { source: PathView, destination: PathView },
    ReplaceKeepingMetadata { source: PathView, destination: PathView },
    MakeOrdinary { path: PathView },
    WriteText { destination: PathView, text: Seq<char> },
    Remove { path: PathView },
}

impl View for ResolutionStep {
    type V = StepView;

    open spec fn view(&self) -> StepView {
        match self {
            ResolutionStep::Archive { source, target } => StepView::Archive {
                source: source@,
                target: target@,
            },
            ResolutionStep::Replace { source, destination } => StepView::Replace {
                source: source@,
                destination: destination@,
            },
            ResolutionStep::ReplaceKeepingMetadata { source, destination } =>
                StepView::ReplaceKeepingMetadata { source: source@, destination: destination@ },
            ResolutionStep::MakeOrdinary { path } => StepView::MakeOrdinary { path: path@ },
            ResolutionStep::WriteText { destination, text } => StepView::WriteText {
                destination: destination@,
                text: text@,
            },
            ResolutionStep::Remove { path } => StepView::Remove { path: path@ },
        }
    }
}

/// The steps as plain values.
pub open spec fn step_views(steps: Seq<ResolutionStep>) -> Seq<StepView> {
    steps.map_values(|s: ResolutionStep| s@)
}

/// How a copy is resolved, step by step.
#[derive(Debug)]
pub struct ResolutionPlan {
    pub copy_path: SyncPath,
    pub archive_dir: SyncPath,
    pub steps: Vec<ResolutionStep>,
    pub archive_paths: Vec<SyncPath>,
    /// The file that is to be encrypted afterwards.
    pub live_path: Option<SyncPath>,
}

/// The folder in which the files of a resolution are archived.
pub open spec fn archive_dir(
    retention: PathView,
    group: Seq<char>,
    stamp: Seq<char>,
    id: u128,
) -> PathView {
    join_text(join_text(retention, group), stamp + "_"@ + uuid_shown(id))
}

/// Where a file is archived.
pub open spec fn archived_at(dir: PathView, label: Seq<char>, source: PathView) -> PathView {
    join_text(
        dir,
        label + "_"@ + match file_name_text(source) {
            Some(name) => name,
            None => "unknown"@,
        },
    )
}

/// Where a file is archived.
pub fn archive_path(dir: &SyncPath, label: &str, source: &SyncPath) -> (res: SyncPath)
    ensures
        res@ == archived_at(dir@, label@, source@),
{
    let name = match source.file_name_text() {
        Some(name) => name,
        None => "unknown".to_owned(),
    };
    let text = concat3(label, "_", name.as_str());
    dir.join_text(text.as_str())
}

fn archive_folder(retention: &Option<SyncPath>, group: &str, secs: i64, id: u128) -> (res: Result<
    SyncPath,
    MountSyncError,
>)
    requires
        FIRST_SECS <= secs <= LAST_SECS,
    ensures
        match res {
            Ok(dir) => *retention matches Some(folder) && dir@ == archive_dir(
                folder@,
                group@,
                utc_stamp(secs),
                id,
            ),
            Err(err) => retention is None && is_format(err, "Retention folder is not configured"@),
        },
{
    match retention {
        Some(folder) => {
            let root = folder.join_text(group);
            let stamp = stamp_text(secs);
            let shown = uuid_text(id);
            let name = concat3(stamp.as_str(), "_", shown.as_str());
            Ok(root.join_text(name.as_str()))
        },
        None => Err(MountSyncError::Format("Retention folder is not configured".to_owned())),
    }
}

/// The steps by which a conflict is resolved, and where they fail: what is archived, and the file
/// that is to be encrypted afterwards.
pub open spec fn conflict_steps(
    action: ConflictResolutionAction,
    copy: PathView,
    live: PathView,
    live_exists: bool,
    dir: PathView,
    destination: PathView,
    merged_text: Seq<char>,
) -> (Seq<StepView>, Seq<PathView>, Option<PathView>) {
    let copy_archive = archived_at(dir, "conflict"@, copy);
    let live_archive = archived_at(dir, "live"@, live);
    let keep_copy = StepView::Archive { source: copy, target: copy_archive };
    let keep_live = StepView::Archive { source: live, target: live_archive };
    let drop_copy = StepView::Remove { path: copy };
    match action {
        ConflictResolutionAction::KeepMountedFile => (
            seq![keep_copy, drop_copy],
            seq![copy_archive],
            None,
        ),
        ConflictResolutionAction::UseConflictCopy => (
            (if live_exists {
                seq![keep_live, StepView::ReplaceKeepingMetadata { source: copy, destination: live }]
            } else {
                seq![StepView::Replace { source: copy, destination: live }]
            }) + seq![StepView::MakeOrdinary { path: live }, drop_copy],
            if live_exists {
                seq![live_archive]
            } else {
                Seq::empty()
            },
            Some(live),
        ),
        ConflictResolutionAction::MergeText => (
            seq![
                keep_live,
                keep_copy,
                StepView::WriteText { destination: live, text: merged_text },
                drop_copy,
            ],
            seq![live_archive, copy_archive],
            Some(live),
        ),
        ConflictResolutionAction::SaveConflictAsNew => (
            seq![
                StepView::Replace { source: copy, destination },
                StepView::MakeOrdinary { path: destination },
                keep_copy,
                drop_copy,
            ],
            seq![copy_archive],
            Some(destination),
        ),
        ConflictResolutionAction::ArchiveAndDismiss => (
            seq![keep_copy, drop_copy],
            seq![copy_archive],
            None,
        ),
    }
}

/// The message of a destination that is taken.
pub open spec fn taken_message(destination: Seq<char>) -> Seq<char> {
    "Destination "@ + destination + " already exists"@
}

/// The path to which a copy is saved.
pub open spec fn saved_at(mount_root: PathView, destination: Option<PathView>) -> PathView {
    match destination {
        Some(relative) => join(mount_root, relative),
        None => mount_root,
    }
}

/// The text that a request brings with it.
pub open spec fn asked_text(text: Option<String>) -> Seq<char> {
    match text {
        Some(t) => t@,
        None => Seq::empty(),
    }
}

/// Why a conflict cannot be resolved as asked.
pub open spec fn conflict_refusal(
    action: ConflictResolutionAction,
    merged_text: Option<Seq<char>>,
    live_exists: bool,
    mount_root: PathView,
    destination: Option<PathView>,
    present: Set<PathKey>,
) -> Option<Seq<char>> {
    match action {
        ConflictResolutionAction::MergeText => if merged_text is None {
            Some("Merged text is required for merge_text"@)
        } else if !live_exists {
            Some("Cannot merge text because the mounted file no longer exists"@)
        } else {
            None
        },
        ConflictResolutionAction::SaveConflictAsNew => if destination is None {
            Some("Destination path is required for save_conflict_as_new"@)
        } else if present.contains(saved_at(mount_root, destination).key()) {
            Some(taken_message(saved_at(mount_root, destination).text))
        } else {
            None
        },
        ConflictResolutionAction::ArchiveAndDismiss => if live_exists {
            Some("archive_and_dismiss is only allowed when the mounted file is absent"@)
        } else {
            None
        },
        _ => None,
    }
}

fn taken_error(destination: &SyncPath) -> (res: MountSyncError)
    ensures
        is_format(res, taken_message(destination@.text)),
{
    let shown = destination.display();
    MountSyncError::Format(concat3("Destination ", shown.as_str(), " already exists"))
}

fn push_step(steps: &mut Vec<ResolutionStep>, step: ResolutionStep)
    ensures
        step_views(final(steps)@) == step_views(old(steps)@).push(step@),
{
    steps.push(step);
    assert(step_views(steps@) =~= step_views(old(steps)@).push(step@));
}

fn push_path(paths: &mut Vec<SyncPath>, path: SyncPath)
    ensures
        path_views(final(paths)@) == path_views(old(paths)@).push(path@),
{
    paths.push(path);
    assert(path_views(paths@) =~= path_views(old(paths)@).push(path@));
}

fn push_archive(
    steps: &mut Vec<ResolutionStep>,
    paths: &mut Vec<SyncPath>,
    dir: &SyncPath,
    label: &str,
    source: &SyncPath,
)
    ensures
        step_views(final(steps)@) == step_views(old(steps)@).push(
            StepView::Archive { source: source@, target: archived_at(dir@, label@, source@) },
        ),
        path_views(final(paths)@) == path_views(old(paths)@).push(
            archived_at(dir@, label@, source@),
        ),
{
    let target = archive_path(dir, label, source);
    push_path(paths, target.duplicate());
    push_step(steps, ResolutionStep::Archive { source: source.duplicate(), target });
}

fn plan_conflict(
    action: ConflictResolutionAction,
    copy: &SyncPath,
    live: &SyncPath,
    live_exists: bool,
    dir: SyncPath,
    destination: &SyncPath,
    text: &str,
) -> (res: ResolutionPlan)
    ensures
        res.copy_path@ == copy@,
        res.archive_dir@ == dir@,
        (step_views(res.steps@), path_views(res.archive_paths@), opt_path(res.live_path))
            == conflict_steps(action, copy@, live@, live_exists, dir@, destination@, text@),
{
    let mut steps: Vec<ResolutionStep> = Vec::new();
    let mut paths: Vec<SyncPath> = Vec::new();
    let mut to_encrypt: Option<SyncPath> = None;
    assert(step_views(steps@) =~= Seq::<StepView>::empty());
    assert(path_views(paths@) =~= Seq::<PathView>::empty());
    match action {
        ConflictResolutionAction::KeepMountedFile => {
            push_archive(&mut steps, &mut paths, &dir, "conflict", copy);
        },
        ConflictResolutionAction::UseConflictCopy => {
            if live_exists {
                push_archive(&mut steps, &mut paths, &dir, "live", live);
                push_step(
                    &mut steps,
                    ResolutionStep::ReplaceKeepingMetadata {
                        source: copy.duplicate(),
                        destination: live.duplicate(),
                    },
                );
            } else {
                push_step(
                    &mut steps,
                    ResolutionStep::Replace {
                        source: copy.duplicate(),
                        destination: live.duplicate(),
                    },
                );
            }
            push_step(&mut steps, ResolutionStep::MakeOrdinary { path: live.duplicate() });
            to_encrypt = Some(live.duplicate());
        },
        ConflictResolutionAction::MergeText => {
            push_archive(&mut steps, &mut paths, &dir, "live", live);
            push_archive(&mut steps, &mut paths, &dir, "conflict", copy);
            push_step(&mut steps, ResolutionStep::WriteText { destination: live.duplicate(), text: text.to_owned() });
            to_encrypt = Some(live.duplicate());
        },
        ConflictResolutionAction::SaveConflictAsNew => {
            push_step(
                &mut steps,
                ResolutionStep::Replace {
                    source: copy.duplicate(),
                    destination: destination.duplicate(),
                },
            );
            push_step(&mut steps, ResolutionStep::MakeOrdinary { path: destination.duplicate() });
            push_archive(&mut steps, &mut paths, &dir, "conflict", copy);
            to_encrypt = Some(destination.duplicate());
        },
        ConflictResolutionAction::ArchiveAndDismiss => {
            push_archive(&mut steps, &mut paths, &dir, "conflict", copy);
        },
    }
    push_step(&mut steps, ResolutionStep::Remove { path: copy.duplicate() });
    proof {
        let plan = conflict_steps(action, copy@, live@, live_exists, dir@, destination@, text@);
        assert(step_views(steps@) =~= plan.0);
        assert(path_views(paths@) =~= plan.1);
    }
    ResolutionPlan {
        copy_path: copy.duplicate(),
        archive_dir: dir,
        steps,
        archive_paths: paths,
        live_path: to_encrypt,
    }
}

/// The steps by which a recovered copy is resolved, what is archived, and the file that is to be
/// encrypted afterwards.
pub open spec fn recovery_steps(
    action: RecoveryCopyResolutionAction,
    copy: PathView,
    live: PathView,
    live_exists: bool,
    dir: PathView,
    destination: PathView,
) -> (Seq<StepView>, Seq<PathView>, Option<PathView>) {
    let copy_archive = archived_at(dir, "recovery"@, copy);
    let live_archive = archived_at(dir, "live"@, live);
    let keep_copy = StepView::Archive { source: copy, target: copy_archive };
    let drop_copy = StepView::Remove { path: copy };
    match action {
        RecoveryCopyResolutionAction::ReplaceMountedFile => (
            (if live_exists {
                seq![
                    StepView::Archive { source: live, target: live_archive },
                    StepView::ReplaceKeepingMetadata { source: copy, destination: live },
                ]
            } else {
                seq![StepView::Replace { source: copy, destination: live }]
            }) + seq![StepView::MakeOrdinary { path: live }, keep_copy, drop_copy],
            if live_exists {
                seq![live_archive, copy_archive]
            } else {
                seq![copy_archive]
            },
            Some(live),
        ),
        RecoveryCopyResolutionAction::SaveAsNew => (
            seq![
                StepView::Replace { source: copy, destination },
                StepView::MakeOrdinary { path: destination },
                keep_copy,
                drop_copy,
            ],
            seq![copy_archive],
            Some(destination),
        ),
        RecoveryCopyResolutionAction::ArchiveAndDismiss => (
            seq![keep_copy, drop_copy],
            seq![copy_archive],
            None,
        ),
    }
}

/// Why a recovered copy cannot be resolved as asked.
pub open spec fn recovery_refusal(
    action: RecoveryCopyResolutionAction,
    mount_root: PathView,
    destination: Option<PathView>,
    present: Set<PathKey>,
) -> Option<Seq<char>> {
    match action {
        RecoveryCopyResolutionAction::SaveAsNew => if destination is None {
            Some("Destination path is required for save_as_new"@)
        } else if present.contains(saved_at(mount_root, destination).key()) {
            Some(taken_message(saved_at(mount_root, destination).text))
        } else {
            None
        },
        _ => None,
    }
}

fn plan_recovery(
    action: RecoveryCopyResolutionAction,
    copy: &SyncPath,
    live: &SyncPath,
    live_exists: bool,
    dir: SyncPath,
    destination: &SyncPath,
) -> (res: ResolutionPlan)
    ensures
        res.copy_path@ == copy@,
        res.archive_dir@ == dir@,
        (step_views(res.steps@), path_views(res.archive_paths@), opt_path(res.live_path))
            == recovery_steps(action, copy@, live@, live_exists, dir@, destination@),
{
    let mut steps: Vec<ResolutionStep> = Vec::new();
    let mut paths: Vec<SyncPath> = Vec::new();
    let mut to_encrypt: Option<SyncPath> = None;
    assert(step_views(steps@) =~= Seq::<StepView>::empty());
    assert(path_views(paths@) =~= Seq::<PathView>::empty());
    match action {
        RecoveryCopyResolutionAction::ReplaceMountedFile => {
            if live_exists {
                push_archive(&mut steps, &mut paths, &dir, "live", live);
                push_step(
                    &mut steps,
                    ResolutionStep::ReplaceKeepingMetadata {
                        source: copy.duplicate(),
                        destination: live.duplicate(),
                    },
                );
            } else {
                push_step(
                    &mut steps,
                    ResolutionStep::Replace {
                        source: copy.duplicate(),
                        destination: live.duplicate(),
                    },
                );
            }
            push_step(&mut steps, ResolutionStep::MakeOrdinary { path: live.duplicate() });
            to_encrypt = Some(live.duplicate());
        },
        RecoveryCopyResolutionAction::SaveAsNew => {
            push_step(
                &mut steps,
                ResolutionStep::Replace {
                    source: copy.duplicate(),
                    destination: destination.duplicate(),
                },
            );
            push_step(&mut steps, ResolutionStep::MakeOrdinary { path: destination.duplicate() });
            to_encrypt = Some(destination.duplicate());
        },
        RecoveryCopyResolutionAction::ArchiveAndDismiss => {},
    }
    push_archive(&mut steps, &mut paths, &dir, "recovery", copy);
    push_step(&mut steps, ResolutionStep::Remove { path: copy.duplicate() });
    proof {
        let plan = recovery_steps(action, copy@, live@, live_exists, dir@, destination@);
        assert(step_views(steps@) =~= plan.0);
        assert(path_views(paths@) =~= plan.1);
    }
    ResolutionPlan {
        copy_path: copy.duplicate(),
        archive_dir: dir,
        steps,
        archive_paths: paths,
        live_path: to_encrypt,
    }
}

/// The position of the first conflict with an identifier.
pub open spec fn first_with_id(values: Seq<ConflictBaseline>, id: u128, from: int) -> Option<int>
    decreases values.len() - from,
{
    if from >= values.len() {
        None
    } else if values[from].id == id {
        Some(from)
    } else {
        first_with_id(values, id, from + 1)
    }
}

fn find_by_id(values: &Vec<ConflictBaseline>, id: u128) -> (res: Option<usize>)
    ensures
        match res {
            Some(i) => first_with_id(values@, id, 0) == Some(i as int) && i < values@.len(),
            None => first_with_id(values@, id, 0) is None,
        },
{
    let mut i: usize = 0;
    while i < values.len()
        invariant
            i <= values@.len(),
            first_with_id(values@, id, 0) == first_with_id(values@, id, i as int),
        decreases values@.len() - i,
    {
        if values[i].id == id {
            return Some(i);
        }
        i += 1;
    }
    None
}

/// The message of a conflict that is not there.
pub open spec fn conflict_missing(id: u128) -> Seq<char> {
    "Conflict "@ + uuid_shown(id) + " was not found"@
}

/// The message of a recovered copy that is not there.
pub open spec fn recovery_missing(relative: Seq<char>) -> Seq<char> {
    "Recovery copy "@ + relative + " was not found"@
}

/// What is known of a copy is forgotten.
pub open spec fn copy_dropped(
    before: SyncTracker,
    after: SyncTracker,
    path: PathView,
) -> bool {
    &&& after.files.decrypted_signatures@ == before.files.decrypted_signatures@.remove(path)
    &&& after.files.decrypted_hashes@ == before.files.decrypted_hashes@.remove(path)
    &&& after.files.decrypted_metadata_hashes@ == before.files.decrypted_metadata_hashes@.remove(
        path,
    )
    &&& after.held.pending_stable@ == before.held.pending_stable@.remove(path)
    &&& after.files == (FileLedger {
        decrypted_signatures: after.files.decrypted_signatures,
        decrypted_hashes: after.files.decrypted_hashes,
        decrypted_metadata_hashes: after.files.decrypted_metadata_hashes,
        ..before.files
    })
    &&& after.held == (HeldBack { pending_stable: after.held.pending_stable, ..before.held })
    &&& after == (SyncTracker {
        files: after.files,
        held: after.held,
        copies: after.copies,
        ..before
    })
}

impl SyncTracker {
    fn forget_copy_state(&mut self, path: &SyncPath)
        requires
            old(self).wf(),
        ensures
            final(self).wf(),
            copy_dropped(*old(self), *final(self), path@),
            final(self).copies == old(self).copies,
    {
        self.files.decrypted_signatures.remove(path);
        self.files.decrypted_hashes.remove(path);
        self.files.decrypted_metadata_hashes.remove(path);
        self.held.pending_stable.remove(path);
    }

    /// Plans how a conflict is resolved. It must be known, there must be a place for the archive,
    /// and what is asked must be possible with the files that are there.
    pub fn resolve_conflict_action(
        &self,
        mount_root: &SyncPath,
        request: &ConflictResolutionRequest,
        present: &PathSet,
        secs: i64,
    ) -> (res: Result<ResolutionPlan, MountSyncError>)
        requires
            self.wf(),
            present.wf(),
            FIRST_SECS <= secs <= LAST_SECS,
        ensures
            ({
                let table = self.copies.conflict_baselines;
                let retention = self.settings.deletion_config.retention_folder;
                match first_with_id(table.values@, request.conflict_id, 0) {
                    None => res matches Err(err) && is_format(
                        err,
                        conflict_missing(request.conflict_id),
                    ),
                    Some(i) => {
                        let copy = table.keys@[i]@;
                        let baseline = table.values@[i];
                        let live = baseline.live_path@;
                        let live_exists = present@.contains_key(live);
                        let refusal = conflict_refusal(
                            request.action,
                            opt_text(request.merged_text),
                            live_exists,
                            mount_root@,
                            opt_path(request.destination_path),
                            present@.keys(),
                        );
                        if retention is None {
                            res matches Err(err) && is_format(
                                err,
                                "Retention folder is not configured"@,
                            )
                        } else if refusal is Some {
                            res matches Err(err) && is_format(err, refusal->0)
                        } else {
                            let dir = archive_dir(
                                retention->0@,
                                "conflicts"@,
                                utc_stamp(secs),
                                baseline.id,
                            );
                            &&& res matches Ok(plan)
                            &&& plan.copy_path@ == copy
                            &&& plan.archive_dir@ == dir
                            &&& (
                                step_views(plan.steps@),
                                path_views(plan.archive_paths@),
                                opt_path(plan.live_path),
                            ) == conflict_steps(
                                request.action,
                                copy,
                                live,
                                live_exists,
                                dir,
                                saved_at(mount_root@, opt_path(request.destination_path)),
                                asked_text(request.merged_text),
                            )
                        }
                    },
                }
            }),
    {
        let i: usize = match find_by_id(
            &self.copies.conflict_baselines.values,
            request.conflict_id,
        ) {
            Some(i) => i,
            None => {
                let shown = uuid_text(request.conflict_id);
                return Err(
                    MountSyncError::Format(concat3("Conflict ", shown.as_str(), " was not found")),
                );
            },
        };
        proof {
            self.copies.conflict_baselines.entries();
        }
        let copy = &self.copies.conflict_baselines.keys[i];
        let baseline = &self.copies.conflict_baselines.values[i];
        let dir = match archive_folder(
            &self.settings.deletion_config.retention_folder,
            "conflicts",
            secs,
            baseline.id,
        ) {
            Ok(dir) => dir,
            Err(err) => {
                return Err(err);
            },
        };
        let live_exists = present.contains_key(&baseline.live_path);
        let destination = match &request.destination_path {
            Some(relative) => mount_root.join(relative),
            None => mount_root.duplicate(),
        };
        match request.action {
            ConflictResolutionAction::MergeText => {
                if request.merged_text.is_none() {
                    return Err(
                        MountSyncError::Format("Merged text is required for merge_text".to_owned()),
                    );
                }
                if !live_exists {
                    return Err(
                        MountSyncError::Format(
                            "Cannot merge text because the mounted file no longer exists".to_owned(),
                        ),
                    );
                }
            },
            ConflictResolutionAction::SaveConflictAsNew => {
                if request.destination_path.is_none() {
                    return Err(
                        MountSyncError::Format(
                            "Destination path is required for save_conflict_as_new".to_owned(),
                        ),
                    );
                }
                if present.contains_key(&destination) {
                    return Err(taken_error(&destination));
                }
            },
            ConflictResolutionAction::ArchiveAndDismiss => {
                if live_exists {
                    return Err(
                        MountSyncError::Format(
                            "archive_and_dismiss is only allowed when the mounted file is absent".to_owned(),
                        ),
                    );
                }
            },
            _ => {},
        }
        let text: &str = match &request.merged_text {
            Some(text) => text.as_str(),
            None => "",
        };
        proof {
            reveal_strlit("");
            assert(text@ =~= asked_text(request.merged_text));
        }
        Ok(
            plan_conflict(
                request.action,
                copy,
                &baseline.live_path,
                live_exists,
                dir,
                &destination,
                text,
            ),
        )
    }

    /// Forgets a conflict that was resolved, and tells what came of it.
    pub fn finish_conflict(&mut self, id: u128, plan: ResolutionPlan) -> (res:
        ConflictResolutionResult)
        requires
            old(self).wf(),
        ensures
            final(self).wf(),
            copy_dropped(*old(self), *final(self), plan.copy_path@),
            final(self).copies.conflict_baselines@ == old(self).copies.conflict_baselines@.remove(
                plan.copy_path@,
            ),
            final(self).copies.conflict_registry_dirty,
            final(self).copies == (LocalCopies {
                conflict_baselines: final(self).copies.conflict_baselines,
                conflict_registry_dirty: true,
                ..old(self).copies
            }),
            res.resolved_conflict_id == id,
            res.archive_paths == plan.archive_paths,
            res.live_path == plan.live_path,
            res.requires_writeback == (plan.live_path is Some),
    {
        self.forget_copy_state(&plan.copy_path);
        self.copies.conflict_baselines.remove(&plan.copy_path);
        self.copies.conflict_registry_dirty = true;
        let requires_writeback = plan.live_path.is_some();
        ConflictResolutionResult {
            resolved_conflict_id: id,
            archive_paths: plan.archive_paths,
            live_path: plan.live_path,
            requires_writeback,
        }
    }

    /// Plans how a recovered copy is resolved. It must be known and there, there must be a place
    /// for the archive, and what is asked must be possible with the files that are there.
    pub fn resolve_recovery_copy_action(
        &self,
        mount_root: &SyncPath,
        request: &RecoveryCopyResolutionRequest,
        present: &PathSet,
        secs: i64,
    ) -> (res: Result<ResolutionPlan, MountSyncError>)
        requires
            self.wf(),
            present.wf(),
            FIRST_SECS <= secs <= LAST_SECS,
        ensures
            ({
                let retention = self.settings.deletion_config.retention_folder;
                let copy = join(mount_root@, request.recovery_relative_path@);
                let live = recovered_from(copy);
                let refusal = recovery_refusal(
                    request.action,
                    mount_root@,
                    opt_path(request.destination_path),
                    present@.keys(),
                );
                if !(self.copies.recovered_pending_paths@.contains_key(copy)
                    && present@.contains_key(copy)) {
                    res matches Err(err) && is_format(
                        err,
                        recovery_missing(request.recovery_relative_path@.text),
                    )
                } else if retention is None {
                    res matches Err(err) && is_format(err, "Retention folder is not configured"@)
                } else if refusal is Some {
                    res matches Err(err) && is_format(err, refusal->0)
                } else {
                    let dir = archive_dir(
                        retention->0@,
                        "recovery_copies"@,
                        utc_stamp(secs),
                        request.request_id,
                    );
                    &&& res matches Ok(plan)
                    &&& plan.copy_path@ == copy
                    &&& plan.archive_dir@ == dir
                    &&& (
                        step_views(plan.steps@),
                        path_views(plan.archive_paths@),
                        opt_path(plan.live_path),
                    ) == recovery_steps(
                        request.action,
                        copy,
                        live,
                        present@.contains_key(live),
                        dir,
                        saved_at(mount_root@, opt_path(request.destination_path)),
                    )
                }
            }),
    {
        let copy = mount_root.join(&request.recovery_relative_path);
        if !(self.copies.recovered_pending_paths.contains_key(&copy) && present.contains_key(
            &copy,
        )) {
            let shown = request.recovery_relative_path.display();
            return Err(
                MountSyncError::Format(concat3("Recovery copy ", shown.as_str(), " was not found")),
            );
        }
        let live = derive_live_path_from_recovered_pending_path(&copy);
        let dir = match archive_folder(
            &self.settings.deletion_config.retention_folder,
            "recovery_copies",
            secs,
            request.request_id,
        ) {
            Ok(dir) => dir,
            Err(err) => {
                return Err(err);
            },
        };
        let live_exists = present.contains_key(&live);
        let destination = match &request.destination_path {
            Some(relative) => mount_root.join(relative),
            None => mount_root.duplicate(),
        };
        match request.action {
            RecoveryCopyResolutionAction::SaveAsNew => {
                if request.destination_path.is_none() {
                    return Err(
                        MountSyncError::Format(
                            "Destination path is required for save_as_new".to_owned(),
                        ),
                    );
                }
                if present.contains_key(&destination) {
                    return Err(taken_error(&destination));
                }
            },
            _ => {},
        }
        Ok(plan_recovery(request.action, &copy, &live, live_exists, dir, &destination))
    }

    /// Forgets a recovered copy that was resolved, and tells what came of it.
    pub fn finish_recovery_copy(
        &mut self,
        request: &RecoveryCopyResolutionRequest,
        plan: ResolutionPlan,
    ) -> (res: RecoveryCopyResolutionResult)
        requires
            old(self).wf(),
        ensures
            final(self).wf(),
            copy_dropped(*old(self), *final(self), plan.copy_path@),
            final(self).copies.recovered_pending_paths@
                == old(self).copies.recovered_pending_paths@.remove(plan.copy_path@),
            final(self).copies.recovery_registry_dirty,
            final(self).copies == (LocalCopies {
                recovered_pending_paths: final(self).copies.recovered_pending_paths,
                recovery_registry_dirty: true,
                ..old(self).copies
            }),
            res.resolved_recovery_relative_path@ == request.recovery_relative_path@,
            res.archive_paths == plan.archive_paths,
            res.live_path == plan.live_path,
            res.requires_writeback == (plan.live_path is Some),
    {
        self.forget_copy_state(&plan.copy_path);
        self.copies.recovered_pending_paths.remove(&plan.copy_path);
        self.copies.recovery_registry_dirty = true;
        let requires_writeback = plan.live_path.is_some();
        RecoveryCopyResolutionResult {
            resolved_recovery_relative_path: request.recovery_relative_path.duplicate(),
            archive_paths: plan.archive_paths,
            live_path: plan.live_path,
            requires_writeback,
        }
    }
}

/// A file is removed only as the last step, it is the copy, and it was archived or put in the
/// place of a file before.
pub open spec fn ends_with_removal(steps: Seq<StepView>, copy: PathView) -> bool {
    &&& steps.len() >= 2
    &&& steps.last() == (StepView::Remove { path: copy })
    &&& forall|i: int| 0 <= i < steps.len() - 1 ==> !(#[trigger] steps[i] is Remove)
    &&& exists|i: int|
        0 <= i < steps.len() - 1 && match #[trigger] steps[i] {
            StepView::Archive { source, .. } => source == copy,
            StepView::Replace { source, .. } => source == copy,
            StepView::ReplaceKeepingMetadata { source, .. } => source == copy,
            _ => false,
        }
}

/// However a conflict is resolved, the copy is kept somewhere before it is removed.
pub proof fn conflict_copies_are_kept(
    action: ConflictResolutionAction,
    copy: PathView,
    live: PathView,
    live_exists: bool,
    dir: PathView,
    destination: PathView,
    text: Seq<char>,
)
    ensures
        ends_with_removal(
            conflict_steps(action, copy, live, live_exists, dir, destination, text).0,
            copy,
        ),
{
    let steps = conflict_steps(action, copy, live, live_exists, dir, destination, text).0;
    match action {
        ConflictResolutionAction::UseConflictCopy => {
            if live_exists {
                assert(steps[1] == (StepView::ReplaceKeepingMetadata {
                    source: copy,
                    destination: live,
                }));
            } else {
                assert(steps[0] == (StepView::Replace { source: copy, destination: live }));
            }
        },
        ConflictResolutionAction::MergeText => {
            assert(steps[1] == (StepView::Archive {
                source: copy,
                target: archived_at(dir, "conflict"@, copy),
            }));
        },
        ConflictResolutionAction::SaveConflictAsNew => {
            assert(steps[0] == (StepView::Replace { source: copy, destination }));
        },
        _ => {
            assert(steps[0] == (StepView::Archive {
                source: copy,
                target: archived_at(dir, "conflict"@, copy),
            }));
        },
    }
}

/// However a recovered copy is resolved, it is kept somewhere before it is removed.
pub proof fn recovery_copies_are_kept(
    action: RecoveryCopyResolutionAction,
    copy: PathView,
    live: PathView,
    live_exists: bool,
    dir: PathView,
    destination: PathView,
)
    ensures
        ends_with_removal(
            recovery_steps(action, copy, live, live_exists, dir, destination).0,
            copy,
        ),
{
    let steps = recovery_steps(action, copy, live, live_exists, dir, destination).0;
    assert(steps[steps.len() - 2] == (StepView::Archive {
        source: copy,
        target: archived_at(dir, "recovery"@, copy),
    }));
}

fn scoped(state_dir: &SyncPath, before: &str, root_id: &str, after: &str) -> (res: SyncPath)
    ensures
        res@ == join_text(state_dir@, before@ + root_id@ + after@),
{
    let name = concat3(before, root_id, after);
    state_dir.join_text(name.as_str())
}

fn scoped_dir(state_dir: &SyncPath, before: &str, root_id: &str) -> (res: SyncPath)
    ensures
        res@ == join_text(state_dir@, before@ + root_id@),
{
    let name = concat2(before, root_id);
    state_dir.join_text(name.as_str())
}

/// The file that lists the conflicts of a root.
pub fn sync_mount_conflict_registry_path(state_dir: &SyncPath, root_id: &str) -> (res: SyncPath)
    ensures
        res@ == join_text(state_dir@, "mount_conflicts_"@ + root_id@ + ".json"@),
{
    scoped(state_dir, "mount_conflicts_", root_id, ".json")
}

/// The folder of the wishes to resolve conflicts of a root.
pub fn sync_mount_conflict_action_requests_dir(state_dir: &SyncPath, root_id: &str) -> (res:
    SyncPath)
    ensures
        res@ == join_text(state_dir@, "mount_conflict_requests_"@ + root_id@),
{
    scoped_dir(state_dir, "mount_conflict_requests_", root_id)
}

/// The folder of the answers to such wishes.
pub fn sync_mount_conflict_action_results_dir(state_dir: &SyncPath, root_id: &str) -> (res:
    SyncPath)
    ensures
        res@ == join_text(state_dir@, "mount_conflict_results_"@ + root_id@),
{
    scoped_dir(state_dir, "mount_conflict_results_", root_id)
}

/// The file that lists the recovered copies of a root.
pub fn sync_mount_recovery_registry_path(state_dir: &SyncPath, root_id: &str) -> (res: SyncPath)
    ensures
        res@ == join_text(state_dir@, "mount_recovery_copies_"@ + root_id@ + ".json"@),
{
    scoped(state_dir, "mount_recovery_copies_", root_id, ".json")
}

/// The folder of the wishes to resolve recovered copies of a root.
pub fn sync_mount_recovery_action_requests_dir(state_dir: &SyncPath, root_id: &str) -> (res:
    SyncPath)
    ensures
        res@ == join_text(state_dir@, "mount_recovery_requests_"@ + root_id@),
{
    scoped_dir(state_dir, "mount_recovery_requests_", root_id)
}

/// The folder of the answers to such wishes.
pub fn sync_mount_recovery_action_results_dir(state_dir: &SyncPath, root_id: &str) -> (res:
    SyncPath)
    ensures
        res@ == join_text(state_dir@, "mount_recovery_results_"@ + root_id@),
{
    scoped_dir(state_dir, "mount_recovery_results_", root_id)
}

} // verus!
