//! Why a mount is not safe to unmount, and how that is told.

use vstd::prelude::*;
use vstd::string::*;

use crate::errors::{opt_text, pending_writeback_error_is_terminal, says_terminal};
use crate::text::{blank, decimal, decimal_text, is_blank};

verus! {

/// How far a mount is restricted for want of space.
#[derive(Debug, Clone, Copy, PartialEq, Eq, Structural)]
pub enum LowSpaceMode {
    Healthy,
    Warning,
    RefreshDegraded,
    WritebackDegraded,
    FullyDegraded,
}

impl Default for LowSpaceMode {
    fn default() -> (res: LowSpaceMode)
        ensures
            res == LowSpaceMode::Healthy,
    {
        LowSpaceMode::Healthy
    }
}

/// The name of a mode.
pub open spec fn mode_name(mode: LowSpaceMode) -> Seq<char> {
    match mode {
        LowSpaceMode::Healthy => "Healthy"@,
        LowSpaceMode::Warning => "Warning"@,
        LowSpaceMode::RefreshDegraded => "RefreshDegraded"@,
        LowSpaceMode::WritebackDegraded => "WritebackDegraded"@,
        LowSpaceMode::FullyDegraded => "FullyDegraded"@,
    }
}

impl LowSpaceMode {
    /// The name of the mode.
    pub fn name(&self) -> (res: &'static str)
        ensures
            res@ == mode_name(*self),
    {
        match self {
            LowSpaceMode::Healthy => "Healthy",
            LowSpaceMode::Warning => "Warning",
            LowSpaceMode::RefreshDegraded => "RefreshDegraded",
            LowSpaceMode::WritebackDegraded => "WritebackDegraded",
            LowSpaceMode::FullyDegraded => "FullyDegraded",
        }
    }
}

/// One reason for which a mount is not safe to unmount.
#[derive(Debug)]
pub enum MountSafetyReason {
    PendingWriteback {
        count: usize,
        oldest_age_ms: u64,
        sample_paths: Vec<String>,
        last_error: Option<String>,
    },
    PendingRefresh { count: usize },
    Conflict { count: usize, edited_count: usize, sample_paths: Vec<String> },
    DeletedOpen { count: usize, sample_paths: Vec<String> },
    TransactionalBlocked { count: usize, sample_paths: Vec<String> },
    HardLinkBlocked { count: usize, sample_paths: Vec<String> },
    LowSpaceDegraded { mode: LowSpaceMode, count: usize, sample_paths: Vec<String> },
    RecoveryCopiesPresent { count: usize, sample_paths: Vec<String> },
}

/// The sentence that names the first of the paths.
pub open spec fn example(paths: Seq<String>) -> Seq<char> {
    if paths.len() > 0 {
        " Example: "@ + paths[0]@
    } else {
        Seq::empty()
    }
}

/// The sentence that gives the last error, unless it is blank.
pub open spec fn last_error_sentence(error: Option<String>) -> Seq<char> {
    match error {
        Some(e) => if is_blank(e@) {
            Seq::empty()
        } else {
            " Last error: "@ + e@
        },
        None => Seq::empty(),
    }
}

/// How a reason is told.
pub open spec fn reason_summary(reason: MountSafetyReason) -> Seq<char> {
    match reason {
        MountSafetyReason::PendingWriteback { count, oldest_age_ms, sample_paths, last_error } => {
            decimal(count as nat)
                + " pending encrypted commit(s) still need to finish before the newest local changes are protected. Oldest pending commit age: "@
                + decimal((oldest_age_ms / 1000) as nat) + "s."@ + example(sample_paths@)
                + last_error_sentence(last_error)
        },
        MountSafetyReason::PendingRefresh { count } => decimal(count as nat)
            + " pending plaintext refresh(es) are still rebuilding the local mount state."@,
        MountSafetyReason::Conflict { count, edited_count, sample_paths } => decimal(count as nat)
            + " unresolved conflict file(s) remain local-only until they are resolved or merged back."@
            + example(sample_paths@) + if edited_count > 0 {
            " "@ + decimal(edited_count as nat)
                + " conflict file(s) were edited locally and are still not protected by encrypted sync."@
        } else {
            Seq::empty()
        },
        MountSafetyReason::DeletedOpen { count, sample_paths } => decimal(count as nat)
            + " deleted-open path(s) are still active."@ + example(sample_paths@),
        MountSafetyReason::TransactionalBlocked { count, sample_paths } => decimal(count as nat)
            + " transactional path(s) are blocked because sync mount does not provide atomic-set guarantees for databases, packages, or bundle-style formats."@
            + example(sample_paths@),
        MountSafetyReason::HardLinkBlocked { count, sample_paths } => decimal(count as nat)
            + " hard-linked file(s) are blocked because sync mount does not preserve hard-link semantics."@
            + example(sample_paths@)
            + " Break the hard link or replace it with an independent copy to resume protected sync."@,
        MountSafetyReason::LowSpaceDegraded { mode, count, sample_paths } => {
            let head = "Low-space degraded mode ("@ + mode_name(mode) + ") is active"@;
            (if count > 0 {
                head + " for "@ + decimal(count as nat) + " path(s)."@
            } else {
                head + "."@
            }) + example(sample_paths@)
        },
        MountSafetyReason::RecoveryCopiesPresent { count, sample_paths } => decimal(count as nat)
            + " recovered pending-work file(s) were recreated as local-only read-only copies after an unclean mount restart."@
            + example(sample_paths@),
    }
}

/// The mount can clear the reason by itself.
pub open spec fn auto_drainable(reason: MountSafetyReason) -> bool {
    match reason {
        MountSafetyReason::PendingWriteback { last_error, .. } => !says_terminal(
            opt_text(last_error),
        ),
        MountSafetyReason::PendingRefresh { .. } => true,
        _ => false,
    }
}

fn append_count(text: &mut String, count: usize)
    ensures
        final(text)@ == old(text)@ + decimal(count as nat),
{
    let digits = decimal_text(count as u64);
    text.append(digits.as_str());
}

fn append_example(text: &mut String, paths: &Vec<String>)
    ensures
        final(text)@ == old(text)@ + example(paths@),
{
    if paths.len() > 0 {
        let ghost before = text@;
        text.append(" Example: ");
        text.append(paths[0].as_str());
        assert(text@ =~= before + example(paths@));
    } else {
        assert(text@ + example(paths@) =~= text@);
    }
}

impl MountSafetyReason {
    /// Whether the mount can clear the reason by itself.
    pub fn is_auto_drainable(&self) -> (res: bool)
        ensures
            res == auto_drainable(*self),
    {
        match self {
            MountSafetyReason::PendingWriteback { last_error, .. } => {
                !pending_writeback_error_is_terminal(last_error)
            },
            MountSafetyReason::PendingRefresh { .. } => true,
            _ => false,
        }
    }

    /// The reason, told in a sentence or two.
    pub fn summary(&self) -> (res: String)
        ensures
            res@ == reason_summary(*self),
    {
        let mut message = String::new();
        match self {
            MountSafetyReason::PendingWriteback {
                count,
                oldest_age_ms,
                sample_paths,
                last_error,
            } => {
                append_count(&mut message, *count);
                message.append(
                    " pending encrypted commit(s) still need to finish before the newest local changes are protected. Oldest pending commit age: ",
                );
                let age = decimal_text(*oldest_age_ms / 1000);
                message.append(age.as_str());
                message.append("s.");
                append_example(&mut message, sample_paths);
                if let Some(error) = last_error {
                    if !blank(error.as_str()) {
                        message.append(" Last error: ");
                        message.append(error.as_str());
                    }
                }
            },
            MountSafetyReason::PendingRefresh { count } => {
                append_count(&mut message, *count);
                message.append(
                    " pending plaintext refresh(es) are still rebuilding the local mount state.",
                );
            },
            MountSafetyReason::Conflict { count, edited_count, sample_paths } => {
                append_count(&mut message, *count);
                message.append(
                    " unresolved conflict file(s) remain local-only until they are resolved or merged back.",
                );
                append_example(&mut message, sample_paths);
                if *edited_count > 0 {
                    message.append(" ");
                    append_count(&mut message, *edited_count);
                    message.append(
                        " conflict file(s) were edited locally and are still not protected by encrypted sync.",
                    );
                }
            },
            MountSafetyReason::DeletedOpen { count, sample_paths } => {
                append_count(&mut message, *count);
                message.append(" deleted-open path(s) are still active.");
                append_example(&mut message, sample_paths);
            },
            MountSafetyReason::TransactionalBlocked { count, sample_paths } => {
                append_count(&mut message, *count);
                message.append(
                    " transactional path(s) are blocked because sync mount does not provide atomic-set guarantees for databases, packages, or bundle-style formats.",
                );
                append_example(&mut message, sample_paths);
            },
            MountSafetyReason::HardLinkBlocked { count, sample_paths } => {
                append_count(&mut message, *count);
                message.append(
                    " hard-linked file(s) are blocked because sync mount does not preserve hard-link semantics.",
                );
                append_example(&mut message, sample_paths);
                message.append(
                    " Break the hard link or replace it with an independent copy to resume protected sync.",
                );
            },
            MountSafetyReason::LowSpaceDegraded { mode, count, sample_paths } => {
                message.append("Low-space degraded mode (");
                message.append(mode.name());
                message.append(") is active");
                if *count > 0 {
                    message.append(" for ");
                    append_count(&mut message, *count);
                    message.append(" path(s).");
                } else {
                    message.append(".");
                }
                append_example(&mut message, sample_paths);
            },
            MountSafetyReason::RecoveryCopiesPresent { count, sample_paths } => {
                append_count(&mut message, *count);
                message.append(
                    " recovered pending-work file(s) were recreated as local-only read-only copies after an unclean mount restart.",
                );
                append_example(&mut message, sample_paths);
            },
        }
        assert(message@ =~= reason_summary(*self));
        message
    }
}

} // verus!
