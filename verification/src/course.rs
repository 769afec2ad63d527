//! The order in which a single file is decrypted, scanned or encrypted.

use vstd::prelude::*;

use crate::decrypt::DecryptGate;
use crate::encrypt::EncryptMethod;
use crate::scan::{ContentStep, ScanGate};

verus! {

/// What is done next with an encrypted file that is brought into the mount.
#[derive(Debug, Clone, Copy, PartialEq, Eq, Structural)]
pub enum DecryptStep {
    /// See whether it has to be decrypted.
    Begin,
    /// Settle its place in the mount.
    SettlePlace,
    /// See whether its place holds local changes.
    LookForChanges,
    /// See whether its place was changed in the meantime.
    LookAgain,
    /// See whether there is room for it.
    AskRoom,
    /// Make the directory that it goes to.
    MakeDirectory,
    /// Decrypt it and write it.
    Write,
    /// Take note of it.
    Note,
    /// It is where it belongs, as far as it can be.
    Ready,
    /// It has to wait for room.
    Deferred,
    /// It could not be brought into the mount.
    Failed,
}

/// What came of a step.
#[derive(Debug, Clone, Copy, PartialEq, Eq, Structural)]
pub enum DecryptEvent {
    Gate(DecryptGate),
    Done,
    /// Whether there are local changes.
    Changed(bool),
    /// Whether there is room.
    Room(bool),
    /// It went wrong, for want of room or not.
    Failed { low_space: bool },
}

/// How far an encrypted file was brought into the mount.
#[derive(Debug, Clone, Copy, PartialEq, Eq, Structural)]
pub struct DecryptCourse {
    pub step: DecryptStep,
    /// Its place holds local changes: it goes to a conflict copy.
    pub conflict: bool,
    /// Its place was looked at, and looked at again.
    pub looked: bool,
    pub looked_again: bool,
}

/// What follows a failure.
pub open spec fn after_decrypt_failure(low_space: bool) -> DecryptStep {
    if low_space {
        DecryptStep::Deferred
    } else {
        DecryptStep::Failed
    }
}

/// What is done next with an encrypted file.
pub open spec fn next_decrypt_step(step: DecryptStep, event: DecryptEvent) -> DecryptStep {
    match (step, event) {
        (DecryptStep::Begin, DecryptEvent::Gate(gate)) => if gate == DecryptGate::Proceed {
            DecryptStep::SettlePlace
        } else {
            DecryptStep::Ready
        },
        (DecryptStep::Begin, DecryptEvent::Failed { .. }) => DecryptStep::Failed,
        (DecryptStep::SettlePlace, DecryptEvent::Done) => DecryptStep::LookForChanges,
        (DecryptStep::LookForChanges, DecryptEvent::Changed(dirty)) => if dirty {
            DecryptStep::AskRoom
        } else {
            DecryptStep::LookAgain
        },
        (DecryptStep::LookAgain, DecryptEvent::Changed(_)) => DecryptStep::AskRoom,
        (DecryptStep::AskRoom, DecryptEvent::Room(enough)) => if enough {
            DecryptStep::MakeDirectory
        } else {
            DecryptStep::Deferred
        },
        (DecryptStep::MakeDirectory, DecryptEvent::Done) => DecryptStep::Write,
        (DecryptStep::MakeDirectory, DecryptEvent::Failed { low_space }) => after_decrypt_failure(
            low_space,
        ),
        (DecryptStep::Write, DecryptEvent::Done) => DecryptStep::Note,
        (DecryptStep::Write, DecryptEvent::Failed { low_space }) => after_decrypt_failure(
            low_space,
        ),
        (DecryptStep::Note, DecryptEvent::Done) => DecryptStep::Ready,
        _ => step,
    }
}

/// The file is about to be written, or was.
pub open spec fn is_written(step: DecryptStep) -> bool {
    step == DecryptStep::MakeDirectory || step == DecryptStep::Write || step == DecryptStep::Note
}

impl DecryptCourse {
    /// Where the file goes to its own place, that place was looked at twice, and held no local
    /// changes.
    pub open spec fn is_careful(&self) -> bool {
        &&& (is_written(self.step) || self.step == DecryptStep::AskRoom) && !self.conflict
            ==> self.looked && self.looked_again
        &&& self.step == DecryptStep::LookAgain ==> self.looked && !self.conflict
    }

    /// Nothing was done yet.
    pub fn new() -> (res: DecryptCourse)
        ensures
            res.step == DecryptStep::Begin,
            !res.conflict,
            !res.looked,
            !res.looked_again,
            res.is_careful(),
    {
        DecryptCourse {
            step: DecryptStep::Begin,
            conflict: false,
            looked: false,
            looked_again: false,
        }
    }

    /// Goes on to the next step.
    pub fn advance(&mut self, event: DecryptEvent)
        ensures
            final(self).step == next_decrypt_step(old(self).step, event),
            final(self).conflict == (old(self).conflict || ((old(self).step
                == DecryptStep::LookForChanges || old(self).step == DecryptStep::LookAgain)
                && event == DecryptEvent::Changed(true))),
            final(self).looked == (old(self).looked || (old(self).step
                == DecryptStep::LookForChanges && event is Changed)),
            final(self).looked_again == (old(self).looked_again || (old(self).step
                == DecryptStep::LookAgain && event is Changed)),
            old(self).is_careful() && (old(self).step == DecryptStep::LookForChanges
                ==> !old(self).conflict) ==> final(self).is_careful(),
    {
        match (self.step, event) {
            (DecryptStep::Begin, DecryptEvent::Gate(gate)) => {
                self.step = if gate == DecryptGate::Proceed {
                    DecryptStep::SettlePlace
                } else {
                    DecryptStep::Ready
                };
            },
            (DecryptStep::Begin, DecryptEvent::Failed { .. }) => {
                self.step = DecryptStep::Failed;
            },
            (DecryptStep::SettlePlace, DecryptEvent::Done) => {
                self.step = DecryptStep::LookForChanges;
            },
            (DecryptStep::LookForChanges, DecryptEvent::Changed(dirty)) => {
                self.looked = true;
                if dirty {
                    self.conflict = true;
                    self.step = DecryptStep::AskRoom;
                } else {
                    self.step = DecryptStep::LookAgain;
                }
            },
            (DecryptStep::LookAgain, DecryptEvent::Changed(touched)) => {
                self.looked_again = true;
                if touched {
                    self.conflict = true;
                }
                self.step = DecryptStep::AskRoom;
            },
            (DecryptStep::AskRoom, DecryptEvent::Room(enough)) => {
                self.step = if enough {
                    DecryptStep::MakeDirectory
                } else {
                    DecryptStep::Deferred
                };
            },
            (DecryptStep::MakeDirectory, DecryptEvent::Done) => {
                self.step = DecryptStep::Write;
            },
            (DecryptStep::MakeDirectory, DecryptEvent::Failed { low_space }) => {
                self.step = if low_space {
                    DecryptStep::Deferred
                } else {
                    DecryptStep::Failed
                };
            },
            (DecryptStep::Write, DecryptEvent::Done) => {
                self.step = DecryptStep::Note;
            },
            (DecryptStep::Write, DecryptEvent::Failed { low_space }) => {
                self.step = if low_space {
                    DecryptStep::Deferred
                } else {
                    DecryptStep::Failed
                };
            },
            (DecryptStep::Note, DecryptEvent::Done) => {
                self.step = DecryptStep::Ready;
            },
            _ => {},
        }
    }
}

/// What is done next with a mounted file that was found.
#[derive(Debug, Clone, Copy, PartialEq, Eq, Structural)]
pub enum ScanStep {
    /// See what it is to the sync.
    Begin,
    /// Take note of it as a conflict copy.
    NoteConflict,
    /// Take note of it as a recovered copy.
    NoteRecovered,
    /// Settle its identifier.
    SettleId,
    /// See whether it is encrypted now.
    LookAtContent,
    Encrypt,
    /// Take note that it was looked at to the end.
    Note,
    Over,
}

/// What came of a step.
#[derive(Debug, Clone, Copy, PartialEq, Eq, Structural)]
pub enum ScanEvent {
    Gate(ScanGate),
    Done,
    Content(ContentStep),
    /// Whether the file counts as seen after its encryption.
    Encrypted(bool),
}

/// What is done next with a mounted file.
pub open spec fn next_scan_step(step: ScanStep, event: ScanEvent) -> ScanStep {
    match (step, event) {
        (ScanStep::Begin, ScanEvent::Gate(gate)) => match gate {
            ScanGate::Conflict => ScanStep::NoteConflict,
            ScanGate::Recovered => ScanStep::NoteRecovered,
            ScanGate::Open => ScanStep::SettleId,
            _ => ScanStep::Over,
        },
        (ScanStep::NoteConflict, ScanEvent::Done) => ScanStep::Over,
        (ScanStep::NoteRecovered, ScanEvent::Done) => ScanStep::Over,
        (ScanStep::SettleId, ScanEvent::Done) => ScanStep::LookAtContent,
        (ScanStep::LookAtContent, ScanEvent::Content(content)) => match content {
            ContentStep::Unchanged => ScanStep::Note,
            ContentStep::Encrypt => ScanStep::Encrypt,
            _ => ScanStep::Over,
        },
        (ScanStep::Encrypt, ScanEvent::Encrypted(seen)) => if seen {
            ScanStep::Note
        } else {
            ScanStep::Over
        },
        (ScanStep::Note, ScanEvent::Done) => ScanStep::Over,
        _ => step,
    }
}

/// What is done next with a mounted file.
pub fn advance_scan(step: ScanStep, event: ScanEvent) -> (res: ScanStep)
    ensures
        res == next_scan_step(step, event),
{
    match (step, event) {
        (ScanStep::Begin, ScanEvent::Gate(gate)) => match gate {
            ScanGate::Conflict => ScanStep::NoteConflict,
            ScanGate::Recovered => ScanStep::NoteRecovered,
            ScanGate::Open => ScanStep::SettleId,
            _ => ScanStep::Over,
        },
        (ScanStep::NoteConflict, ScanEvent::Done) => ScanStep::Over,
        (ScanStep::NoteRecovered, ScanEvent::Done) => ScanStep::Over,
        (ScanStep::SettleId, ScanEvent::Done) => ScanStep::LookAtContent,
        (ScanStep::LookAtContent, ScanEvent::Content(content)) => match content {
            ContentStep::Unchanged => ScanStep::Note,
            ContentStep::Encrypt => ScanStep::Encrypt,
            _ => ScanStep::Over,
        },
        (ScanStep::Encrypt, ScanEvent::Encrypted(seen)) => if seen {
            ScanStep::Note
        } else {
            ScanStep::Over
        },
        (ScanStep::Note, ScanEvent::Done) => ScanStep::Over,
        _ => step,
    }
}

/// What is done next to encrypt a mounted file.
#[derive(Debug, Clone, Copy, PartialEq, Eq, Structural)]
pub enum EncryptStep {
    /// Settle its identifier, and see whether there is room.
    Plan,
    /// Read the file whole.
    Read,
    /// Bring its data together without the holes.
    Pack,
    /// Encrypt it.
    Encrypt,
    /// See whether it was changed in the meantime.
    LookAgain,
    /// Write the encrypted file where it belongs.
    Place,
    /// Store its metadata.
    StoreMetadata,
    /// Take note of it.
    Note,
    Done,
    Failed,
}

/// What is done next to encrypt a mounted file, after a step that went well. A file that is read
/// whole is looked at again before it is encrypted, another one afterwards; one that is encrypted
/// piece by piece is written where it belongs at once.
pub open spec fn next_encrypt_step(method: EncryptMethod, step: EncryptStep) -> EncryptStep {
    match step {
        EncryptStep::Plan => match method {
            EncryptMethod::Whole => EncryptStep::Read,
            EncryptMethod::Sparse { .. } => EncryptStep::Pack,
            EncryptMethod::Streaming { .. } => EncryptStep::Encrypt,
        },
        EncryptStep::Read => EncryptStep::LookAgain,
        EncryptStep::Pack => EncryptStep::Encrypt,
        EncryptStep::Encrypt => match method {
            EncryptMethod::Whole => EncryptStep::Place,
            _ => EncryptStep::LookAgain,
        },
        EncryptStep::LookAgain => match method {
            EncryptMethod::Whole => EncryptStep::Encrypt,
            EncryptMethod::Sparse { .. } => EncryptStep::Place,
            EncryptMethod::Streaming { .. } => EncryptStep::StoreMetadata,
        },
        EncryptStep::Place => EncryptStep::StoreMetadata,
        EncryptStep::StoreMetadata => EncryptStep::Note,
        EncryptStep::Note => EncryptStep::Done,
        EncryptStep::Done => EncryptStep::Done,
        EncryptStep::Failed => EncryptStep::Failed,
    }
}

/// What is done next to encrypt a mounted file. A step that goes wrong ends it, but that metadata
/// could not be stored does not.
pub fn advance_encrypt(method: EncryptMethod, step: EncryptStep, went_well: bool) -> (res:
    EncryptStep)
    ensures
        res == if went_well || step == EncryptStep::StoreMetadata || step == EncryptStep::Done {
            next_encrypt_step(method, step)
        } else {
            EncryptStep::Failed
        },
{
    if !went_well && step != EncryptStep::StoreMetadata && step != EncryptStep::Done {
        return EncryptStep::Failed;
    }
    match step {
        EncryptStep::Plan => match method {
            EncryptMethod::Whole => EncryptStep::Read,
            EncryptMethod::Sparse { .. } => EncryptStep::Pack,
            EncryptMethod::Streaming { .. } => EncryptStep::Encrypt,
        },
        EncryptStep::Read => EncryptStep::LookAgain,
        EncryptStep::Pack => EncryptStep::Encrypt,
        EncryptStep::Encrypt => match method {
            EncryptMethod::Whole => EncryptStep::Place,
            _ => EncryptStep::LookAgain,
        },
        EncryptStep::LookAgain => match method {
            EncryptMethod::Whole => EncryptStep::Encrypt,
            EncryptMethod::Sparse { .. } => EncryptStep::Place,
            EncryptMethod::Streaming { .. } => EncryptStep::StoreMetadata,
        },
        EncryptStep::Place => EncryptStep::StoreMetadata,
        EncryptStep::StoreMetadata => EncryptStep::Note,
        EncryptStep::Note => EncryptStep::Done,
        EncryptStep::Done => EncryptStep::Done,
        EncryptStep::Failed => EncryptStep::Failed,
    }
}

/// A step that comes only after the file was found unchanged.
pub open spec fn comes_after_the_look(method: EncryptMethod, step: EncryptStep) -> bool {
    match step {
        EncryptStep::Place => true,
        EncryptStep::StoreMetadata => true,
        EncryptStep::Note => true,
        EncryptStep::Encrypt => method is Whole,
        _ => false,
    }
}

/// Only a file that did not change while it was read or encrypted is taken note of: each step that
/// comes after the look is reached from the look, or from another such step. Only files with holes
/// are packed.
pub proof fn unchanged_files_are_noted(method: EncryptMethod, step: EncryptStep)
    requires
        comes_after_the_look(method, next_encrypt_step(method, step)),
        step == EncryptStep::Pack ==> method is Sparse,
    ensures
        step == EncryptStep::LookAgain || comes_after_the_look(method, step),
{
}

/// A mounted file is encrypted only if it is one that is synced, and was found to need it.
pub proof fn only_synced_files_are_encrypted(step: ScanStep, event: ScanEvent)
    ensures
        next_scan_step(step, event) == ScanStep::Encrypt && step != ScanStep::Encrypt ==> step
            == ScanStep::LookAtContent && event == ScanEvent::Content(ContentStep::Encrypt),
        next_scan_step(step, event) == ScanStep::LookAtContent && step != ScanStep::LookAtContent
            ==> step == ScanStep::SettleId,
        next_scan_step(step, event) == ScanStep::SettleId && step != ScanStep::SettleId ==> step
            == ScanStep::Begin && event == ScanEvent::Gate(ScanGate::Open),
{
}

} // verus!
