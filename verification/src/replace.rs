//! The hash-verified atomic-replace protocol for one staged artifact.
//!
//! The artifact has already been streamed to its staging path; from there
//! the protocol is a state machine. Each step consumes the report of the
//! last file operation and says which operation comes next; the edge that
//! owns the real files performs it. The machine never asks for the live
//! file to be touched unless the staged bytes carried exactly the digest
//! the manifest declares, which is what the safety lemma at the end proves.
use vstd::prelude::*;

use crate::integrity::digest_hex_of;
use crate::iw3mp::patched_of;

verus! {

/// What a replacement attempt needs beyond the plain swap.
#[derive(Clone, Copy, PartialEq, Eq, Structural, Debug)]
pub struct ReplacePlan {
    /// The staged copy must receive the one-time binary header patch
    /// before it goes live.
    pub needs_patch: bool,
    /// The live target may be protected: its directory must prove writable
    /// first, or the run has to relaunch elevated.
    pub check_writable: bool,
    /// The live target carries custom access-control metadata: it is
    /// captured before the swap and reapplied to the new file afterwards,
    /// since a fresh file does not inherit it.
    pub preserve_acl: bool,
}

/// Where a replacement attempt stands.
#[derive(Clone, Copy, PartialEq, Eq, Structural, Debug)]
pub enum ReplaceState {
    /// The staged bytes are being held against the manifest digest.
    Verifying,
    /// The staged bytes matched; the one-time header patch is being applied
    /// to the staged copy.
    Patching,
    /// The staged bytes matched and any patch has been applied; the
    /// writability probe is pending.
    Verified,
    /// The live target is not writable; the run must relaunch elevated.
    /// Terminal for this attempt.
    NeedsElevation,
    /// The live file's access-control metadata is being captured.
    CapturingAcl,
    /// Everything before the swap is answered; `reapply_acl` says whether
    /// captured metadata must be put back on the new file afterwards.
    AclReady { reapply_acl: bool },
    /// The live file has been moved aside as the backup.
    BackedUp { reapply_acl: bool },
    /// The new file is live; its access-control metadata is being restored.
    RestoringAcl,
    /// Terminal: the new file is live; the backup stays for recovery.
    Committed,
    /// Terminal: the new file is live, but its captured access-control
    /// metadata could not be reapplied.
    CommittedWithoutAcl,
    /// Terminal: the staged bytes did not match; they are discarded and the
    /// live file stays untouched.
    VerifyFailed,
    /// Terminal: the swap failed and the backup was put back.
    RolledBack,
    /// Terminal: a file operation failed before anything was swapped.
    Failed,
}

impl ReplaceState {
    /// No further file operation follows a terminal state.
    pub open spec fn is_terminal(self) -> bool {
        self is Committed || self is CommittedWithoutAcl || self is VerifyFailed
            || self is RolledBack || self is Failed || self is NeedsElevation
    }
}

/// The report of the last file operation, handed back by the edge.
#[derive(Clone, Copy, PartialEq, Eq, Structural, Debug)]
pub enum ReplaceEvent {
    /// The digest gate's verdict on the staged bytes.
    DigestChecked { matches: bool },
    PatchApplied,
    PatchFailed,
    WritableChecked { writable: bool },
    /// Whether the live file's access-control metadata was captured; a
    /// failed capture is tolerated and the swap goes on without a reapply.
    AclCaptured { captured: bool },
    BackupMade,
    BackupFailed,
    SwapMade,
    SwapFailed,
    AclRestored,
    AclRestoreFailed,
}

/// The file operation the protocol asks for next.
#[derive(Clone, Copy, PartialEq, Eq, Structural, Debug)]
pub enum ReplaceAction {
    /// Apply the one-time header patch to the staged copy only.
    ApplyPatch,
    /// Test whether the live target's directory is writable.
    CheckWritable,
    /// Capture the live file's access-control metadata.
    CaptureAcl,
    /// Remove any stale backup, then move the live file aside as the backup.
    MakeBackup,
    /// Move the staged file into the live path (or, for the running image,
    /// use the platform's replace-running-file primitive).
    SwapIntoPlace,
    /// Delete the staged file; the live file stays.
    DiscardStaged,
    /// Put the backup back into the live path.
    RestoreBackup,
    /// Reapply the captured access-control metadata to the new live file.
    RestoreAcl,
    /// Report that elevation is needed; nothing is applied in this run.
    SignalElevation,
    /// Nothing further; the attempt has ended.
    Stop,
}

/// What stands once writability is settled (or was never in question): the
/// metadata capture where the plan preserves it, else the backup.
pub open spec fn spec_before_backup(plan: ReplacePlan) -> (ReplaceState, ReplaceAction) {
    if plan.preserve_acl {
        (ReplaceState::CapturingAcl, ReplaceAction::CaptureAcl)
    } else {
        (ReplaceState::AclReady { reapply_acl: false }, ReplaceAction::MakeBackup)
    }
}

/// What stands between a verified artifact and its commit, once the digest
/// gate has been passed: the writability probe where one is required, else
/// straight on towards the backup.
pub open spec fn spec_after_verify(plan: ReplacePlan) -> (ReplaceState, ReplaceAction) {
    if plan.check_writable {
        (ReplaceState::Verified, ReplaceAction::CheckWritable)
    } else {
        spec_before_backup(plan)
    }
}

/// The transition table of the protocol. An event that does not answer the
/// pending question of the state is a protocol violation and ends the
/// attempt without touching anything.
pub open spec fn spec_step(plan: ReplacePlan, state: ReplaceState, event: ReplaceEvent) -> (
    ReplaceState,
    ReplaceAction,
) {
    match (state, event) {
        (ReplaceState::Verifying, ReplaceEvent::DigestChecked { matches }) => {
            if !matches {
                (ReplaceState::VerifyFailed, ReplaceAction::DiscardStaged)
            } else if plan.needs_patch {
                (ReplaceState::Patching, ReplaceAction::ApplyPatch)
            } else {
                spec_after_verify(plan)
            }
        },
        (ReplaceState::Patching, ReplaceEvent::PatchApplied) => spec_after_verify(plan),
        (ReplaceState::Patching, ReplaceEvent::PatchFailed) => (
            ReplaceState::Failed,
            ReplaceAction::DiscardStaged,
        ),
        (ReplaceState::Verified, ReplaceEvent::WritableChecked { writable }) => {
            if !plan.check_writable {
                (ReplaceState::Failed, ReplaceAction::Stop)
            } else if writable {
                spec_before_backup(plan)
            } else {
                (ReplaceState::NeedsElevation, ReplaceAction::SignalElevation)
            }
        },
        (ReplaceState::CapturingAcl, ReplaceEvent::AclCaptured { captured }) => (
            ReplaceState::AclReady { reapply_acl: captured },
            ReplaceAction::MakeBackup,
        ),
        (ReplaceState::AclReady { reapply_acl }, ReplaceEvent::BackupMade) => (
            ReplaceState::BackedUp { reapply_acl },
            ReplaceAction::SwapIntoPlace,
        ),
        (ReplaceState::AclReady { .. }, ReplaceEvent::BackupFailed) => (
            ReplaceState::Failed,
            ReplaceAction::DiscardStaged,
        ),
        (ReplaceState::BackedUp { reapply_acl }, ReplaceEvent::SwapMade) => {
            if reapply_acl {
                (ReplaceState::RestoringAcl, ReplaceAction::RestoreAcl)
            } else {
                (ReplaceState::Committed, ReplaceAction::Stop)
            }
        },
        (ReplaceState::BackedUp { .. }, ReplaceEvent::SwapFailed) => (
            ReplaceState::RolledBack,
            ReplaceAction::RestoreBackup,
        ),
        (ReplaceState::RestoringAcl, ReplaceEvent::AclRestored) => (
            ReplaceState::Committed,
            ReplaceAction::Stop,
        ),
        (ReplaceState::RestoringAcl, ReplaceEvent::AclRestoreFailed) => (
            ReplaceState::CommittedWithoutAcl,
            ReplaceAction::Stop,
        ),
        _ => {
            if state.is_terminal() {
                (state, ReplaceAction::Stop)
            } else {
                (ReplaceState::Failed, ReplaceAction::Stop)
            }
        },
    }
}

/// One replacement attempt, from staged bytes to commit or failure.
pub struct ReplaceSession {
    pub plan: ReplacePlan,
    pub state: ReplaceState,
}

impl ReplaceSession {
    /// A fresh attempt: the staged artifact awaits the digest gate.
    pub fn new(plan: ReplacePlan) -> (s: Self)
        ensures
            s.plan == plan,
            s.state == ReplaceState::Verifying,
    {
        ReplaceSession { plan, state: ReplaceState::Verifying }
    }

    /// Feeds the report of the last file operation in and returns the next
    /// one to perform, exactly as [`spec_step`] says.
    pub fn step(&mut self, event: ReplaceEvent) -> (action: ReplaceAction)
        ensures
            final (self).plan == old(self).plan,
            (final (self).state, action) == spec_step(old(self).plan, old(self).state, event),
    {
        let (next, action) = match (self.state, event) {
            (ReplaceState::Verifying, ReplaceEvent::DigestChecked { matches }) => {
                if !matches {
                    (ReplaceState::VerifyFailed, ReplaceAction::DiscardStaged)
                } else if self.plan.needs_patch {
                    (ReplaceState::Patching, ReplaceAction::ApplyPatch)
                } else {
                    self.after_verify()
                }
            },
            (ReplaceState::Patching, ReplaceEvent::PatchApplied) => self.after_verify(),
            (ReplaceState::Patching, ReplaceEvent::PatchFailed) => (
                ReplaceState::Failed,
                ReplaceAction::DiscardStaged,
            ),
            (ReplaceState::Verified, ReplaceEvent::WritableChecked { writable }) => {
                if !self.plan.check_writable {
                    (ReplaceState::Failed, ReplaceAction::Stop)
                } else if writable {
                    self.before_backup()
                } else {
                    (ReplaceState::NeedsElevation, ReplaceAction::SignalElevation)
                }
            },
            (ReplaceState::CapturingAcl, ReplaceEvent::AclCaptured { captured }) => (
                ReplaceState::AclReady { reapply_acl: captured },
                ReplaceAction::MakeBackup,
            ),
            (ReplaceState::AclReady { reapply_acl }, ReplaceEvent::BackupMade) => (
                ReplaceState::BackedUp { reapply_acl },
                ReplaceAction::SwapIntoPlace,
            ),
            (ReplaceState::AclReady { .. }, ReplaceEvent::BackupFailed) => (
                ReplaceState::Failed,
                ReplaceAction::DiscardStaged,
            ),
            (ReplaceState::BackedUp { reapply_acl }, ReplaceEvent::SwapMade) => {
                if reapply_acl {
                    (ReplaceState::RestoringAcl, ReplaceAction::RestoreAcl)
                } else {
                    (ReplaceState::Committed, ReplaceAction::Stop)
                }
            },
            (ReplaceState::BackedUp { .. }, ReplaceEvent::SwapFailed) => (
                ReplaceState::RolledBack,
                ReplaceAction::RestoreBackup,
            ),
            (ReplaceState::RestoringAcl, ReplaceEvent::AclRestored) => (
                ReplaceState::Committed,
                ReplaceAction::Stop,
            ),
            (ReplaceState::RestoringAcl, ReplaceEvent::AclRestoreFailed) => (
                ReplaceState::CommittedWithoutAcl,
                ReplaceAction::Stop,
            ),
            (s, _) => {
                if s.is_terminal_exec() {
                    (s, ReplaceAction::Stop)
                } else {
                    (ReplaceState::Failed, ReplaceAction::Stop)
                }
            },
        };
        self.state = next;
        action
    }

    /// Executable twin of [`spec_before_backup`].
    fn before_backup(&self) -> (r: (ReplaceState, ReplaceAction))
        ensures
            r == spec_before_backup(self.plan),
    {
        if self.plan.preserve_acl {
            (ReplaceState::CapturingAcl, ReplaceAction::CaptureAcl)
        } else {
            (ReplaceState::AclReady { reapply_acl: false }, ReplaceAction::MakeBackup)
        }
    }

    /// Executable twin of [`spec_after_verify`].
    fn after_verify(&self) -> (r: (ReplaceState, ReplaceAction))
        ensures
            r == spec_after_verify(self.plan),
    {
        if self.plan.check_writable {
            (ReplaceState::Verified, ReplaceAction::CheckWritable)
        } else {
            self.before_backup()
        }
    }
}

impl ReplaceState {
    /// Executable twin of [`ReplaceState::is_terminal`].
    pub fn is_terminal_exec(self) -> (r: bool)
        ensures
            r == self.is_terminal(),
    {
        match self {
            ReplaceState::Committed => true,
            ReplaceState::CommittedWithoutAcl => true,
            ReplaceState::VerifyFailed => true,
            ReplaceState::RolledBack => true,
            ReplaceState::Failed => true,
            ReplaceState::NeedsElevation => true,
            _ => false,
        }
    }
}

// ---------------------------------------------------------------------------
// The file model the safety statement speaks of.
// ---------------------------------------------------------------------------

/// The bytes the protocol's files hold: the live target, the most recently
/// staged content, and the backup where one was made.
pub struct FileModel {
    pub live: Seq<u8>,
    pub staged: Seq<u8>,
    pub backup: Option<Seq<u8>>,
}

/// What carrying an action out does to the files. The patch rewrites the
/// staged bytes as [`patched_of`] says; discarding the staged file leaves
/// its last bytes on record.
pub open spec fn apply_action(f: FileModel, a: ReplaceAction) -> FileModel {
    match a {
        ReplaceAction::ApplyPatch => FileModel { staged: patched_of(f.staged), ..f },
        ReplaceAction::MakeBackup => FileModel { backup: Some(f.live), ..f },
        ReplaceAction::SwapIntoPlace => FileModel { live: f.staged, ..f },
        ReplaceAction::RestoreBackup => match f.backup {
            Some(b) => FileModel { live: b, ..f },
            None => f,
        },
        _ => f,
    }
}

/// A whole attempt: each event is stepped through the machine and the
/// action it asks for is carried out on the files.
pub open spec fn run(plan: ReplacePlan, state: ReplaceState, f: FileModel, events: Seq<
    ReplaceEvent,
>) -> (ReplaceState, FileModel)
    decreases events.len(),
{
    if events.len() == 0 {
        (state, f)
    } else {
        let (next, action) = spec_step(plan, state, events.first());
        run(plan, next, apply_action(f, action), events.drop_first())
    }
}

/// An honest digest report: the edge calls
/// [`crate::integrity::digest_matches`] on the staged bytes, so its verdict
/// is exactly whether those bytes carry the declared digest.
pub open spec fn honest_digest_event(e: ReplaceEvent, staged: Seq<u8>, expected: Seq<char>) -> bool {
    e matches ReplaceEvent::DigestChecked { matches } ==> matches == (digest_hex_of(staged)
        == expected)
}

/// The states an attempt can be in while the digest gate has never passed.
pub open spec fn gate_closed(state: ReplaceState) -> bool {
    state is Verifying || state is VerifyFailed || state is Failed
}

proof fn lemma_gate_closed_run(
    plan: ReplacePlan,
    state: ReplaceState,
    f: FileModel,
    expected: Seq<char>,
    events: Seq<ReplaceEvent>,
)
    requires
        gate_closed(state),
        digest_hex_of(f.staged) != expected,
        forall|i: int| 0 <= i < events.len() ==> honest_digest_event(#[trigger] events[i], f.staged, expected),
    ensures
        gate_closed(run(plan, state, f, events).0),
        run(plan, state, f, events).1.live == f.live,
        run(plan, state, f, events).1.staged == f.staged,
    decreases events.len(),
{
    if events.len() > 0 {
        let (next, action) = spec_step(plan, state, events.first());
        let f2 = apply_action(f, action);
        assert(gate_closed(next));
        assert(f2.live == f.live && f2.staged == f.staged);
        assert(forall|i: int|
            0 <= i < events.drop_first().len() ==> honest_digest_event(
                #[trigger] events.drop_first()[i],
                f2.staged,
                expected,
            ));
        lemma_gate_closed_run(plan, next, f2, expected, events.drop_first());
    }
}

/// The single integrity gate is never skipped: in an attempt whose staged
/// bytes do not carry the digest the manifest declares, and whose digest
/// reports are honest, the live target's bytes are the same after the
/// attempt as before it, whatever else the file operations report.
pub proof fn lemma_mismatch_preserves_live(
    plan: ReplacePlan,
    f: FileModel,
    expected: Seq<char>,
    events: Seq<ReplaceEvent>,
)
    requires
        digest_hex_of(f.staged) != expected,
        forall|i: int| 0 <= i < events.len() ==> honest_digest_event(#[trigger] events[i], f.staged, expected),
    ensures
        run(plan, ReplaceState::Verifying, f, events).1.live == f.live,
        !(run(plan, ReplaceState::Verifying, f, events).0 is Committed),
        !(run(plan, ReplaceState::Verifying, f, events).0 is CommittedWithoutAcl),
{
    lemma_gate_closed_run(plan, ReplaceState::Verifying, f, expected, events);
}

} // verus!
