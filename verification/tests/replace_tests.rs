use launcher::integrity::{digest, digest_matches};
use launcher::iw3mp::{adler32, header_flags, is_large_address_aware, is_pure, make_large_address_aware};
use launcher::replace::{ReplaceAction, ReplaceEvent, ReplacePlan, ReplaceSession, ReplaceState};

const ABC_SHA1: &str = "a9993e364706816aba3e25717850c26c9cd0d89d";

#[test]
fn digest_of_known_bytes() {
    assert_eq!(digest(b"abc"), ABC_SHA1);
    assert_eq!(digest(b""), "da39a3ee5e6b4b0d3255bfef95601890afd80709");
}

#[test]
fn digest_gate_accepts_and_rejects() {
    assert!(digest_matches(b"abc", ABC_SHA1));
    assert!(!digest_matches(b"abd", ABC_SHA1));
    assert!(!digest_matches(b"abc", "da39a3ee5e6b4b0d3255bfef95601890afd80709"));
}

fn plain_plan() -> ReplacePlan {
    ReplacePlan { needs_patch: false, check_writable: false, preserve_acl: false }
}

#[test]
fn mismatch_discards_staged_and_never_touches_live() {
    // The staged bytes do not carry the declared digest: verification
    // fails, the staged file is discarded, and no later event can reach
    // the swap.
    let mut session = ReplaceSession::new(plain_plan());
    let verdict = digest_matches(b"corrupted download", ABC_SHA1);
    assert!(!verdict);
    let action = session.step(ReplaceEvent::DigestChecked { matches: verdict });
    assert_eq!(action, ReplaceAction::DiscardStaged);
    assert_eq!(session.state, ReplaceState::VerifyFailed);
    // Even a rogue success report afterwards asks for nothing further.
    let action = session.step(ReplaceEvent::SwapMade);
    assert_eq!(action, ReplaceAction::Stop);
    assert_ne!(session.state, ReplaceState::Committed);
}

#[test]
fn matching_digest_commits_via_backup_and_swap() {
    let mut session = ReplaceSession::new(plain_plan());
    let verdict = digest_matches(b"abc", ABC_SHA1);
    assert!(verdict);
    assert_eq!(
        session.step(ReplaceEvent::DigestChecked { matches: verdict }),
        ReplaceAction::MakeBackup
    );
    assert_eq!(session.step(ReplaceEvent::BackupMade), ReplaceAction::SwapIntoPlace);
    assert_eq!(session.step(ReplaceEvent::SwapMade), ReplaceAction::Stop);
    assert_eq!(session.state, ReplaceState::Committed);
}

#[test]
fn failed_swap_restores_backup() {
    let mut session = ReplaceSession::new(plain_plan());
    session.step(ReplaceEvent::DigestChecked { matches: true });
    session.step(ReplaceEvent::BackupMade);
    assert_eq!(session.step(ReplaceEvent::SwapFailed), ReplaceAction::RestoreBackup);
    assert_eq!(session.state, ReplaceState::RolledBack);
}

#[test]
fn protected_target_needs_elevation() {
    let mut session = ReplaceSession::new(ReplacePlan {
        needs_patch: false,
        check_writable: true,
        preserve_acl: false,
    });
    assert_eq!(
        session.step(ReplaceEvent::DigestChecked { matches: true }),
        ReplaceAction::CheckWritable
    );
    assert_eq!(
        session.step(ReplaceEvent::WritableChecked { writable: false }),
        ReplaceAction::SignalElevation
    );
    assert_eq!(session.state, ReplaceState::NeedsElevation);
}

#[test]
fn patched_image_is_staged_only_after_the_gate() {
    let mut session = ReplaceSession::new(ReplacePlan {
        needs_patch: true,
        check_writable: true,
        preserve_acl: false,
    });
    assert_eq!(
        session.step(ReplaceEvent::DigestChecked { matches: true }),
        ReplaceAction::ApplyPatch
    );
    assert_eq!(session.step(ReplaceEvent::PatchApplied), ReplaceAction::CheckWritable);
    assert_eq!(
        session.step(ReplaceEvent::WritableChecked { writable: true }),
        ReplaceAction::MakeBackup
    );
    assert_eq!(session.step(ReplaceEvent::BackupMade), ReplaceAction::SwapIntoPlace);
    assert_eq!(session.step(ReplaceEvent::SwapMade), ReplaceAction::Stop);
    assert_eq!(session.state, ReplaceState::Committed);
}

#[test]
fn acl_round_trip_wraps_the_swap() {
    // The metadata is captured before the backup and reapplied after the
    // swap; only then is the attempt committed.
    let mut session = ReplaceSession::new(ReplacePlan {
        needs_patch: false,
        check_writable: true,
        preserve_acl: true,
    });
    assert_eq!(
        session.step(ReplaceEvent::DigestChecked { matches: true }),
        ReplaceAction::CheckWritable
    );
    assert_eq!(
        session.step(ReplaceEvent::WritableChecked { writable: true }),
        ReplaceAction::CaptureAcl
    );
    assert_eq!(
        session.step(ReplaceEvent::AclCaptured { captured: true }),
        ReplaceAction::MakeBackup
    );
    assert_eq!(session.step(ReplaceEvent::BackupMade), ReplaceAction::SwapIntoPlace);
    assert_eq!(session.step(ReplaceEvent::SwapMade), ReplaceAction::RestoreAcl);
    assert_eq!(session.step(ReplaceEvent::AclRestored), ReplaceAction::Stop);
    assert_eq!(session.state, ReplaceState::Committed);
}

#[test]
fn failed_acl_capture_is_tolerated() {
    // A capture that fails does not block the swap; nothing is reapplied.
    let mut session = ReplaceSession::new(ReplacePlan {
        needs_patch: false,
        check_writable: false,
        preserve_acl: true,
    });
    assert_eq!(
        session.step(ReplaceEvent::DigestChecked { matches: true }),
        ReplaceAction::CaptureAcl
    );
    assert_eq!(
        session.step(ReplaceEvent::AclCaptured { captured: false }),
        ReplaceAction::MakeBackup
    );
    assert_eq!(session.step(ReplaceEvent::BackupMade), ReplaceAction::SwapIntoPlace);
    assert_eq!(session.step(ReplaceEvent::SwapMade), ReplaceAction::Stop);
    assert_eq!(session.state, ReplaceState::Committed);
}

#[test]
fn failed_acl_reapply_leaves_the_swap_standing() {
    let mut session = ReplaceSession::new(ReplacePlan {
        needs_patch: false,
        check_writable: false,
        preserve_acl: true,
    });
    session.step(ReplaceEvent::DigestChecked { matches: true });
    session.step(ReplaceEvent::AclCaptured { captured: true });
    session.step(ReplaceEvent::BackupMade);
    assert_eq!(session.step(ReplaceEvent::SwapMade), ReplaceAction::RestoreAcl);
    assert_eq!(session.step(ReplaceEvent::AclRestoreFailed), ReplaceAction::Stop);
    assert_eq!(session.state, ReplaceState::CommittedWithoutAcl);
}

#[test]
fn checksum_of_known_text() {
    // The classic reference value for this checksum.
    assert_eq!(adler32(b"Wikipedia"), 0x11E60398);
    assert_eq!(adler32(b""), 1);
}

#[test]
fn purity_needs_both_checksums() {
    assert!(!is_pure(b"not the real text section", b"nor the real rdata"));
}

#[test]
fn header_patch_sets_the_large_address_flag() {
    let mut image = vec![0u8; 512];
    let flags = header_flags(&image).expect("image long enough");
    assert!(!is_large_address_aware(flags));
    assert!(make_large_address_aware(&mut image));
    let flags = header_flags(&image).expect("image long enough");
    assert!(is_large_address_aware(flags));
    assert_eq!(flags, 0x0123);
    // Only the characteristics word changed.
    assert_eq!(image[286], 0x23);
    assert_eq!(image[287], 0x01);
    assert!(image[..286].iter().all(|&b| b == 0));
    assert!(image[288..].iter().all(|&b| b == 0));
}

#[test]
fn header_patch_refuses_short_image() {
    let mut image = vec![0u8; 100];
    assert!(!make_large_address_aware(&mut image));
    assert!(header_flags(&image).is_none());
    assert!(image.iter().all(|&b| b == 0));
}
