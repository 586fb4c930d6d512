//! One whole run, played out over the verified pieces: discovery finds a
//! newer release, the artifact resolves against the manifest, the staged
//! bytes pass the digest gate, the swap commits with a backup left behind,
//! and a second run finds nothing left to do.
use launcher::component::LauncherComponent;
use launcher::filesystem::with_extension;
use launcher::github::{parse_hashes, parse_release_information, resolve_artifact};
use launcher::integrity::digest_matches;
use launcher::replace::{ReplaceAction, ReplaceEvent, ReplacePlan, ReplaceSession, ReplaceState};
use launcher::updater::{build_plan, decide_run, ProviderKind, RunDecision};
use launcher::version::Version;
use launcher::worker::{worker_outcome, ComponentOutcome, RunStatus};

const ARTIFACT_BYTES: &[u8] = b"abc";

const ARTIFACT_SHA1: &str = "a9993e364706816aba3e25717850c26c9cd0d89d";

fn release_body() -> String {
    "{\"tag_name\":\"1.3.0\",\"assets\":[\
     {\"name\":\"launcher.dll\",\"browser_download_url\":\"https://x/launcher.dll\"},\
     {\"name\":\"hashes.txt\",\"browser_download_url\":\"https://x/hashes.txt\"}]}"
        .to_string()
}

#[test]
fn update_run_commits_and_second_run_is_quiet() {
    // Discovery: the release is newer than the installed build.
    let release = parse_release_information(release_body().as_str()).expect("release parses");
    let component = LauncherComponent::new(release);
    let updates = component.get_updates(Version::new(1, 2, 0)).expect("planning succeeds");
    assert_eq!(updates.len(), 1);
    assert_eq!(updates[0].upstream, Version::new(1, 3, 0));

    // Planning: one provider wants one update, applied without elevation,
    // with a restart afterwards.
    let plan = build_plan(vec![(ProviderKind::SelfLauncher, Some(updates))]);
    assert_eq!(decide_run(&plan, false, true), RunDecision::Apply { restart_after: true });

    // The artifact resolves against the manifest.
    let manifest = parse_hashes(format!("{ARTIFACT_SHA1} launcher.dll\n").as_str());
    let (found, expected) = resolve_artifact(
        &component.release_information,
        plan.entries[0].updates[0].artifact_name.as_str(),
        &manifest,
    )
    .expect("asset and digest resolve");
    assert_eq!(found.name, "launcher.dll");

    // The download stages beside the live file, never over it.
    let live = "install\\launcher.dll";
    let staging = with_extension(live, "part");
    assert_eq!(staging, "install\\launcher.part");

    // The staged bytes pass the single integrity gate, and the swap
    // commits with the old file kept as the backup.
    let mut session = ReplaceSession::new(ReplacePlan {
        needs_patch: false,
        check_writable: false,
        preserve_acl: false,
    });
    let verdict = digest_matches(ARTIFACT_BYTES, expected.as_str());
    assert!(verdict);
    assert_eq!(
        session.step(ReplaceEvent::DigestChecked { matches: verdict }),
        ReplaceAction::MakeBackup
    );
    assert_eq!(with_extension(live, "old"), "install\\launcher.old");
    assert_eq!(session.step(ReplaceEvent::BackupMade), ReplaceAction::SwapIntoPlace);
    assert_eq!(session.step(ReplaceEvent::SwapMade), ReplaceAction::Stop);
    assert_eq!(session.state, ReplaceState::Committed);

    // The one provider went through cleanly.
    assert_eq!(
        worker_outcome(&vec![ComponentOutcome::Success]),
        (1, RunStatus::AllOk)
    );

    // A second run against the same release finds nothing to do.
    let second = parse_release_information(release_body().as_str()).expect("release parses");
    let updates = LauncherComponent::new(second)
        .get_updates(Version::new(1, 3, 0))
        .expect("planning succeeds");
    assert!(updates.is_empty());
    let plan = build_plan(vec![(ProviderKind::SelfLauncher, Some(updates))]);
    assert_eq!(decide_run(&plan, false, true), RunDecision::UpToDate);
}

#[test]
fn cancelled_transfer_aborts_the_whole_phase() {
    // The progress callback signalled a stop mid-transfer: that provider
    // reports a cancellation and nothing after it runs.
    let outcomes = vec![ComponentOutcome::Cancelled, ComponentOutcome::Success];
    let (processed, status) = worker_outcome(&outcomes);
    assert_eq!(processed, 1);
    assert_eq!(status, RunStatus::Aborted);
    assert_ne!(status, RunStatus::HadErrors);
}
