use launcher::component::{plan_update, Update};
use launcher::entrypoint::{get_cmdline_value, launch_mode, LaunchMode};
use launcher::filesystem::{
    appdata_bin_path, appdata_main_path, appdata_zone_path, file_stem, join_path, with_extension,
};
use launcher::process::{elevation_marker, relaunch_verb, Privileges};
use launcher::updater::{
    build_plan, build_updates_message, decide_run, provider_name, ProviderKind, RunDecision,
};
use launcher::version::Version;
use launcher::worker::{worker_outcome, ComponentOutcome, RunStatus};
use launcher::wstring::Wstring;

fn update(elevate: bool, restart: bool) -> Update {
    plan_update(
        "Miles Loader",
        "mss32.dll",
        Some(Version::new(1, 0, 0)),
        Version::new(2, 0, 0),
        elevate,
        restart,
    )
    .expect("newer upstream yields an update")
}

#[test]
fn plan_keeps_nonempty_discoveries_in_order() {
    let plan = build_plan(vec![
        (ProviderKind::GameCore, Some(vec![update(false, false)])),
        (ProviderKind::SelfLauncher, Some(Vec::new())),
        (ProviderKind::AudioLoader, None),
    ]);
    assert_eq!(plan.entries.len(), 1);
    assert_eq!(plan.entries[0].provider, ProviderKind::GameCore);
    assert_eq!(plan.entries[0].updates.len(), 1);
}

#[test]
fn empty_plan_ends_the_run() {
    let plan = build_plan(vec![(ProviderKind::GameCore, Some(Vec::new()))]);
    assert_eq!(decide_run(&plan, false, true), RunDecision::UpToDate);
}

#[test]
fn declined_plan_applies_nothing() {
    let plan = build_plan(vec![(ProviderKind::GameCore, Some(vec![update(false, false)]))]);
    assert_eq!(decide_run(&plan, false, false), RunDecision::Declined);
}

#[test]
fn elevation_needed_relaunches_before_any_apply() {
    let plan = build_plan(vec![
        (ProviderKind::GameCore, Some(vec![update(false, false)])),
        (ProviderKind::AudioLoader, Some(vec![update(true, true)])),
    ]);
    assert_eq!(decide_run(&plan, false, true), RunDecision::Elevate);
    // The elevated leg itself goes straight to applying, and exits rather
    // than restarting afterwards.
    assert_eq!(decide_run(&plan, true, true), RunDecision::Apply { restart_after: false });
}

#[test]
fn restart_follows_apply_when_an_update_asks() {
    let restarting = build_plan(vec![(ProviderKind::SelfLauncher, Some(vec![update(false, true)]))]);
    assert_eq!(decide_run(&restarting, false, true), RunDecision::Apply { restart_after: true });
    let quiet = build_plan(vec![(ProviderKind::GameCore, Some(vec![update(false, false)]))]);
    assert_eq!(decide_run(&quiet, false, true), RunDecision::Apply { restart_after: false });
}

#[test]
fn confirmation_message_lists_updates() {
    let mut u = update(false, false);
    u.display_name = "CoD4x DLL".to_string();
    let plan = build_plan(vec![(ProviderKind::GameCore, Some(vec![u]))]);
    let msg = build_updates_message(&plan, false);
    assert_eq!(
        msg,
        "Updates available:\n CoD4x game:\n  - CoD4x DLL: 1.0.0 => 2.0.0\n\nDo you want to update?"
    );
}

#[test]
fn confirmation_message_warns_about_elevation() {
    let mut u = update(true, true);
    u.current = None;
    let plan = build_plan(vec![(ProviderKind::AudioLoader, Some(vec![u]))]);
    let msg = build_updates_message(&plan, true);
    assert_eq!(
        msg,
        "Updates available:\n Miles Loader:\n  - Miles Loader: unknown => 2.0.0\n\n\
         The update requires administrator rights\nDo you want to update?"
    );
}

#[test]
fn provider_names_match_the_components() {
    assert_eq!(provider_name(ProviderKind::GameCore), "CoD4x game");
    assert_eq!(provider_name(ProviderKind::SelfLauncher), "CoD4x module");
    assert_eq!(provider_name(ProviderKind::AudioLoader), "Miles Loader");
}

#[test]
fn cancellation_halts_the_worker_at_once() {
    let outcomes = vec![
        ComponentOutcome::Success,
        ComponentOutcome::Cancelled,
        ComponentOutcome::Success,
    ];
    let (processed, status) = worker_outcome(&outcomes);
    assert_eq!(processed, 2);
    assert_eq!(status, RunStatus::Aborted);
}

#[test]
fn failures_are_isolated_per_provider() {
    let outcomes = vec![
        ComponentOutcome::Failed,
        ComponentOutcome::Success,
        ComponentOutcome::Success,
    ];
    let (processed, status) = worker_outcome(&outcomes);
    assert_eq!(processed, 3);
    assert_eq!(status, RunStatus::HadErrors);
}

#[test]
fn clean_run_is_reported_as_such() {
    let outcomes = vec![ComponentOutcome::Success, ComponentOutcome::Success];
    assert_eq!(worker_outcome(&outcomes), (2, RunStatus::AllOk));
    assert_eq!(worker_outcome(&Vec::new()), (0, RunStatus::AllOk));
}

fn args(words: &[&str]) -> Vec<String> {
    words.iter().map(|w| w.to_string()).collect()
}

#[test]
fn cmdline_value_follows_set_markers() {
    let a = args(&["game.exe", "+set", "elevated", "1", "+seta", "name", "player"]);
    assert_eq!(get_cmdline_value("elevated", &a), Some(&"1".to_string()));
    assert_eq!(get_cmdline_value("name", &a), Some(&"player".to_string()));
    assert_eq!(get_cmdline_value("missing", &a), None);
    let short = args(&["+set", "elevated"]);
    assert_eq!(get_cmdline_value("elevated", &short), None);
}

#[test]
fn launch_mode_reads_the_markers() {
    assert!(matches!(
        launch_mode(&args(&["x", "+set", "legacymode", "1"])),
        LaunchMode::Legacy
    ));
    match launch_mode(&args(&["x", "+set", "protocolversion", "17"])) {
        LaunchMode::Protocol { version } => assert_eq!(version, "17"),
        _ => panic!("expected a pinned-protocol start"),
    }
    assert!(matches!(
        launch_mode(&args(&["x", "+set", "elevated", "1"])),
        LaunchMode::Normal { elevated: true }
    ));
    assert!(matches!(launch_mode(&args(&["x"])), LaunchMode::Normal { elevated: false }));
}

#[test]
fn relaunch_words_are_fixed() {
    assert_eq!(relaunch_verb(Privileges::User), "open");
    assert_eq!(relaunch_verb(Privileges::Admin), "runas");
    assert_eq!(elevation_marker(), "+set elevated 1");
}

#[test]
fn content_paths_hang_off_the_root() {
    assert_eq!(
        launcher::filesystem::get_appdata_cod4_path("C:\\Users\\p\\AppData\\Local"),
        "C:\\Users\\p\\AppData\\Local\\CallofDuty4MW"
    );
    assert_eq!(appdata_bin_path("C:\\Users\\p\\CallofDuty4MW"), "C:\\Users\\p\\CallofDuty4MW\\bin");
    assert_eq!(appdata_main_path("root"), "root\\main");
    assert_eq!(appdata_zone_path("root"), "root\\zone");
    assert_eq!(join_path("a", "b"), "a\\b");
}

#[test]
fn swap_names_replace_the_extension() {
    assert_eq!(with_extension("C:\\dir\\launcher.dll", "part"), "C:\\dir\\launcher.part");
    assert_eq!(with_extension("C:\\dir\\launcher.dll", "old"), "C:\\dir\\launcher.old");
    assert_eq!(with_extension("C:\\dir.v2\\plain", "part"), "C:\\dir.v2\\plain.part");
}

#[test]
fn version_directory_is_named_after_the_stem() {
    assert_eq!(file_stem("cod4x_21366.dll"), Some("cod4x_21366".to_string()));
    assert_eq!(file_stem("C:\\bin\\cod4x_21366.dll"), Some("cod4x_21366".to_string()));
    assert_eq!(file_stem(""), None);
}

#[test]
fn wide_strings_end_with_a_zero_unit() {
    assert_eq!(Wstring::new("AB").as_units(), &[0x41, 0x42, 0]);
    assert_eq!(Wstring::new("").as_units(), &[0]);
    assert_eq!(Wstring::new("\u{20AC}").as_units(), &[0x20AC, 0]);
    assert_eq!(Wstring::new("\u{1D11E}").as_units(), &[0xD834, 0xDD1E, 0]);
}
