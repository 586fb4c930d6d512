use launcher::component::{plan_update, CoD4xComponent, LauncherComponent, Mss32Component};
use launcher::github::ReleaseInformation;
use launcher::version::{coerce_version_tag, parse_version_tag, Version};

fn release(tag: &str) -> ReleaseInformation {
    ReleaseInformation { tag_name: tag.to_string(), assets: Vec::new() }
}

#[test]
fn coercion_pads_one_component() {
    assert_eq!(coerce_version_tag("1.5"), "1.5.0");
}

#[test]
fn coercion_keeps_full_tag() {
    assert_eq!(coerce_version_tag("1.5.2"), "1.5.2");
}

#[test]
fn coercion_pads_bare_number() {
    assert_eq!(coerce_version_tag("2"), "2.0.0");
}

#[test]
fn parse_version_tag_reads_padded_tag() {
    assert_eq!(parse_version_tag("1.5"), Some(Version::new(1, 5, 0)));
    assert_eq!(parse_version_tag("21.2"), Some(Version::new(21, 2, 0)));
    assert_eq!(parse_version_tag("1.5.2"), Some(Version::new(1, 5, 2)));
    assert_eq!(parse_version_tag("not a version"), None);
}

#[test]
fn version_ordering_is_componentwise() {
    assert!(Version::new(1, 3, 0).newer_than(&Version::new(1, 2, 9)));
    assert!(Version::new(2, 0, 0).newer_than(&Version::new(1, 9, 9)));
    assert!(!Version::new(1, 3, 0).newer_than(&Version::new(1, 3, 0)));
    assert!(!Version::new(1, 2, 9).newer_than(&Version::new(1, 3, 0)));
}

#[test]
fn update_emitted_iff_unknown_or_newer() {
    // Equal versions: no update.
    let same = plan_update(
        "X",
        "x.dll",
        Some(Version::new(1, 3, 0)),
        Version::new(1, 3, 0),
        false,
        false,
    );
    assert!(same.is_none());
    // Unknown current: an update, whatever upstream says.
    let unknown = plan_update("X", "x.dll", None, Version::new(0, 0, 1), false, false)
        .expect("unknown version must force an update");
    assert_eq!(unknown.current, None);
    assert_eq!(unknown.upstream, Version::new(0, 0, 1));
    // Strictly newer upstream: an update.
    let newer = plan_update(
        "X",
        "x.dll",
        Some(Version::new(1, 2, 0)),
        Version::new(1, 3, 0),
        false,
        true,
    )
    .expect("newer upstream must yield an update");
    assert_eq!(newer.current, Some(Version::new(1, 2, 0)));
    assert!(newer.requires_restart);
    // Older upstream: no update.
    let older = plan_update(
        "X",
        "x.dll",
        Some(Version::new(1, 3, 0)),
        Version::new(1, 2, 0),
        false,
        false,
    );
    assert!(older.is_none());
}

#[test]
fn cod4x_unknown_version_forces_update() {
    let c = CoD4xComponent::new(release("21.2"));
    let updates = c.get_updates(None, true, true, true, true).expect("planning succeeds");
    assert_eq!(updates.len(), 1);
    assert_eq!(updates[0].display_name, "CoD4x DLL");
    assert_eq!(updates[0].artifact_name, "^cod4x_([0-9]+).dll");
    assert_eq!(updates[0].current, None);
    assert_eq!(updates[0].upstream, Version::new(21, 2, 0));
}

#[test]
fn cod4x_unreadable_tag_with_known_version_is_an_error() {
    let c = CoD4xComponent::new(release("garbage"));
    assert!(c.get_updates(Some(Version::new(1, 0, 0)), true, true, true, true).is_err());
}

#[test]
fn cod4x_missing_packs_force_updates() {
    let c = CoD4xComponent::new(release("1.0"));
    let updates = c
        .get_updates(Some(Version::new(1, 0, 0)), false, true, false, true)
        .expect("planning succeeds");
    assert_eq!(updates.len(), 2);
    assert_eq!(updates[0].artifact_name, "jcod4x_00.iwd");
    assert_eq!(updates[0].upstream, Version::new(1, 0, 0));
    assert_eq!(updates[1].artifact_name, "cod4x_patch.ff");
}

#[test]
fn launcher_update_requires_restart() {
    let c = LauncherComponent::new(release("1.3.0"));
    let updates = c.get_updates(Version::new(1, 2, 0)).expect("planning succeeds");
    assert_eq!(updates.len(), 1);
    assert_eq!(updates[0].artifact_name, "launcher.dll");
    assert!(updates[0].requires_restart);
    assert!(!updates[0].requires_elevate);
}

#[test]
fn launcher_up_to_date_yields_nothing() {
    let c = LauncherComponent::new(release("1.3.0"));
    let updates = c.get_updates(Version::new(1, 3, 0)).expect("planning succeeds");
    assert!(updates.is_empty());
}

#[test]
fn mss32_update_requires_elevation_and_restart() {
    let c = Mss32Component::new(release("2.0.0"));
    let updates = c.get_updates(None).expect("planning succeeds");
    assert_eq!(updates.len(), 1);
    assert!(updates[0].requires_elevate);
    assert!(updates[0].requires_restart);
    let up_to_date = Mss32Component::new(release("2.0.0"))
        .get_updates(Some(Version::new(2, 0, 0)))
        .expect("planning succeeds");
    assert!(up_to_date.is_empty());
}
