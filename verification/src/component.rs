//! Per-component update planning: which artifacts a component wants
//! refreshed, given the release it tracks and what is installed locally.
//!
//! Detection itself (probing a module for its version, looking for a file)
//! happens at the edge; the planning here takes those observations as plain
//! values and decides, exactly, which updates are owed.
use vstd::prelude::*;

use crate::github::ReleaseInformation;
use crate::version::{spec_tag_version, parse_version_tag, semver_triple_of, Version};
use crate::text::str_eq;

verus! {

/// One pending artifact refresh, as planning emits it.
#[derive(Clone)]
pub struct Update {
    pub display_name: String,
    pub artifact_name: String,
    pub current: Option<Version>,
    pub upstream: Version,
    pub requires_elevate: bool,
    pub requires_restart: bool,
}

/// The update rule: an update is owed exactly when the installed version is
/// unknown or the upstream version is strictly newer.
pub open spec fn update_wanted(current: Option<Version>, upstream: Version) -> bool {
    match current {
        None => true,
        Some(c) => c.spec_lt(upstream),
    }
}

/// All the fields of an update, pinned at once.
pub open spec fn is_update(
    u: Update,
    display: Seq<char>,
    artifact: Seq<char>,
    current: Option<Version>,
    upstream: Version,
    elevate: bool,
    restart: bool,
) -> bool {
    &&& u.display_name@ == display
    &&& u.artifact_name@ == artifact
    &&& u.current == current
    &&& u.upstream == upstream
    &&& u.requires_elevate == elevate
    &&& u.requires_restart == restart
}

/// Emits an update exactly when [`update_wanted`] says one is owed.
pub fn plan_update(
    display_name: &str,
    artifact_name: &str,
    current: Option<Version>,
    upstream: Version,
    requires_elevate: bool,
    requires_restart: bool,
) -> (r: Option<Update>)
    ensures
        r is Some <==> update_wanted(current, upstream),
        r matches Some(u) ==> is_update(
            u,
            display_name@,
            artifact_name@,
            current,
            upstream,
            requires_elevate,
            requires_restart,
        ),
{
    let wanted = match &current {
        None => true,
        Some(c) => upstream.newer_than(c),
    };
    if wanted {
        Some(
            Update {
                display_name: display_name.to_owned(),
                artifact_name: artifact_name.to_owned(),
                current,
                upstream,
                requires_elevate,
                requires_restart,
            },
        )
    } else {
        None
    }
}

/// Why planning failed: the release tag could not be read as a version.
#[derive(Debug)]
pub enum VersionError {
    InvalidTag,
}

impl VersionError {
    pub fn message(&self) -> (r: &str)
        ensures
            self is InvalidTag ==> r@ == "Couldn't parse release tag as a version"@,
    {
        match self {
            Self::InvalidTag => "Couldn't parse release tag as a version",
        }
    }
}

// ---------------------------------------------------------------------------
// The game-core component.
// ---------------------------------------------------------------------------

/// The upstream and current fields of the game-core module update, where one
/// is owed: an unknown installed version always forces an update, against
/// the tag's version or a zero version where even the tag is unreadable.
pub open spec fn spec_cod4x_module_update(tagv: Option<Version>, current: Option<Version>) -> Option<
    (Option<Version>, Version),
> {
    match current {
        None => Some(
            (
                None,
                match tagv {
                    Some(v) => v,
                    None => Version { major: 0, minor: 0, patch: 0 },
                },
            ),
        ),
        Some(c) => match tagv {
            Some(up) => if c.spec_lt(up) {
                Some((Some(c), up))
            } else {
                None
            },
            None => None,
        },
    }
}

/// The game-core component: the module itself plus its content packs.
pub struct CoD4xComponent {
    pub release_information: ReleaseInformation,
}

impl CoD4xComponent {
    pub fn new(release_information: ReleaseInformation) -> (c: Self)
        ensures
            c.release_information == release_information,
    {
        CoD4xComponent { release_information }
    }

    pub fn name(&self) -> (r: &str)
        ensures
            r@ == "CoD4x game"@,
    {
        "CoD4x game"
    }

    /// Plans the module update. An unreadable installed version forces an
    /// update; otherwise the release tag must parse (after padding) and an
    /// update is owed exactly when it is strictly newer.
    pub fn get_module_update(&self, current: Option<Version>, pattern: &str, display_name: &str) -> (r:
        Result<Option<Update>, VersionError>)
        ensures
            ({
                let tagv = spec_tag_version(self.release_information.tag_name@);
                &&& r is Err <==> (current is Some && tagv is None)
                &&& r matches Ok(opt) ==> match spec_cod4x_module_update(tagv, current) {
                    Some(cu) => opt matches Some(u) && is_update(
                        u,
                        display_name@,
                        pattern@,
                        cu.0,
                        cu.1,
                        false,
                        false,
                    ),
                    None => opt is None,
                }
            }),
    {
        let upstream = parse_version_tag(self.release_information.tag_name.as_str());
        match current {
            None => {
                let up = match upstream {
                    Some(v) => v,
                    None => Version { major: 0, minor: 0, patch: 0 },
                };
                Ok(plan_update(display_name, pattern, None, up, false, false))
            },
            Some(c) => {
                let up = match upstream {
                    Some(v) => v,
                    None => {
                        return Err(VersionError::InvalidTag);
                    },
                };
                Ok(plan_update(display_name, pattern, Some(c), up, false, false))
            },
        }
    }

    /// Plans a content-pack update: one is owed exactly when the pack is
    /// absent, with a sentinel upstream version.
    pub fn get_cod4x_mod_update(&self, artifact_present: bool, file_name: &str, display_name: &str)
        -> (r: Option<Update>)
        ensures
            r is Some <==> !artifact_present,
            r matches Some(u) ==> is_update(
                u,
                display_name@,
                file_name@,
                None,
                Version { major: 1, minor: 0, patch: 0 },
                false,
                false,
            ),
    {
        if !artifact_present {
            plan_update(
                display_name,
                file_name,
                None,
                Version { major: 1, minor: 0, patch: 0 },
                false,
                false,
            )
        } else {
            None
        }
    }

    /// Plans every update of this component, module first, then the content
    /// packs in their fixed order. `current` is the probed module version;
    /// the flags say which content packs are present.
    pub fn get_updates(
        &self,
        current: Option<Version>,
        have_jcod4x: bool,
        have_ambfix: bool,
        have_patch: bool,
        have_patchv2: bool,
    ) -> (r: Result<Vec<Update>, VersionError>)
        ensures
            ({
                let tagv = spec_tag_version(self.release_information.tag_name@);
                let m = spec_cod4x_module_update(tagv, current);
                let n0: int = if m is Some {
                    1int
                } else {
                    0int
                };
                let n1: int = n0 + if have_jcod4x {
                    0int
                } else {
                    1int
                };
                let n2: int = n1 + if have_ambfix {
                    0int
                } else {
                    1int
                };
                let n3: int = n2 + if have_patch {
                    0int
                } else {
                    1int
                };
                let n4: int = n3 + if have_patchv2 {
                    0int
                } else {
                    1int
                };
                &&& r is Err <==> (current is Some && tagv is None)
                &&& r matches Ok(v) ==> {
                    &&& v@.len() == n4
                    &&& m matches Some(cu) ==> is_update(
                        v@[0],
                        "CoD4x DLL"@,
                        "^cod4x_([0-9]+).dll"@,
                        cu.0,
                        cu.1,
                        false,
                        false,
                    )
                    &&& !have_jcod4x ==> is_update(
                        v@[n0],
                        "jcod4x"@,
                        "jcod4x_00.iwd"@,
                        None,
                        Version { major: 1, minor: 0, patch: 0 },
                        false,
                        false,
                    )
                    &&& !have_ambfix ==> is_update(
                        v@[n1],
                        "ambfix"@,
                        "cod4x_ambfix.ff"@,
                        None,
                        Version { major: 1, minor: 0, patch: 0 },
                        false,
                        false,
                    )
                    &&& !have_patch ==> is_update(
                        v@[n2],
                        "patch"@,
                        "cod4x_patch.ff"@,
                        None,
                        Version { major: 1, minor: 0, patch: 0 },
                        false,
                        false,
                    )
                    &&& !have_patchv2 ==> is_update(
                        v@[n3],
                        "patch v2"@,
                        "cod4x_patchv2.ff"@,
                        None,
                        Version { major: 1, minor: 0, patch: 0 },
                        false,
                        false,
                    )
                }
            }),
    {
        let module = match self.get_module_update(current, "^cod4x_([0-9]+).dll", "CoD4x DLL") {
            Ok(m) => m,
            Err(e) => {
                return Err(e);
            },
        };
        let mut updates: Vec<Update> = Vec::new();
        match module {
            Some(u) => updates.push(u),
            None => {},
        }
        match self.get_cod4x_mod_update(have_jcod4x, "jcod4x_00.iwd", "jcod4x") {
            Some(u) => updates.push(u),
            None => {},
        }
        match self.get_cod4x_mod_update(have_ambfix, "cod4x_ambfix.ff", "ambfix") {
            Some(u) => updates.push(u),
            None => {},
        }
        match self.get_cod4x_mod_update(have_patch, "cod4x_patch.ff", "patch") {
            Some(u) => updates.push(u),
            None => {},
        }
        match self.get_cod4x_mod_update(have_patchv2, "cod4x_patchv2.ff", "patch v2") {
            Some(u) => updates.push(u),
            None => {},
        }
        Ok(updates)
    }
}

/// Where a game-core artifact is committed.
pub enum ArtifactDestination {
    /// The module itself: a versioned directory under the binary root,
    /// named after the artifact's stem.
    BinVersioned,
    /// A content pack under the main content directory.
    MainDir,
    /// A content pack under the zone content directory.
    ZoneDir,
    /// Not an artifact this component commits.
    Ignored,
}

/// Maps a planned artifact name to the place its file is committed.
pub fn cod4x_artifact_destination(artifact_name: &str) -> (r: ArtifactDestination)
    ensures
        r is BinVersioned <==> artifact_name@ == "^cod4x_([0-9]+).dll"@,
        r is MainDir <==> artifact_name@ == "jcod4x_00.iwd"@,
        r is ZoneDir <==> (artifact_name@ == "cod4x_ambfix.ff"@ || artifact_name@
            == "cod4x_patch.ff"@ || artifact_name@ == "cod4x_patchv2.ff"@),
{
    proof {
        broadcast use vstd::string::group_string_axioms;

        reveal_strlit("^cod4x_([0-9]+).dll");
        reveal_strlit("jcod4x_00.iwd");
        reveal_strlit("cod4x_ambfix.ff");
        reveal_strlit("cod4x_patch.ff");
        reveal_strlit("cod4x_patchv2.ff");
        // The names all have different lengths, so none can be mistaken
        // for another.
        assert("^cod4x_([0-9]+).dll"@.len() == 19);
        assert("jcod4x_00.iwd"@.len() == 13);
        assert("cod4x_ambfix.ff"@.len() == 15);
        assert("cod4x_patch.ff"@.len() == 14);
        assert("cod4x_patchv2.ff"@.len() == 16);
    }
    if str_eq(artifact_name, "^cod4x_([0-9]+).dll") {
        ArtifactDestination::BinVersioned
    } else if str_eq(artifact_name, "jcod4x_00.iwd") {
        ArtifactDestination::MainDir
    } else if str_eq(artifact_name, "cod4x_ambfix.ff") || str_eq(artifact_name, "cod4x_patch.ff")
            || str_eq(artifact_name, "cod4x_patchv2.ff") {
        ArtifactDestination::ZoneDir
    } else {
        ArtifactDestination::Ignored
    }
}

/// Why applying a game-core artifact failed before or at the integrity
/// gate.
#[derive(Debug)]
pub enum CoD4xAssetError {
    NotFound,
    NameError,
    HashNotFound,
    IntegrityFailure,
}

impl CoD4xAssetError {
    pub fn message(&self) -> (r: &str)
        ensures
            self is NotFound ==> r@ == "Couldn't find CoD4x asset"@,
            self is NameError ==> r@ == "Unexpected CoD4x asset name"@,
            self is HashNotFound ==> r@ == "Couldn't find CoD4x asset hash"@,
            self is IntegrityFailure ==> r@ == "CoD4x asset integrity verification failed"@,
    {
        match self {
            Self::NotFound => "Couldn't find CoD4x asset",
            Self::NameError => "Unexpected CoD4x asset name",
            Self::HashNotFound => "Couldn't find CoD4x asset hash",
            Self::IntegrityFailure => "CoD4x asset integrity verification failed",
        }
    }

    /// The game-core reading of a failed resolution.
    pub fn from_resolve(e: crate::github::ResolveError) -> (r: Self)
        ensures
            r is NotFound <==> e is AssetNotFound,
            r is HashNotFound <==> e is HashNotFound,
    {
        match e {
            crate::github::ResolveError::AssetNotFound => Self::NotFound,
            crate::github::ResolveError::HashNotFound => Self::HashNotFound,
        }
    }
}

// ---------------------------------------------------------------------------
// The launcher component.
// ---------------------------------------------------------------------------

/// The launcher component: the running binary itself.
pub struct LauncherComponent {
    pub release_information: ReleaseInformation,
}

impl LauncherComponent {
    pub fn new(release_information: ReleaseInformation) -> (c: Self)
        ensures
            c.release_information == release_information,
    {
        LauncherComponent { release_information }
    }

    pub fn name(&self) -> (r: &str)
        ensures
            r@ == "CoD4x module"@,
    {
        "CoD4x module"
    }

    /// Plans the launcher update against the running build's own version.
    /// A newly swapped-in binary only runs after a restart, so any update
    /// carries the restart requirement.
    pub fn get_module_update(&self, current: Version, pattern: &str, display_name: &str) -> (r:
        Result<Option<Update>, VersionError>)
        ensures
            ({
                let tag = self.release_information.tag_name@;
                &&& r is Err <==> semver_triple_of(tag) is None
                &&& r matches Ok(opt) ==> match semver_triple_of(tag) {
                    Some(t) => {
                        let up = Version { major: t.0, minor: t.1, patch: t.2 };
                        &&& opt is Some <==> current.spec_lt(up)
                        &&& opt matches Some(u) ==> is_update(
                            u,
                            display_name@,
                            pattern@,
                            Some(current),
                            up,
                            false,
                            true,
                        )
                    },
                    None => false,
                }
            }),
    {
        let upstream = match crate::version::parse_semver_text(
            self.release_information.tag_name.as_str(),
        ) {
            Some(v) => v,
            None => {
                return Err(VersionError::InvalidTag);
            },
        };
        Ok(plan_update(display_name, pattern, Some(current), upstream, false, true))
    }

    /// Plans every update of this component: just the launcher binary.
    pub fn get_updates(&self, current: Version) -> (r: Result<Vec<Update>, VersionError>)
        ensures
            ({
                let tag = self.release_information.tag_name@;
                &&& r is Err <==> semver_triple_of(tag) is None
                &&& r matches Ok(v) ==> match semver_triple_of(tag) {
                    Some(t) => {
                        let up = Version { major: t.0, minor: t.1, patch: t.2 };
                        &&& v@.len() == (if current.spec_lt(up) {
                            1int
                        } else {
                            0int
                        })
                        &&& current.spec_lt(up) ==> is_update(
                            v@[0],
                            "Launcher DLL"@,
                            "launcher.dll"@,
                            Some(current),
                            up,
                            false,
                            true,
                        )
                    },
                    None => false,
                }
            }),
    {
        let module = match self.get_module_update(current, "launcher.dll", "Launcher DLL") {
            Ok(m) => m,
            Err(e) => {
                return Err(e);
            },
        };
        let mut updates: Vec<Update> = Vec::new();
        match module {
            Some(u) => updates.push(u),
            None => {},
        }
        Ok(updates)
    }
}

/// Why applying the launcher artifact failed before or at the integrity
/// gate.
#[derive(Debug)]
pub enum LauncherAssetError {
    NotFound,
    HashNotFound,
    IntegrityFailure,
}

impl LauncherAssetError {
    pub fn message(&self) -> (r: &str)
        ensures
            self is NotFound ==> r@ == "Couldn't find launcher asset"@,
            self is HashNotFound ==> r@ == "Couldn't find launcher asset hash"@,
            self is IntegrityFailure ==> r@ == "Launcher asset integrity verification failed"@,
    {
        match self {
            Self::NotFound => "Couldn't find launcher asset",
            Self::HashNotFound => "Couldn't find launcher asset hash",
            Self::IntegrityFailure => "Launcher asset integrity verification failed",
        }
    }

    /// The launcher reading of a failed resolution.
    pub fn from_resolve(e: crate::github::ResolveError) -> (r: Self)
        ensures
            r is NotFound <==> e is AssetNotFound,
            r is HashNotFound <==> e is HashNotFound,
    {
        match e {
            crate::github::ResolveError::AssetNotFound => Self::NotFound,
            crate::github::ResolveError::HashNotFound => Self::HashNotFound,
        }
    }
}

// ---------------------------------------------------------------------------
// The audio-loader component.
// ---------------------------------------------------------------------------

/// The audio-loader component: a shared library beside the host binary,
/// held open by the host and living in a protected directory, so its update
/// always needs elevation and a restart.
pub struct Mss32Component {
    pub release_information: ReleaseInformation,
}

impl Mss32Component {
    pub fn new(release_information: ReleaseInformation) -> (c: Self)
        ensures
            c.release_information == release_information,
    {
        Mss32Component { release_information }
    }

    pub fn name(&self) -> (r: &str)
        ensures
            r@ == "Miles Loader"@,
    {
        "Miles Loader"
    }

    /// Plans the loader update. The tag must parse; an update is owed
    /// exactly when the probed version is unknown or strictly older.
    pub fn get_module_update(&self, current: Option<Version>, pattern: &str, display_name: &str)
        -> (r: Result<Option<Update>, VersionError>)
        ensures
            ({
                let tag = self.release_information.tag_name@;
                &&& r is Err <==> semver_triple_of(tag) is None
                &&& r matches Ok(opt) ==> match semver_triple_of(tag) {
                    Some(t) => {
                        let up = Version { major: t.0, minor: t.1, patch: t.2 };
                        &&& opt is Some <==> update_wanted(current, up)
                        &&& opt matches Some(u) ==> is_update(
                            u,
                            display_name@,
                            pattern@,
                            current,
                            up,
                            true,
                            true,
                        )
                    },
                    None => false,
                }
            }),
    {
        let upstream = match crate::version::parse_semver_text(
            self.release_information.tag_name.as_str(),
        ) {
            Some(v) => v,
            None => {
                return Err(VersionError::InvalidTag);
            },
        };
        Ok(plan_update(display_name, pattern, current, upstream, true, true))
    }

    /// Plans every update of this component: just the loader library.
    pub fn get_updates(&self, current: Option<Version>) -> (r: Result<Vec<Update>, VersionError>)
        ensures
            ({
                let tag = self.release_information.tag_name@;
                &&& r is Err <==> semver_triple_of(tag) is None
                &&& r matches Ok(v) ==> match semver_triple_of(tag) {
                    Some(t) => {
                        let up = Version { major: t.0, minor: t.1, patch: t.2 };
                        &&& v@.len() == (if update_wanted(current, up) {
                            1int
                        } else {
                            0int
                        })
                        &&& update_wanted(current, up) ==> is_update(
                            v@[0],
                            "Miles Loader"@,
                            "mss32.dll"@,
                            current,
                            up,
                            true,
                            true,
                        )
                    },
                    None => false,
                }
            }),
    {
        let module = match self.get_module_update(current, "mss32.dll", "Miles Loader") {
            Ok(m) => m,
            Err(e) => {
                return Err(e);
            },
        };
        let mut updates: Vec<Update> = Vec::new();
        match module {
            Some(u) => updates.push(u),
            None => {},
        }
        Ok(updates)
    }
}


/// Why applying the audio-loader artifact failed before, at, or after the
/// integrity gate.
#[derive(Debug)]
pub enum Mss32AssetError {
    NotFound,
    HashNotFound,
    IntegrityFailure,
    WriteFailure,
}

impl Mss32AssetError {
    pub fn message(&self) -> (r: &str)
        ensures
            self is NotFound ==> r@ == "Couldn't find Miles Loader asset"@,
            self is HashNotFound ==> r@ == "Couldn't find Miles Loader asset hash"@,
            self is IntegrityFailure ==> r@ == "Miles Loader asset integrity verification failed"@,
            self is WriteFailure ==> r@ == "Failed to write Miles Loader"@,
    {
        match self {
            Self::NotFound => "Couldn't find Miles Loader asset",
            Self::HashNotFound => "Couldn't find Miles Loader asset hash",
            Self::IntegrityFailure => "Miles Loader asset integrity verification failed",
            Self::WriteFailure => "Failed to write Miles Loader",
        }
    }

    /// The audio-loader reading of a failed resolution.
    pub fn from_resolve(e: crate::github::ResolveError) -> (r: Self)
        ensures
            r is NotFound <==> e is AssetNotFound,
            r is HashNotFound <==> e is HashNotFound,
    {
        match e {
            crate::github::ResolveError::AssetNotFound => Self::NotFound,
            crate::github::ResolveError::HashNotFound => Self::HashNotFound,
        }
    }
}

} // verus!
