//! What a process relaunch needs decided before the platform call: the
//! privilege level, its shell verb, and the marker the elevated leg is
//! recognised by.
use vstd::prelude::*;

verus! {

/// The privilege level a relaunch asks for.
#[derive(Clone, Copy, PartialEq, Eq, Structural, Debug)]
pub enum Privileges {
    User,
    Admin,
}

/// The shell verb that requests each privilege level.
pub fn relaunch_verb(privileges: Privileges) -> (r: &'static str)
    ensures
        privileges is User ==> r@ == "open"@,
        privileges is Admin ==> r@ == "runas"@,
{
    match privileges {
        Privileges::User => "open",
        Privileges::Admin => "runas",
    }
}

/// The argument the elevated relaunch carries, so that the new instance
/// skips confirmation and treats itself as already privileged.
pub fn elevation_marker() -> (r: &'static str)
    ensures
        r@ == "+set elevated 1"@,
{
    "+set elevated 1"
}

} // verus!
