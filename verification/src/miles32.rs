//! Reporting for the audio loader: the ways loading its shared library and
//! resolving its imports can fail.
use vstd::prelude::*;

verus! {

/// Why the audio loader could not be brought up: the library is missing, or
/// one of the imports the host hands over cannot be resolved in it.
#[derive(Debug)]
pub enum Miles32LoadError {
    ModuleNotFound,
    MissingProcedure(String),
}

impl Miles32LoadError {
    pub fn message(&self) -> (r: String)
        ensures
            self is ModuleNotFound ==> r@ == "Miles32 DLL not found"@,
            self matches Miles32LoadError::MissingProcedure(name) ==> r@
                == "Missing Miles32 procedure '"@ + name@ + "'"@,
    {
        match self {
            Self::ModuleNotFound => String::from_str("Miles32 DLL not found"),
            Self::MissingProcedure(name) => {
                let mut s = String::from_str("Missing Miles32 procedure '");
                s.append(name.as_str());
                s.append("'");
                s
            },
        }
    }
}

} // verus!
