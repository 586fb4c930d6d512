//! Reporting for the access-control round trip: one protected target keeps
//! its discretionary ACL across a swap, and these are the errors the two
//! platform calls can report.
use vstd::prelude::*;

use crate::text::{dec_of, u64_to_dec};

verus! {

/// Why access-control metadata could not be captured or reapplied; each
/// variant carries the platform's error code.
#[derive(Debug)]
pub enum SecurityDescriptorError {
    GetError(u32),
    SetError(u32),
}

impl SecurityDescriptorError {
    pub fn message(&self) -> (r: String)
        ensures
            self matches SecurityDescriptorError::GetError(code) ==> r@
                == "Failed to get security descriptor: "@ + dec_of(code as nat),
            self matches SecurityDescriptorError::SetError(code) ==> r@
                == "Failed to set security descriptor: "@ + dec_of(code as nat),
    {
        match self {
            Self::GetError(code) => {
                let mut s = String::from_str("Failed to get security descriptor: ");
                let num = u64_to_dec(*code as u64);
                s.append(num.as_str());
                s
            },
            Self::SetError(code) => {
                let mut s = String::from_str("Failed to set security descriptor: ");
                let num = u64_to_dec(*code as u64);
                s.append(num.as_str());
                s
            },
        }
    }
}

} // verus!
