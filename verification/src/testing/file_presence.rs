//! A file system on which every file is there.

use vstd::prelude::*;

verus! {

/// Takes every path for present.
#[derive(Debug, Clone, Copy)]
pub struct AlwaysPresent;

impl AlwaysPresent {
    /// Whether the file is there: it is.
    pub fn is_present(&self) -> (r: bool)
        ensures
            r,
    {
        true
    }
}

} // verus!
