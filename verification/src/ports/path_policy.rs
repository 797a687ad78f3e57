//! Where files may go.

use std::path::PathBuf;
use vstd::prelude::*;
use crate::error::Error;

verus! {

/// Decides whether files may go to a directory, and gives it in canonical form. A directory
/// outside of what is allowed is refused with `PathEscapesRoot`.
pub trait TPathPolicy {
    fn check_target_dir(&self, target_dir: &PathBuf) -> Result<PathBuf, Error>;
}

} // verus!
