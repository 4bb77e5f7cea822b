//! Plain data that `refresh` reports carry about how the run was asked to act.

use vstd::prelude::*;

verus! {

/// Whether a refresh run only reported, or wrote, and where.
#[derive(Debug, Clone, Copy)]
pub struct RefreshModeContext<'a> {
    pub explicit_dry_run: bool,
    pub write_requested: bool,
    pub written_path: Option<&'a str>,
}

} // verus!
