//! Plain data that `prune` reports carry: how the run was asked to act and
//! which allow entries it would remove.

use vstd::prelude::*;

verus! {

/// Whether a prune run only reported, or wrote, and where.
#[derive(Debug, Clone, Copy)]
pub struct PruneModeContext<'a> {
    pub explicit_dry_run: bool,
    pub write_requested: bool,
    pub written_path: Option<&'a str>,
}

/// One allow entry that a prune run would remove.
#[derive(Debug, Clone, Copy)]
pub struct PruneCandidate<'a> {
    pub id: &'a str,
    pub kind: &'a str,
    pub family: Option<&'a str>,
    pub owner: &'a str,
    pub classification: &'a str,
    pub scope: &'a str,
    pub reason: &'a str,
}

} // verus!
