//! Post-merge tree equivalence and candidate requalification authority.

use vstd::prelude::*;
use crate::text::{ends_with, ends_with_str, has_forbidden, has_forbidden_tokens, starts_with, starts_with_str, str_eq, views};

verus! {

#[derive(Debug, Clone, Copy, PartialEq, Eq, Structural)]
pub enum MergeMethodV1 {
    Squash,
    Rebase,
    MergeCommit,
}

#[derive(Debug, Clone, Copy, PartialEq, Eq, Structural)]
pub enum PostMergeEquivalenceVerdictV1 {
    EquivalentTree,
    EquivalentSelectedBytes,
    RequalificationRequired,
    Stale,
    Mismatch,
    InstrumentFailure,
}

#[derive(Debug, Clone, PartialEq, Eq)]
pub struct ReviewedContextV1 {
    pub base_sha: String,
    pub head_sha: String,
    pub merge_base_sha: String,
    pub tree_sha: String,
}

#[derive(Debug, Clone, PartialEq, Eq)]
pub struct MergedStateV1 {
    pub pr_number: u64,
    pub merge_commit_sha: String,
    pub merge_tree_sha: String,
    pub current_main_commit_sha: String,
    pub current_main_tree_sha: String,
    pub merge_method: MergeMethodV1,
    pub merge_parents: Vec<String>,
}

#[derive(Debug, Clone, PartialEq, Eq)]
pub struct PostMergeQualificationInitV1 {
    pub qualification_id: String,
    pub reviewed: ReviewedContextV1,
    pub merged: MergedStateV1,
    pub changed_files: Vec<String>,
    pub semantic_owners: Vec<String>,
    pub premerge_evidence_digest: String,
    pub preserved_evidence_nodes: Vec<String>,
    pub invalidated_evidence_nodes: Vec<String>,
    pub required_rerun_set: Vec<String>,
    pub created_at_utc: String,
}

#[derive(Debug, Clone, PartialEq, Eq)]
pub struct CargoAllowPostMergeQualificationV1 {
    pub schema_id: String,
    pub schema_version: u32,
    pub qualification_id: String,
    pub reviewed: ReviewedContextV1,
    pub merged: MergedStateV1,
    pub changed_files: Vec<String>,
    pub semantic_owners: Vec<String>,
    pub premerge_evidence_digest: String,
    pub preserved_evidence_nodes: Vec<String>,
    pub invalidated_evidence_nodes: Vec<String>,
    pub required_rerun_set: Vec<String>,
    pub created_at_utc: String,
    pub claim_boundary: Vec<String>,
    pub limitations: Vec<String>,
}

pub const POST_MERGE_QUALIFICATION_SCHEMA_ID: &'static str = "cargo-allow.post-merge-qualification.v1";

pub const POST_MERGE_QUALIFICATION_SCHEMA_VERSION: u32 = 1;

/// A changed file that cannot move selected package bytes: documentation
/// (`.md`) or a change note under `.changes/`.
pub open spec fn documentation_only(f: Seq<char>) -> bool {
    ends_with(f, ".md"@) || starts_with(f, ".changes/"@)
}

pub open spec fn qualification_verdict(q: CargoAllowPostMergeQualificationV1) -> PostMergeEquivalenceVerdictV1 {
    if q.schema_id@ != POST_MERGE_QUALIFICATION_SCHEMA_ID@ || q.schema_version
        != POST_MERGE_QUALIFICATION_SCHEMA_VERSION || q.qualification_id@.len() == 0
        || q.reviewed.tree_sha@.len() == 0 || q.merged.merge_tree_sha@.len() == 0 {
        PostMergeEquivalenceVerdictV1::InstrumentFailure
    } else if has_forbidden(q.qualification_id@) || has_forbidden(q.reviewed.base_sha@)
        || has_forbidden(q.reviewed.head_sha@) || has_forbidden(q.merged.merge_commit_sha@) {
        PostMergeEquivalenceVerdictV1::InstrumentFailure
    } else if q.merged.current_main_commit_sha@ != q.merged.merge_commit_sha@
        || q.merged.current_main_tree_sha@ != q.merged.merge_tree_sha@ {
        PostMergeEquivalenceVerdictV1::Stale
    } else if q.merged.merge_parents@.len() == 0 {
        PostMergeEquivalenceVerdictV1::Mismatch
    } else if q.invalidated_evidence_nodes@.len() > 0 || q.required_rerun_set@.len() > 0 {
        PostMergeEquivalenceVerdictV1::RequalificationRequired
    } else if q.reviewed.tree_sha@ == q.merged.merge_tree_sha@ {
        PostMergeEquivalenceVerdictV1::EquivalentTree
    } else if forall|i: int|
        0 <= i < q.changed_files@.len() ==> documentation_only(#[trigger] q.changed_files@[i]@) {
        PostMergeEquivalenceVerdictV1::EquivalentSelectedBytes
    } else {
        PostMergeEquivalenceVerdictV1::RequalificationRequired
    }
}

fn text_is_empty(s: &str) -> (r: bool)
    ensures
        r == (s@.len() == 0),
{
    s.unicode_len() == 0
}

impl CargoAllowPostMergeQualificationV1 {
    /// A fresh qualification at the current schema, with its fixed claim
    /// boundary and limitations.
    pub fn new(init: PostMergeQualificationInitV1) -> (r: Self)
        ensures
            r.schema_id@ == POST_MERGE_QUALIFICATION_SCHEMA_ID@,
            r.schema_version == POST_MERGE_QUALIFICATION_SCHEMA_VERSION,
            r.qualification_id == init.qualification_id,
            r.reviewed == init.reviewed,
            r.merged == init.merged,
            r.changed_files == init.changed_files,
            r.semantic_owners == init.semantic_owners,
            r.premerge_evidence_digest == init.premerge_evidence_digest,
            r.preserved_evidence_nodes == init.preserved_evidence_nodes,
            r.invalidated_evidence_nodes == init.invalidated_evidence_nodes,
            r.required_rerun_set == init.required_rerun_set,
            r.created_at_utc == init.created_at_utc,
            views(r.claim_boundary@) == seq![
                "exact_tree_sha_equivalence_evaluation"@,
                "transitive_evidence_invalidation_tracking"@,
                "bound_merged_main_continuity"@,
                "no_unauthorized_state_mutation"@,
            ],
            views(r.limitations@) == seq![
                "does_not_execute_ci_reruns_directly"@,
                "does_not_replace_formal_release_authorization"@,
            ],
    {
        let mut claim_boundary: Vec<String> = Vec::new();
        claim_boundary.push("exact_tree_sha_equivalence_evaluation".to_string());
        claim_boundary.push("transitive_evidence_invalidation_tracking".to_string());
        claim_boundary.push("bound_merged_main_continuity".to_string());
        claim_boundary.push("no_unauthorized_state_mutation".to_string());
        let mut limitations: Vec<String> = Vec::new();
        limitations.push("does_not_execute_ci_reruns_directly".to_string());
        limitations.push("does_not_replace_formal_release_authorization".to_string());
        assert(views(claim_boundary@) =~= seq![
            "exact_tree_sha_equivalence_evaluation"@,
            "transitive_evidence_invalidation_tracking"@,
            "bound_merged_main_continuity"@,
            "no_unauthorized_state_mutation"@,
        ]);
        assert(views(limitations@) =~= seq![
            "does_not_execute_ci_reruns_directly"@,
            "does_not_replace_formal_release_authorization"@,
        ]);
        CargoAllowPostMergeQualificationV1 {
            schema_id: POST_MERGE_QUALIFICATION_SCHEMA_ID.to_string(),
            schema_version: POST_MERGE_QUALIFICATION_SCHEMA_VERSION,
            qualification_id: init.qualification_id,
            reviewed: init.reviewed,
            merged: init.merged,
            changed_files: init.changed_files,
            semantic_owners: init.semantic_owners,
            premerge_evidence_digest: init.premerge_evidence_digest,
            preserved_evidence_nodes: init.preserved_evidence_nodes,
            invalidated_evidence_nodes: init.invalidated_evidence_nodes,
            required_rerun_set: init.required_rerun_set,
            created_at_utc: init.created_at_utc,
            claim_boundary,
            limitations,
        }
    }

    #[verifier::loop_isolation(false)]
    /// Grades the merged state against the reviewed context: structural and
    /// injection failures, a main that moved past the merge, missing merge
    /// parents, invalidated evidence, then tree equivalence or
    /// documentation-only differences.
    pub fn evaluate_verdict(&self) -> (r: PostMergeEquivalenceVerdictV1)
        ensures
            r == qualification_verdict(*self),
    {
        if !str_eq(self.schema_id.as_str(), POST_MERGE_QUALIFICATION_SCHEMA_ID)
            || self.schema_version != POST_MERGE_QUALIFICATION_SCHEMA_VERSION || text_is_empty(
            self.qualification_id.as_str(),
        ) || text_is_empty(self.reviewed.tree_sha.as_str()) || text_is_empty(
            self.merged.merge_tree_sha.as_str(),
        ) {
            return PostMergeEquivalenceVerdictV1::InstrumentFailure;
        }
        if has_forbidden_tokens(self.qualification_id.as_str()) || has_forbidden_tokens(
            self.reviewed.base_sha.as_str(),
        ) || has_forbidden_tokens(self.reviewed.head_sha.as_str()) || has_forbidden_tokens(
            self.merged.merge_commit_sha.as_str(),
        ) {
            return PostMergeEquivalenceVerdictV1::InstrumentFailure;
        }
        if !str_eq(
            self.merged.current_main_commit_sha.as_str(),
            self.merged.merge_commit_sha.as_str(),
        ) || !str_eq(
            self.merged.current_main_tree_sha.as_str(),
            self.merged.merge_tree_sha.as_str(),
        ) {
            return PostMergeEquivalenceVerdictV1::Stale;
        }
        if self.merged.merge_parents.len() == 0 {
            return PostMergeEquivalenceVerdictV1::Mismatch;
        }
        if self.invalidated_evidence_nodes.len() > 0 || self.required_rerun_set.len() > 0 {
            return PostMergeEquivalenceVerdictV1::RequalificationRequired;
        }
        if str_eq(self.reviewed.tree_sha.as_str(), self.merged.merge_tree_sha.as_str()) {
            return PostMergeEquivalenceVerdictV1::EquivalentTree;
        }
        let mut k: usize = 0;
        while k < self.changed_files.len()
            invariant
                k <= self.changed_files.len(),
                forall|i: int| 0 <= i < k ==> documentation_only(#[trigger] self.changed_files@[i]@),
            decreases self.changed_files.len() - k,
        {
            let f = self.changed_files[k].as_str();
            if !(ends_with_str(f, ".md") || starts_with_str(f, ".changes/")) {
                assert(!documentation_only(self.changed_files@[k as int]@));
                return PostMergeEquivalenceVerdictV1::RequalificationRequired;
            }
            k = k + 1;
        }
        PostMergeEquivalenceVerdictV1::EquivalentSelectedBytes
    }
}

/// An equivalence verdict (`EquivalentTree` or `EquivalentSelectedBytes`)
/// is given only while main still sits at the merge commit and tree, the
/// merge has parents, and no evidence node was invalidated and no rerun is
/// required; `EquivalentSelectedBytes` further needs every changed file to
/// be documentation only.
pub proof fn lemma_equivalence_requires_a_quiet_merge(q: CargoAllowPostMergeQualificationV1)
    requires
        qualification_verdict(q) == PostMergeEquivalenceVerdictV1::EquivalentTree
            || qualification_verdict(q) == PostMergeEquivalenceVerdictV1::EquivalentSelectedBytes,
    ensures
        q.merged.current_main_commit_sha@ == q.merged.merge_commit_sha@,
        q.merged.current_main_tree_sha@ == q.merged.merge_tree_sha@,
        q.merged.merge_parents@.len() > 0,
        q.invalidated_evidence_nodes@.len() == 0,
        q.required_rerun_set@.len() == 0,
        qualification_verdict(q) == PostMergeEquivalenceVerdictV1::EquivalentTree
            ==> q.reviewed.tree_sha@ == q.merged.merge_tree_sha@,
        qualification_verdict(q) == PostMergeEquivalenceVerdictV1::EquivalentSelectedBytes
            ==> forall|i: int|
            0 <= i < q.changed_files@.len() ==> documentation_only(#[trigger] q.changed_files@[i]@),
{
}

/// Only documentation counts as documentation: a merge whose tree differs
/// from the reviewed tree is byte-equivalent only when every changed file
/// ends in `.md` or lies under `.changes/`; on an otherwise quiet merge,
/// any other changed file (a manifest, a lock file, source) forces
/// requalification.
pub proof fn lemma_only_markdown_and_change_notes_are_documentation(q: CargoAllowPostMergeQualificationV1, k: int)
    ensures
        qualification_verdict(q) == PostMergeEquivalenceVerdictV1::EquivalentSelectedBytes ==> forall|i: int|
            0 <= i < q.changed_files@.len() ==> {
                let f = #[trigger] q.changed_files@[i]@;
                (f.len() >= 3 && f.subrange(f.len() - 3, f.len() as int) == seq!['.', 'm', 'd']) || (f.len() >= 9
                    && f.subrange(0, 9) == seq!['.', 'c', 'h', 'a', 'n', 'g', 'e', 's', '/'])
            },
        ({
            let f = q.changed_files@[k]@;
            &&& 0 <= k < q.changed_files@.len()
            &&& !(f.len() >= 3 && f.subrange(f.len() - 3, f.len() as int) == seq!['.', 'm', 'd'])
            &&& !(f.len() >= 9 && f.subrange(0, 9) == seq!['.', 'c', 'h', 'a', 'n', 'g', 'e', 's', '/'])
            &&& qualification_verdict(q) != PostMergeEquivalenceVerdictV1::InstrumentFailure
            &&& q.merged.current_main_commit_sha@ == q.merged.merge_commit_sha@
            &&& q.merged.current_main_tree_sha@ == q.merged.merge_tree_sha@
            &&& q.merged.merge_parents@.len() > 0
            &&& q.invalidated_evidence_nodes@.len() == 0
            &&& q.required_rerun_set@.len() == 0
            &&& q.reviewed.tree_sha@ != q.merged.merge_tree_sha@
        }) ==> qualification_verdict(q) == PostMergeEquivalenceVerdictV1::RequalificationRequired,
{
    reveal_strlit(".md");
    reveal_strlit(".changes/");
    assert(".md"@ =~= seq!['.', 'm', 'd']);
    assert(".changes/"@ =~= seq!['.', 'c', 'h', 'a', 'n', 'g', 'e', 's', '/']);
    if qualification_verdict(q) == PostMergeEquivalenceVerdictV1::EquivalentSelectedBytes {
        assert forall|i: int| 0 <= i < q.changed_files@.len() implies {
            let f = #[trigger] q.changed_files@[i]@;
            (f.len() >= 3 && f.subrange(f.len() - 3, f.len() as int) == seq!['.', 'm', 'd']) || (f.len() >= 9
                && f.subrange(0, 9) == seq!['.', 'c', 'h', 'a', 'n', 'g', 'e', 's', '/'])
        } by {
            let f = q.changed_files@[i]@;
            assert(documentation_only(f));
            assert(f.skip(f.len() - 3) =~= f.subrange(f.len() - 3, f.len() as int));
            assert(f.take(9) =~= f.subrange(0, 9));
        }
    }
    if 0 <= k < q.changed_files@.len() {
        let f = q.changed_files@[k]@;
        assert(f.skip(f.len() - 3) =~= f.subrange(f.len() - 3, f.len() as int));
        assert(f.take(9) =~= f.subrange(0, 9));
        if !(f.len() >= 3 && f.subrange(f.len() - 3, f.len() as int) == seq!['.', 'm', 'd']) && !(f.len() >= 9
            && f.subrange(0, 9) == seq!['.', 'c', 'h', 'a', 'n', 'g', 'e', 's', '/']) {
            assert(!documentation_only(f));
        }
    }
}

} // verus!
