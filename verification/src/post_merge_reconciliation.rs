//! Read-only post-merge reconciliation over supplied landed-state facts.

use vstd::prelude::*;
use crate::text::{has_forbidden, has_forbidden_tokens, str_eq, views};

verus! {

#[derive(Debug, Clone, Copy, PartialEq, Eq, Structural)]
pub enum ReconciliationDispositionV1 {
    Reconciled,
    ReconciliationPending,
    PartiallyReconciled,
    Stale,
    Contradictory,
    NeedsRepositoryDecision,
    ExternalActionRequired,
    NotProven,
    InstrumentFailure,
}

#[derive(Debug, Clone, Copy, PartialEq, Eq, Structural)]
pub enum NextFrontierV1 {
    Complete,
    RefreshCurrentIntent,
    RunPostMergeProof,
    AmendRepositoryAuthority,
    ReconcileDocumentationOrSupport,
    OpenOrLinkFollowUpClaim,
    ResolveContradiction,
    PerformExternalAction,
    UpdateIssueOrController,
    ReviewResidue,
}

#[derive(Debug, Clone, Copy, PartialEq, Eq, Structural)]
pub enum LandedEffectStatusV1 {
    Present,
    Missing,
    Unknown,
}

#[derive(Debug, Clone, PartialEq, Eq)]
pub struct LandedEffectV1 {
    pub effect_id: String,
    pub status: LandedEffectStatusV1,
}

#[derive(Debug, Clone, PartialEq, Eq)]
pub struct PostMergeReconciliationRequestV1 {
    pub reconciliation_id: String,
    pub repository: String,
    pub target_branch: String,
    pub merge_commit_sha: String,
    pub merge_tree_sha: String,
    pub integration_receipt_merge_commit_sha: String,
    pub integration_receipt_merge_tree_sha: String,
    pub current_main_commit_sha: String,
    pub current_main_tree_sha: String,
    pub integration_receipt_id: String,
    pub claim_ref: String,
    pub expected_effects: Vec<LandedEffectV1>,
    pub premerge_evidence_current: bool,
    pub post_merge_obligations_complete: bool,
    pub repository_decision_required: bool,
    pub external_action_required: bool,
    pub contradiction: bool,
}

#[derive(Debug, Clone, PartialEq, Eq)]
pub struct PostMergeReconciliationResultV1 {
    pub schema_id: String,
    pub schema_version: u32,
    pub reconciliation_id: String,
    pub repository: String,
    pub target_branch: String,
    pub current_main_commit_sha: String,
    pub current_main_tree_sha: String,
    pub integration_receipt_id: String,
    pub disposition: ReconciliationDispositionV1,
    pub next_frontier: NextFrontierV1,
    pub landed_effects: Vec<LandedEffectV1>,
    pub limitations: Vec<String>,
    pub claim_boundary: Vec<String>,
}

pub const POST_MERGE_RECONCILIATION_SCHEMA_ID: &'static str = "cargo-allow.post-merge-reconciliation.v1";

pub const POST_MERGE_RECONCILIATION_SCHEMA_VERSION: u32 = 1;

/// An identifier that is empty or carries a forbidden character.
pub open spec fn field_bad(s: Seq<char>) -> bool {
    s.len() == 0 || has_forbidden(s)
}

pub open spec fn request_invalid(i: PostMergeReconciliationRequestV1) -> bool {
    field_bad(i.reconciliation_id@) || field_bad(i.repository@) || field_bad(i.target_branch@)
        || field_bad(i.merge_commit_sha@) || field_bad(i.merge_tree_sha@) || field_bad(
        i.integration_receipt_merge_commit_sha@,
    ) || field_bad(i.integration_receipt_merge_tree_sha@) || field_bad(i.current_main_commit_sha@)
        || field_bad(i.current_main_tree_sha@) || field_bad(i.integration_receipt_id@) || field_bad(
        i.claim_ref@,
    )
}

pub open spec fn duplicate_effect_ids(e: Seq<LandedEffectV1>) -> bool {
    exists|a: int, b: int|
        0 <= a < b < e.len() && #[trigger] e[a].effect_id@ == #[trigger] e[b].effect_id@
}

pub open spec fn some_effect(e: Seq<LandedEffectV1>, s: LandedEffectStatusV1) -> bool {
    exists|k: int| 0 <= k < e.len() && #[trigger] e[k].status == s
}

pub open spec fn reconciliation_disposition(i: PostMergeReconciliationRequestV1) -> ReconciliationDispositionV1 {
    let e = i.expected_effects@;
    if request_invalid(i) || e.len() == 0 || duplicate_effect_ids(e) {
        ReconciliationDispositionV1::InstrumentFailure
    } else if i.merge_commit_sha@ != i.current_main_commit_sha@ || i.merge_tree_sha@
        != i.current_main_tree_sha@ || i.merge_commit_sha@ != i.integration_receipt_merge_commit_sha@
        || i.merge_tree_sha@ != i.integration_receipt_merge_tree_sha@ {
        ReconciliationDispositionV1::Stale
    } else if i.contradiction {
        ReconciliationDispositionV1::Contradictory
    } else if i.repository_decision_required {
        ReconciliationDispositionV1::NeedsRepositoryDecision
    } else if i.external_action_required {
        ReconciliationDispositionV1::ExternalActionRequired
    } else if some_effect(e, LandedEffectStatusV1::Unknown) || !i.premerge_evidence_current {
        ReconciliationDispositionV1::NotProven
    } else if some_effect(e, LandedEffectStatusV1::Missing) {
        if some_effect(e, LandedEffectStatusV1::Present) {
            ReconciliationDispositionV1::PartiallyReconciled
        } else {
            ReconciliationDispositionV1::Contradictory
        }
    } else if !i.post_merge_obligations_complete {
        ReconciliationDispositionV1::ReconciliationPending
    } else {
        ReconciliationDispositionV1::Reconciled
    }
}

pub open spec fn next_frontier_spec(d: ReconciliationDispositionV1) -> NextFrontierV1 {
    match d {
        ReconciliationDispositionV1::Reconciled => NextFrontierV1::Complete,
        ReconciliationDispositionV1::ReconciliationPending => NextFrontierV1::RunPostMergeProof,
        ReconciliationDispositionV1::PartiallyReconciled => NextFrontierV1::OpenOrLinkFollowUpClaim,
        ReconciliationDispositionV1::Stale => NextFrontierV1::RefreshCurrentIntent,
        ReconciliationDispositionV1::Contradictory => NextFrontierV1::ResolveContradiction,
        ReconciliationDispositionV1::NeedsRepositoryDecision => NextFrontierV1::AmendRepositoryAuthority,
        ReconciliationDispositionV1::ExternalActionRequired => NextFrontierV1::PerformExternalAction,
        ReconciliationDispositionV1::NotProven => NextFrontierV1::RunPostMergeProof,
        ReconciliationDispositionV1::InstrumentFailure => NextFrontierV1::ReviewResidue,
    }
}

fn bad_field(s: &str) -> (r: bool)
    ensures
        r == field_bad(s@),
{
    s.unicode_len() == 0 || has_forbidden_tokens(s)
}

fn has_duplicate_effect_ids(effects: &Vec<LandedEffectV1>) -> (r: bool)
    ensures
        r == duplicate_effect_ids(effects@),
{
    let mut b: usize = 0;
    while b < effects.len()
        invariant
            b <= effects.len(),
            forall|x: int, y: int|
                0 <= x < y < b ==> #[trigger] effects@[x].effect_id@ != #[trigger] effects@[y].effect_id@,
        decreases effects.len() - b,
    {
        let mut a: usize = 0;
        while a < b
            invariant
                a <= b < effects.len(),
                forall|x: int, y: int|
                    0 <= x < y < b ==> #[trigger] effects@[x].effect_id@
                        != #[trigger] effects@[y].effect_id@,
                forall|x: int| 0 <= x < a ==> #[trigger] effects@[x].effect_id@ != effects@[b as int].effect_id@,
            decreases b - a,
        {
            if str_eq(effects[a].effect_id.as_str(), effects[b].effect_id.as_str()) {
                assert(effects@[a as int].effect_id@ == effects@[b as int].effect_id@);
                return true;
            }
            a = a + 1;
        }
        b = b + 1;
    }
    false
}

fn some_effect_with(effects: &Vec<LandedEffectV1>, s: LandedEffectStatusV1) -> (r: bool)
    ensures
        r == some_effect(effects@, s),
{
    let mut k: usize = 0;
    while k < effects.len()
        invariant
            k <= effects.len(),
            forall|j: int| 0 <= j < k ==> #[trigger] effects@[j].status != s,
        decreases effects.len() - k,
    {
        if effects[k].status == s {
            return true;
        }
        k = k + 1;
    }
    false
}

fn next_frontier_for(d: ReconciliationDispositionV1) -> (r: NextFrontierV1)
    ensures
        r == next_frontier_spec(d),
{
    match d {
        ReconciliationDispositionV1::Reconciled => NextFrontierV1::Complete,
        ReconciliationDispositionV1::ReconciliationPending => NextFrontierV1::RunPostMergeProof,
        ReconciliationDispositionV1::PartiallyReconciled => NextFrontierV1::OpenOrLinkFollowUpClaim,
        ReconciliationDispositionV1::Stale => NextFrontierV1::RefreshCurrentIntent,
        ReconciliationDispositionV1::Contradictory => NextFrontierV1::ResolveContradiction,
        ReconciliationDispositionV1::NeedsRepositoryDecision => NextFrontierV1::AmendRepositoryAuthority,
        ReconciliationDispositionV1::ExternalActionRequired => NextFrontierV1::PerformExternalAction,
        ReconciliationDispositionV1::NotProven => NextFrontierV1::RunPostMergeProof,
        ReconciliationDispositionV1::InstrumentFailure => NextFrontierV1::ReviewResidue,
    }
}

fn disposition_of(input: &PostMergeReconciliationRequestV1) -> (r: ReconciliationDispositionV1)
    ensures
        r == reconciliation_disposition(*input),
{
    let invalid = bad_field(input.reconciliation_id.as_str()) || bad_field(input.repository.as_str())
        || bad_field(input.target_branch.as_str()) || bad_field(input.merge_commit_sha.as_str())
        || bad_field(input.merge_tree_sha.as_str()) || bad_field(
        input.integration_receipt_merge_commit_sha.as_str(),
    ) || bad_field(input.integration_receipt_merge_tree_sha.as_str()) || bad_field(
        input.current_main_commit_sha.as_str(),
    ) || bad_field(input.current_main_tree_sha.as_str()) || bad_field(
        input.integration_receipt_id.as_str(),
    ) || bad_field(input.claim_ref.as_str());
    if invalid || input.expected_effects.len() == 0 || has_duplicate_effect_ids(
        &input.expected_effects,
    ) {
        ReconciliationDispositionV1::InstrumentFailure
    } else if !str_eq(input.merge_commit_sha.as_str(), input.current_main_commit_sha.as_str())
        || !str_eq(input.merge_tree_sha.as_str(), input.current_main_tree_sha.as_str()) || !str_eq(
        input.merge_commit_sha.as_str(),
        input.integration_receipt_merge_commit_sha.as_str(),
    ) || !str_eq(input.merge_tree_sha.as_str(), input.integration_receipt_merge_tree_sha.as_str()) {
        ReconciliationDispositionV1::Stale
    } else if input.contradiction {
        ReconciliationDispositionV1::Contradictory
    } else if input.repository_decision_required {
        ReconciliationDispositionV1::NeedsRepositoryDecision
    } else if input.external_action_required {
        ReconciliationDispositionV1::ExternalActionRequired
    } else if some_effect_with(&input.expected_effects, LandedEffectStatusV1::Unknown)
        || !input.premerge_evidence_current {
        ReconciliationDispositionV1::NotProven
    } else if some_effect_with(&input.expected_effects, LandedEffectStatusV1::Missing) {
        if some_effect_with(&input.expected_effects, LandedEffectStatusV1::Present) {
            ReconciliationDispositionV1::PartiallyReconciled
        } else {
            ReconciliationDispositionV1::Contradictory
        }
    } else if !input.post_merge_obligations_complete {
        ReconciliationDispositionV1::ReconciliationPending
    } else {
        ReconciliationDispositionV1::Reconciled
    }
}

impl PostMergeReconciliationResultV1 {
    /// Reconciles the supplied landed-state facts: malformed identifiers or
    /// effects are an instrument failure; a merge that is not current main
    /// or not the integration receipt's merge is stale; then contradiction,
    /// repository decision, external action, unproven effects, missing
    /// effects, and pending obligations, in that order.
    pub fn evaluate(input: PostMergeReconciliationRequestV1) -> (r: Self)
        ensures
            r.schema_id@ == POST_MERGE_RECONCILIATION_SCHEMA_ID@,
            r.schema_version == POST_MERGE_RECONCILIATION_SCHEMA_VERSION,
            r.reconciliation_id == input.reconciliation_id,
            r.repository == input.repository,
            r.target_branch == input.target_branch,
            r.current_main_commit_sha == input.current_main_commit_sha,
            r.current_main_tree_sha == input.current_main_tree_sha,
            r.integration_receipt_id == input.integration_receipt_id,
            r.disposition == reconciliation_disposition(input),
            r.next_frontier == next_frontier_spec(reconciliation_disposition(input)),
            r.landed_effects == input.expected_effects,
            views(r.limitations@) == seq![
                "does_not_mutate_source_or_external_authority"@,
                "does_not_execute_follow_up_operations"@,
            ],
            views(r.claim_boundary@) == seq![
                "reconciles_supplied_current_main_facts"@,
                "preserves_premerge_evidence_subject_boundary"@,
                "reports_follow_up_without_mutation"@,
            ],
    {
        let disposition = disposition_of(&input);
        let next_frontier = next_frontier_for(disposition);
        let mut limitations: Vec<String> = Vec::new();
        limitations.push("does_not_mutate_source_or_external_authority".to_string());
        limitations.push("does_not_execute_follow_up_operations".to_string());
        let mut claim_boundary: Vec<String> = Vec::new();
        claim_boundary.push("reconciles_supplied_current_main_facts".to_string());
        claim_boundary.push("preserves_premerge_evidence_subject_boundary".to_string());
        claim_boundary.push("reports_follow_up_without_mutation".to_string());
        assert(views(limitations@) =~= seq![
            "does_not_mutate_source_or_external_authority"@,
            "does_not_execute_follow_up_operations"@,
        ]);
        assert(views(claim_boundary@) =~= seq![
            "reconciles_supplied_current_main_facts"@,
            "preserves_premerge_evidence_subject_boundary"@,
            "reports_follow_up_without_mutation"@,
        ]);
        PostMergeReconciliationResultV1 {
            schema_id: POST_MERGE_RECONCILIATION_SCHEMA_ID.to_string(),
            schema_version: POST_MERGE_RECONCILIATION_SCHEMA_VERSION,
            reconciliation_id: input.reconciliation_id,
            repository: input.repository,
            target_branch: input.target_branch,
            current_main_commit_sha: input.current_main_commit_sha,
            current_main_tree_sha: input.current_main_tree_sha,
            integration_receipt_id: input.integration_receipt_id,
            disposition,
            next_frontier,
            landed_effects: input.expected_effects,
            limitations,
            claim_boundary,
        }
    }
}

/// A reconciliation is `Reconciled`, and its next frontier `Complete`, only
/// when the merge, the integration receipt and current main agree on commit
/// and tree, nothing contradicts or awaits a decision or outside action,
/// pre-merge evidence is current, every expected effect landed present
/// (none unknown or missing), and the post-merge obligations are complete.
pub proof fn lemma_reconciled_means_every_effect_landed(i: PostMergeReconciliationRequestV1)
    ensures
        next_frontier_spec(reconciliation_disposition(i)) == NextFrontierV1::Complete
            <==> reconciliation_disposition(i) == ReconciliationDispositionV1::Reconciled,
        reconciliation_disposition(i) == ReconciliationDispositionV1::Reconciled ==> {
            &&& i.merge_commit_sha@ == i.current_main_commit_sha@
            &&& i.merge_tree_sha@ == i.current_main_tree_sha@
            &&& i.merge_commit_sha@ == i.integration_receipt_merge_commit_sha@
            &&& i.merge_tree_sha@ == i.integration_receipt_merge_tree_sha@
            &&& !i.contradiction
            &&& !i.repository_decision_required
            &&& !i.external_action_required
            &&& i.premerge_evidence_current
            &&& i.post_merge_obligations_complete
            &&& i.expected_effects@.len() > 0
            &&& forall|k: int|
                0 <= k < i.expected_effects@.len() ==> (#[trigger] i.expected_effects@[k]).status
                    != LandedEffectStatusV1::Unknown && i.expected_effects@[k].status
                    != LandedEffectStatusV1::Missing
        },
{
}

} // verus!
