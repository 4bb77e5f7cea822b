use allow_report::frozen_candidate_custody::{
    CandidateCustodyInitV1, CargoAllowFrozenCandidateCustodyV1, ConfidentialityClassV1,
    CustodyDispositionV1, CustodyFileV1, RetainedCustodyItemV1,
};
use allow_report::post_merge_qualification::{
    CargoAllowPostMergeQualificationV1, MergeMethodV1, MergedStateV1,
    PostMergeEquivalenceVerdictV1, PostMergeQualificationInitV1, ReviewedContextV1,
};
use allow_report::post_merge_reconciliation::{
    LandedEffectStatusV1, LandedEffectV1, NextFrontierV1, PostMergeReconciliationRequestV1,
    PostMergeReconciliationResultV1, ReconciliationDispositionV1,
};

const COMMIT: &str = "1111111111111111111111111111111111111111";

fn item(locator: &str, verified: bool, readback: Option<&str>, expiry: &str) -> RetainedCustodyItemV1 {
    RetainedCustodyItemV1 {
        role: "crate".to_string(),
        artifact_id: "cargo-allow-0.2.0".to_string(),
        files: vec![CustodyFileV1 {
            path: "cargo-allow-0.2.0.crate".to_string(),
            size_bytes: 10,
            sha256: "sha256:abc".to_string(),
        }],
        storage_locator: locator.to_string(),
        retention_expiry_utc: expiry.to_string(),
        readback_verified: verified,
        readback_sha256: readback.map(|s| s.to_string()),
        confidentiality_class: ConfidentialityClassV1::Public,
    }
}

fn custody(items: Vec<RetainedCustodyItemV1>) -> CargoAllowFrozenCandidateCustodyV1 {
    CargoAllowFrozenCandidateCustodyV1::new(CandidateCustodyInitV1 {
        custody_id: "custody-1".to_string(),
        candidate_version: "0.2.0".to_string(),
        git_commit: COMMIT.to_string(),
        git_tree: "tree".to_string(),
        items,
        created_at_utc: "2026-01-01T00:00:00Z".to_string(),
    })
}

#[test]
fn read_back_custody_is_complete_until_retention_expires() {
    let c = custody(vec![item("s3://bucket/x", true, Some("sha256:abc"), "2026-06-01T00:00:00Z")]);
    assert_eq!(
        c.evaluate_custody(COMMIT, "0.2.0", "2026-02-01T00:00:00Z"),
        CustodyDispositionV1::Complete
    );
    assert_eq!(
        c.evaluate_custody(COMMIT, "0.2.0", "2026-07-01T00:00:00Z"),
        CustodyDispositionV1::Expiring
    );
    assert_eq!(
        c.evaluate_custody("2222222222222222222222222222222222222222", "0.2.0", ""),
        CustodyDispositionV1::Stale
    );
    assert_eq!(c.evaluate_custody(COMMIT, "0.2.1", ""), CustodyDispositionV1::Mismatch);
}

#[test]
fn unread_or_unstored_custody_is_never_complete() {
    let c = custody(vec![item("s3://bucket/x", false, Some("sha256:abc"), "")]);
    assert_eq!(c.evaluate_custody(COMMIT, "0.2.0", ""), CustodyDispositionV1::Missing);
    let c = custody(vec![item("", true, Some("sha256:abc"), "")]);
    assert_eq!(c.evaluate_custody(COMMIT, "0.2.0", ""), CustodyDispositionV1::ProviderUnavailable);
    let c = custody(vec![item("s3://bucket/x", true, Some("sha256:other"), "")]);
    assert_eq!(c.evaluate_custody(COMMIT, "0.2.0", ""), CustodyDispositionV1::Mismatch);
    let c = custody(Vec::new());
    assert_eq!(c.evaluate_custody(COMMIT, "0.2.0", ""), CustodyDispositionV1::InstrumentFailure);
}

fn qualification(tree: &str, changed: &[&str], reruns: &[&str]) -> CargoAllowPostMergeQualificationV1 {
    CargoAllowPostMergeQualificationV1::new(PostMergeQualificationInitV1 {
        qualification_id: "qual-1".to_string(),
        reviewed: ReviewedContextV1 {
            base_sha: "base".to_string(),
            head_sha: "head".to_string(),
            merge_base_sha: "mb".to_string(),
            tree_sha: tree.to_string(),
        },
        merged: MergedStateV1 {
            pr_number: 42,
            merge_commit_sha: COMMIT.to_string(),
            merge_tree_sha: "merged-tree".to_string(),
            current_main_commit_sha: COMMIT.to_string(),
            current_main_tree_sha: "merged-tree".to_string(),
            merge_method: MergeMethodV1::Squash,
            merge_parents: vec!["base".to_string()],
        },
        changed_files: changed.iter().map(|s| s.to_string()).collect(),
        semantic_owners: Vec::new(),
        premerge_evidence_digest: "sha256:e".to_string(),
        preserved_evidence_nodes: Vec::new(),
        invalidated_evidence_nodes: Vec::new(),
        required_rerun_set: reruns.iter().map(|s| s.to_string()).collect(),
        created_at_utc: "2026-01-01T00:00:00Z".to_string(),
    })
}

#[test]
fn post_merge_equivalence_needs_a_quiet_merge() {
    assert_eq!(
        qualification("merged-tree", &[], &[]).evaluate_verdict(),
        PostMergeEquivalenceVerdictV1::EquivalentTree
    );
    assert_eq!(
        qualification("reviewed-tree", &["README.md", ".changes/x.toml"], &[]).evaluate_verdict(),
        PostMergeEquivalenceVerdictV1::EquivalentSelectedBytes
    );
    assert_eq!(
        qualification("reviewed-tree", &["src/lib.rs"], &[]).evaluate_verdict(),
        PostMergeEquivalenceVerdictV1::RequalificationRequired
    );
    assert_eq!(
        qualification("merged-tree", &[], &["ci"]).evaluate_verdict(),
        PostMergeEquivalenceVerdictV1::RequalificationRequired
    );
    let mut moved = qualification("merged-tree", &[], &[]);
    moved.merged.current_main_commit_sha = "3333333333333333333333333333333333333333".to_string();
    assert_eq!(moved.evaluate_verdict(), PostMergeEquivalenceVerdictV1::Stale);
}

fn request(effects: Vec<LandedEffectV1>) -> PostMergeReconciliationRequestV1 {
    PostMergeReconciliationRequestV1 {
        reconciliation_id: "rec-1".to_string(),
        repository: "example/cargo-allow".to_string(),
        target_branch: "main".to_string(),
        merge_commit_sha: COMMIT.to_string(),
        merge_tree_sha: "tree".to_string(),
        integration_receipt_merge_commit_sha: COMMIT.to_string(),
        integration_receipt_merge_tree_sha: "tree".to_string(),
        current_main_commit_sha: COMMIT.to_string(),
        current_main_tree_sha: "tree".to_string(),
        integration_receipt_id: "receipt-1".to_string(),
        claim_ref: "#42".to_string(),
        expected_effects: effects,
        premerge_evidence_current: true,
        post_merge_obligations_complete: true,
        repository_decision_required: false,
        external_action_required: false,
        contradiction: false,
    }
}

fn effect(id: &str, status: LandedEffectStatusV1) -> LandedEffectV1 {
    LandedEffectV1 { effect_id: id.to_string(), status }
}

#[test]
fn reconciliation_completes_only_when_every_effect_landed() {
    let r = PostMergeReconciliationResultV1::evaluate(request(vec![effect("a", LandedEffectStatusV1::Present)]));
    assert_eq!(r.disposition, ReconciliationDispositionV1::Reconciled);
    assert_eq!(r.next_frontier, NextFrontierV1::Complete);
    let r = PostMergeReconciliationResultV1::evaluate(request(vec![
        effect("a", LandedEffectStatusV1::Present),
        effect("b", LandedEffectStatusV1::Missing),
    ]));
    assert_eq!(r.disposition, ReconciliationDispositionV1::PartiallyReconciled);
    assert_eq!(r.next_frontier, NextFrontierV1::OpenOrLinkFollowUpClaim);
    let r = PostMergeReconciliationResultV1::evaluate(request(vec![effect("a", LandedEffectStatusV1::Unknown)]));
    assert_eq!(r.disposition, ReconciliationDispositionV1::NotProven);
    let r = PostMergeReconciliationResultV1::evaluate(request(vec![
        effect("a", LandedEffectStatusV1::Present),
        effect("a", LandedEffectStatusV1::Present),
    ]));
    assert_eq!(r.disposition, ReconciliationDispositionV1::InstrumentFailure);
}
