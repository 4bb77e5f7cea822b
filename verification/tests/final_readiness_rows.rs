use allow_report::final_readiness::{
    collect_custody_rows, collect_decision_rows, collect_post_merge_rows, readiness_verdict,
    FinalReadinessCustodyPostureV1, FinalReadinessDecisionInputsV1, FinalReadinessDecisionStateV1,
    FinalReadinessPostMergePostureV1, FinalReadinessQualificationPostureV1,
    FinalReadinessRootDecisionV1, FinalReadinessRowKindV1, FinalReadinessRowV1,
    FinalReadinessSupportedLimitationV1, FinalReadinessVerdictV1,
};

fn inputs() -> FinalReadinessDecisionInputsV1 {
    FinalReadinessDecisionInputsV1 {
        graph_owner: "release-eng".to_string(),
        root_decisions: vec![FinalReadinessRootDecisionV1 {
            decision_id: "support-matrix".to_string(),
            owner: "product".to_string(),
            state: FinalReadinessDecisionStateV1::Decided,
            required: true,
        }],
        supported_limitations: Vec::new(),
        permitted_claim_narrowings: Vec::new(),
        post_merge: FinalReadinessPostMergePostureV1 {
            merge_commit: "a".repeat(40),
            merge_subject_current: true,
            qualification: FinalReadinessQualificationPostureV1::Current,
            owner: "release-eng".to_string(),
        },
        custody: FinalReadinessCustodyPostureV1 {
            replay_feasible: true,
            expires_before_authorization_window: false,
            owner: "custody".to_string(),
        },
        remaining_reversible_work: Vec::new(),
        remaining_irreversible_operations: Vec::new(),
    }
}

fn all_rows(i: &FinalReadinessDecisionInputsV1) -> Vec<FinalReadinessRowV1> {
    let mut rows = Vec::new();
    collect_decision_rows(i, &mut rows);
    collect_post_merge_rows(i, &mut rows);
    collect_custody_rows(i, &mut rows);
    rows
}

fn row(kind: FinalReadinessRowKindV1) -> FinalReadinessRowV1 {
    FinalReadinessRowV1 {
        kind,
        evidence_id: None,
        message: "m".to_string(),
        owner: "o".to_string(),
        next_action: "n".to_string(),
    }
}

#[test]
fn decided_inputs_add_no_rows_and_are_ready() {
    let rows = all_rows(&inputs());
    assert!(rows.is_empty());
    assert_eq!(readiness_verdict(&rows), FinalReadinessVerdictV1::ReadyForFreeze);
    assert_eq!(FinalReadinessVerdictV1::ReadyForFreeze.label(), "ready_for_freeze");
}

#[test]
fn missing_required_decision_needs_decision_with_its_owner() {
    let mut i = inputs();
    i.root_decisions[0].state = FinalReadinessDecisionStateV1::Missing;
    i.root_decisions.push(FinalReadinessRootDecisionV1 {
        decision_id: "  ".to_string(),
        owner: " ".to_string(),
        state: FinalReadinessDecisionStateV1::Decided,
        required: false,
    });
    let rows = all_rows(&i);
    assert_eq!(rows.len(), 2);
    assert_eq!(rows[0].kind, FinalReadinessRowKindV1::DecisionRequired);
    assert_eq!(rows[0].message, "required root decision `support-matrix` is not recorded");
    assert_eq!(rows[0].owner, "product");
    assert_eq!(rows[1].message, "a root decision input lacks a stable decision id");
    assert_eq!(rows[1].owner, "release-eng");
    assert_eq!(readiness_verdict(&rows), FinalReadinessVerdictV1::NeedsDecision);
}

#[test]
fn invalid_limitation_is_unsupported_and_unowned_rows_block() {
    let mut i = inputs();
    i.graph_owner = "".to_string();
    i.supported_limitations.push(FinalReadinessSupportedLimitationV1 {
        limitation_id: "no-windows".to_string(),
        user_facing_projection: None,
        owner: Some("docs".to_string()),
    });
    i.supported_limitations.push(FinalReadinessSupportedLimitationV1 {
        limitation_id: "no-arm".to_string(),
        user_facing_projection: Some("support.md#arm".to_string()),
        owner: None,
    });
    let rows = all_rows(&i);
    assert_eq!(rows.len(), 2);
    assert_eq!(rows[0].kind, FinalReadinessRowKindV1::Unsupported);
    assert_eq!(
        rows[0].message,
        "supported limitation `no-windows` lacks a user-facing projection or exact owner"
    );
    assert_eq!(rows[0].owner, "docs");
    assert_eq!(rows[1].kind, FinalReadinessRowKindV1::MissingEvidence);
    assert_eq!(rows[1].owner, "unassigned");
    assert_eq!(
        rows[1].message,
        "supported limitation `no-arm` lacks a user-facing projection or exact owner; additionally, no exact owner is recorded for this row"
    );
    assert_eq!(readiness_verdict(&rows), FinalReadinessVerdictV1::Unsupported);
}

#[test]
fn moved_main_rerun_and_expiring_custody_are_stale() {
    let mut i = inputs();
    i.post_merge.merge_commit = " ".to_string();
    i.post_merge.merge_subject_current = false;
    i.post_merge.qualification = FinalReadinessQualificationPostureV1::RequiresRerun;
    i.custody.replay_feasible = false;
    i.custody.expires_before_authorization_window = true;
    let rows = all_rows(&i);
    let kinds: Vec<_> = rows.iter().map(|r| r.kind).collect();
    assert_eq!(
        kinds,
        vec![
            FinalReadinessRowKindV1::MissingEvidence,
            FinalReadinessRowKindV1::Stale,
            FinalReadinessRowKindV1::Stale,
            FinalReadinessRowKindV1::MissingEvidence,
            FinalReadinessRowKindV1::CustodyExpiring,
        ]
    );
    assert_eq!(rows[4].owner, "custody");
    assert_eq!(readiness_verdict(&rows), FinalReadinessVerdictV1::Stale);
}

#[test]
fn verdict_is_the_most_severe_and_ignores_order() {
    let a = vec![
        row(FinalReadinessRowKindV1::NotProven),
        row(FinalReadinessRowKindV1::Mismatch),
        row(FinalReadinessRowKindV1::ClaimNarrowed),
    ];
    let mut b = a.clone();
    b.reverse();
    assert_eq!(readiness_verdict(&a), FinalReadinessVerdictV1::Mismatch);
    assert_eq!(readiness_verdict(&b), FinalReadinessVerdictV1::Mismatch);
    assert_eq!(
        readiness_verdict(&vec![row(FinalReadinessRowKindV1::ClaimNarrowed)]),
        FinalReadinessVerdictV1::ReadyForFreeze
    );
    assert_eq!(FinalReadinessRowKindV1::CustodyExpiring.precedence(), 4);
    assert_eq!(FinalReadinessRowKindV1::ClaimNarrowed.label(), "claim_narrowed");
}
