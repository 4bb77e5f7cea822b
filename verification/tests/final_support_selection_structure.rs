use allow_report::final_support_selection::{
    FinalSelectionDispositionV1, FinalSelectionRowV1, FinalSupportSelectionErrorV1,
    FinalSupportSelectionV1, FINAL_SELECTION_CLAIM_BOUNDARY, FINAL_SUPPORT_SELECTION_SCHEMA_ID,
    FINAL_SUPPORT_SELECTION_SCHEMA_VERSION,
};

fn selection_row(dimension: &str, subject: &str, disposition: FinalSelectionDispositionV1) -> FinalSelectionRowV1 {
    FinalSelectionRowV1 {
        dimension: dimension.to_string(),
        subject: subject.to_string(),
        disposition,
        proof_owner: "release-eng".to_string(),
        required_evidence: "installed-experience receipt".to_string(),
        evidence_reference: "docs/dogfood/receipts/x.json".to_string(),
        claim_effect: "claim made".to_string(),
        staleness_inputs: vec!["Cargo.lock".to_string()],
    }
}

fn selection_fixture() -> FinalSupportSelectionV1 {
    FinalSupportSelectionV1 {
        schema_id: FINAL_SUPPORT_SELECTION_SCHEMA_ID.to_string(),
        schema_version: FINAL_SUPPORT_SELECTION_SCHEMA_VERSION,
        controlling_issue: 2501,
        release_version: "0.2.0".to_string(),
        release_tag: "v0.2.0".to_string(),
        channel: "stable".to_string(),
        github_prerelease: false,
        identity_digest: "sha256:v1:identity".to_string(),
        selection_digest: "sha256:v1:selection".to_string(),
        claim_boundary: FINAL_SELECTION_CLAIM_BOUNDARY.to_string(),
        rows: vec![
            selection_row("platform", "linux-x86_64", FinalSelectionDispositionV1::Selected),
            selection_row("platform", "windows", FinalSelectionDispositionV1::NotIncluded),
        ],
    }
}

#[test]
fn coherent_structure_passes_and_has_no_undecided_rows() {
    let s = selection_fixture();
    assert_eq!(s.verify_structure(), Ok(()));
    assert!(s.needs_decision_rows().is_empty());
    assert_eq!(s.claim_boundary(), FINAL_SELECTION_CLAIM_BOUNDARY);
    assert_eq!(FinalSelectionDispositionV1::NotIncluded.label(), "not_included");
}

#[test]
fn structure_refusals_name_the_first_violation() {
    let mut s = selection_fixture();
    s.schema_id = "other".to_string();
    let e = s.verify_structure().unwrap_err();
    assert_eq!(e, FinalSupportSelectionErrorV1::SchemaId { found: "other".to_string() });
    assert_eq!(
        e.message(),
        "selection schema id \"other\" is not cargo-allow.final-support-selection.v1"
    );

    let mut s = selection_fixture();
    s.rows.clear();
    assert_eq!(s.verify_structure(), Err(FinalSupportSelectionErrorV1::EmptyRowSet));

    let mut s = selection_fixture();
    s.rows.push(selection_row("platform", "windows", FinalSelectionDispositionV1::NotProven));
    let e = s.verify_structure().unwrap_err();
    assert_eq!(e.message(), "selection repeats dimension \"platform\" subject \"windows\"");

    let mut s = selection_fixture();
    s.rows[1].claim_effect = "  ".to_string();
    let e = s.verify_structure().unwrap_err();
    assert_eq!(
        e,
        FinalSupportSelectionErrorV1::EmptyField { row: "platform/windows".to_string(), field: "claim_effect" }
    );
    assert_eq!(e.message(), "selection row \"platform/windows\" leaves claim_effect empty");

    let mut s = selection_fixture();
    s.claim_boundary = "narrower".to_string();
    assert_eq!(s.verify_structure(), Err(FinalSupportSelectionErrorV1::ClaimBoundary));
    assert_eq!(
        FinalSupportSelectionErrorV1::SchemaVersion { found: 2 }.message(),
        "selection schema version 2 is not 1"
    );
}

#[test]
fn needs_decision_rows_block_freeze_consumption_structurally() {
    let mut s = selection_fixture();
    s.rows.push(selection_row("pilot", "team-a", FinalSelectionDispositionV1::NeedsDecision));
    assert_eq!(s.verify_structure(), Ok(()));
    let undecided = s.needs_decision_rows();
    assert_eq!(undecided.len(), 1);
    assert_eq!(undecided[0].subject, "team-a");
}
