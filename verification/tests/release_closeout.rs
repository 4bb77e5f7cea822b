use allow_report::release_closeout::{
    evaluate_release_closeout_v1, ReleaseCloseoutAttestationV1, ReleaseCloseoutEvidenceV1,
    ReleaseCloseoutExpectedAssetV1, ReleaseCloseoutObservedAssetV1, ReleaseCloseoutResultV1,
    ReleaseManifestResultV2, RELEASE_CLOSEOUT_V1_SCHEMA_ID, RELEASE_CLOSEOUT_V1_SCHEMA_VERSION,
};

fn digest(byte: u8) -> String {
    format!("sha256:{:064x}", byte)
}

fn attestation(asset: &ReleaseCloseoutExpectedAssetV1) -> ReleaseCloseoutAttestationV1 {
    ReleaseCloseoutAttestationV1 {
        subject_name: asset.name.clone(),
        subject_sha256: asset.sha256.clone(),
        repository: "EffortlessMetrics/cargo-allow".to_string(),
        workflow_path: ".github/workflows/release.yml".to_string(),
        git_ref: "refs/tags/v0.2.0-rc.1".to_string(),
        verified: true,
    }
}

fn evidence() -> ReleaseCloseoutEvidenceV1 {
    let manifest = ReleaseCloseoutExpectedAssetV1 {
        name: "release-manifest-v2.json".to_string(),
        size: 100,
        sha256: digest(1),
        attestation_required: true,
    };
    let archive = ReleaseCloseoutExpectedAssetV1 {
        name: "cargo-allow-v0.2.0-rc.1-x86_64-unknown-linux-gnu.tar.gz".to_string(),
        size: 200,
        sha256: digest(2),
        attestation_required: true,
    };
    ReleaseCloseoutEvidenceV1 {
        schema_id: RELEASE_CLOSEOUT_V1_SCHEMA_ID.to_string(),
        schema_version: RELEASE_CLOSEOUT_V1_SCHEMA_VERSION,
        repository: "EffortlessMetrics/cargo-allow".to_string(),
        version: "0.2.0-rc.1".to_string(),
        tag: "v0.2.0-rc.1".to_string(),
        commit: "a".repeat(40),
        tree: "b".repeat(40),
        workflow_path: ".github/workflows/release.yml".to_string(),
        workflow_run_id: 42,
        workflow_attempt: 1,
        authorization_reference: "issue-3695/run-42".to_string(),
        release_manifest_sha256: digest(9),
        release_manifest_result: ReleaseManifestResultV2::Complete,
        draft: true,
        github_prerelease: true,
        expected_assets: vec![manifest.clone(), archive.clone()],
        observed_assets: vec![
            ReleaseCloseoutObservedAssetV1 {
                asset_id: 1,
                name: manifest.name.clone(),
                size: manifest.size,
                sha256: manifest.sha256.clone(),
            },
            ReleaseCloseoutObservedAssetV1 {
                asset_id: 2,
                name: archive.name.clone(),
                size: archive.size,
                sha256: archive.sha256.clone(),
            },
        ],
        attestations: vec![attestation(&manifest), attestation(&archive)],
        incident_reference: None,
        instrument_diagnostics: Vec::new(),
        claim_boundary: "exact draft asset and provenance closeout".to_string(),
    }
}

#[test]
fn exact_rc_draft_asset_set_can_complete() {
    let receipt = evaluate_release_closeout_v1(evidence());
    assert!(
        receipt.result == ReleaseCloseoutResultV1::Complete && receipt.gaps.is_empty(),
        "expected complete closeout: {receipt:?}"
    );
}

#[test]
fn missing_or_extra_asset_is_incomplete() {
    let mut input = evidence();
    input.observed_assets.pop();
    input.observed_assets.push(ReleaseCloseoutObservedAssetV1 {
        asset_id: 3,
        name: "unexpected.txt".to_string(),
        size: 1,
        sha256: digest(3),
    });
    let receipt = evaluate_release_closeout_v1(input);
    assert!(
        receipt.result == ReleaseCloseoutResultV1::Incomplete
            && receipt.gaps.iter().any(|gap| gap.contains("is missing"))
            && receipt.gaps.iter().any(|gap| gap.contains("unmanifested")),
        "asset-set drift did not fail closed: {receipt:?}"
    );
}

#[test]
fn asset_digest_or_attestation_drift_is_incomplete() {
    let mut input = evidence();
    input.observed_assets[0].sha256 = digest(7);
    input.attestations[1].verified = false;
    let receipt = evaluate_release_closeout_v1(input);
    assert!(
        receipt.result == ReleaseCloseoutResultV1::Incomplete
            && receipt.gaps.iter().any(|gap| gap.contains("digest differs"))
            && receipt.gaps.iter().any(|gap| gap.contains("is not verified")),
        "asset or attestation drift was accepted: {receipt:?}"
    );
}

#[test]
fn rc_cannot_claim_stable_github_release_posture() {
    let mut input = evidence();
    input.github_prerelease = false;
    let receipt = evaluate_release_closeout_v1(input);
    assert!(
        receipt.result == ReleaseCloseoutResultV1::Incomplete
            && receipt.gaps.iter().any(|gap| gap.contains("prerelease posture disagree")),
        "RC/stable release mismatch was accepted: {receipt:?}"
    );
}

#[test]
fn noncomplete_manifest_blocks_closeout() {
    let mut input = evidence();
    input.release_manifest_result = ReleaseManifestResultV2::IncompletePrePublication;
    let receipt = evaluate_release_closeout_v1(input);
    assert!(
        receipt.result == ReleaseCloseoutResultV1::Incomplete
            && receipt.gaps.iter().any(|gap| gap.contains("ReleaseManifestV2 is not complete")),
        "incomplete manifest was accepted: {receipt:?}"
    );
}

#[test]
fn incident_lineage_cannot_be_erased_by_otherwise_clean_evidence() {
    let mut input = evidence();
    input.incident_reference = Some("run/41/release_incident".to_string());
    let receipt = evaluate_release_closeout_v1(input);
    assert!(
        receipt.result == ReleaseCloseoutResultV1::ReleaseIncident,
        "release incident was erased: {receipt:?}"
    );
}

#[test]
fn instrument_failure_is_distinct_from_release_incompleteness() {
    let mut input = evidence();
    input.instrument_diagnostics.push("GitHub asset query failed".to_string());
    let receipt = evaluate_release_closeout_v1(input);
    assert!(
        receipt.result == ReleaseCloseoutResultV1::InstrumentFailure,
        "instrument failure was misclassified: {receipt:?}"
    );
}

#[test]
fn closeout_gaps_name_each_drift_in_order() {
    let mut input = evidence();
    input.observed_assets.pop();
    input.observed_assets.push(ReleaseCloseoutObservedAssetV1 {
        asset_id: 3,
        name: "unexpected.txt".to_string(),
        size: 1,
        sha256: digest(3),
    });
    let receipt = evaluate_release_closeout_v1(input);
    assert_eq!(
        receipt.gaps,
        vec![
            "required draft asset cargo-allow-v0.2.0-rc.1-x86_64-unknown-linux-gnu.tar.gz is missing".to_string(),
            "unmanifested draft asset unexpected.txt is present".to_string(),
        ]
    );
}

#[test]
fn empty_expected_set_and_credential_reference_are_gaps() {
    let mut input = evidence();
    input.expected_assets.clear();
    input.authorization_reference = "token=abc".to_string();
    let receipt = evaluate_release_closeout_v1(input);
    assert_eq!(receipt.result, ReleaseCloseoutResultV1::Incomplete);
    assert!(receipt.gaps.contains(&"authorization reference is not a bounded token".to_string()));
    assert!(receipt.gaps.contains(&"expected release asset set is empty".to_string()));
    assert!(receipt
        .gaps
        .contains(&"attestation subject release-manifest-v2.json is not an expected release asset".to_string()));
}
