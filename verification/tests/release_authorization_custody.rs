use sha2::Digest;
use allow_report::final_registry_preflight::FinalRegistryPreflightResultV1 as Preflight;
use allow_report::release_authorization::{
    release_authorization_denominator_binding_v1, ReleaseAuthorizationAuthorityKindV1,
    ReleaseAuthorizationAuthorityV1, ReleaseAuthorizationConsumptionV1 as Consumption,
    ReleaseAuthorizationEvidenceV1, ReleaseAuthorizationFreezeV1, ReleaseAuthorizationInputV1,
    ReleaseAuthorizationOperationV1, ReleaseAuthorizationPackageRowV1,
    ReleaseAuthorizationSecretAvailabilityV1, ReleaseAuthorizationSecretStateV1,
    ReleaseAuthorizationSharedRowV1, ReleaseAuthorizationSourceKindV1, ReleaseAuthorizationSourceV1,
    RELEASE_AUTHORIZATION_AUTH_CLASS, RELEASE_AUTHORIZATION_FINAL_OPERATION,
    RELEASE_AUTHORIZATION_FINAL_TAG, RELEASE_AUTHORIZATION_FINAL_VERSION,
    RELEASE_AUTHORIZATION_SCHEMA_ID, RELEASE_AUTHORIZATION_SCHEMA_VERSION,
    RELEASE_AUTHORIZATION_SELECTION, RELEASE_AUTHORIZATION_STABLE_CHANNEL,
};
use allow_report::release_authorization_custody::{
    authorization_evidence_digest_v1, mint_authorization_custody_v1, note_custody_readback_v1,
    note_irreversible_start_v1, render_custody_record, verify_custody_readback_v1, CustodyReadbackV1,
    revoke_authorization_custody_v1, select_authorization_for_run_v1, selection_payload_v1,
    settle_authorization_consumption_v1, AuthorizationCustodyMintInitV1,
    CargoAllowReleaseAuthorizationCustodyV1,
};

fn digest(n: u64) -> String {
    format!("sha256:{n:064x}")
}

fn package_rows() -> Vec<ReleaseAuthorizationPackageRowV1> {
    RELEASE_AUTHORIZATION_SELECTION
        .into_iter()
        .filter(|row| !row.3)
        .map(|(logical, package, version, _)| ReleaseAuthorizationPackageRowV1 {
            logical_id: logical.to_string(),
            package_name: package.to_string(),
            package_version: version.to_string(),
            package_digest: digest(10),
            package_size_bytes: 10_000,
        })
        .collect()
}

fn shared_rows() -> Vec<ReleaseAuthorizationSharedRowV1> {
    RELEASE_AUTHORIZATION_SELECTION
        .into_iter()
        .filter(|row| row.3)
        .map(|(logical, package, version, _)| ReleaseAuthorizationSharedRowV1 {
            logical_id: logical.to_string(),
            package_name: package.to_string(),
            package_version: version.to_string(),
            expected_checksum: digest(20),
            authority_digest: digest(21),
        })
        .collect()
}

fn fixture() -> Result<ReleaseAuthorizationInputV1, Box<dyn std::error::Error>> {
    let mut input = ReleaseAuthorizationInputV1 {
        schema_id: RELEASE_AUTHORIZATION_SCHEMA_ID.to_string(),
        schema_version: RELEASE_AUTHORIZATION_SCHEMA_VERSION,
        operation: ReleaseAuthorizationOperationV1 {
            name: RELEASE_AUTHORIZATION_FINAL_OPERATION.to_string(),
            version: RELEASE_AUTHORIZATION_FINAL_VERSION.to_string(),
            tag: RELEASE_AUTHORIZATION_FINAL_TAG.to_string(),
            channel: RELEASE_AUTHORIZATION_STABLE_CHANNEL.to_string(),
            github_prerelease: false,
            authority_kind: ReleaseAuthorizationAuthorityKindV1::Clean,
        },
        freeze: ReleaseAuthorizationFreezeV1 {
            receipt_digest: digest(1),
            candidate_digest: digest(2),
            denominator_digest: digest(3),
            commit: "a".repeat(40),
            tree: "b".repeat(40),
            lock_digest: digest(4),
            topology_id: "CARGO-ALLOW-PKG-TOPOLOGY-V2-0001".to_string(),
            packages: package_rows(),
            shared_prerequisites: shared_rows(),
        },
        evidence: ReleaseAuthorizationEvidenceV1 {
            package_docs_digest: digest(30),
            preflight_result: Preflight::CompleteWithResidualAuthorityRisk,
            preflight_evaluated_at_unix_seconds: 100,
            preflight_maximum_age_seconds: 30,
            support_digest: digest(31),
            manifest_digest: digest(32),
            rehearsal_complete_except_authorization: true,
            rehearsal_digest: digest(33),
            source_controls_digest: digest(34),
            live_controls_digest: digest(35),
            workflow_digest: digest(36),
            action_inventory_digest: digest(37),
            observed_context_digest: digest(38),
            current_context_digest: digest(38),
        },
        authority: ReleaseAuthorizationAuthorityV1 {
            selected_auth_class: RELEASE_AUTHORIZATION_AUTH_CLASS.to_string(),
            secret_availability: ReleaseAuthorizationSecretAvailabilityV1 {
                redacted: true,
                state: ReleaseAuthorizationSecretStateV1::Unknown,
            },
            maintainer_actor: "release-operator".to_string(),
            maintainer_role: "release-maintainer".to_string(),
            source: ReleaseAuthorizationSourceV1 {
                kind: ReleaseAuthorizationSourceKindV1::IssueComment,
                repository: "EffortlessMetrics/cargo-allow".to_string(),
                reference: "issue:2502#comment:1".to_string(),
                author: "release-operator".to_string(),
                body_digest: digest(40),
                statement: "Authorize publish_cargo_allow_final_0_2_0 for v0.2.0.".to_string(),
            },
            created_at_unix_seconds: 90,
            expires_at_unix_seconds: 200,
            one_run_scope: true,
            nonce: "nonce-0-2-0-0001".to_string(),
            prior_consumptions: Vec::new(),
            consumption: Consumption::Available,
        },
        frozen_file_digests: vec![digest(50), digest(51)],
        evaluated_at_unix_seconds: 110,
    };
    input.freeze.denominator_digest = release_authorization_denominator_binding_v1(&input.freeze);
    Ok(input)
}


fn mint_init() -> AuthorizationCustodyMintInitV1 {
    AuthorizationCustodyMintInitV1 {
        authorization_id: "auth-0-2-0".to_string(),
        decision: fixture().unwrap(),
        freeze_receipt_digest: digest(60),
        replay_digest: digest(61),
        replay_result: "Complete".to_string(),
        candidate_custody_digest: digest(62),
        freeze_complete: true,
        replay_complete: true,
        storage_locator: "s3://release-custody/auth-0-2-0.json".to_string(),
        storage_access_policy: "release-maintainers".to_string(),
        storage_retention_expiry_unix_seconds: 10_000,
        storage_provider_available: true,
        valid_from_unix_seconds: 100,
        expires_at_unix_seconds: 1_000,
        minted_by: "release-operator".to_string(),
        minted_at_unix_seconds: 100,
    }
}

fn minted() -> CargoAllowReleaseAuthorizationCustodyV1 {
    let mut c = mint_authorization_custody_v1(mint_init()).unwrap();
    let stored = render_custody_record(&c);
    assert_eq!(note_custody_readback_v1(&mut c, stored.as_bytes()), CustodyReadbackV1::Match);
    c
}

#[test]
fn mint_binds_the_decision_and_starts_available() {
    let c = mint_authorization_custody_v1(mint_init()).unwrap();
    assert_eq!(c.state, Consumption::Available);
    assert!(!c.readback_verified);
    assert!(c.redacted);
    assert_eq!(c.nonce, "nonce-0-2-0-0001");
    assert_eq!(c.evidence_digest, authorization_evidence_digest_v1(&fixture().unwrap().evidence));
    assert!(c.authorization_digest.starts_with("sha256:"));
    assert_ne!(c.authorization_digest, c.evidence_digest);
}

#[test]
fn mint_refuses_in_tree_storage_and_secrets() {
    let mut i = mint_init();
    i.storage_locator = "docs/auth.json".to_string();
    assert_eq!(mint_authorization_custody_v1(i).unwrap_err(), "authorization storage must live outside the frozen source tree");
    let mut i = mint_init();
    i.storage_locator = "crates/x://y".to_string();
    assert_eq!(mint_authorization_custody_v1(i).unwrap_err(), "authorization storage must live outside the frozen source tree");
    let mut i = mint_init();
    i.minted_by = "ghp_abc".to_string();
    assert_eq!(mint_authorization_custody_v1(i).unwrap_err(), "secret material must never enter authorization custody records");
    let mut i = mint_init();
    i.replay_result = "Partial".to_string();
    assert_eq!(mint_authorization_custody_v1(i).unwrap_err(), "minting requires a Complete or CompleteEquivalent replay result");
    let mut i = mint_init();
    i.decision.freeze.packages.pop();
    assert_eq!(mint_authorization_custody_v1(i).unwrap_err(), "minting requires exactly ten final and three shared rows");
}

#[test]
fn selection_is_one_use_and_incident_is_final() {
    let mut c = minted();
    let evidence = c.evidence_digest.clone();
    let sel = select_authorization_for_run_v1(&mut c, "nonce-0-2-0-0001", 200, &evidence, true).unwrap();
    assert_eq!(sel.from, Consumption::Available);
    assert_eq!(sel.to, Consumption::SelectedForRun);
    assert_eq!(c.state, Consumption::SelectedForRun);
    assert_eq!(c.consumed_nonces, vec!["nonce-0-2-0-0001".to_string()]);
    assert_eq!(
        select_authorization_for_run_v1(&mut c, "nonce-0-2-0-0001", 201, &evidence, true).unwrap_err(),
        "authorization was already selected or consumed"
    );
    note_irreversible_start_v1(&mut c, 202).unwrap();
    let settled = settle_authorization_consumption_v1(&mut c, false, 203).unwrap();
    assert_eq!(settled.to, Consumption::ConsumedIncident);
    assert_eq!(c.transitions.len(), 3);
    assert_eq!(
        select_authorization_for_run_v1(&mut c, "nonce-0-2-0-0001", 204, &evidence, true).unwrap_err(),
        "authorization was already selected or consumed"
    );
    assert_eq!(
        revoke_authorization_custody_v1(&mut c, "operator request", 205),
        Err("terminal consumption history cannot be revoked")
    );
}

#[test]
fn selection_requires_readback_fresh_evidence_and_live_window() {
    let mut c = mint_authorization_custody_v1(mint_init()).unwrap();
    let evidence = c.evidence_digest.clone();
    assert_eq!(
        select_authorization_for_run_v1(&mut c, "nonce-0-2-0-0001", 200, &evidence, true).unwrap_err(),
        "selection requires a verified independent readback"
    );
    let mut c = minted();
    assert_eq!(
        select_authorization_for_run_v1(&mut c, "nonce-0-2-0-0001", 200, &digest(99), true).unwrap_err(),
        "changed evidence invalidates selection before token access"
    );
    assert_eq!(
        select_authorization_for_run_v1(&mut c, "other", 200, &evidence, true).unwrap_err(),
        "selection requires the exact bound one-use nonce"
    );
    assert_eq!(
        select_authorization_for_run_v1(&mut c, "nonce-0-2-0-0001", 5_000, &evidence, true).unwrap_err(),
        "expired or revoked authorization cannot be selected"
    );
    assert_eq!(c.state, Consumption::Expired);
    assert_eq!(c.transitions.len(), 1);
}

#[test]
fn revoke_and_payload_carry_identity_only() {
    let mut c = minted();
    assert_eq!(revoke_authorization_custody_v1(&mut c, "  ", 300), Err("revocation requires a reason"));
    revoke_authorization_custody_v1(&mut c, "operator request", 300).unwrap();
    assert_eq!(c.state, Consumption::Revoked);
    let p = selection_payload_v1(&c);
    assert_eq!(p.state, Consumption::Revoked);
    assert_eq!(p.nonce, c.nonce);
    assert_eq!(p.commit, "a".repeat(40));
    assert_eq!(p.operation_tag, "v0.2.0");
}

#[test]
fn readback_is_graded_against_the_stored_record() {
    let c = mint_authorization_custody_v1(mint_init()).unwrap();
    let stored = render_custody_record(&c);
    assert_eq!(verify_custody_readback_v1(&c, stored.as_bytes()), CustodyReadbackV1::Match);
    let value: serde_json::Value = serde_json::from_slice(stored.as_bytes()).unwrap();
    let pretty = serde_json::to_vec_pretty(&value).unwrap();
    assert_eq!(verify_custody_readback_v1(&c, &pretty), CustodyReadbackV1::Match);
    let mut other = c.clone();
    other.nonce = "nonce-other".to_string();
    let drifted = render_custody_record(&other);
    assert_eq!(verify_custody_readback_v1(&c, drifted.as_bytes()), CustodyReadbackV1::Mismatch);
    assert_eq!(verify_custody_readback_v1(&c, b"not json"), CustodyReadbackV1::Malformed);
}

#[test]
fn readback_match_marks_the_record_verified_with_the_byte_digest() {
    let mut c = mint_authorization_custody_v1(mint_init()).unwrap();
    let before = c.clone();
    assert_eq!(note_custody_readback_v1(&mut c, b"{}"), CustodyReadbackV1::Mismatch);
    assert_eq!(c, before);
    assert_eq!(note_custody_readback_v1(&mut c, b"{"), CustodyReadbackV1::Malformed);
    assert_eq!(c, before);
    let stored = render_custody_record(&c);
    assert_eq!(note_custody_readback_v1(&mut c, stored.as_bytes()), CustodyReadbackV1::Match);
    assert!(c.readback_verified);
    let body = format!(
        "[{}]",
        stored.as_bytes().iter().map(|b| b.to_string()).collect::<Vec<_>>().join(",")
    );
    let hash = sha2::Sha256::digest(body.as_bytes());
    let hex: String = hash.iter().map(|b| format!("{b:02x}")).collect();
    assert_eq!(c.readback_digest, Some(format!("sha256:{hex}")));
}
