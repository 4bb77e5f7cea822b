use allow_report::package_candidate::{
    validate_package_candidate_v2, PackageCandidateDependencyKindV2,
    PackageCandidateDependencyRowV2, PackageCandidateFamilyV2, PackageCandidatePayloadV2,
    PackageCandidateResultV2, PackageCandidateRowV2, PACKAGE_CANDIDATE_V2_SCHEMA_ID,
    PACKAGE_CANDIDATE_V2_SCHEMA_VERSION,
};

fn dependency(
    package_name: &str,
    kind: PackageCandidateDependencyKindV2,
) -> PackageCandidateDependencyRowV2 {
    PackageCandidateDependencyRowV2 {
        package_name: package_name.to_string(),
        package_version: "0.1.0".to_string(),
        dependency_kind: kind,
    }
}

fn row(
    logical_id: &str,
    order: u32,
    family: PackageCandidateFamilyV2,
) -> PackageCandidateRowV2 {
    PackageCandidateRowV2 {
        logical_id: logical_id.to_string(),
        cargo_package_name: logical_id.to_string(),
        cargo_package_version: match family {
            PackageCandidateFamilyV2::CargoAllow02 => "0.2.0-rc.1".to_string(),
            PackageCandidateFamilyV2::Shared01 => "0.1.0".to_string(),
        },
        rust_library_name: logical_id.to_string(),
        workspace_source_path: format!("crates/{logical_id}"),
        product_family: family,
        publication_state: "UnpublishedInternal".to_string(),
        publish: true,
        support_tier: "supported".to_string(),
        release_order: order,
        selected_features: Vec::new(),
        expected_manifest_identity: format!(
            "{logical_id}:{}",
            match family {
                PackageCandidateFamilyV2::CargoAllow02 => "0.2.0-rc.1",
                PackageCandidateFamilyV2::Shared01 => "0.1.0",
            }
        ),
        expected_dependency_rows: Vec::new(),
        required_assets: Vec::new(),
        crate_digest: None,
        crate_size_bytes: None,
    }
}

fn payload() -> PackageCandidatePayloadV2 {
    let core = row("allow-core", 10, PackageCandidateFamilyV2::CargoAllow02);
    let mut policy = row("allow-policy", 20, PackageCandidateFamilyV2::CargoAllow02);
    policy.expected_dependency_rows = vec![dependency(
        "allow-core",
        PackageCandidateDependencyKindV2::Internal,
    )];
    let shared = row(
        "effortless-repo-protocol",
        230,
        PackageCandidateFamilyV2::Shared01,
    );
    let mut root = row("cargo-allow", 100, PackageCandidateFamilyV2::CargoAllow02);
    root.expected_dependency_rows = vec![dependency(
        "allow-policy",
        PackageCandidateDependencyKindV2::Internal,
    )];
    PackageCandidatePayloadV2 {
        schema_id: PACKAGE_CANDIDATE_V2_SCHEMA_ID.to_string(),
        schema_version: PACKAGE_CANDIDATE_V2_SCHEMA_VERSION,
        topology_id: "CARGO-ALLOW-PKG-TOPOLOGY-V2-0001".to_string(),
        topology_digest: Some(format!("sha256:{:064x}", 3)),
        repository_commit: "abc123".to_string(),
        repository_tree: "def456".to_string(),
        cargo_lock_digest: format!("sha256:{:064x}", 4),
        candidate_product_id: "cargo-allow-0.2".to_string(),
        root_logical_id: "cargo-allow".to_string(),
        root_package_name: "cargo-allow".to_string(),
        root_package_version: "0.2.0-rc.1".to_string(),
        target_class: "cargo-allow-0.2".to_string(),
        feature_set_id: "default".to_string(),
        rows: vec![core, policy, root, shared],
        known_exclusions: vec!["intent-model: cargo-intent family is not selected".to_string()],
        limitations: vec!["no packaging, installation, or publication occurs".to_string()],
        claim_boundary: "topology-selected candidate identity only".to_string(),
    }
}

#[test]
fn candidate_accepts_a_wellformed_mixed_version_payload() -> Result<(), String> {
    let validation = validate_package_candidate_v2(&payload());
    if validation.result != PackageCandidateResultV2::Complete {
        return Err(format!("wellformed candidate was rejected: {validation:?}"));
    }
    Ok(())
}

#[test]
fn candidate_rejects_sibling_products_and_stale_shared_identities() -> Result<(), String> {
    let mut invalid = payload();
    invalid
        .rows
        .push(row("intent-model", 240, PackageCandidateFamilyV2::Shared01));
    invalid
        .rows
        .last_mut()
        .ok_or_else(|| "fixture lost its pushed row".to_string())?
        .cargo_package_version = "0.2.0-rc.1".to_string();
    let validation = validate_package_candidate_v2(&invalid);
    if validation.result == PackageCandidateResultV2::Complete
        || !validation
            .gaps
            .iter()
            .any(|gap| gap.contains("mixed versions"))
    {
        return Err(format!(
            "sibling-product row with substituted version was accepted: {validation:?}"
        ));
    }
    Ok(())
}

#[test]
fn candidate_rejects_order_that_disagrees_with_the_dependency_graph() -> Result<(), String> {
    let mut invalid = payload();
    let policy = invalid
        .rows
        .iter_mut()
        .find(|row| row.logical_id == "allow-policy")
        .ok_or_else(|| "fixture lost the policy row".to_string())?;
    policy.release_order = 5;
    let validation = validate_package_candidate_v2(&invalid);
    if validation.result != PackageCandidateResultV2::DependencyConflict
        || !validation
            .gaps
            .iter()
            .any(|gap| gap.contains("after itself"))
    {
        return Err(format!(
            "dependency-order violation was not classified: {validation:?}"
        ));
    }
    Ok(())
}

#[test]
fn candidate_rejects_internal_dependencies_absent_from_the_candidate() -> Result<(), String> {
    let mut invalid = payload();
    let root = invalid
        .rows
        .iter_mut()
        .find(|row| row.logical_id == "cargo-allow")
        .ok_or_else(|| "fixture lost the root row".to_string())?;
    root.expected_dependency_rows = vec![dependency(
        "intent-compiler",
        PackageCandidateDependencyKindV2::Internal,
    )];
    let validation = validate_package_candidate_v2(&invalid);
    if validation.result != PackageCandidateResultV2::DependencyConflict
        || !validation
            .gaps
            .iter()
            .any(|gap| gap.contains("absent from the candidate"))
    {
        return Err(format!(
            "omitted sibling dependency was not classified: {validation:?}"
        ));
    }
    Ok(())
}

#[test]
fn candidate_rejects_stale_repository_and_lock_identity() -> Result<(), String> {
    let mut invalid = payload();
    invalid.repository_commit = String::new();
    invalid.cargo_lock_digest = "sha256:short".to_string();
    let validation = validate_package_candidate_v2(&invalid);
    if validation.result != PackageCandidateResultV2::StaleInput {
        return Err(format!("stale identity was not classified: {validation:?}"));
    }
    Ok(())
}

#[test]
fn candidate_rejects_manifest_identity_disagreement_and_root_absence() -> Result<(), String> {
    let mut invalid = payload();
    let root = invalid
        .rows
        .iter_mut()
        .find(|row| row.logical_id == "cargo-allow")
        .ok_or_else(|| "fixture lost the root row".to_string())?;
    root.expected_manifest_identity = "cargo-allow:0.1.11".to_string();
    let validation = validate_package_candidate_v2(&invalid);
    if validation.result != PackageCandidateResultV2::IdentityConflict
        || !validation
            .gaps
            .iter()
            .any(|gap| gap.contains("expected_manifest_identity"))
    {
        return Err(format!(
            "manifest identity disagreement was not classified: {validation:?}"
        ));
    }

    let mut rootless = payload();
    rootless.rows.retain(|row| row.logical_id != "cargo-allow");
    let validation = validate_package_candidate_v2(&rootless);
    if validation.result != PackageCandidateResultV2::IdentityConflict
        || !validation
            .gaps
            .iter()
            .any(|gap| gap.contains("root package row"))
    {
        return Err(format!(
            "missing root row was not classified: {validation:?}"
        ));
    }
    Ok(())
}

#[test]
fn candidate_rejects_non_current_generations_and_blank_scalars() -> Result<(), String> {
    let mut invalid = payload();
    invalid.schema_version = 1;
    invalid.topology_id = " ".to_string();
    let validation = validate_package_candidate_v2(&invalid);
    if validation.result != PackageCandidateResultV2::UnsupportedGeneration
        || !validation
            .gaps
            .iter()
            .any(|gap| gap.contains("topology_id"))
    {
        return Err(format!(
            "generation or scalar gap was not classified: {validation:?}"
        ));
    }
    Ok(())
}

