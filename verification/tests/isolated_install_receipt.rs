use allow_report::isolated_install_receipt::{
    validate_isolated_install_v2, IsolatedInstallGraphComparisonV2, IsolatedInstallPackageRowV2,
    IsolatedInstallPayloadV2, IsolatedInstallResultV2, ISOLATED_INSTALL_RECEIPT_V2_SCHEMA_ID,
    ISOLATED_INSTALL_RECEIPT_V2_SCHEMA_VERSION,
};

fn row(package_name: &str, version: &str) -> IsolatedInstallPackageRowV2 {
    IsolatedInstallPackageRowV2 {
        package_name: package_name.to_string(),
        package_version: version.to_string(),
        crate_digest: format!("sha256:{:064x}", 11),
        index_checksum: format!("sha256:{:064x}", 12),
        resolved_version: Some(version.to_string()),
    }
}

fn payload() -> IsolatedInstallPayloadV2 {
    IsolatedInstallPayloadV2 {
        schema_id: ISOLATED_INSTALL_RECEIPT_V2_SCHEMA_ID.to_string(),
        schema_version: ISOLATED_INSTALL_RECEIPT_V2_SCHEMA_VERSION,
        candidate_artifact_digest: format!("sha256:{:064x}", 1),
        repository_commit: "abc123".to_string(),
        repository_tree: "def456".to_string(),
        cargo_lock_digest: format!("sha256:{:064x}", 2),
        registry_index_digest: format!("sha256:{:064x}", 3),
        external_cache_identity: format!("sha256:{:064x}", 4),
        source_checkout_denied: true,
        install_root_identity: format!("sha256:{:064x}", 5),
        cargo_home_identity: format!("sha256:{:064x}", 6),
        installed_executable_digest: format!("sha256:{:064x}", 7),
        installed_version_output: "cargo-allow 0.2.0-rc.1".to_string(),
        platform: "x86_64-unknown-linux-gnu".to_string(),
        toolchain: "stable".to_string(),
        package_rows: vec![
            row("allow-core", "0.2.0-rc.1"),
            row("effortless-repo-protocol", "0.1.0"),
        ],
        graph_comparison: IsolatedInstallGraphComparisonV2 {
            expected_packages: 2,
            matched_packages: 2,
            unexpected_packages: Vec::new(),
            missing_packages: Vec::new(),
            version_mismatches: Vec::new(),
            path_sources: Vec::new(),
        },
        limitations: vec!["linux hosted claim only".to_string()],
        claim_boundary: "isolated install evidence only".to_string(),
    }
}

#[test]
fn receipt_accepts_a_clean_isolated_install() -> Result<(), String> {
    let validation = validate_isolated_install_v2(&payload());
    if validation.result != IsolatedInstallResultV2::Complete {
        return Err(format!("clean receipt was rejected: {validation:?}"));
    }
    Ok(())
}

#[test]
fn receipt_rejects_source_fallback_and_dirty_graphs() -> Result<(), String> {
    let mut fallback = payload();
    fallback.source_checkout_denied = false;
    let validation = validate_isolated_install_v2(&fallback);
    if validation.result != IsolatedInstallResultV2::SourceFallbackDetected {
        return Err(format!(
            "source fallback was not classified: {validation:?}"
        ));
    }

    let mut dirty = payload();
    dirty.graph_comparison.version_mismatches =
        vec!["allow-core expected 0.2.0-rc.1 resolved 0.0.0".to_string()];
    let validation = validate_isolated_install_v2(&dirty);
    if validation.result != IsolatedInstallResultV2::GraphMismatch {
        return Err(format!("dirty graph was not classified: {validation:?}"));
    }
    Ok(())
}

#[test]
fn receipt_rejects_private_paths_and_unchecked_source_denial() -> Result<(), String> {
    let mut leaky = payload();
    leaky.external_cache_identity = "/home/runner/work/cargo-allow/cache".to_string();
    let validation = validate_isolated_install_v2(&leaky);
    if validation.result != IsolatedInstallResultV2::PathLeakInReceipt {
        return Err(format!("private path was not classified: {validation:?}"));
    }
    Ok(())
}

#[test]
fn receipt_rejects_stale_and_malformed_identity() -> Result<(), String> {
    let mut stale = payload();
    stale.cargo_lock_digest = "sha256:short".to_string();
    let validation = validate_isolated_install_v2(&stale);
    if validation.result != IsolatedInstallResultV2::StaleInput {
        return Err(format!("stale identity was not classified: {validation:?}"));
    }

    let mut malformed = payload();
    malformed.package_rows.clear();
    malformed.installed_version_output = " ".to_string();
    let validation = validate_isolated_install_v2(&malformed);
    if validation.result != IsolatedInstallResultV2::StaleInput || validation.gaps.len() < 2 {
        return Err(format!(
            "malformed receipt was under-reported: {validation:?}"
        ));
    }
    Ok(())
}

#[test]
fn receipt_rejects_unknown_generations_and_duplicate_rows() -> Result<(), String> {
    let mut generation = payload();
    generation.schema_version = 1;
    let validation = validate_isolated_install_v2(&generation);
    if validation.result != IsolatedInstallResultV2::UnsupportedGeneration {
        return Err(format!(
            "unknown generation was not classified: {validation:?}"
        ));
    }

    let mut duplicated = payload();
    duplicated
        .package_rows
        .push(row("allow-core", "0.2.0-rc.1"));
    let validation = validate_isolated_install_v2(&duplicated);
    if validation.result != IsolatedInstallResultV2::MalformedArtifact
        || !validation.gaps.iter().any(|gap| gap.contains("duplicated"))
    {
        return Err(format!("duplicate row was not classified: {validation:?}"));
    }
    Ok(())
}
