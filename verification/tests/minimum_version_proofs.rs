use allow_report::minimum_direct_version::{
    evaluate_minimum_version_proof, DirectDependencyClassV1, MinimumFloorResultV1,
    MinimumFloorRowV1, MinimumProofVerdictV1, MinimumVersionProofReceiptV1,
    MinimumVersionProofRequestV1, MinimumVersionRowResultV1, MINIMUM_DIRECT_VERSION_SCHEMA_ID,
};
use allow_report::minimum_version_drift::{
    evaluate_minimum_version_drift, MinimumVersionDriftFloorRowV1,
    MinimumVersionDriftObservationV1, MinimumVersionDriftVerdictV1,
};

fn floor(package: &str, requirement: &str, selected: &str) -> MinimumFloorRowV1 {
    MinimumFloorRowV1 {
        package: package.to_string(),
        declared_requirement: requirement.to_string(),
        selected_floor: selected.to_string(),
        class: DirectDependencyClassV1::Normal,
    }
}

fn proven(package: &str, requirement: &str, tested: &str) -> MinimumVersionRowResultV1 {
    MinimumVersionRowResultV1 {
        package: package.to_string(),
        declared_requirement: requirement.to_string(),
        tested_floor: tested.to_string(),
        resolved_version: tested.to_string(),
        source_identity: "crates.io".to_string(),
        result: MinimumFloorResultV1::Proven,
        limitation: None,
    }
}

fn request() -> MinimumVersionProofRequestV1 {
    MinimumVersionProofRequestV1 {
        product: "cargo-allow".to_string(),
        package_roots: vec!["crates/cargo-allow".to_string()],
        features: Vec::new(),
        target: "x86_64-unknown-linux-gnu".to_string(),
        msrv: "1.85".to_string(),
        floors: vec![floor("serde", "1.0", "1.0.0"), floor("toml", "0.8", "0.8.0")],
        proof_classes: vec!["check".to_string()],
        manifest_set_digest: "sha256:manifests".to_string(),
        lock_digest: "sha256:lock".to_string(),
    }
}

fn receipt() -> MinimumVersionProofReceiptV1 {
    MinimumVersionProofReceiptV1 {
        schema_id: MINIMUM_DIRECT_VERSION_SCHEMA_ID.to_string(),
        schema_version: 1,
        product: "cargo-allow".to_string(),
        msrv: "1.85".to_string(),
        package_roots: vec!["crates/cargo-allow".to_string()],
        toolchain: "1.85.0".to_string(),
        target: "x86_64-unknown-linux-gnu".to_string(),
        manifest_set_digest: "sha256:manifests".to_string(),
        lock_digest: "sha256:lock".to_string(),
        rows: vec![proven("serde", "1.0", "1.0.0"), proven("toml", "0.8", "0.8.0")],
        commands: vec!["cargo check --locked".to_string()],
        floor_lock_digest: "sha256:floor".to_string(),
        limitations: Vec::new(),
        claim_boundary: "boundary".to_string(),
    }
}

fn observation() -> MinimumVersionDriftObservationV1 {
    MinimumVersionDriftObservationV1 {
        product: "cargo-allow".to_string(),
        package_roots: vec!["crates/cargo-allow".to_string()],
        msrv: "1.85".to_string(),
        target: "x86_64-unknown-linux-gnu".to_string(),
        manifest_set_digest: "sha256:manifests".to_string(),
        lock_digest: "sha256:lock".to_string(),
        floors: vec![
            MinimumVersionDriftFloorRowV1 {
                package: "serde".to_string(),
                declared_requirement: "1.0".to_string(),
                selected_floor: "1.0.0".to_string(),
            },
            MinimumVersionDriftFloorRowV1 {
                package: "toml".to_string(),
                declared_requirement: "0.8".to_string(),
                selected_floor: "0.8.0".to_string(),
            },
        ],
    }
}

#[test]
fn aligned_proof_is_complete_without_reasons() {
    let e = evaluate_minimum_version_proof(&request(), &receipt());
    assert_eq!(e.verdict, MinimumProofVerdictV1::Complete);
    assert!(e.reasons.is_empty());
    assert_eq!(e.verdict.label(), "complete");
}

#[test]
fn lock_movement_stales_and_empty_denominator_is_never_proven() {
    let mut moved = receipt();
    moved.lock_digest = "sha256:other".to_string();
    let e = evaluate_minimum_version_proof(&request(), &moved);
    assert_eq!(e.verdict, MinimumProofVerdictV1::Stale);
    assert_eq!(e.reasons, vec!["stale: the request digests moved since the receipt".to_string()]);

    let mut empty = request();
    empty.floors.clear();
    let e = evaluate_minimum_version_proof(&empty, &receipt());
    assert_eq!(e.verdict, MinimumProofVerdictV1::InstrumentFailure);
    assert_eq!(e.reasons, vec!["empty denominator: no floor rows were selected".to_string()]);
}

#[test]
fn substituted_floor_and_unclean_rows_are_incomplete() {
    let mut r = receipt();
    r.rows[0].tested_floor = "1.0.100".to_string();
    r.rows[1].result = MinimumFloorResultV1::ResolverFailure;
    let e = evaluate_minimum_version_proof(&request(), &r);
    assert_eq!(e.verdict, MinimumProofVerdictV1::Incomplete);
    assert_eq!(
        e.reasons,
        vec![
            "floor substitution: serde was tested at 1.0.100 but the declared floor selects 1.0.0".to_string(),
            "non-clean row without limitation: toml".to_string(),
            "non-clean dispositions: toml".to_string(),
        ]
    );
}

#[test]
fn newer_toolchain_cannot_pass_silently_and_other_products_do_not_satisfy() {
    let mut r = receipt();
    r.toolchain = "1.90.0".to_string();
    let e = evaluate_minimum_version_proof(&request(), &r);
    assert_eq!(e.verdict, MinimumProofVerdictV1::InstrumentFailure);
    assert_eq!(
        e.reasons,
        vec!["toolchain 1.90.0 is newer than the claimed MSRV 1.85; the rows cannot silently pass".to_string()]
    );
    let mut other = receipt();
    other.product = "cargo-intent".to_string();
    let e = evaluate_minimum_version_proof(&request(), &other);
    assert_eq!(e.verdict, MinimumProofVerdictV1::Incomplete);
    assert_eq!(
        e.reasons,
        vec!["product_mismatch: receipt cargo-intent vs request cargo-allow".to_string()]
    );
}

#[test]
fn drift_is_current_only_when_fully_aligned() {
    let e = evaluate_minimum_version_drift(&observation(), Some(&receipt()));
    assert_eq!(e.verdict, MinimumVersionDriftVerdictV1::Current);
    assert!(!e.blocking);
    assert!(e.reasons.is_empty());
}

#[test]
fn missing_receipt_is_unproven_and_release_set_blocks() {
    let e = evaluate_minimum_version_drift(&observation(), None);
    assert_eq!(e.verdict, MinimumVersionDriftVerdictV1::Unproven);
    assert!(e.blocking);
    assert_eq!(e.reasons, vec!["no retained receipt for product cargo-allow".to_string()]);
    let mut advisory = observation();
    advisory.product = "cargo-intent".to_string();
    let e = evaluate_minimum_version_drift(&advisory, None);
    assert_eq!(e.verdict, MinimumVersionDriftVerdictV1::Unproven);
    assert!(!e.blocking);
}

#[test]
fn msrv_movement_is_stale_and_coverage_gaps_are_named() {
    let mut moved = observation();
    moved.msrv = "1.86".to_string();
    let e = evaluate_minimum_version_drift(&moved, Some(&receipt()));
    assert_eq!(e.verdict, MinimumVersionDriftVerdictV1::Stale);
    assert_eq!(e.reasons, vec!["msrv moved: receipt 1.85 vs current 1.86".to_string()]);

    let mut gap = observation();
    gap.floors.remove(1);
    gap.floors.push(MinimumVersionDriftFloorRowV1 {
        package: "clap".to_string(),
        declared_requirement: "4".to_string(),
        selected_floor: "4.0.0".to_string(),
    });
    let e = evaluate_minimum_version_drift(&gap, Some(&receipt()));
    assert_eq!(e.verdict, MinimumVersionDriftVerdictV1::Incomplete);
    assert_eq!(
        e.reasons,
        vec![
            "no receipt row for declared floor clap".to_string(),
            "receipt row toml is no longer a declared floor".to_string(),
        ]
    );
}
