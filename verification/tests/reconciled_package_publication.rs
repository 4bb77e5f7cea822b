use allow_report::reconciled_package_publication::{
    PackageRowClassV1, PublicationClassificationV1, PublicationStateV1,
    ReconciledPackagePublicationV1,
};

const CANONICAL: &str =
    "sha256:a3f6c99da45120b96968349bc51c83ddf81e6d7a2c49e06e8727d3ab4195a3b2";
const CONFLICTING: &str =
    "sha256:ae3f4ed17b8877640c00e8fabd1e4e1778eff52dc102cc5103ee49ca92c5a488";

fn candidate(
    version: &str,
    state: PublicationStateV1,
    expected: &str,
    observed: Option<&str>,
) -> ReconciledPackagePublicationV1 {
    ReconciledPackagePublicationV1 {
        logical_id: "cargo-allow".to_string(),
        package_name: "cargo-allow".to_string(),
        package_version: version.to_string(),
        release_order: 100,
        row_class: PackageRowClassV1::CargoAllowCandidate,
        state,
        expected_checksum: expected.to_string(),
        observed_registry_checksum: observed.map(str::to_string),
    }
}

fn shared(observed: Option<&str>) -> ReconciledPackagePublicationV1 {
    ReconciledPackagePublicationV1 {
        logical_id: "effortless-repo-edit".to_string(),
        package_name: "effortless-repo-edit".to_string(),
        package_version: "0.1.0".to_string(),
        release_order: 120,
        row_class: PackageRowClassV1::PublishedSharedPrerequisite,
        state: PublicationStateV1::VerifiedExisting,
        expected_checksum: CANONICAL.to_string(),
        observed_registry_checksum: observed.map(str::to_string),
    }
}

#[test]
fn exact_rows_classify_complete() {
    let row = candidate(
        "0.2.0-rc.1",
        PublicationStateV1::PublishedVerified,
        CANONICAL,
        Some(CANONICAL),
    );
    assert_eq!(row.classify(), PublicationClassificationV1::CompleteExact);
    assert!(row.is_manifest_ready());
    let shared_row = shared(Some(CANONICAL));
    assert_eq!(
        shared_row.classify(),
        PublicationClassificationV1::CompleteExact
    );
}

#[test]
fn candidate_drift_is_stale_not_conflict() {
    // Same version, different candidate bytes: the registry row is stale
    // against this candidate.
    let row = candidate(
        "0.2.0-rc.1",
        PublicationStateV1::VerifiedExisting,
        CANONICAL,
        Some(CONFLICTING),
    );
    assert_eq!(row.classify(), PublicationClassificationV1::Stale);
    assert!(!row.is_manifest_ready());
}

#[test]
fn shared_drift_is_conflict() {
    let row = shared(Some(CONFLICTING));
    assert_eq!(row.classify(), PublicationClassificationV1::Conflict);
    assert!(!row.is_manifest_ready());
}

#[test]
fn missing_and_unavailable_are_named() {
    let missing = candidate("0.2.0-rc.1", PublicationStateV1::Missing, CANONICAL, None);
    assert_eq!(missing.classify(), PublicationClassificationV1::Missing);
    let unavailable = candidate(
        "0.2.0-rc.1",
        PublicationStateV1::ProviderUnavailable,
        CANONICAL,
        None,
    );
    assert_eq!(
        unavailable.classify(),
        PublicationClassificationV1::Unavailable
    );
}

#[test]
fn malformed_checksums_are_mismatch() {
    let row = candidate(
        "0.2.0-rc.1",
        PublicationStateV1::PublishedVerified,
        "short",
        Some(CANONICAL),
    );
    assert_eq!(row.classify(), PublicationClassificationV1::Mismatch);
    let bad_observed = candidate(
        "0.2.0-rc.1",
        PublicationStateV1::PublishedVerified,
        CANONICAL,
        Some("sha256:nope"),
    );
    assert_eq!(
        bad_observed.classify(),
        PublicationClassificationV1::Mismatch
    );
}

