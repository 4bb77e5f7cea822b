use allow_report::release_artifact_transfer::{
    ActualDownloadedFileV1, ArtifactTransferDispositionV1, ArtifactTransferFileV1,
    CargoAllowReleaseArtifactTransferV1, ConsumerContextV1, ProducerIdentityV1, TrustClassV1,
    UntrustedInputPostureV1,
};

const COMMIT: &str = "0123456789abcdef0123456789abcdef01234567";

fn producer() -> ProducerIdentityV1 {
    ProducerIdentityV1 {
        repository: "example/cargo-allow".to_string(),
        workflow_path: ".github/workflows/release.yml".to_string(),
        git_ref: "refs/tags/v0.2.0".to_string(),
        run_id: 7,
        run_attempt: 1,
        job_id: "package".to_string(),
        commit_sha: COMMIT.to_string(),
        tree_sha: "tree".to_string(),
        release_version: "0.2.0".to_string(),
        tool_name: "cargo-allow".to_string(),
        schema_id: "cargo-allow.release-artifact-transfer.v1".to_string(),
        producer_generation: 1,
    }
}

fn transfer(trust: TrustClassV1) -> CargoAllowReleaseArtifactTransferV1 {
    CargoAllowReleaseArtifactTransferV1::new(
        "transfer-1".to_string(),
        "crate-bytes".to_string(),
        "crates".to_string(),
        producer(),
        "github-actions".to_string(),
        "crates-0.2.0".to_string(),
        vec![ArtifactTransferFileV1 {
            path: "cargo-allow-0.2.0.crate".to_string(),
            size_bytes: 1024,
            sha256: "sha256:aaaa".to_string(),
        }],
        None,
        trust,
        UntrustedInputPostureV1::StrictByteMatch,
        "2026-01-01T00:00:00Z".to_string(),
    )
}

fn consumer(credentials: bool) -> ConsumerContextV1 {
    ConsumerContextV1 {
        workflow_path: ".github/workflows/release.yml".to_string(),
        run_id: 7,
        job_id: "publish".to_string(),
        requested_role: "crate-bytes".to_string(),
        is_credential_bearing: credentials,
    }
}

fn download(size: u64, sha: &str) -> Vec<ActualDownloadedFileV1> {
    vec![ActualDownloadedFileV1 {
        path: "cargo-allow-0.2.0.crate".to_string(),
        size_bytes: size,
        sha256: sha.to_string(),
    }]
}

#[test]
fn exact_download_is_complete() {
    let t = transfer(TrustClassV1::CleanRelease);
    assert_eq!(
        t.evaluate_transfer(&consumer(true), COMMIT, "0.2.0", &download(1024, "sha256:aaaa")),
        ArtifactTransferDispositionV1::Complete
    );
}

#[test]
fn pull_request_artifacts_never_reach_credentials() {
    let t = transfer(TrustClassV1::PullRequest);
    assert_eq!(
        t.evaluate_transfer(&consumer(true), COMMIT, "0.2.0", &download(1024, "sha256:aaaa")),
        ArtifactTransferDispositionV1::Untrusted
    );
    assert_eq!(
        t.evaluate_transfer(&consumer(false), COMMIT, "0.2.0", &download(1024, "sha256:aaaa")),
        ArtifactTransferDispositionV1::Complete
    );
}

#[test]
fn moved_commit_missing_and_altered_files_are_named() {
    let t = transfer(TrustClassV1::TagWorkflow);
    assert_eq!(
        t.evaluate_transfer(&consumer(true), "feedfacefeedfacefeedfacefeedfacefeedface", "0.2.0", &download(1024, "sha256:aaaa")),
        ArtifactTransferDispositionV1::Stale
    );
    assert_eq!(
        t.evaluate_transfer(&consumer(true), COMMIT, "0.2.1", &download(1024, "sha256:aaaa")),
        ArtifactTransferDispositionV1::Mismatch
    );
    assert_eq!(
        t.evaluate_transfer(&consumer(true), COMMIT, "0.2.0", &[]),
        ArtifactTransferDispositionV1::Missing
    );
    assert_eq!(
        t.evaluate_transfer(&consumer(true), COMMIT, "0.2.0", &download(1023, "sha256:aaaa")),
        ArtifactTransferDispositionV1::Mismatch
    );
    let mut injected = transfer(TrustClassV1::TagWorkflow);
    injected.role = "crate-bytes;rm".to_string();
    assert_eq!(
        injected.evaluate_transfer(&consumer(true), COMMIT, "0.2.0", &download(1024, "sha256:aaaa")),
        ArtifactTransferDispositionV1::InstrumentFailure
    );
}
