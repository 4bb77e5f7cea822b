use allow_report::github_release_checkpoint::{
    begin_github_release_checkpoint_v1, canonical_stored_checkpoint_bytes_v1,
    digest_github_release_checkpoint_body_v1, digest_github_release_checkpoint_bytes_v1,
    digest_github_release_checkpoint_link_v1, record_github_release_checkpoint_readback_v1,
    record_github_release_checkpoint_readback_with_witness_v1,
    select_github_release_checkpoint_by_exact_identity_v1, CargoAllowGitHubReleaseCheckpointV1,
    GitHubCheckpointProviderOutcomeV1, GitHubReleaseCheckpointClassV1, GitHubReleaseCheckpointInitV1,
    GitHubReleaseCheckpointKindV1, GitHubReleaseCheckpointProducerV1, GitHubReleaseCheckpointProviderObjectV1,
    GitHubReleaseCheckpointProviderV1, GitHubReleaseCheckpointReadbackV1,
};

fn digest(byte: u8) -> String {
    format!("sha256:{:064x}", byte)
}

fn producer() -> GitHubReleaseCheckpointProducerV1 {
    GitHubReleaseCheckpointProducerV1 {
        workflow: "release.yml".to_string(),
        run: "42".to_string(),
        attempt: "1".to_string(),
        job: "publish".to_string(),
        git_ref: "refs/tags/v0.2.0".to_string(),
        commit: "c".repeat(40),
    }
}

fn init(sequence: u64, id: &str, object: &str) -> GitHubReleaseCheckpointInitV1 {
    GitHubReleaseCheckpointInitV1 {
        checkpoint_id: id.to_string(),
        operation_id: "publish_cargo_allow_final_0_2_0".to_string(),
        operation_identity_digest: digest(10),
        operation_class: GitHubReleaseCheckpointClassV1::CleanFinalPublication,
        authorization_digest: digest(11),
        custody_digest: digest(12),
        freeze_digest: digest(13),
        repository: "EffortlessMetrics/cargo-allow".to_string(),
        tag: "v0.2.0".to_string(),
        journal_head_sequence: 2,
        journal_head_digest: digest(20),
        checkpoint_sequence: sequence,
        kind: GitHubReleaseCheckpointKindV1::PreMutationDurable,
        github_release_id: None,
        gated_mutation: "draft-create".to_string(),
        provider: GitHubReleaseCheckpointProviderObjectV1 {
            provider: GitHubReleaseCheckpointProviderV1::GithubActionsArtifact,
            object_id: object.to_string(),
            object_name: "checkpoint".to_string(),
            object_digest: digest(1),
            object_size_bytes: 1,
        },
        producer: producer(),
        retention_days: 7,
        created_at_unix_seconds: 1_000,
        note: "before draft".to_string(),
    }
}

/// A checkpoint whose provider object claims exactly its own stored bytes.
fn self_consistent(sequence: u64, id: &str, object: &str, prior: Option<&CargoAllowGitHubReleaseCheckpointV1>) -> CargoAllowGitHubReleaseCheckpointV1 {
    let mut i = init(sequence, id, object);
    let mut c = begin_github_release_checkpoint_v1(i.clone(), prior).unwrap();
    i.provider.object_digest = digest_github_release_checkpoint_body_v1(&c);
    for _ in 0..4 {
        c = begin_github_release_checkpoint_v1(i.clone(), prior).unwrap();
        i.provider.object_size_bytes = canonical_stored_checkpoint_bytes_v1(&c).len() as u64;
    }
    begin_github_release_checkpoint_v1(i, prior).unwrap()
}

#[test]
fn fresh_checkpoint_reads_back_missing_and_expires_by_retention() {
    let c = begin_github_release_checkpoint_v1(init(1, "cp-1", "obj-1"), None).unwrap();
    assert_eq!(c.readback, GitHubReleaseCheckpointReadbackV1::Missing);
    assert_eq!(c.readback_at_unix_seconds, None);
    assert_eq!(c.prior_checkpoint_digest, None);
    assert_eq!(c.expires_at_unix_seconds, 1_000 + 7 * 86_400);
    let stored = String::from_utf8(canonical_stored_checkpoint_bytes_v1(&c)).unwrap();
    assert!(stored.starts_with("{\n  \"schema_id\": \"cargo-allow.github-release-checkpoint.v1\",\n"));
    assert!(stored.contains("\n  \"readback\": \"missing\",\n  \"readback_at_unix_seconds\": null,\n"));
    assert!(stored.ends_with("\n  ]\n}"));
}

#[test]
fn exact_stored_bytes_read_back_complete_with_a_witness() {
    let mut c = self_consistent(1, "cp-1", "obj-1", None);
    let bytes = canonical_stored_checkpoint_bytes_v1(&c);
    let parsed = Some(c.clone());
    let (verdict, witness) = record_github_release_checkpoint_readback_with_witness_v1(
        &mut c,
        GitHubCheckpointProviderOutcomeV1::Delivered(bytes.clone()),
        1_001,
        parsed,
    )
    .unwrap();
    assert_eq!(verdict, GitHubReleaseCheckpointReadbackV1::Complete);
    assert!(witness.is_some());
    assert_eq!(c.readback, GitHubReleaseCheckpointReadbackV1::Complete);
    assert_eq!(c.readback_at_unix_seconds, Some(1_001));
    assert_ne!(digest_github_release_checkpoint_bytes_v1(&bytes), String::from_utf8(bytes.clone()).unwrap());
}

#[test]
fn wrong_bytes_mismatch_and_outages_are_not_absence() {
    let mut c = self_consistent(1, "cp-1", "obj-1", None);
    let mut bytes = canonical_stored_checkpoint_bytes_v1(&c);
    bytes.push(b' ');
    let parsed = Some(c.clone());
    let (verdict, witness) = record_github_release_checkpoint_readback_with_witness_v1(
        &mut c,
        GitHubCheckpointProviderOutcomeV1::Delivered(bytes),
        1_001,
        parsed,
    )
    .unwrap();
    assert_eq!(verdict, GitHubReleaseCheckpointReadbackV1::Mismatch);
    assert!(witness.is_none());
    let r = record_github_release_checkpoint_readback_v1(&mut c, GitHubCheckpointProviderOutcomeV1::Unavailable, 1_002, None);
    assert_eq!(r, Ok(GitHubReleaseCheckpointReadbackV1::ProviderUnavailable));
    assert_eq!(
        record_github_release_checkpoint_readback_v1(&mut c, GitHubCheckpointProviderOutcomeV1::Unavailable, 1_000, None),
        Err("readback observations never move backward")
    );
}

#[test]
fn linkage_requires_verified_predecessor_and_binds_its_bytes() {
    let first = self_consistent(1, "cp-1", "obj-1", None);
    assert_eq!(
        begin_github_release_checkpoint_v1(init(2, "cp-2", "obj-2"), Some(&first)).unwrap_err(),
        "checkpoint linkage requires a verified predecessor readback"
    );
    let mut verified = first.clone();
    let bytes = canonical_stored_checkpoint_bytes_v1(&verified);
    record_github_release_checkpoint_readback_with_witness_v1(
        &mut verified,
        GitHubCheckpointProviderOutcomeV1::Delivered(bytes),
        1_000,
        Some(first.clone()),
    )
    .unwrap();
    let second = begin_github_release_checkpoint_v1(init(2, "cp-2", "obj-2"), Some(&verified)).unwrap();
    assert_eq!(second.prior_checkpoint_digest, Some(digest_github_release_checkpoint_link_v1(&verified)));
    assert_eq!(
        begin_github_release_checkpoint_v1(init(3, "cp-3", "obj-3"), Some(&verified)).unwrap_err(),
        "checkpoint sequence must advance by exactly one"
    );
    assert_eq!(
        begin_github_release_checkpoint_v1(init(2, "cp-1", "obj-9"), Some(&verified)).unwrap_err(),
        "later checkpoints require new checkpoint and provider object identities"
    );
}

#[test]
fn selection_is_by_exact_identity_only() {
    let a = begin_github_release_checkpoint_v1(init(1, "cp-1", "obj-1"), None).unwrap();
    let b = begin_github_release_checkpoint_v1(init(1, "cp-2", "obj-2"), None).unwrap();
    let candidates = vec![a.clone(), b.clone()];
    let picked = select_github_release_checkpoint_by_exact_identity_v1(
        &candidates,
        "obj-2",
        &producer(),
        "publish_cargo_allow_final_0_2_0",
        &digest(10),
    )
    .unwrap();
    assert_eq!(picked.map(|c| c.checkpoint_id.as_str()), Some("cp-2"));
    let mut other = producer();
    other.run = "43".to_string();
    assert_eq!(
        select_github_release_checkpoint_by_exact_identity_v1(&candidates, "obj-2", &other, "publish_cargo_allow_final_0_2_0", &digest(10)),
        Ok(None)
    );
    let twice = vec![a.clone(), a];
    assert_eq!(
        select_github_release_checkpoint_by_exact_identity_v1(&twice, "obj-1", &producer(), "publish_cargo_allow_final_0_2_0", &digest(10)),
        Err("checkpoint discovery by exact identity is ambiguous")
    );
}

#[test]
fn secret_notes_are_refused_in_any_case() {
    let mut i = init(1, "cp-1", "obj-1");
    i.note = "Token=abc".to_string();
    assert_eq!(
        begin_github_release_checkpoint_v1(i, None).unwrap_err(),
        "secret material must never enter checkpoint records"
    );
}
