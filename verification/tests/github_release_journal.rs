use allow_report::github_release_journal::{
    append_github_release_journal_event_v1, begin_github_release_journal_v1,
    observe_github_release_identity_v1, verify_github_release_journal_v1, CargoAllowGitHubReleaseJournalV1,
    GitHubReleaseActualAssetV1, GitHubReleaseExpectedAssetV1, GitHubReleaseJournalAppendV1,
    GitHubReleaseJournalClassV1, GitHubReleaseJournalEventV1, GitHubReleaseJournalInitV1,
    GITHUB_RELEASE_JOURNAL_GENESIS_DIGEST,
};
use allow_report::github_release_journal::GitHubReleaseJournalEventV1 as E;

fn digest(byte: u8) -> String {
    format!("sha256:{:064x}", byte)
}

fn expected() -> GitHubReleaseExpectedAssetV1 {
    GitHubReleaseExpectedAssetV1 {
        asset_role: "archive".to_string(),
        asset_name: "cargo-allow.tar.gz".to_string(),
        size_bytes: 200,
        sha256_digest: digest(2),
        producer_identity: "release.yml".to_string(),
        attestation_identity: "attestation-1".to_string(),
    }
}

fn init() -> GitHubReleaseJournalInitV1 {
    GitHubReleaseJournalInitV1 {
        journal_id: "journal-1".to_string(),
        operation_id: "publish_cargo_allow_final_0_2_0".to_string(),
        operation_identity_digest: digest(10),
        operation_class: GitHubReleaseJournalClassV1::CleanFinalPublication,
        authorization_digest: digest(11),
        custody_digest: digest(12),
        freeze_digest: digest(13),
        repository: "EffortlessMetrics/cargo-allow".to_string(),
        tag: "v0.2.0".to_string(),
        channel: "stable".to_string(),
        github_prerelease: false,
        expected_assets: vec![expected()],
        created_at_unix_seconds: 100,
        workflow: "release.yml".to_string(),
        run: "42".to_string(),
        attempt: "1".to_string(),
        job: "publish".to_string(),
    }
}

fn event(kind: GitHubReleaseJournalEventV1, at: u64) -> GitHubReleaseJournalAppendV1 {
    GitHubReleaseJournalAppendV1 {
        kind,
        asset_name: None,
        actual_asset: None,
        provider_reachable: true,
        at_unix_seconds: at,
        reason: "step".to_string(),
    }
}

fn asset_event(kind: GitHubReleaseJournalEventV1, at: u64) -> GitHubReleaseJournalAppendV1 {
    let mut e = event(kind, at);
    e.asset_name = Some("cargo-allow.tar.gz".to_string());
    e
}

fn actual() -> GitHubReleaseActualAssetV1 {
    GitHubReleaseActualAssetV1 {
        asset_id: "9001".to_string(),
        asset_name: "cargo-allow.tar.gz".to_string(),
        size_bytes: 200,
        observed_sha256_digest: digest(2),
    }
}

fn completed_journal() -> CargoAllowGitHubReleaseJournalV1 {
    let mut j = begin_github_release_journal_v1(init()).unwrap();
    append_github_release_journal_event_v1(&mut j, event(E::DraftCreateIntentDurable, 101)).unwrap();
    append_github_release_journal_event_v1(&mut j, event(E::DraftCreateStarted, 102)).unwrap();
    observe_github_release_identity_v1(&mut j, "release-77", true).unwrap();
    append_github_release_journal_event_v1(&mut j, event(E::DraftObservedExact, 103)).unwrap();
    append_github_release_journal_event_v1(&mut j, asset_event(E::AssetUploadIntentDurable, 104)).unwrap();
    append_github_release_journal_event_v1(&mut j, asset_event(E::AssetUploadStarted, 105)).unwrap();
    let mut observed = asset_event(E::AssetObservedExact, 106);
    observed.actual_asset = Some(actual());
    append_github_release_journal_event_v1(&mut j, observed).unwrap();
    append_github_release_journal_event_v1(&mut j, event(E::ActualAssetSetReconciled, 107)).unwrap();
    append_github_release_journal_event_v1(&mut j, event(E::CloseoutReceiptComplete, 108)).unwrap();
    append_github_release_journal_event_v1(&mut j, event(E::FinalizeIntentDurable, 109)).unwrap();
    append_github_release_journal_event_v1(&mut j, event(E::FinalizeStarted, 110)).unwrap();
    append_github_release_journal_event_v1(&mut j, event(E::PublicReleaseObservedExact, 111)).unwrap();
    append_github_release_journal_event_v1(&mut j, event(E::OperationComplete, 112)).unwrap();
    j
}

#[test]
fn full_release_history_chains_and_revalidates() {
    let j = completed_journal();
    assert_eq!(j.entries.len(), 12);
    assert!(j.is_public);
    assert_eq!(j.entries[0].previous_digest, GITHUB_RELEASE_JOURNAL_GENESIS_DIGEST);
    for i in 1..j.entries.len() {
        assert_eq!(j.entries[i].previous_digest, j.entries[i - 1].entry_digest);
        assert_eq!(j.entries[i].sequence, i as u64 + 1);
    }
    assert_eq!(verify_github_release_journal_v1(&j), Ok(()));
}

#[test]
fn edited_entry_breaks_revalidation() {
    let mut j = completed_journal();
    j.entries[4].reason = "rewritten".to_string();
    assert_eq!(
        verify_github_release_journal_v1(&j),
        Err("journal entry digest does not match its canonical chain")
    );
}

#[test]
fn completed_journal_accepts_nothing_more() {
    let mut j = completed_journal();
    let before = j.clone();
    let r = append_github_release_journal_event_v1(
        &mut j,
        event(GitHubReleaseJournalEventV1::ReleaseIncident, 113),
    );
    assert_eq!(r, Err("completed journals accept no further events"));
    assert_eq!(j, before);
}

#[test]
fn asset_upload_starts_once() {
    let mut j = begin_github_release_journal_v1(init()).unwrap();
    append_github_release_journal_event_v1(&mut j, event(E::DraftCreateIntentDurable, 101)).unwrap();
    append_github_release_journal_event_v1(&mut j, event(E::DraftCreateStarted, 102)).unwrap();
    observe_github_release_identity_v1(&mut j, "release-77", true).unwrap();
    append_github_release_journal_event_v1(&mut j, event(E::DraftObservedExact, 103)).unwrap();
    append_github_release_journal_event_v1(&mut j, asset_event(E::AssetUploadIntentDurable, 104)).unwrap();
    append_github_release_journal_event_v1(&mut j, asset_event(E::AssetUploadStarted, 105)).unwrap();
    append_github_release_journal_event_v1(&mut j, asset_event(E::AssetUploadResponseUnknown, 106)).unwrap();
    assert_eq!(
        append_github_release_journal_event_v1(&mut j, asset_event(E::AssetUploadStarted, 107)),
        Err("an asset upload starts once; unknown responses reconcile by observation, never by re-upload")
    );
}

#[test]
fn public_release_requires_started_finalization() {
    let mut j = begin_github_release_journal_v1(init()).unwrap();
    assert_eq!(
        append_github_release_journal_event_v1(&mut j, event(E::PublicReleaseObservedExact, 101)),
        Err("public observation requires started finalization")
    );
    assert!(!j.is_public);
    assert!(j.entries.is_empty());
}

#[test]
fn wrong_bytes_are_never_an_exact_observation() {
    let mut j = begin_github_release_journal_v1(init()).unwrap();
    let mut observed = asset_event(E::AssetObservedExact, 106);
    let mut wrong = actual();
    wrong.observed_sha256_digest = digest(3);
    observed.actual_asset = Some(wrong);
    assert_eq!(
        append_github_release_journal_event_v1(&mut j, observed),
        Err("asset observation bytes must equal the expected asset exactly")
    );
}

#[test]
fn begin_refuses_duplicate_asset_names_and_identity_is_observed_once() {
    let mut i = init();
    i.expected_assets.push(expected());
    assert_eq!(begin_github_release_journal_v1(i).unwrap_err(), "expected asset names must be unique");
    let mut j = begin_github_release_journal_v1(init()).unwrap();
    assert_eq!(observe_github_release_identity_v1(&mut j, "  ", true), Err("release identity observation requires the provider ID"));
    observe_github_release_identity_v1(&mut j, "release-1", true).unwrap();
    assert_eq!(
        observe_github_release_identity_v1(&mut j, "release-2", false),
        Err("release identity is observed once per operation")
    );
    assert_eq!(j.github_release_id.as_deref(), Some("release-1"));
}

#[test]
fn entry_digest_depends_on_the_entry_contents() {
    let mut a = begin_github_release_journal_v1(init()).unwrap();
    let mut b = begin_github_release_journal_v1(init()).unwrap();
    append_github_release_journal_event_v1(&mut a, event(E::DraftCreateIntentDurable, 101)).unwrap();
    append_github_release_journal_event_v1(&mut b, event(E::DraftCreateIntentDurable, 102)).unwrap();
    assert_ne!(a.entries[0].entry_digest, b.entries[0].entry_digest);
    assert!(a.entries[0].entry_digest.starts_with("sha256:"));
    assert_eq!(a.entries[0].entry_digest.len(), 71);
}

#[test]
fn identity_observation_verifies_once_its_draft_is_recorded() {
    let mut j = begin_github_release_journal_v1(init()).unwrap();
    append_github_release_journal_event_v1(&mut j, event(E::DraftCreateIntentDurable, 101)).unwrap();
    append_github_release_journal_event_v1(&mut j, event(E::DraftCreateStarted, 102)).unwrap();
    assert_eq!(verify_github_release_journal_v1(&j), Ok(()));
    observe_github_release_identity_v1(&mut j, "release-77", true).unwrap();
    assert_eq!(
        verify_github_release_journal_v1(&j),
        Err("journal identity observations do not match the retained record")
    );
    append_github_release_journal_event_v1(&mut j, event(E::DraftObservedExact, 103)).unwrap();
    assert_eq!(verify_github_release_journal_v1(&j), Ok(()));
}
