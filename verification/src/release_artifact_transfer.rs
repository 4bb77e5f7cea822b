//! Authenticated cross-job release artifact transport envelope.

use vstd::prelude::*;
use crate::text::{has_forbidden, has_forbidden_tokens, str_eq, views};

verus! {

#[derive(Debug, Clone, Copy, PartialEq, Eq, Structural)]
pub enum TrustClassV1 {
    Fork,
    PullRequest,
    ManualDispatch,
    TagWorkflow,
    CleanRelease,
    Recovery,
}

#[derive(Debug, Clone, Copy, PartialEq, Eq, Structural)]
pub enum UntrustedInputPostureV1 {
    SanitizedDataOnly,
    StrictByteMatch,
    Reject,
}

#[derive(Debug, Clone, Copy, PartialEq, Eq, Structural)]
pub enum ArtifactTransferDispositionV1 {
    Complete,
    Missing,
    Stale,
    Mismatch,
    Untrusted,
    ProviderUnavailable,
    InstrumentFailure,
}

#[derive(Debug, Clone, PartialEq, Eq)]
pub struct ArtifactTransferFileV1 {
    pub path: String,
    pub size_bytes: u64,
    pub sha256: String,
}

#[derive(Debug, Clone, PartialEq, Eq)]
pub struct ProducerIdentityV1 {
    pub repository: String,
    pub workflow_path: String,
    pub git_ref: String,
    pub run_id: u64,
    pub run_attempt: u64,
    pub job_id: String,
    pub commit_sha: String,
    pub tree_sha: String,
    pub release_version: String,
    pub tool_name: String,
    pub schema_id: String,
    pub producer_generation: u64,
}

#[derive(Debug, Clone, PartialEq, Eq)]
pub struct ConsumerContextV1 {
    pub workflow_path: String,
    pub run_id: u64,
    pub job_id: String,
    pub requested_role: String,
    pub is_credential_bearing: bool,
}

#[derive(Debug, Clone, PartialEq, Eq)]
pub struct ActualDownloadedFileV1 {
    pub path: String,
    pub size_bytes: u64,
    pub sha256: String,
}

#[derive(Debug, Clone, PartialEq, Eq)]
pub struct CargoAllowReleaseArtifactTransferV1 {
    pub schema_id: String,
    pub schema_version: u32,
    pub transfer_id: String,
    pub role: String,
    pub stable_artifact_id: String,
    pub producer: ProducerIdentityV1,
    pub provider_id: String,
    pub provider_artifact_name: String,
    pub files: Vec<ArtifactTransferFileV1>,
    pub semantic_payload_digest: Option<String>,
    pub trust_class: TrustClassV1,
    pub untrusted_input_posture: UntrustedInputPostureV1,
    pub created_at_utc: String,
    pub claim_boundary: Vec<String>,
    pub limitations: Vec<String>,
}

pub const RELEASE_ARTIFACT_TRANSFER_SCHEMA_ID: &'static str = "cargo-allow.release-artifact-transfer.v1";

pub const RELEASE_ARTIFACT_TRANSFER_SCHEMA_VERSION: u32 = 1;

/// The first downloaded file at `path`, if any.
pub open spec fn download_at(d: Seq<ActualDownloadedFileV1>, path: Seq<char>) -> Option<
    ActualDownloadedFileV1,
>
    decreases d.len(),
{
    if d.len() == 0 {
        None
    } else if d[0].path@ == path {
        Some(d[0])
    } else {
        download_at(d.drop_first(), path)
    }
}

/// The first expected file that is missing or differs, graded in order.
pub open spec fn files_disposition(
    expected: Seq<ArtifactTransferFileV1>,
    downloaded: Seq<ActualDownloadedFileV1>,
) -> ArtifactTransferDispositionV1
    decreases expected.len(),
{
    if expected.len() == 0 {
        ArtifactTransferDispositionV1::Complete
    } else {
        match download_at(downloaded, expected[0].path@) {
            None => ArtifactTransferDispositionV1::Missing,
            Some(a) => if a.size_bytes != expected[0].size_bytes || a.sha256@
                != expected[0].sha256@ {
                ArtifactTransferDispositionV1::Mismatch
            } else {
                files_disposition(expected.drop_first(), downloaded)
            },
        }
    }
}

pub open spec fn transfer_disposition(
    t: CargoAllowReleaseArtifactTransferV1,
    consumer: ConsumerContextV1,
    expected_commit: Seq<char>,
    expected_version: Seq<char>,
    downloaded: Seq<ActualDownloadedFileV1>,
) -> ArtifactTransferDispositionV1 {
    if t.schema_id@ != RELEASE_ARTIFACT_TRANSFER_SCHEMA_ID@ || t.schema_version
        != RELEASE_ARTIFACT_TRANSFER_SCHEMA_VERSION || t.transfer_id@.len() == 0 || t.role@.len()
        == 0 || t.producer.commit_sha@.len() == 0 || t.producer.repository@.len() == 0 {
        ArtifactTransferDispositionV1::InstrumentFailure
    } else if has_forbidden(t.transfer_id@) || has_forbidden(t.role@) || has_forbidden(
        t.stable_artifact_id@,
    ) || has_forbidden(t.provider_id@) || has_forbidden(t.provider_artifact_name@) || exists|k: int|
        0 <= k < t.files@.len() && has_forbidden(#[trigger] t.files@[k].path@) {
        ArtifactTransferDispositionV1::InstrumentFailure
    } else if consumer.is_credential_bearing && (t.trust_class == TrustClassV1::Fork
        || t.trust_class == TrustClassV1::PullRequest) {
        ArtifactTransferDispositionV1::Untrusted
    } else if t.untrusted_input_posture == UntrustedInputPostureV1::Reject {
        ArtifactTransferDispositionV1::Untrusted
    } else if consumer.requested_role@ != t.role@ {
        ArtifactTransferDispositionV1::Mismatch
    } else if t.producer.release_version@ != expected_version {
        ArtifactTransferDispositionV1::Mismatch
    } else if t.producer.commit_sha@ != expected_commit {
        ArtifactTransferDispositionV1::Stale
    } else if downloaded.len() == 0 && t.files@.len() > 0 {
        ArtifactTransferDispositionV1::Missing
    } else if downloaded.len() != t.files@.len() {
        ArtifactTransferDispositionV1::Mismatch
    } else {
        files_disposition(t.files@, downloaded)
    }
}

fn text_is_empty(s: &str) -> (r: bool)
    ensures
        r == (s@.len() == 0),
{
    s.unicode_len() == 0
}

fn any_path_forbidden(files: &Vec<ArtifactTransferFileV1>) -> (r: bool)
    ensures
        r == exists|k: int| 0 <= k < files@.len() && has_forbidden(#[trigger] files@[k].path@),
{
    let mut k: usize = 0;
    while k < files.len()
        invariant
            k <= files.len(),
            forall|j: int| 0 <= j < k ==> !has_forbidden(#[trigger] files@[j].path@),
        decreases files.len() - k,
    {
        if has_forbidden_tokens(files[k].path.as_str()) {
            return true;
        }
        k = k + 1;
    }
    false
}

fn find_download<'a>(d: &'a [ActualDownloadedFileV1], path: &str) -> (r: Option<
    &'a ActualDownloadedFileV1,
>)
    ensures
        match r {
            None => download_at(d@, path@) is None,
            Some(a) => download_at(d@, path@) == Some(*a),
        },
{
    let mut k: usize = 0;
    assert(d@.skip(0) =~= d@);
    while k < d.len()
        invariant
            k <= d.len(),
            download_at(d@, path@) == download_at(d@.skip(k as int), path@),
        decreases d.len() - k,
    {
        assert(d@.skip(k as int)[0] == d@[k as int]);
        assert(d@.skip(k as int).drop_first() =~= d@.skip(k + 1));
        if str_eq(d[k].path.as_str(), path) {
            return Some(&d[k]);
        }
        k = k + 1;
    }
    None
}

impl CargoAllowReleaseArtifactTransferV1 {
    /// A fresh transfer envelope at the current schema, with its fixed claim
    /// boundary and limitations.
    pub fn new(
        transfer_id: String,
        role: String,
        stable_artifact_id: String,
        producer: ProducerIdentityV1,
        provider_id: String,
        provider_artifact_name: String,
        files: Vec<ArtifactTransferFileV1>,
        semantic_payload_digest: Option<String>,
        trust_class: TrustClassV1,
        untrusted_input_posture: UntrustedInputPostureV1,
        created_at_utc: String,
    ) -> (r: Self)
        ensures
            r.schema_id@ == RELEASE_ARTIFACT_TRANSFER_SCHEMA_ID@,
            r.schema_version == RELEASE_ARTIFACT_TRANSFER_SCHEMA_VERSION,
            r.transfer_id == transfer_id,
            r.role == role,
            r.stable_artifact_id == stable_artifact_id,
            r.producer == producer,
            r.provider_id == provider_id,
            r.provider_artifact_name == provider_artifact_name,
            r.files == files,
            r.semantic_payload_digest == semantic_payload_digest,
            r.trust_class == trust_class,
            r.untrusted_input_posture == untrusted_input_posture,
            r.created_at_utc == created_at_utc,
            views(r.claim_boundary@) == seq![
                "exact_producer_identity"@,
                "file_set_sha256_and_size_binding"@,
                "trust_class_enforcement"@,
                "no_shell_or_workflow_interpolation"@,
            ],
            views(r.limitations@) == seq![
                "does_not_prove_provider_availability"@,
                "does_not_mutate_remote_storage"@,
            ],
    {
        let mut claim_boundary: Vec<String> = Vec::new();
        claim_boundary.push("exact_producer_identity".to_string());
        claim_boundary.push("file_set_sha256_and_size_binding".to_string());
        claim_boundary.push("trust_class_enforcement".to_string());
        claim_boundary.push("no_shell_or_workflow_interpolation".to_string());
        let mut limitations: Vec<String> = Vec::new();
        limitations.push("does_not_prove_provider_availability".to_string());
        limitations.push("does_not_mutate_remote_storage".to_string());
        assert(views(claim_boundary@) =~= seq![
            "exact_producer_identity"@,
            "file_set_sha256_and_size_binding"@,
            "trust_class_enforcement"@,
            "no_shell_or_workflow_interpolation"@,
        ]);
        assert(views(limitations@) =~= seq![
            "does_not_prove_provider_availability"@,
            "does_not_mutate_remote_storage"@,
        ]);
        CargoAllowReleaseArtifactTransferV1 {
            schema_id: RELEASE_ARTIFACT_TRANSFER_SCHEMA_ID.to_string(),
            schema_version: RELEASE_ARTIFACT_TRANSFER_SCHEMA_VERSION,
            transfer_id,
            role,
            stable_artifact_id,
            producer,
            provider_id,
            provider_artifact_name,
            files,
            semantic_payload_digest,
            trust_class,
            untrusted_input_posture,
            created_at_utc,
            claim_boundary,
            limitations,
        }
    }

    /// Grades a transfer for one consumer: structure and injection first,
    /// then trust class (untrusted producers never enter credential-bearing
    /// jobs), role and version, commit staleness, and the exact file set by
    /// path, size and digest.
    pub fn evaluate_transfer(
        &self,
        consumer: &ConsumerContextV1,
        expected_commit: &str,
        expected_version: &str,
        downloaded_files: &[ActualDownloadedFileV1],
    ) -> (r: ArtifactTransferDispositionV1)
        ensures
            r == transfer_disposition(
                *self,
                *consumer,
                expected_commit@,
                expected_version@,
                downloaded_files@,
            ),
    {
        if !str_eq(self.schema_id.as_str(), RELEASE_ARTIFACT_TRANSFER_SCHEMA_ID)
            || self.schema_version != RELEASE_ARTIFACT_TRANSFER_SCHEMA_VERSION || text_is_empty(
            self.transfer_id.as_str(),
        ) || text_is_empty(self.role.as_str()) || text_is_empty(self.producer.commit_sha.as_str())
            || text_is_empty(self.producer.repository.as_str()) {
            return ArtifactTransferDispositionV1::InstrumentFailure;
        }
        if has_forbidden_tokens(self.transfer_id.as_str()) || has_forbidden_tokens(
            self.role.as_str(),
        ) || has_forbidden_tokens(self.stable_artifact_id.as_str()) || has_forbidden_tokens(
            self.provider_id.as_str(),
        ) || has_forbidden_tokens(self.provider_artifact_name.as_str()) || any_path_forbidden(
            &self.files,
        ) {
            return ArtifactTransferDispositionV1::InstrumentFailure;
        }
        if consumer.is_credential_bearing && (self.trust_class == TrustClassV1::Fork
            || self.trust_class == TrustClassV1::PullRequest) {
            return ArtifactTransferDispositionV1::Untrusted;
        }
        if self.untrusted_input_posture == UntrustedInputPostureV1::Reject {
            return ArtifactTransferDispositionV1::Untrusted;
        }
        if !str_eq(consumer.requested_role.as_str(), self.role.as_str()) {
            return ArtifactTransferDispositionV1::Mismatch;
        }
        if !str_eq(self.producer.release_version.as_str(), expected_version) {
            return ArtifactTransferDispositionV1::Mismatch;
        }
        if !str_eq(self.producer.commit_sha.as_str(), expected_commit) {
            return ArtifactTransferDispositionV1::Stale;
        }
        if downloaded_files.len() == 0 && self.files.len() > 0 {
            return ArtifactTransferDispositionV1::Missing;
        }
        if downloaded_files.len() != self.files.len() {
            return ArtifactTransferDispositionV1::Mismatch;
        }
        let ghost rest = files_disposition(self.files@, downloaded_files@);
        assert(rest == transfer_disposition(
            *self,
            *consumer,
            expected_commit@,
            expected_version@,
            downloaded_files@,
        ));
        let mut k: usize = 0;
        assert(self.files@.skip(0) =~= self.files@);
        while k < self.files.len()
            invariant
                k <= self.files.len(),
                rest == transfer_disposition(
                    *self,
                    *consumer,
                    expected_commit@,
                    expected_version@,
                    downloaded_files@,
                ),
                rest == files_disposition(self.files@.skip(k as int), downloaded_files@),
            decreases self.files.len() - k,
        {
            let expected = &self.files[k];
            assert(self.files@.skip(k as int)[0] == self.files@[k as int]);
            assert(self.files@.skip(k as int).drop_first() =~= self.files@.skip(k + 1));
            match find_download(downloaded_files, expected.path.as_str()) {
                None => {
                    return ArtifactTransferDispositionV1::Missing;
                },
                Some(actual) => {
                    if actual.size_bytes != expected.size_bytes || !str_eq(
                        actual.sha256.as_str(),
                        expected.sha256.as_str(),
                    ) {
                        return ArtifactTransferDispositionV1::Mismatch;
                    }
                },
            }
            k = k + 1;
        }
        ArtifactTransferDispositionV1::Complete
    }
}

proof fn lemma_files_complete(expected: Seq<ArtifactTransferFileV1>, downloaded: Seq<ActualDownloadedFileV1>)
    requires
        files_disposition(expected, downloaded) == ArtifactTransferDispositionV1::Complete,
    ensures
        forall|j: int|
            0 <= j < expected.len() ==> {
                let e = #[trigger] expected[j];
                &&& download_at(downloaded, e.path@) is Some
                &&& download_at(downloaded, e.path@)->Some_0.size_bytes == e.size_bytes
                &&& download_at(downloaded, e.path@)->Some_0.sha256@ == e.sha256@
            },
    decreases expected.len(),
{
    if expected.len() > 0 {
        lemma_files_complete(expected.drop_first(), downloaded);
        assert forall|j: int| 0 <= j < expected.len() implies {
            let e = #[trigger] expected[j];
            &&& download_at(downloaded, e.path@) is Some
            &&& download_at(downloaded, e.path@)->Some_0.size_bytes == e.size_bytes
            &&& download_at(downloaded, e.path@)->Some_0.sha256@ == e.sha256@
        } by {
            if j > 0 {
                assert(expected.drop_first()[j - 1] == expected[j]);
            }
        }
    }
}

/// An untrusted (fork or pull-request) transfer never enters a
/// credential-bearing job, and a transfer whose posture is `Reject` is
/// never accepted.
pub proof fn lemma_untrusted_never_reaches_credentials(
    t: CargoAllowReleaseArtifactTransferV1,
    consumer: ConsumerContextV1,
    expected_commit: Seq<char>,
    expected_version: Seq<char>,
    downloaded: Seq<ActualDownloadedFileV1>,
)
    requires
        (consumer.is_credential_bearing && (t.trust_class == TrustClassV1::Fork || t.trust_class
            == TrustClassV1::PullRequest)) || t.untrusted_input_posture
            == UntrustedInputPostureV1::Reject,
    ensures
        transfer_disposition(t, consumer, expected_commit, expected_version, downloaded)
            != ArtifactTransferDispositionV1::Complete,
{
}

/// A `Complete` transfer matches the requested role, release version and
/// commit, and every expected file was downloaded, one for one, with its
/// exact size and digest.
pub proof fn lemma_complete_transfer_matches_exactly(
    t: CargoAllowReleaseArtifactTransferV1,
    consumer: ConsumerContextV1,
    expected_commit: Seq<char>,
    expected_version: Seq<char>,
    downloaded: Seq<ActualDownloadedFileV1>,
)
    requires
        transfer_disposition(t, consumer, expected_commit, expected_version, downloaded)
            == ArtifactTransferDispositionV1::Complete,
    ensures
        consumer.requested_role@ == t.role@,
        t.producer.release_version@ == expected_version,
        t.producer.commit_sha@ == expected_commit,
        downloaded.len() == t.files@.len(),
        forall|j: int|
            0 <= j < t.files@.len() ==> {
                let e = #[trigger] t.files@[j];
                &&& download_at(downloaded, e.path@) is Some
                &&& download_at(downloaded, e.path@)->Some_0.size_bytes == e.size_bytes
                &&& download_at(downloaded, e.path@)->Some_0.sha256@ == e.sha256@
            },
{
    lemma_files_complete(t.files@, downloaded);
}

} // verus!
