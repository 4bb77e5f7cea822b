//! Append-only GitHub Release transaction journal for the final release.
//!
//! One journal owns the crash-consistent mutation history of one exact
//! final-release operation and GitHub Release identity: draft creation,
//! exact asset uploads, actual-state reconciliation, and one-way public
//! finalization. A later run must never create a second draft, duplicate or
//! replace an asset, publish an incomplete release, or erase the first
//! uncertain or incident state.
//!
//! Unknown API responses are reconciled by exact observation before any
//! retry or continuation; same-name wrong-byte assets are incidents, never
//! replaced under a clean operation. Everything here is pure: observations
//! are caller-supplied; the journal classifies and chains them but never
//! fetches them.

use vstd::prelude::*;
use crate::digest::{digest_text, text_digest};
use crate::json::{json_arr, json_bool, json_null, json_obj, json_opt_str, json_str, kv, JsonList};
use crate::publication_journal::opt_text;
use crate::text::{blank, decimal, is_blank, is_lower_sha256_digest, is_lower_sha256_digest_str, str_eq};

verus! {

pub const GITHUB_RELEASE_JOURNAL_SCHEMA_ID: &'static str = "cargo-allow.github-release-journal.v1";

pub const GITHUB_RELEASE_JOURNAL_SCHEMA_VERSION: u32 = 1;

/// Digest chaining starts here; the first entry must reference it.
pub const GITHUB_RELEASE_JOURNAL_GENESIS_DIGEST: &'static str = "sha256:0000000000000000000000000000000000000000000000000000000000000000";

pub const GITHUB_RELEASE_JOURNAL_CLAIM_BOUNDARY: &'static str = "This record owns one append-only GitHub Release transaction history for one exact final-release operation: draft creation, exact asset uploads, actual-state reconciliation, and one-way public finalization. It does not create, edit, publish, or delete a real GitHub Release, authorize the operation, or prove asset semantics independently.";

/// Operation classes that may own a GitHub Release journal. Containment
/// never publishes: it has no draft, asset, or finalization path here.
#[derive(Debug, Clone, Copy, PartialEq, Eq, Structural)]
pub enum GitHubReleaseJournalClassV1 {
    CleanFinalPublication,
    IncidentRecovery,
}

impl GitHubReleaseJournalClassV1 {
    pub open spec fn wire(self) -> Seq<char> {
        match self {
            Self::CleanFinalPublication => "clean_final_publication"@,
            Self::IncidentRecovery => "incident_recovery"@,
        }
    }

    pub fn wire_label(self) -> (r: &'static str)
        ensures
            r@ == self.wire(),
    {
        match self {
            Self::CleanFinalPublication => "clean_final_publication",
            Self::IncidentRecovery => "incident_recovery",
        }
    }
}

/// Append-only mutation and observation vocabulary. Correction is another
/// event; a later successful run can never omit an earlier unknown response,
/// conflict, replacement attempt, or premature-public incident.
#[derive(Debug, Clone, Copy, PartialEq, Eq, Structural)]
pub enum GitHubReleaseJournalEventV1 {
    DraftCreateIntentDurable,
    DraftCreateStarted,
    DraftCreateResponseObserved,
    DraftCreateResponseUnknown,
    DraftObservedExact,
    AssetUploadIntentDurable,
    AssetUploadStarted,
    AssetUploadResponseObserved,
    AssetUploadResponseUnknown,
    AssetObservedExact,
    ExtraAssetObserved,
    ActualAssetSetReconciled,
    CloseoutReceiptComplete,
    FinalizeIntentDurable,
    FinalizeStarted,
    FinalizeResponseObserved,
    FinalizeResponseUnknown,
    PublicReleaseObservedExact,
    ReleaseIncident,
    OperationComplete,
}

impl GitHubReleaseJournalEventV1 {
    pub open spec fn wire(self) -> Seq<char> {
        match self {
            Self::DraftCreateIntentDurable => "draft_create_intent_durable"@,
            Self::DraftCreateStarted => "draft_create_started"@,
            Self::DraftCreateResponseObserved => "draft_create_response_observed"@,
            Self::DraftCreateResponseUnknown => "draft_create_response_unknown"@,
            Self::DraftObservedExact => "draft_observed_exact"@,
            Self::AssetUploadIntentDurable => "asset_upload_intent_durable"@,
            Self::AssetUploadStarted => "asset_upload_started"@,
            Self::AssetUploadResponseObserved => "asset_upload_response_observed"@,
            Self::AssetUploadResponseUnknown => "asset_upload_response_unknown"@,
            Self::AssetObservedExact => "asset_observed_exact"@,
            Self::ExtraAssetObserved => "extra_asset_observed"@,
            Self::ActualAssetSetReconciled => "actual_asset_set_reconciled"@,
            Self::CloseoutReceiptComplete => "closeout_receipt_complete"@,
            Self::FinalizeIntentDurable => "finalize_intent_durable"@,
            Self::FinalizeStarted => "finalize_started"@,
            Self::FinalizeResponseObserved => "finalize_response_observed"@,
            Self::FinalizeResponseUnknown => "finalize_response_unknown"@,
            Self::PublicReleaseObservedExact => "public_release_observed_exact"@,
            Self::ReleaseIncident => "release_incident"@,
            Self::OperationComplete => "operation_complete"@,
        }
    }

    pub fn wire_label(self) -> (r: &'static str)
        ensures
            r@ == self.wire(),
    {
        match self {
            Self::DraftCreateIntentDurable => "draft_create_intent_durable",
            Self::DraftCreateStarted => "draft_create_started",
            Self::DraftCreateResponseObserved => "draft_create_response_observed",
            Self::DraftCreateResponseUnknown => "draft_create_response_unknown",
            Self::DraftObservedExact => "draft_observed_exact",
            Self::AssetUploadIntentDurable => "asset_upload_intent_durable",
            Self::AssetUploadStarted => "asset_upload_started",
            Self::AssetUploadResponseObserved => "asset_upload_response_observed",
            Self::AssetUploadResponseUnknown => "asset_upload_response_unknown",
            Self::AssetObservedExact => "asset_observed_exact",
            Self::ExtraAssetObserved => "extra_asset_observed",
            Self::ActualAssetSetReconciled => "actual_asset_set_reconciled",
            Self::CloseoutReceiptComplete => "closeout_receipt_complete",
            Self::FinalizeIntentDurable => "finalize_intent_durable",
            Self::FinalizeStarted => "finalize_started",
            Self::FinalizeResponseObserved => "finalize_response_observed",
            Self::FinalizeResponseUnknown => "finalize_response_unknown",
            Self::PublicReleaseObservedExact => "public_release_observed_exact",
            Self::ReleaseIncident => "release_incident",
            Self::OperationComplete => "operation_complete",
        }
    }

    /// Events that reference one of the expected assets by name.
    pub open spec fn is_asset_transfer(self) -> bool {
        ||| self == Self::AssetUploadIntentDurable
        ||| self == Self::AssetUploadStarted
        ||| self == Self::AssetUploadResponseObserved
        ||| self == Self::AssetUploadResponseUnknown
        ||| self == Self::AssetObservedExact
    }
}

/// One expected asset: role, name, size and SHA-256 plus producer and
/// attestation identity. Same-name wrong-byte actuals are incidents, never
/// replacements.
#[derive(Debug, Clone, PartialEq, Eq)]
pub struct GitHubReleaseExpectedAssetV1 {
    pub asset_role: String,
    pub asset_name: String,
    pub size_bytes: u64,
    pub sha256_digest: String,
    pub producer_identity: String,
    pub attestation_identity: String,
}

/// One actual observed asset as returned by the provider query path.
#[derive(Debug, Clone, PartialEq, Eq)]
pub struct GitHubReleaseActualAssetV1 {
    pub asset_id: String,
    pub asset_name: String,
    pub size_bytes: u64,
    pub observed_sha256_digest: String,
}

/// The GitHub Release journal record: one append-only operation binding the
/// exact repository and tag identity, the GitHub Release ID once observed,
/// draft, public and prerelease state, and the expected asset set.
#[derive(Debug, Clone, PartialEq, Eq)]
pub struct CargoAllowGitHubReleaseJournalV1 {
    pub schema_id: String,
    pub schema_version: u32,
    pub journal_id: String,
    pub operation_id: String,
    /// Canonical operation identity digest the journal is bound to.
    pub operation_identity_digest: String,
    pub operation_class: GitHubReleaseJournalClassV1,
    pub authorization_digest: String,
    pub custody_digest: String,
    pub freeze_digest: String,
    pub repository: String,
    pub tag: String,
    pub channel: String,
    pub github_prerelease: bool,
    /// GitHub Release ID once observed; never inferred from names.
    pub github_release_id: Option<String>,
    pub is_draft: bool,
    pub is_public: bool,
    /// The exact expected asset set. Declared once, never extended.
    pub expected_assets: Vec<GitHubReleaseExpectedAssetV1>,
    pub created_at_unix_seconds: u64,
    pub workflow: String,
    pub run: String,
    pub attempt: String,
    pub job: String,
    pub entries: Vec<CargoAllowGitHubReleaseJournalEntryV1>,
    pub claim_boundary: String,
    pub limitations: Vec<String>,
}

/// One chained journal entry.
#[derive(Debug, Clone, PartialEq, Eq)]
pub struct CargoAllowGitHubReleaseJournalEntryV1 {
    pub sequence: u64,
    pub previous_digest: String,
    pub entry_digest: String,
    pub kind: GitHubReleaseJournalEventV1,
    pub asset_name: Option<String>,
    pub actual_asset: Option<GitHubReleaseActualAssetV1>,
    pub provider_reachable: bool,
    pub at_unix_seconds: u64,
    pub reason: String,
    pub workflow: String,
    pub run: String,
    pub attempt: String,
    pub job: String,
}

/// Caller-supplied construction inputs.
#[derive(Debug, Clone, PartialEq, Eq)]
pub struct GitHubReleaseJournalInitV1 {
    pub journal_id: String,
    pub operation_id: String,
    pub operation_identity_digest: String,
    pub operation_class: GitHubReleaseJournalClassV1,
    pub authorization_digest: String,
    pub custody_digest: String,
    pub freeze_digest: String,
    pub repository: String,
    pub tag: String,
    pub channel: String,
    pub github_prerelease: bool,
    pub expected_assets: Vec<GitHubReleaseExpectedAssetV1>,
    pub created_at_unix_seconds: u64,
    pub workflow: String,
    pub run: String,
    pub attempt: String,
    pub job: String,
}

/// Caller-supplied append request. Sequence and chaining are assigned by the
/// journal, never the caller.
#[derive(Debug, Clone, PartialEq, Eq)]
pub struct GitHubReleaseJournalAppendV1 {
    pub kind: GitHubReleaseJournalEventV1,
    pub asset_name: Option<String>,
    pub actual_asset: Option<GitHubReleaseActualAssetV1>,
    pub provider_reachable: bool,
    pub at_unix_seconds: u64,
    pub reason: String,
}

// ---------------------------------------------------------------------------
// Shapes.
// ---------------------------------------------------------------------------

pub open spec fn expected_asset_error(a: GitHubReleaseExpectedAssetV1) -> Option<Seq<char>> {
    if blank(a.asset_role@) || blank(a.asset_name@) || blank(a.producer_identity@) || blank(
        a.attestation_identity@,
    ) {
        Some("expected assets require role, name, producer, and attestation identity"@)
    } else if a.size_bytes < 1 {
        Some("expected assets require a non-empty size"@)
    } else if !is_lower_sha256_digest(a.sha256_digest@) {
        Some("expected assets require a canonical SHA-256 digest"@)
    } else {
        None
    }
}

pub open spec fn actual_asset_error(a: GitHubReleaseActualAssetV1) -> Option<Seq<char>> {
    if blank(a.asset_id@) || blank(a.asset_name@) {
        Some("actual assets require provider ID and name"@)
    } else if a.size_bytes < 1 {
        Some("actual assets require a non-empty size"@)
    } else if !is_lower_sha256_digest(a.observed_sha256_digest@) {
        Some("actual assets require a canonical observed SHA-256 digest"@)
    } else {
        None
    }
}

fn validate_expected_asset(a: &GitHubReleaseExpectedAssetV1) -> (r: Option<&'static str>)
    ensures
        match expected_asset_error(*a) {
            None => r is None,
            Some(m) => r is Some && r->0@ == m,
        },
{
    if is_blank(a.asset_role.as_str()) || is_blank(a.asset_name.as_str()) || is_blank(
        a.producer_identity.as_str(),
    ) || is_blank(a.attestation_identity.as_str()) {
        return Some("expected assets require role, name, producer, and attestation identity");
    }
    if a.size_bytes < 1 {
        return Some("expected assets require a non-empty size");
    }
    if !is_lower_sha256_digest_str(a.sha256_digest.as_str()) {
        return Some("expected assets require a canonical SHA-256 digest");
    }
    None
}

fn validate_actual_asset(a: &GitHubReleaseActualAssetV1) -> (r: Option<&'static str>)
    ensures
        match actual_asset_error(*a) {
            None => r is None,
            Some(m) => r is Some && r->0@ == m,
        },
{
    if is_blank(a.asset_id.as_str()) || is_blank(a.asset_name.as_str()) {
        return Some("actual assets require provider ID and name");
    }
    if a.size_bytes < 1 {
        return Some("actual assets require a non-empty size");
    }
    if !is_lower_sha256_digest_str(a.observed_sha256_digest.as_str()) {
        return Some("actual assets require a canonical observed SHA-256 digest");
    }
    None
}

/// The first invalid asset among the first `n` expected assets.
pub open spec fn assets_error(s: Seq<GitHubReleaseExpectedAssetV1>, n: nat) -> Option<Seq<char>>
    decreases n,
{
    if n == 0 {
        None
    } else if assets_error(s, (n - 1) as nat) is Some {
        assets_error(s, (n - 1) as nat)
    } else {
        expected_asset_error(s[n - 1])
    }
}

proof fn lemma_assets_error_stable(s: Seq<GitHubReleaseExpectedAssetV1>, m: nat, n: nat)
    requires
        m <= n,
        assets_error(s, m) is Some,
    ensures
        assets_error(s, n) == assets_error(s, m),
    decreases n - m,
{
    if m < n {
        lemma_assets_error_stable(s, m, (n - 1) as nat);
    }
}

/// Two expected assets share a name.
pub open spec fn duplicate_asset_names(s: Seq<GitHubReleaseExpectedAssetV1>) -> bool {
    exists|i: int, k: int|
        0 <= i < k < s.len() && #[trigger] s[i].asset_name@ == #[trigger] s[k].asset_name@
}

fn first_invalid_expected(s: &Vec<GitHubReleaseExpectedAssetV1>) -> (r: Option<&'static str>)
    ensures
        match assets_error(s@, s@.len()) {
            None => r is None,
            Some(m) => r is Some && r->0@ == m,
        },
{
    let mut i: usize = 0;
    while i < s.len()
        invariant
            i <= s.len(),
            assets_error(s@, i as nat) is None,
        decreases s.len() - i,
    {
        match validate_expected_asset(&s[i]) {
            Some(m) => {
                proof {
                    assert(assets_error(s@, (i + 1) as nat) == expected_asset_error(s@[i as int]));
                    lemma_assets_error_stable(s@, (i + 1) as nat, s@.len());
                }
                return Some(m);
            },
            None => {
                assert(assets_error(s@, (i + 1) as nat) == expected_asset_error(s@[i as int]));
            },
        }
        i = i + 1;
    }
    None
}

fn has_duplicate_asset_names(s: &Vec<GitHubReleaseExpectedAssetV1>) -> (r: bool)
    ensures
        r == duplicate_asset_names(s@),
{
    let mut k: usize = 0;
    while k < s.len()
        invariant
            k <= s.len(),
            forall|i: int, j: int|
                0 <= i < j < k ==> #[trigger] s@[i].asset_name@ != #[trigger] s@[j].asset_name@,
        decreases s.len() - k,
    {
        let mut i: usize = 0;
        while i < k
            invariant
                i <= k < s.len(),
                forall|a: int, b: int|
                    0 <= a < b < k ==> #[trigger] s@[a].asset_name@ != #[trigger] s@[b].asset_name@,
                forall|a: int| 0 <= a < i ==> #[trigger] s@[a].asset_name@ != s@[k as int].asset_name@,
            decreases k - i,
        {
            if str_eq(s[i].asset_name.as_str(), s[k].asset_name.as_str()) {
                assert(s@[i as int].asset_name@ == s@[k as int].asset_name@);
                return true;
            }
            i = i + 1;
        }
        k = k + 1;
    }
    false
}

// ---------------------------------------------------------------------------
// Construction.
// ---------------------------------------------------------------------------

pub open spec fn begin_error(init: GitHubReleaseJournalInitV1) -> Option<Seq<char>> {
    if blank(init.journal_id@) {
        Some("journal requires operation and journal identity"@)
    } else if blank(init.operation_id@) {
        Some("journal requires an operation name"@)
    } else if !is_lower_sha256_digest(init.operation_identity_digest@) || !is_lower_sha256_digest(
        init.authorization_digest@,
    ) || !is_lower_sha256_digest(init.custody_digest@) || !is_lower_sha256_digest(
        init.freeze_digest@,
    ) {
        Some("journal requires canonical operation identity digests"@)
    } else if blank(init.repository@) || blank(init.tag@) || blank(init.channel@) {
        Some("journal requires repository, tag, and channel identity"@)
    } else if init.expected_assets@.len() == 0 {
        Some("journal requires a non-empty expected asset set"@)
    } else if assets_error(init.expected_assets@, init.expected_assets@.len()) is Some {
        assets_error(init.expected_assets@, init.expected_assets@.len())
    } else if duplicate_asset_names(init.expected_assets@) {
        Some("expected asset names must be unique"@)
    } else if blank(init.workflow@) || blank(init.run@) || blank(init.attempt@) || blank(init.job@) {
        Some("journal requires workflow/run/attempt/job identity"@)
    } else if init.created_at_unix_seconds < 1 {
        Some("journal requires a positive construction time"@)
    } else {
        None
    }
}

/// Begins a journal bound to one operation. Expected assets are declared
/// once; incident lineage travels in `ReleaseIncident` entries on the same
/// record.
pub fn begin_github_release_journal_v1(init: GitHubReleaseJournalInitV1) -> (r: Result<
    CargoAllowGitHubReleaseJournalV1,
    &'static str,
>)
    ensures
        match begin_error(init) {
            Some(e) => r is Err && r->Err_0@ == e,
            None => r is Ok && {
                let j = r->Ok_0;
                &&& j.schema_id@ == GITHUB_RELEASE_JOURNAL_SCHEMA_ID@
                &&& j.schema_version == GITHUB_RELEASE_JOURNAL_SCHEMA_VERSION
                &&& j.journal_id == init.journal_id
                &&& j.operation_id == init.operation_id
                &&& j.operation_identity_digest == init.operation_identity_digest
                &&& j.operation_class == init.operation_class
                &&& j.authorization_digest == init.authorization_digest
                &&& j.custody_digest == init.custody_digest
                &&& j.freeze_digest == init.freeze_digest
                &&& j.repository == init.repository
                &&& j.tag == init.tag
                &&& j.channel == init.channel
                &&& j.github_prerelease == init.github_prerelease
                &&& j.github_release_id is None
                &&& !j.is_draft
                &&& !j.is_public
                &&& j.expected_assets@ == init.expected_assets@
                &&& j.created_at_unix_seconds == init.created_at_unix_seconds
                &&& j.workflow == init.workflow
                &&& j.run == init.run
                &&& j.attempt == init.attempt
                &&& j.job == init.job
                &&& j.entries@.len() == 0
                &&& j.claim_boundary@ == GITHUB_RELEASE_JOURNAL_CLAIM_BOUNDARY@
                &&& j.limitations@.len() == 3
                &&& j.limitations@[0]@ == "does_not_create_releases"@
                &&& j.limitations@[1]@ == "does_not_upload_assets"@
                &&& j.limitations@[2]@ == "does_not_authorize_operation"@
            },
        },
{
    if is_blank(init.journal_id.as_str()) {
        return Err("journal requires operation and journal identity");
    }
    if is_blank(init.operation_id.as_str()) {
        return Err("journal requires an operation name");
    }
    if !is_lower_sha256_digest_str(init.operation_identity_digest.as_str())
        || !is_lower_sha256_digest_str(init.authorization_digest.as_str())
        || !is_lower_sha256_digest_str(init.custody_digest.as_str())
        || !is_lower_sha256_digest_str(init.freeze_digest.as_str()) {
        return Err("journal requires canonical operation identity digests");
    }
    if is_blank(init.repository.as_str()) || is_blank(init.tag.as_str()) || is_blank(
        init.channel.as_str(),
    ) {
        return Err("journal requires repository, tag, and channel identity");
    }
    if init.expected_assets.len() == 0 {
        return Err("journal requires a non-empty expected asset set");
    }
    match first_invalid_expected(&init.expected_assets) {
        Some(m) => {
            return Err(m);
        },
        None => {},
    }
    if has_duplicate_asset_names(&init.expected_assets) {
        return Err("expected asset names must be unique");
    }
    if is_blank(init.workflow.as_str()) || is_blank(init.run.as_str()) || is_blank(
        init.attempt.as_str(),
    ) || is_blank(init.job.as_str()) {
        return Err("journal requires workflow/run/attempt/job identity");
    }
    if init.created_at_unix_seconds < 1 {
        return Err("journal requires a positive construction time");
    }
    let mut limitations: Vec<String> = Vec::new();
    limitations.push("does_not_create_releases".to_string());
    limitations.push("does_not_upload_assets".to_string());
    limitations.push("does_not_authorize_operation".to_string());
    Ok(CargoAllowGitHubReleaseJournalV1 {
        schema_id: GITHUB_RELEASE_JOURNAL_SCHEMA_ID.to_string(),
        schema_version: GITHUB_RELEASE_JOURNAL_SCHEMA_VERSION,
        journal_id: init.journal_id,
        operation_id: init.operation_id,
        operation_identity_digest: init.operation_identity_digest,
        operation_class: init.operation_class,
        authorization_digest: init.authorization_digest,
        custody_digest: init.custody_digest,
        freeze_digest: init.freeze_digest,
        repository: init.repository,
        tag: init.tag,
        channel: init.channel,
        github_prerelease: init.github_prerelease,
        github_release_id: None,
        is_draft: false,
        is_public: false,
        expected_assets: init.expected_assets,
        created_at_unix_seconds: init.created_at_unix_seconds,
        workflow: init.workflow,
        run: init.run,
        attempt: init.attempt,
        job: init.job,
        entries: Vec::new(),
        claim_boundary: GITHUB_RELEASE_JOURNAL_CLAIM_BOUNDARY.to_string(),
        limitations,
    })
}

/// Records the observed GitHub Release identity (ID and draft state) once an
/// exact observation names it. The ID is never inferred from names.
pub fn observe_github_release_identity_v1(
    journal: &mut CargoAllowGitHubReleaseJournalV1,
    github_release_id: &str,
    is_draft: bool,
) -> (r: Result<(), &'static str>)
    ensures
        if blank(github_release_id@) {
            r is Err && r->Err_0@ == "release identity observation requires the provider ID"@
                && *final(journal) == *old(journal)
        } else if old(journal).github_release_id is Some {
            r is Err && r->Err_0@ == "release identity is observed once per operation"@
                && *final(journal) == *old(journal)
        } else {
            r is Ok && *final(journal) == (CargoAllowGitHubReleaseJournalV1 {
                github_release_id: final(journal).github_release_id,
                is_draft,
                ..*old(journal)
            }) && final(journal).github_release_id is Some
                && final(journal).github_release_id->0@ == github_release_id@
        },
{
    if is_blank(github_release_id) {
        return Err("release identity observation requires the provider ID");
    }
    if journal.github_release_id.is_some() {
        return Err("release identity is observed once per operation");
    }
    journal.github_release_id = Some(github_release_id.to_string());
    journal.is_draft = is_draft;
    Ok(())
}

// ---------------------------------------------------------------------------
// History queries.
// ---------------------------------------------------------------------------

/// Some entry among the first `n` has kind `k`.
pub open spec fn has_upto(
    es: Seq<CargoAllowGitHubReleaseJournalEntryV1>,
    n: int,
    k: GitHubReleaseJournalEventV1,
) -> bool {
    exists|i: int| 0 <= i < n && (#[trigger] es[i]).kind == k
}

/// Some entry among the first `n` has kind `k` and names asset `name`.
pub open spec fn has_named_upto(
    es: Seq<CargoAllowGitHubReleaseJournalEntryV1>,
    n: int,
    k: GitHubReleaseJournalEventV1,
    name: Seq<char>,
) -> bool {
    exists|i: int| 0 <= i < n && (#[trigger] es[i]).kind == k && opt_text(es[i].asset_name) == Some(name)
}

/// Position of the first expected asset named `name` among the first `n`.
pub open spec fn find_expected(s: Seq<GitHubReleaseExpectedAssetV1>, name: Seq<char>, n: nat) -> Option<int>
    decreases n,
{
    if n == 0 {
        None
    } else {
        match find_expected(s, name, (n - 1) as nat) {
            Some(i) => Some(i),
            None => if s[n - 1].asset_name@ == name {
                Some(n - 1)
            } else {
                None
            },
        }
    }
}

pub open spec fn expected_named(s: Seq<GitHubReleaseExpectedAssetV1>, name: Seq<char>) -> Option<int> {
    find_expected(s, name, s.len())
}

proof fn lemma_find_expected_bounds(s: Seq<GitHubReleaseExpectedAssetV1>, name: Seq<char>, n: nat)
    requires
        n <= s.len(),
    ensures
        match find_expected(s, name, n) {
            Some(i) => 0 <= i < n && s[i].asset_name@ == name,
            None => forall|i: int| 0 <= i < n ==> (#[trigger] s[i]).asset_name@ != name,
        },
    decreases n,
{
    if n > 0 {
        lemma_find_expected_bounds(s, name, (n - 1) as nat);
    }
}

/// Every expected asset has an exact observation among the first `n` entries.
pub open spec fn all_expected_observed(
    s: Seq<GitHubReleaseExpectedAssetV1>,
    es: Seq<CargoAllowGitHubReleaseJournalEntryV1>,
    n: int,
) -> bool {
    forall|i: int|
        0 <= i < s.len() ==> has_named_upto(
            es,
            n,
            GitHubReleaseJournalEventV1::AssetObservedExact,
            (#[trigger] s[i]).asset_name@,
        )
}

fn has_upto_exec(
    es: &Vec<CargoAllowGitHubReleaseJournalEntryV1>,
    n: usize,
    k: GitHubReleaseJournalEventV1,
) -> (r: bool)
    requires
        n <= es@.len(),
    ensures
        r == has_upto(es@, n as int, k),
{
    let mut i: usize = 0;
    while i < n
        invariant
            i <= n <= es@.len(),
            forall|m: int| 0 <= m < i ==> (#[trigger] es@[m]).kind != k,
        decreases n - i,
    {
        if es[i].kind == k {
            assert(es@[i as int].kind == k);
            return true;
        }
        i = i + 1;
    }
    false
}

fn names(o: &Option<String>, name: &str) -> (r: bool)
    ensures
        r == (opt_text(*o) == Some(name@)),
{
    match o {
        Some(s) => str_eq(s.as_str(), name),
        None => false,
    }
}

fn has_named_upto_exec(
    es: &Vec<CargoAllowGitHubReleaseJournalEntryV1>,
    n: usize,
    k: GitHubReleaseJournalEventV1,
    name: &str,
) -> (r: bool)
    requires
        n <= es@.len(),
    ensures
        r == has_named_upto(es@, n as int, k, name@),
{
    let mut i: usize = 0;
    while i < n
        invariant
            i <= n <= es@.len(),
            forall|m: int|
                0 <= m < i ==> !((#[trigger] es@[m]).kind == k && opt_text(es@[m].asset_name) == Some(
                    name@,
                )),
        decreases n - i,
    {
        if es[i].kind == k && names(&es[i].asset_name, name) {
            assert(es@[i as int].kind == k);
            return true;
        }
        i = i + 1;
    }
    false
}

fn find_expected_exec(s: &Vec<GitHubReleaseExpectedAssetV1>, name: &str) -> (r: Option<usize>)
    ensures
        match expected_named(s@, name@) {
            Some(i) => r is Some && r->0 == i,
            None => r is None,
        },
{
    let mut i: usize = 0;
    while i < s.len()
        invariant
            i <= s.len(),
            find_expected(s@, name@, i as nat) is None,
        decreases s.len() - i,
    {
        if str_eq(s[i].asset_name.as_str(), name) {
            proof {
                lemma_find_expected_stable(s@, name@, (i + 1) as nat, s@.len());
            }
            return Some(i);
        }
        i = i + 1;
    }
    None
}

proof fn lemma_find_expected_stable(s: Seq<GitHubReleaseExpectedAssetV1>, name: Seq<char>, m: nat, n: nat)
    requires
        m <= n,
        find_expected(s, name, m) is Some,
    ensures
        find_expected(s, name, n) == find_expected(s, name, m),
    decreases n - m,
{
    if m < n {
        lemma_find_expected_stable(s, name, m, (n - 1) as nat);
    }
}

fn all_expected_observed_exec(
    s: &Vec<GitHubReleaseExpectedAssetV1>,
    es: &Vec<CargoAllowGitHubReleaseJournalEntryV1>,
    n: usize,
) -> (r: bool)
    requires
        n <= es@.len(),
    ensures
        r == all_expected_observed(s@, es@, n as int),
{
    let mut i: usize = 0;
    while i < s.len()
        invariant
            i <= s.len(),
            n <= es@.len(),
            forall|m: int|
                0 <= m < i ==> has_named_upto(
                    es@,
                    n as int,
                    GitHubReleaseJournalEventV1::AssetObservedExact,
                    (#[trigger] s@[m]).asset_name@,
                ),
        decreases s.len() - i,
    {
        if !has_named_upto_exec(es, n, GitHubReleaseJournalEventV1::AssetObservedExact, s[i].asset_name.as_str()) {
            return false;
        }
        i = i + 1;
    }
    true
}

// ---------------------------------------------------------------------------
// The transition law.
// ---------------------------------------------------------------------------

/// Why event `a` may not follow the first `n` entries `es` of journal `j`,
/// given whether the release identity is observed and the release is public.
pub open spec fn kind_error(
    j: CargoAllowGitHubReleaseJournalV1,
    rid_observed: bool,
    public: bool,
    es: Seq<CargoAllowGitHubReleaseJournalEntryV1>,
    n: int,
    a: GitHubReleaseJournalAppendV1,
) -> Option<Seq<char>> {
    match a.kind {
        GitHubReleaseJournalEventV1::DraftCreateIntentDurable => if has_upto(
            es,
            n,
            GitHubReleaseJournalEventV1::DraftCreateIntentDurable,
        ) {
            Some("draft intent is append-once for one operation"@)
        } else {
            None
        },
        GitHubReleaseJournalEventV1::DraftCreateStarted => if !has_upto(
            es,
            n,
            GitHubReleaseJournalEventV1::DraftCreateIntentDurable,
        ) || has_upto(es, n, GitHubReleaseJournalEventV1::DraftCreateStarted) {
            Some("draft start requires one durable intent"@)
        } else {
            None
        },
        GitHubReleaseJournalEventV1::DraftCreateResponseObserved
        | GitHubReleaseJournalEventV1::DraftCreateResponseUnknown => if !has_upto(
            es,
            n,
            GitHubReleaseJournalEventV1::DraftCreateStarted,
        ) {
            Some("draft responses belong to a started draft creation only"@)
        } else {
            None
        },
        GitHubReleaseJournalEventV1::DraftObservedExact => if !has_upto(
            es,
            n,
            GitHubReleaseJournalEventV1::DraftCreateStarted,
        ) {
            Some("draft observation requires a started draft creation"@)
        } else if !rid_observed {
            Some("draft observation requires the observed release identity"@)
        } else {
            None
        },
        GitHubReleaseJournalEventV1::AssetUploadIntentDurable => if !has_upto(
            es,
            n,
            GitHubReleaseJournalEventV1::DraftObservedExact,
        ) {
            Some("asset intent requires an observed exact draft"@)
        } else {
            None
        },
        GitHubReleaseJournalEventV1::AssetUploadStarted => match a.asset_name {
            None => Some("asset start requires an asset"@),
            Some(name) => if !has_named_upto(
                es,
                n,
                GitHubReleaseJournalEventV1::AssetUploadIntentDurable,
                name@,
            ) {
                Some("asset start requires its durable intent"@)
            } else if has_named_upto(es, n, GitHubReleaseJournalEventV1::AssetUploadStarted, name@) {
                Some(
                    "an asset upload starts once; unknown responses reconcile by observation, never by re-upload"@,
                )
            } else {
                None
            },
        },
        GitHubReleaseJournalEventV1::AssetUploadResponseObserved
        | GitHubReleaseJournalEventV1::AssetUploadResponseUnknown => match a.asset_name {
            None => Some("asset responses belong to a started upload only"@),
            Some(name) => if !has_named_upto(
                es,
                n,
                GitHubReleaseJournalEventV1::AssetUploadStarted,
                name@,
            ) {
                Some("asset responses belong to a started upload only"@)
            } else {
                None
            },
        },
        GitHubReleaseJournalEventV1::AssetObservedExact => match a.asset_name {
            None => Some("asset observation requires an asset"@),
            Some(name) => match expected_named(j.expected_assets@, name@) {
                None => Some("asset observation requires an expected asset"@),
                Some(i) => match a.actual_asset {
                    None => Some("asset observation requires the actual observed asset"@),
                    Some(act) => if act.asset_name@ != j.expected_assets@[i].asset_name@
                        || act.size_bytes != j.expected_assets@[i].size_bytes
                        || act.observed_sha256_digest@ != j.expected_assets@[i].sha256_digest@ {
                        Some("asset observation bytes must equal the expected asset exactly"@)
                    } else if !has_named_upto(
                        es,
                        n,
                        GitHubReleaseJournalEventV1::AssetUploadStarted,
                        name@,
                    ) {
                        Some("asset observation requires a started upload"@)
                    } else {
                        None
                    },
                },
            },
        },
        GitHubReleaseJournalEventV1::ExtraAssetObserved => match a.actual_asset {
            None => Some("extra asset observation requires the actual observed asset"@),
            Some(act) => if actual_asset_error(act) is Some {
                actual_asset_error(act)
            } else if opt_text(a.asset_name) != Some(act.asset_name@) {
                Some("extra asset observation must name its actual asset"@)
            } else if expected_named(j.expected_assets@, act.asset_name@) is Some {
                Some("expected assets are observed exactly, never noted as extras"@)
            } else if has_named_upto(
                es,
                n,
                GitHubReleaseJournalEventV1::ExtraAssetObserved,
                act.asset_name@,
            ) {
                Some("extra assets are observed once per operation"@)
            } else {
                None
            },
        },
        GitHubReleaseJournalEventV1::ActualAssetSetReconciled => if !all_expected_observed(
            j.expected_assets@,
            es,
            n,
        ) {
            Some("reconciliation requires every expected asset observed exact"@)
        } else if has_upto(es, n, GitHubReleaseJournalEventV1::ExtraAssetObserved) {
            Some("unmanifested observed assets block clean reconciliation"@)
        } else {
            None
        },
        GitHubReleaseJournalEventV1::CloseoutReceiptComplete => if !has_upto(
            es,
            n,
            GitHubReleaseJournalEventV1::ActualAssetSetReconciled,
        ) {
            Some("closeout requires a reconciled actual asset set"@)
        } else {
            None
        },
        GitHubReleaseJournalEventV1::FinalizeIntentDurable => if !has_upto(
            es,
            n,
            GitHubReleaseJournalEventV1::CloseoutReceiptComplete,
        ) {
            Some("finalization intent requires a complete closeout receipt"@)
        } else {
            None
        },
        GitHubReleaseJournalEventV1::FinalizeStarted => if !has_upto(
            es,
            n,
            GitHubReleaseJournalEventV1::FinalizeIntentDurable,
        ) || has_upto(es, n, GitHubReleaseJournalEventV1::FinalizeStarted) {
            Some("finalization start requires one durable intent"@)
        } else {
            None
        },
        GitHubReleaseJournalEventV1::FinalizeResponseObserved
        | GitHubReleaseJournalEventV1::FinalizeResponseUnknown => if !has_upto(
            es,
            n,
            GitHubReleaseJournalEventV1::FinalizeStarted,
        ) {
            Some("finalization responses belong to a started finalization only"@)
        } else {
            None
        },
        GitHubReleaseJournalEventV1::PublicReleaseObservedExact => if j.github_prerelease {
            Some("a prerelease channel never observes a stable public release"@)
        } else if !has_upto(es, n, GitHubReleaseJournalEventV1::FinalizeStarted) {
            Some("public observation requires started finalization"@)
        } else if public {
            Some("public observation is append-once for one operation"@)
        } else {
            None
        },
        GitHubReleaseJournalEventV1::ReleaseIncident => None,
        GitHubReleaseJournalEventV1::OperationComplete => if !has_upto(
            es,
            n,
            GitHubReleaseJournalEventV1::PublicReleaseObservedExact,
        ) && !has_upto(es, n, GitHubReleaseJournalEventV1::ReleaseIncident) {
            Some("completion requires public observation or recorded incident lineage"@)
        } else {
            None
        },
    }
}

/// Why event `a` may not be appended after the first `n` entries: the
/// general checks first, then the ordering law of its kind.
#[verifier::opaque]
pub open spec fn append_error(
    j: CargoAllowGitHubReleaseJournalV1,
    rid_observed: bool,
    public: bool,
    es: Seq<CargoAllowGitHubReleaseJournalEntryV1>,
    n: int,
    a: GitHubReleaseJournalAppendV1,
) -> Option<Seq<char>> {
    if has_upto(es, n, GitHubReleaseJournalEventV1::OperationComplete) {
        Some("completed journals accept no further events"@)
    } else if a.at_unix_seconds < 1 {
        Some("journal events require a positive observation time"@)
    } else if blank(a.reason@) {
        Some("journal events require a reason"@)
    } else if a.asset_name is Some && blank(a.asset_name->0@) {
        Some("journal asset references must name an asset"@)
    } else if a.asset_name is Some && a.kind.is_asset_transfer() && expected_named(
        j.expected_assets@,
        a.asset_name->0@,
    ) is None {
        Some("asset events must name an expected asset"@)
    } else if a.actual_asset is Some && actual_asset_error(a.actual_asset->0) is Some {
        actual_asset_error(a.actual_asset->0)
    } else {
        kind_error(j, rid_observed, public, es, n, a)
    }
}

fn kind_check(
    j: &CargoAllowGitHubReleaseJournalV1,
    rid_observed: bool,
    public: bool,
    es: &Vec<CargoAllowGitHubReleaseJournalEntryV1>,
    n: usize,
    a: &GitHubReleaseJournalAppendV1,
) -> (r: Option<&'static str>)
    requires
        n <= es@.len(),
    ensures
        match kind_error(*j, rid_observed, public, es@, n as int, *a) {
            None => r is None,
            Some(m) => r is Some && r->0@ == m,
        },
{
    match a.kind {
        GitHubReleaseJournalEventV1::DraftCreateIntentDurable => {
            if has_upto_exec(es, n, GitHubReleaseJournalEventV1::DraftCreateIntentDurable) {
                return Some("draft intent is append-once for one operation");
            }
        },
        GitHubReleaseJournalEventV1::DraftCreateStarted => {
            if !has_upto_exec(es, n, GitHubReleaseJournalEventV1::DraftCreateIntentDurable)
                || has_upto_exec(es, n, GitHubReleaseJournalEventV1::DraftCreateStarted) {
                return Some("draft start requires one durable intent");
            }
        },
        GitHubReleaseJournalEventV1::DraftCreateResponseObserved
        | GitHubReleaseJournalEventV1::DraftCreateResponseUnknown => {
            if !has_upto_exec(es, n, GitHubReleaseJournalEventV1::DraftCreateStarted) {
                return Some("draft responses belong to a started draft creation only");
            }
        },
        GitHubReleaseJournalEventV1::DraftObservedExact => {
            if !has_upto_exec(es, n, GitHubReleaseJournalEventV1::DraftCreateStarted) {
                return Some("draft observation requires a started draft creation");
            }
            if !rid_observed {
                return Some("draft observation requires the observed release identity");
            }
        },
        GitHubReleaseJournalEventV1::AssetUploadIntentDurable => {
            if !has_upto_exec(es, n, GitHubReleaseJournalEventV1::DraftObservedExact) {
                return Some("asset intent requires an observed exact draft");
            }
        },
        GitHubReleaseJournalEventV1::AssetUploadStarted => {
            match &a.asset_name {
                None => {
                    return Some("asset start requires an asset");
                },
                Some(name) => {
                    if !has_named_upto_exec(
                        es,
                        n,
                        GitHubReleaseJournalEventV1::AssetUploadIntentDurable,
                        name.as_str(),
                    ) {
                        return Some("asset start requires its durable intent");
                    }
                    if has_named_upto_exec(es, n, GitHubReleaseJournalEventV1::AssetUploadStarted, name.as_str()) {
                        return Some(
                            "an asset upload starts once; unknown responses reconcile by observation, never by re-upload",
                        );
                    }
                },
            }
        },
        GitHubReleaseJournalEventV1::AssetUploadResponseObserved
        | GitHubReleaseJournalEventV1::AssetUploadResponseUnknown => {
            match &a.asset_name {
                None => {
                    return Some("asset responses belong to a started upload only");
                },
                Some(name) => {
                    if !has_named_upto_exec(es, n, GitHubReleaseJournalEventV1::AssetUploadStarted, name.as_str()) {
                        return Some("asset responses belong to a started upload only");
                    }
                },
            }
        },
        GitHubReleaseJournalEventV1::AssetObservedExact => {
            match &a.asset_name {
                None => {
                    return Some("asset observation requires an asset");
                },
                Some(name) => {
                    match find_expected_exec(&j.expected_assets, name.as_str()) {
                        None => {
                            return Some("asset observation requires an expected asset");
                        },
                        Some(i) => {
                            proof {
                                lemma_find_expected_bounds(j.expected_assets@, name@, j.expected_assets@.len());
                            }
                            match &a.actual_asset {
                                None => {
                                    return Some("asset observation requires the actual observed asset");
                                },
                                Some(act) => {
                                    let expected = &j.expected_assets[i];
                                    if !str_eq(act.asset_name.as_str(), expected.asset_name.as_str())
                                        || act.size_bytes != expected.size_bytes || !str_eq(
                                        act.observed_sha256_digest.as_str(),
                                        expected.sha256_digest.as_str(),
                                    ) {
                                        return Some("asset observation bytes must equal the expected asset exactly");
                                    }
                                    if !has_named_upto_exec(
                                        es,
                                        n,
                                        GitHubReleaseJournalEventV1::AssetUploadStarted,
                                        name.as_str(),
                                    ) {
                                        return Some("asset observation requires a started upload");
                                    }
                                },
                            }
                        },
                    }
                },
            }
        },
        GitHubReleaseJournalEventV1::ExtraAssetObserved => {
            match &a.actual_asset {
                None => {
                    return Some("extra asset observation requires the actual observed asset");
                },
                Some(act) => {
                    match validate_actual_asset(act) {
                        Some(m) => {
                            return Some(m);
                        },
                        None => {},
                    }
                    if !names(&a.asset_name, act.asset_name.as_str()) {
                        return Some("extra asset observation must name its actual asset");
                    }
                    if find_expected_exec(&j.expected_assets, act.asset_name.as_str()).is_some() {
                        return Some("expected assets are observed exactly, never noted as extras");
                    }
                    if has_named_upto_exec(es, n, GitHubReleaseJournalEventV1::ExtraAssetObserved, act.asset_name.as_str()) {
                        return Some("extra assets are observed once per operation");
                    }
                },
            }
        },
        GitHubReleaseJournalEventV1::ActualAssetSetReconciled => {
            if !all_expected_observed_exec(&j.expected_assets, es, n) {
                return Some("reconciliation requires every expected asset observed exact");
            }
            if has_upto_exec(es, n, GitHubReleaseJournalEventV1::ExtraAssetObserved) {
                return Some("unmanifested observed assets block clean reconciliation");
            }
        },
        GitHubReleaseJournalEventV1::CloseoutReceiptComplete => {
            if !has_upto_exec(es, n, GitHubReleaseJournalEventV1::ActualAssetSetReconciled) {
                return Some("closeout requires a reconciled actual asset set");
            }
        },
        GitHubReleaseJournalEventV1::FinalizeIntentDurable => {
            if !has_upto_exec(es, n, GitHubReleaseJournalEventV1::CloseoutReceiptComplete) {
                return Some("finalization intent requires a complete closeout receipt");
            }
        },
        GitHubReleaseJournalEventV1::FinalizeStarted => {
            if !has_upto_exec(es, n, GitHubReleaseJournalEventV1::FinalizeIntentDurable)
                || has_upto_exec(es, n, GitHubReleaseJournalEventV1::FinalizeStarted) {
                return Some("finalization start requires one durable intent");
            }
        },
        GitHubReleaseJournalEventV1::FinalizeResponseObserved
        | GitHubReleaseJournalEventV1::FinalizeResponseUnknown => {
            if !has_upto_exec(es, n, GitHubReleaseJournalEventV1::FinalizeStarted) {
                return Some("finalization responses belong to a started finalization only");
            }
        },
        GitHubReleaseJournalEventV1::PublicReleaseObservedExact => {
            if j.github_prerelease {
                return Some("a prerelease channel never observes a stable public release");
            }
            if !has_upto_exec(es, n, GitHubReleaseJournalEventV1::FinalizeStarted) {
                return Some("public observation requires started finalization");
            }
            if public {
                return Some("public observation is append-once for one operation");
            }
        },
        GitHubReleaseJournalEventV1::ReleaseIncident => {},
        GitHubReleaseJournalEventV1::OperationComplete => {
            if !has_upto_exec(es, n, GitHubReleaseJournalEventV1::PublicReleaseObservedExact)
                && !has_upto_exec(es, n, GitHubReleaseJournalEventV1::ReleaseIncident) {
                return Some("completion requires public observation or recorded incident lineage");
            }
        },
    }
    None
}

fn is_asset_transfer_exec(k: GitHubReleaseJournalEventV1) -> (r: bool)
    ensures
        r == k.is_asset_transfer(),
{
    match k {
        GitHubReleaseJournalEventV1::AssetUploadIntentDurable
        | GitHubReleaseJournalEventV1::AssetUploadStarted
        | GitHubReleaseJournalEventV1::AssetUploadResponseObserved
        | GitHubReleaseJournalEventV1::AssetUploadResponseUnknown
        | GitHubReleaseJournalEventV1::AssetObservedExact => true,
        _ => false,
    }
}

fn append_check(
    j: &CargoAllowGitHubReleaseJournalV1,
    rid_observed: bool,
    public: bool,
    es: &Vec<CargoAllowGitHubReleaseJournalEntryV1>,
    n: usize,
    a: &GitHubReleaseJournalAppendV1,
) -> (r: Option<&'static str>)
    requires
        n <= es@.len(),
    ensures
        match append_error(*j, rid_observed, public, es@, n as int, *a) {
            None => r is None,
            Some(m) => r is Some && r->0@ == m,
        },
{
    proof {
        reveal(append_error);
    }
    if has_upto_exec(es, n, GitHubReleaseJournalEventV1::OperationComplete) {
        return Some("completed journals accept no further events");
    }
    if a.at_unix_seconds < 1 {
        return Some("journal events require a positive observation time");
    }
    if is_blank(a.reason.as_str()) {
        return Some("journal events require a reason");
    }
    match &a.asset_name {
        Some(name) => {
            if is_blank(name.as_str()) {
                return Some("journal asset references must name an asset");
            }
            if is_asset_transfer_exec(a.kind) && find_expected_exec(&j.expected_assets, name.as_str()).is_none() {
                return Some("asset events must name an expected asset");
            }
        },
        None => {},
    }
    match &a.actual_asset {
        Some(act) => match validate_actual_asset(act) {
            Some(m) => {
                return Some(m);
            },
            None => {},
        },
        None => {},
    }
    kind_check(j, rid_observed, public, es, n, a)
}

// ---------------------------------------------------------------------------
// Chaining.
// ---------------------------------------------------------------------------

pub open spec fn expected_asset_json(a: GitHubReleaseExpectedAssetV1) -> Seq<char> {
    json_obj(
        Seq::empty().push(kv("asset_role"@, json_str(a.asset_role@))).push(
            kv("asset_name"@, json_str(a.asset_name@)),
        ).push(kv("size_bytes"@, decimal(a.size_bytes as nat))).push(
            kv("sha256_digest"@, json_str(a.sha256_digest@)),
        ).push(kv("producer_identity"@, json_str(a.producer_identity@))).push(
            kv("attestation_identity"@, json_str(a.attestation_identity@)),
        ),
    )
}

pub open spec fn expected_assets_json(s: Seq<GitHubReleaseExpectedAssetV1>) -> Seq<Seq<char>> {
    s.map_values(|a: GitHubReleaseExpectedAssetV1| expected_asset_json(a))
}

pub open spec fn actual_asset_json(o: Option<GitHubReleaseActualAssetV1>) -> Seq<char> {
    match o {
        None => json_null(),
        Some(a) => json_obj(
            Seq::empty().push(kv("asset_id"@, json_str(a.asset_id@))).push(
                kv("asset_name"@, json_str(a.asset_name@)),
            ).push(kv("size_bytes"@, decimal(a.size_bytes as nat))).push(
                kv("observed_sha256_digest"@, json_str(a.observed_sha256_digest@)),
            ),
        ),
    }
}

/// The canonical digest input of an entry: every chained field, in order,
/// as compact JSON. The journal header comes from `j`; the release identity,
/// draft and public state are those in force when the entry is written.
#[verifier::opaque]
pub open spec fn digest_input(
    j: CargoAllowGitHubReleaseJournalV1,
    rid: Option<Seq<char>>,
    draft: bool,
    public: bool,
    sequence: u64,
    previous: Seq<char>,
    a: GitHubReleaseJournalAppendV1,
) -> Seq<char> {
    json_obj(
        Seq::empty().push(kv("sequence"@, decimal(sequence as nat))).push(
            kv("previous_digest"@, json_str(previous)),
        ).push(kv("journal_id"@, json_str(j.journal_id@))).push(
            kv("operation_id"@, json_str(j.operation_id@)),
        ).push(kv("operation_identity_digest"@, json_str(j.operation_identity_digest@))).push(
            kv("operation_class"@, json_str(j.operation_class.wire())),
        ).push(kv("authorization_digest"@, json_str(j.authorization_digest@))).push(
            kv("custody_digest"@, json_str(j.custody_digest@)),
        ).push(kv("freeze_digest"@, json_str(j.freeze_digest@))).push(
            kv("repository"@, json_str(j.repository@)),
        ).push(kv("tag"@, json_str(j.tag@))).push(kv("channel"@, json_str(j.channel@))).push(
            kv("github_prerelease"@, json_bool(j.github_prerelease)),
        ).push(kv("github_release_id"@, json_opt_str(rid))).push(
            kv("is_draft"@, json_bool(draft)),
        ).push(kv("is_public"@, json_bool(public))).push(
            kv("expected_assets"@, json_arr(expected_assets_json(j.expected_assets@))),
        ).push(kv("created_at_unix_seconds"@, decimal(j.created_at_unix_seconds as nat))).push(
            kv("kind"@, json_str(a.kind.wire())),
        ).push(kv("asset_name"@, json_opt_str(opt_text(a.asset_name)))).push(
            kv("actual_asset"@, actual_asset_json(a.actual_asset)),
        ).push(kv("provider_reachable"@, json_bool(a.provider_reachable))).push(
            kv("at_unix_seconds"@, decimal(a.at_unix_seconds as nat)),
        ).push(kv("reason"@, json_str(a.reason@))).push(kv("workflow"@, json_str(j.workflow@))).push(
            kv("run"@, json_str(j.run@)),
        ).push(kv("attempt"@, json_str(j.attempt@))).push(kv("job"@, json_str(j.job@))),
    )
}

fn render_expected_asset(a: &GitHubReleaseExpectedAssetV1) -> (r: String)
    ensures
        r@ == expected_asset_json(*a),
{
    let mut l = JsonList::new();
    l.push_str_member("asset_role", a.asset_role.as_str());
    l.push_str_member("asset_name", a.asset_name.as_str());
    l.push_u64_member("size_bytes", a.size_bytes);
    l.push_str_member("sha256_digest", a.sha256_digest.as_str());
    l.push_str_member("producer_identity", a.producer_identity.as_str());
    l.push_str_member("attestation_identity", a.attestation_identity.as_str());
    l.finish_object()
}

fn render_expected_assets(s: &Vec<GitHubReleaseExpectedAssetV1>) -> (r: String)
    ensures
        r@ == json_arr(expected_assets_json(s@)),
{
    let mut l = JsonList::new();
    let mut i: usize = 0;
    assert(expected_assets_json(s@.take(0)) =~= Seq::<Seq<char>>::empty());
    while i < s.len()
        invariant
            i <= s.len(),
            l.wf(),
            l.count == i,
            l.items@ == expected_assets_json(s@.take(i as int)),
        decreases s.len() - i,
    {
        let piece = render_expected_asset(&s[i]);
        l.push_raw(piece.as_str());
        assert(expected_assets_json(s@.take(i + 1)) =~= expected_assets_json(s@.take(i as int)).push(
            expected_asset_json(s@[i as int]),
        ));
        i = i + 1;
    }
    assert(s@.take(s@.len() as int) =~= s@);
    l.finish_array()
}

fn render_actual_asset(o: &Option<GitHubReleaseActualAssetV1>) -> (r: String)
    ensures
        r@ == actual_asset_json(*o),
{
    match o {
        None => {
            let mut t = String::new();
            crate::json::push_json_null(&mut t);
            t
        },
        Some(a) => {
            let mut l = JsonList::new();
            l.push_str_member("asset_id", a.asset_id.as_str());
            l.push_str_member("asset_name", a.asset_name.as_str());
            l.push_u64_member("size_bytes", a.size_bytes);
            l.push_str_member("observed_sha256_digest", a.observed_sha256_digest.as_str());
            l.finish_object()
        },
    }
}

fn render_digest_input(
    j: &CargoAllowGitHubReleaseJournalV1,
    rid: &Option<String>,
    draft: bool,
    public: bool,
    sequence: u64,
    previous: &str,
    a: &GitHubReleaseJournalAppendV1,
) -> (r: String)
    ensures
        r@ == digest_input(*j, opt_text(*rid), draft, public, sequence, previous@, *a),
{
    proof {
        reveal(digest_input);
    }
    let mut l = JsonList::new();
    l.push_u64_member("sequence", sequence);
    l.push_str_member("previous_digest", previous);
    l.push_str_member("journal_id", j.journal_id.as_str());
    l.push_str_member("operation_id", j.operation_id.as_str());
    l.push_str_member("operation_identity_digest", j.operation_identity_digest.as_str());
    l.push_str_member("operation_class", j.operation_class.wire_label());
    l.push_str_member("authorization_digest", j.authorization_digest.as_str());
    l.push_str_member("custody_digest", j.custody_digest.as_str());
    l.push_str_member("freeze_digest", j.freeze_digest.as_str());
    l.push_str_member("repository", j.repository.as_str());
    l.push_str_member("tag", j.tag.as_str());
    l.push_str_member("channel", j.channel.as_str());
    l.push_bool_member("github_prerelease", j.github_prerelease);
    l.push_nullable_str_member("github_release_id", rid);
    l.push_bool_member("is_draft", draft);
    l.push_bool_member("is_public", public);
    let assets = render_expected_assets(&j.expected_assets);
    l.push_member("expected_assets", assets.as_str());
    l.push_u64_member("created_at_unix_seconds", j.created_at_unix_seconds);
    l.push_str_member("kind", a.kind.wire_label());
    l.push_nullable_str_member("asset_name", &a.asset_name);
    let actual = render_actual_asset(&a.actual_asset);
    l.push_member("actual_asset", actual.as_str());
    l.push_bool_member("provider_reachable", a.provider_reachable);
    l.push_u64_member("at_unix_seconds", a.at_unix_seconds);
    l.push_str_member("reason", a.reason.as_str());
    l.push_str_member("workflow", j.workflow.as_str());
    l.push_str_member("run", j.run.as_str());
    l.push_str_member("attempt", j.attempt.as_str());
    l.push_str_member("job", j.job.as_str());
    l.finish_object()
}

/// The digest the next entry after `es` must chain to.
pub open spec fn chain_head(es: Seq<CargoAllowGitHubReleaseJournalEntryV1>) -> Seq<char> {
    if es.len() == 0 {
        GITHUB_RELEASE_JOURNAL_GENESIS_DIGEST@
    } else {
        es.last().entry_digest@
    }
}

/// `e` is the entry an accepted append of `a` writes to journal `j`, whose
/// public state after the append is `public`.
pub open spec fn is_appended_entry(
    j: CargoAllowGitHubReleaseJournalV1,
    public: bool,
    a: GitHubReleaseJournalAppendV1,
    e: CargoAllowGitHubReleaseJournalEntryV1,
) -> bool {
    &&& e.sequence == j.entries@.len() + 1
    &&& e.previous_digest@ == chain_head(j.entries@)
    &&& e.entry_digest@ == text_digest(
        digest_input(
            j,
            opt_text(j.github_release_id),
            j.is_draft,
            public,
            e.sequence,
            e.previous_digest@,
            a,
        ),
    )
    &&& e.kind == a.kind
    &&& e.asset_name == a.asset_name
    &&& e.actual_asset == a.actual_asset
    &&& e.provider_reachable == a.provider_reachable
    &&& e.at_unix_seconds == a.at_unix_seconds
    &&& e.reason == a.reason
    &&& e.workflow == j.workflow
    &&& e.run == j.run
    &&& e.attempt == j.attempt
    &&& e.job == j.job
}

/// Appends one event. Draft intent precedes draft start; asset intent
/// precedes asset start; observations require their started request;
/// finalization requires the exact actual draft, every expected asset
/// observed, and a complete closeout; public observation requires
/// finalization; completion requires public observation. Incidents record
/// without prerequisites so they can never be blocked, and nothing appends
/// after completion. A refused append leaves the journal unchanged.
pub fn append_github_release_journal_event_v1(
    journal: &mut CargoAllowGitHubReleaseJournalV1,
    append: GitHubReleaseJournalAppendV1,
) -> (r: Result<(), &'static str>)
    requires
        old(journal).entries@.len() < u64::MAX,
    ensures
        match append_error(
            *old(journal),
            old(journal).github_release_id is Some,
            old(journal).is_public,
            old(journal).entries@,
            old(journal).entries@.len() as int,
            append,
        ) {
            Some(e) => r is Err && r->Err_0@ == e && *final(journal) == *old(journal),
            None => {
                &&& r is Ok
                &&& *final(journal) == (CargoAllowGitHubReleaseJournalV1 {
                    is_public: old(journal).is_public
                        || append.kind == GitHubReleaseJournalEventV1::PublicReleaseObservedExact,
                    entries: final(journal).entries,
                    ..*old(journal)
                })
                &&& final(journal).entries@.len() == old(journal).entries@.len() + 1
                &&& final(journal).entries@.drop_last() == old(journal).entries@
                &&& is_appended_entry(
                    *old(journal),
                    final(journal).is_public,
                    append,
                    final(journal).entries@.last(),
                )
                &&& is_lower_sha256_digest(final(journal).entries@.last().entry_digest@)
            },
        },
{
    let n = journal.entries.len();
    match append_check(journal, journal.github_release_id.is_some(), journal.is_public, &journal.entries, n, &append) {
        Some(m) => {
            return Err(m);
        },
        None => {},
    }
    let ghost before = *journal;
    if append.kind == GitHubReleaseJournalEventV1::PublicReleaseObservedExact {
        journal.is_public = true;
    }
    let sequence = n as u64 + 1;
    let previous_digest = if n > 0 {
        journal.entries[n - 1].entry_digest.clone()
    } else {
        GITHUB_RELEASE_JOURNAL_GENESIS_DIGEST.to_string()
    };
    let input = render_digest_input(
        journal,
        &journal.github_release_id,
        journal.is_draft,
        journal.is_public,
        sequence,
        previous_digest.as_str(),
        &append,
    );
    let entry_digest = digest_text(input.as_str());
    proof {
        lemma_digest_input_congruent(
            before,
            *journal,
            opt_text(before.github_release_id),
            before.is_draft,
            journal.is_public,
            sequence,
            previous_digest@,
            append,
        );
    }
    let entry = CargoAllowGitHubReleaseJournalEntryV1 {
        sequence,
        previous_digest,
        entry_digest,
        kind: append.kind,
        asset_name: append.asset_name,
        actual_asset: append.actual_asset,
        provider_reachable: append.provider_reachable,
        at_unix_seconds: append.at_unix_seconds,
        reason: append.reason,
        workflow: journal.workflow.clone(),
        run: journal.run.clone(),
        attempt: journal.attempt.clone(),
        job: journal.job.clone(),
    };
    journal.entries.push(entry);
    assert(journal.entries@.drop_last() =~= before.entries@);
    Ok(())
}

// ---------------------------------------------------------------------------
// Revalidation.
// ---------------------------------------------------------------------------

/// The append request an entry records.
pub open spec fn append_of(e: CargoAllowGitHubReleaseJournalEntryV1) -> GitHubReleaseJournalAppendV1 {
    GitHubReleaseJournalAppendV1 {
        kind: e.kind,
        asset_name: e.asset_name,
        actual_asset: e.actual_asset,
        provider_reachable: e.provider_reachable,
        at_unix_seconds: e.at_unix_seconds,
        reason: e.reason,
    }
}

/// Replaying entry `k`, the retained release identity is adopted once an
/// exact draft observation has been reached.
pub open spec fn replay_observed(j: CargoAllowGitHubReleaseJournalV1, k: int) -> bool {
    has_upto(j.entries@, k + 1, GitHubReleaseJournalEventV1::DraftObservedExact)
}

pub open spec fn replay_rid(j: CargoAllowGitHubReleaseJournalV1, k: int) -> Option<Seq<char>> {
    if replay_observed(j, k) {
        opt_text(j.github_release_id)
    } else {
        None
    }
}

/// What goes wrong replaying entry `k` on top of the entries before it:
/// the transition law refuses it, or the rebuilt link differs from the
/// retained one.
#[verifier::opaque]
pub open spec fn replay_step_error(j: CargoAllowGitHubReleaseJournalV1, k: int) -> Option<Seq<char>> {
    let es = j.entries@;
    let a = append_of(es[k]);
    let public = has_upto(es, k, GitHubReleaseJournalEventV1::PublicReleaseObservedExact);
    if append_error(j, replay_rid(j, k) is Some, public, es, k, a) is Some {
        append_error(j, replay_rid(j, k) is Some, public, es, k, a)
    } else {
        let previous = if k == 0 {
            GITHUB_RELEASE_JOURNAL_GENESIS_DIGEST@
        } else {
            es[k - 1].entry_digest@
        };
        let d = text_digest(
            digest_input(
                j,
                replay_rid(j, k),
                replay_observed(j, k) && j.is_draft,
                public || a.kind == GitHubReleaseJournalEventV1::PublicReleaseObservedExact,
                (k + 1) as u64,
                previous,
                a,
            ),
        );
        if d != es[k].entry_digest@ || es[k].sequence != k + 1 || previous != es[k].previous_digest@ {
            Some("journal entry digest does not match its canonical chain"@)
        } else {
            None
        }
    }
}

/// The first failing replay step among the first `n` entries.
pub open spec fn replay_error(j: CargoAllowGitHubReleaseJournalV1, n: nat) -> Option<Seq<char>>
    decreases n,
{
    if n == 0 {
        None
    } else if replay_error(j, (n - 1) as nat) is Some {
        replay_error(j, (n - 1) as nat)
    } else {
        replay_step_error(j, n - 1)
    }
}

proof fn lemma_replay_error_stable(j: CargoAllowGitHubReleaseJournalV1, m: nat, n: nat)
    requires
        m <= n,
        replay_error(j, m) is Some,
    ensures
        replay_error(j, n) == replay_error(j, m),
    decreases n - m,
{
    if m < n {
        lemma_replay_error_stable(j, m, (n - 1) as nat);
    }
}

pub open spec fn journal_header_error(j: CargoAllowGitHubReleaseJournalV1) -> Option<Seq<char>> {
    if j.schema_id@ != GITHUB_RELEASE_JOURNAL_SCHEMA_ID@ || j.schema_version
        != GITHUB_RELEASE_JOURNAL_SCHEMA_VERSION || j.claim_boundary@
        != GITHUB_RELEASE_JOURNAL_CLAIM_BOUNDARY@ {
        Some("journal uses an unsupported schema generation"@)
    } else if blank(j.journal_id@) || blank(j.operation_id@) {
        Some("journal requires operation and journal identity"@)
    } else if !is_lower_sha256_digest(j.operation_identity_digest@) || !is_lower_sha256_digest(
        j.authorization_digest@,
    ) || !is_lower_sha256_digest(j.custody_digest@) || !is_lower_sha256_digest(j.freeze_digest@) {
        Some("journal requires canonical operation identity digests"@)
    } else {
        None
    }
}

/// The retained release identity, draft and public state must be what the
/// replay ends with.
pub open spec fn final_state_error(j: CargoAllowGitHubReleaseJournalV1) -> Option<Seq<char>> {
    let n = j.entries@.len() as int;
    let observed = has_upto(j.entries@, n, GitHubReleaseJournalEventV1::DraftObservedExact);
    if (!observed && j.github_release_id is Some) || (!observed && j.is_draft) || has_upto(
        j.entries@,
        n,
        GitHubReleaseJournalEventV1::PublicReleaseObservedExact,
    ) != j.is_public {
        Some("journal identity observations do not match the retained record"@)
    } else {
        None
    }
}

pub open spec fn verify_error(j: CargoAllowGitHubReleaseJournalV1) -> Option<Seq<char>> {
    if journal_header_error(j) is Some {
        journal_header_error(j)
    } else if replay_error(j, j.entries@.len()) is Some {
        replay_error(j, j.entries@.len())
    } else {
        final_state_error(j)
    }
}

fn copy_name(o: &Option<String>) -> (r: Option<String>)
    ensures
        r == *o,
{
    match o {
        Some(s) => Some(s.clone()),
        None => None,
    }
}

fn copy_actual(o: &Option<GitHubReleaseActualAssetV1>) -> (r: Option<GitHubReleaseActualAssetV1>)
    ensures
        r == *o,
{
    match o {
        Some(a) => Some(
            GitHubReleaseActualAssetV1 {
                asset_id: a.asset_id.clone(),
                asset_name: a.asset_name.clone(),
                size_bytes: a.size_bytes,
                observed_sha256_digest: a.observed_sha256_digest.clone(),
            },
        ),
        None => None,
    }
}

fn append_of_entry(e: &CargoAllowGitHubReleaseJournalEntryV1) -> (r: GitHubReleaseJournalAppendV1)
    ensures
        r == append_of(*e),
{
    GitHubReleaseJournalAppendV1 {
        kind: e.kind,
        asset_name: copy_name(&e.asset_name),
        actual_asset: copy_actual(&e.actual_asset),
        provider_reachable: e.provider_reachable,
        at_unix_seconds: e.at_unix_seconds,
        reason: e.reason.clone(),
    }
}

fn replay_step(
    journal: &CargoAllowGitHubReleaseJournalV1,
    k: usize,
    observed: bool,
    public: bool,
) -> (r: Option<&'static str>)
    requires
        k < journal.entries@.len(),
        observed == replay_observed(*journal, k as int),
        public == has_upto(journal.entries@, k as int, GitHubReleaseJournalEventV1::PublicReleaseObservedExact),
    ensures
        match replay_step_error(*journal, k as int) {
            None => r is None,
            Some(m) => r is Some && r->0@ == m,
        },
{
    proof {
        reveal(replay_step_error);
    }
    let es = &journal.entries;
    let len = es.len();
    let next = k + 1;
    let none: Option<String> = None;
    let rid: &Option<String> = if observed {
        &journal.github_release_id
    } else {
        &none
    };
    let a = append_of_entry(&es[k]);
    match append_check(journal, rid.is_some(), public, es, k, &a) {
        Some(m) => {
            return Some(m);
        },
        None => {},
    }
    let previous: &str = if k == 0 {
        GITHUB_RELEASE_JOURNAL_GENESIS_DIGEST
    } else {
        es[k - 1].entry_digest.as_str()
    };
    let input = render_digest_input(
        journal,
        rid,
        observed && journal.is_draft,
        public || a.kind == GitHubReleaseJournalEventV1::PublicReleaseObservedExact,
        next as u64,
        previous,
        &a,
    );
    let d = digest_text(input.as_str());
    if !str_eq(d.as_str(), es[k].entry_digest.as_str()) || es[k].sequence != next as u64 || !str_eq(
        previous,
        es[k].previous_digest.as_str(),
    ) {
        return Some("journal entry digest does not match its canonical chain");
    }
    None
}

/// Revalidates a loaded journal: identity, chain, digests, and transition
/// law, by replaying every entry on a fresh journal and comparing links.
pub fn verify_github_release_journal_v1(journal: &CargoAllowGitHubReleaseJournalV1) -> (r: Result<
    (),
    &'static str,
>)
    ensures
        match verify_error(*journal) {
            None => r is Ok,
            Some(e) => r is Err && r->Err_0@ == e,
        },
{
    if !str_eq(journal.schema_id.as_str(), GITHUB_RELEASE_JOURNAL_SCHEMA_ID) || journal.schema_version
        != GITHUB_RELEASE_JOURNAL_SCHEMA_VERSION || !str_eq(
        journal.claim_boundary.as_str(),
        GITHUB_RELEASE_JOURNAL_CLAIM_BOUNDARY,
    ) {
        return Err("journal uses an unsupported schema generation");
    }
    if is_blank(journal.journal_id.as_str()) || is_blank(journal.operation_id.as_str()) {
        return Err("journal requires operation and journal identity");
    }
    if !is_lower_sha256_digest_str(journal.operation_identity_digest.as_str())
        || !is_lower_sha256_digest_str(journal.authorization_digest.as_str())
        || !is_lower_sha256_digest_str(journal.custody_digest.as_str())
        || !is_lower_sha256_digest_str(journal.freeze_digest.as_str()) {
        return Err("journal requires canonical operation identity digests");
    }
    let es = &journal.entries;
    let mut observed = false;
    let mut public = false;
    let mut k: usize = 0;
    while k < es.len()
        invariant
            es@ == journal.entries@,
            journal_header_error(*journal) is None,
            k <= es@.len(),
            replay_error(*journal, k as nat) is None,
            observed == has_upto(es@, k as int, GitHubReleaseJournalEventV1::DraftObservedExact),
            public == has_upto(es@, k as int, GitHubReleaseJournalEventV1::PublicReleaseObservedExact),
        decreases es@.len() - k,
    {
        if es[k].kind == GitHubReleaseJournalEventV1::DraftObservedExact {
            observed = true;
        }
        assert(observed == has_upto(es@, k + 1, GitHubReleaseJournalEventV1::DraftObservedExact));
        match replay_step(journal, k, observed, public) {
            Some(m) => {
                proof {
                    assert(replay_error(*journal, (k + 1) as nat) == replay_step_error(*journal, k as int));
                    lemma_replay_error_stable(*journal, (k + 1) as nat, es@.len());
                }
                return Err(m);
            },
            None => {
                assert(replay_error(*journal, (k + 1) as nat) == replay_step_error(*journal, k as int));
            },
        }
        if es[k].kind == GitHubReleaseJournalEventV1::PublicReleaseObservedExact {
            public = true;
        }
        assert(public == has_upto(es@, k + 1, GitHubReleaseJournalEventV1::PublicReleaseObservedExact));
        k = k + 1;
    }
    if (!observed && journal.github_release_id.is_some()) || (!observed && journal.is_draft) || public
        != journal.is_public {
        return Err("journal identity observations do not match the retained record");
    }
    Ok(())
}

// ---------------------------------------------------------------------------
// Laws.
// ---------------------------------------------------------------------------

/// Journals that agree on the header and on the first `m` entries answer
/// every history question about those entries alike.
proof fn lemma_history_prefix(
    es: Seq<CargoAllowGitHubReleaseJournalEntryV1>,
    es2: Seq<CargoAllowGitHubReleaseJournalEntryV1>,
    m: int,
)
    requires
        0 <= m <= es.len(),
        m <= es2.len(),
        forall|i: int| 0 <= i < m ==> es2[i] == es[i],
    ensures
        forall|k: GitHubReleaseJournalEventV1| #[trigger] has_upto(es2, m, k) == has_upto(es, m, k),
        forall|k: GitHubReleaseJournalEventV1, name: Seq<char>|
            #[trigger] has_named_upto(es2, m, k, name) == has_named_upto(es, m, k, name),
        forall|s: Seq<GitHubReleaseExpectedAssetV1>|
            #[trigger] all_expected_observed(s, es2, m) == all_expected_observed(s, es, m),
{
    assert forall|k: GitHubReleaseJournalEventV1| #[trigger] has_upto(es2, m, k) == has_upto(es, m, k) by {
        if has_upto(es2, m, k) {
            let i = choose|i: int| 0 <= i < m && (#[trigger] es2[i]).kind == k;
            assert(es[i] == es2[i]);
        }
        if has_upto(es, m, k) {
            let i = choose|i: int| 0 <= i < m && (#[trigger] es[i]).kind == k;
            assert(es[i] == es2[i]);
        }
    }
    assert forall|k: GitHubReleaseJournalEventV1, name: Seq<char>|
        #[trigger] has_named_upto(es2, m, k, name) == has_named_upto(es, m, k, name) by {
        if has_named_upto(es2, m, k, name) {
            let i = choose|i: int|
                0 <= i < m && (#[trigger] es2[i]).kind == k && opt_text(es2[i].asset_name) == Some(name);
            assert(es[i] == es2[i]);
        }
        if has_named_upto(es, m, k, name) {
            let i = choose|i: int|
                0 <= i < m && (#[trigger] es[i]).kind == k && opt_text(es[i].asset_name) == Some(name);
            assert(es[i] == es2[i]);
        }
    }
    assert forall|s: Seq<GitHubReleaseExpectedAssetV1>|
        #[trigger] all_expected_observed(s, es2, m) == all_expected_observed(s, es, m) by {
        assert forall|i: int| 0 <= i < s.len() implies has_named_upto(
            es2,
            m,
            GitHubReleaseJournalEventV1::AssetObservedExact,
            (#[trigger] s[i]).asset_name@,
        ) == has_named_upto(es, m, GitHubReleaseJournalEventV1::AssetObservedExact, s[i].asset_name@) by {
        }
    }
}


proof fn lemma_append_error_congruent(
    j: CargoAllowGitHubReleaseJournalV1,
    j2: CargoAllowGitHubReleaseJournalV1,
    es: Seq<CargoAllowGitHubReleaseJournalEntryV1>,
    es2: Seq<CargoAllowGitHubReleaseJournalEntryV1>,
    n: int,
    rid_observed: bool,
    public: bool,
    a: GitHubReleaseJournalAppendV1,
)
    requires
        j2.expected_assets == j.expected_assets,
        j2.github_prerelease == j.github_prerelease,
        forall|k: GitHubReleaseJournalEventV1| #[trigger] has_upto(es2, n, k) == has_upto(es, n, k),
        forall|k: GitHubReleaseJournalEventV1, name: Seq<char>|
            #[trigger] has_named_upto(es2, n, k, name) == has_named_upto(es, n, k, name),
        forall|s: Seq<GitHubReleaseExpectedAssetV1>|
            #[trigger] all_expected_observed(s, es2, n) == all_expected_observed(s, es, n),
    ensures
        append_error(j2, rid_observed, public, es2, n, a) == append_error(j, rid_observed, public, es, n, a),
{
    reveal(append_error);
}

proof fn lemma_digest_input_congruent(
    j: CargoAllowGitHubReleaseJournalV1,
    j2: CargoAllowGitHubReleaseJournalV1,
    rid: Option<Seq<char>>,
    draft: bool,
    public: bool,
    sequence: u64,
    previous: Seq<char>,
    a: GitHubReleaseJournalAppendV1,
)
    requires
        j2 == (CargoAllowGitHubReleaseJournalV1 {
            github_release_id: j2.github_release_id,
            is_draft: j2.is_draft,
            is_public: j2.is_public,
            entries: j2.entries,
            ..j
        }),
    ensures
        digest_input(j2, rid, draft, public, sequence, previous, a) == digest_input(
            j,
            rid,
            draft,
            public,
            sequence,
            previous,
            a,
        ),
{
    reveal(digest_input);
}

/// Replay of the first `n` entries depends only on the header, the retained
/// release identity and draft state, and those entries.
proof fn lemma_replay_prefix(j: CargoAllowGitHubReleaseJournalV1, j2: CargoAllowGitHubReleaseJournalV1, n: nat)
    requires
        j2 == (CargoAllowGitHubReleaseJournalV1 { is_public: j2.is_public, entries: j2.entries, ..j }),
        n <= j.entries@.len(),
        n <= j2.entries@.len(),
        forall|i: int| 0 <= i < n ==> j2.entries@[i] == j.entries@[i],
    ensures
        replay_error(j2, n) == replay_error(j, n),
    decreases n,
{
    if n > 0 {
        lemma_replay_prefix(j, j2, (n - 1) as nat);
        let k = n - 1;
        lemma_history_prefix(j.entries@, j2.entries@, k);
        lemma_history_prefix(j.entries@, j2.entries@, k + 1);
        let a = append_of(j.entries@[k]);
        assert(j2.entries@[k] == j.entries@[k]);
        assert(replay_observed(j2, k) == replay_observed(j, k));
        assert forall|r: bool, p: bool| append_error(j2, r, p, j2.entries@, k, a) == append_error(j, r, p, j.entries@, k, a) by {
            lemma_append_error_congruent(j, j2, j.entries@, j2.entries@, k, r, p, a);
        }
        assert forall|rid: Option<Seq<char>>, d: bool, p: bool, sq: u64, pv: Seq<char>|
            digest_input(j2, rid, d, p, sq, pv, a) == digest_input(j, rid, d, p, sq, pv, a) by {
            lemma_digest_input_congruent(j, j2, rid, d, p, sq, pv, a);
        }
        assert(replay_step_error(j2, k) == replay_step_error(j, k)) by {
            reveal(replay_step_error);
            if k > 0 {
                assert(j2.entries@[k - 1] == j.entries@[k - 1]);
            }
        }
    }
}

/// Appending keeps a journal verifiable: when a journal revalidates and an
/// append is accepted, the extended journal revalidates too. Every accepted
/// history is therefore a history a later run can replay exactly.
pub proof fn lemma_append_preserves_verification(
    j: CargoAllowGitHubReleaseJournalV1,
    a: GitHubReleaseJournalAppendV1,
    j2: CargoAllowGitHubReleaseJournalV1,
)
    requires
        verify_error(j) is None,
        append_error(j, j.github_release_id is Some, j.is_public, j.entries@, j.entries@.len() as int, a)
            is None,
        j2 == (CargoAllowGitHubReleaseJournalV1 {
            is_public: j.is_public || a.kind == GitHubReleaseJournalEventV1::PublicReleaseObservedExact,
            entries: j2.entries,
            ..j
        }),
        j2.entries@.len() == j.entries@.len() + 1,
        j2.entries@.drop_last() == j.entries@,
        is_appended_entry(j, j2.is_public, a, j2.entries@.last()),
    ensures
        verify_error(j2) is None,
{
    let es = j.entries@;
    let es2 = j2.entries@;
    let n = es.len();
    assert forall|i: int| 0 <= i < n implies es2[i] == es[i] by {
        assert(es2.drop_last()[i] == es2[i]);
    }
    lemma_replay_prefix(j, j2, n);
    lemma_history_prefix(es, es2, n as int);
    let e = es2[n as int];
    assert(e == es2.last());
    assert(append_of(e) == a);
    assert(replay_observed(j2, n as int) == has_upto(es, n as int, GitHubReleaseJournalEventV1::DraftObservedExact)
        || a.kind == GitHubReleaseJournalEventV1::DraftObservedExact) by {
        if has_upto(es2, (n + 1) as int, GitHubReleaseJournalEventV1::DraftObservedExact) {
            let i = choose|i: int|
                0 <= i < n + 1 && (#[trigger] es2[i]).kind == GitHubReleaseJournalEventV1::DraftObservedExact;
            if i < n {
                assert(es[i] == es2[i]);
            }
        }
        if a.kind == GitHubReleaseJournalEventV1::DraftObservedExact {
            assert(es2[n as int].kind == a.kind);
        }
        if has_upto(es, n as int, GitHubReleaseJournalEventV1::DraftObservedExact) {
            let i = choose|i: int|
                0 <= i < n && (#[trigger] es[i]).kind == GitHubReleaseJournalEventV1::DraftObservedExact;
            assert(es2[i] == es[i]);
        }
    }
    assert(replay_rid(j2, n as int) == opt_text(j.github_release_id));
    assert(has_upto(es2, n as int, GitHubReleaseJournalEventV1::PublicReleaseObservedExact) == j.is_public);
    lemma_append_error_congruent(j, j2, es, es2, n as int, j.github_release_id is Some, j.is_public, a);
    lemma_digest_input_congruent(
        j,
        j2,
        opt_text(j.github_release_id),
        j.is_draft,
        j2.is_public,
        (n + 1) as u64,
        chain_head(es),
        a,
    );
    if n > 0 {
        assert(es2[n - 1] == es[n - 1]);
        assert(es.last() == es[n - 1]);
    }
    assert(replay_step_error(j2, n as int) is None) by {
        reveal(replay_step_error);
    }
    assert(replay_error(j2, n + 1) is None);
    assert(has_upto(es2, (n + 1) as int, GitHubReleaseJournalEventV1::PublicReleaseObservedExact) == j2.is_public) by {
        if has_upto(es2, (n + 1) as int, GitHubReleaseJournalEventV1::PublicReleaseObservedExact) {
            let i = choose|i: int|
                0 <= i < n + 1 && (#[trigger] es2[i]).kind == GitHubReleaseJournalEventV1::PublicReleaseObservedExact;
            if i < n {
                assert(es[i] == es2[i]);
            }
        }
        if a.kind == GitHubReleaseJournalEventV1::PublicReleaseObservedExact {
            assert(es2[n as int].kind == a.kind);
        }
        if has_upto(es, n as int, GitHubReleaseJournalEventV1::PublicReleaseObservedExact) {
            let i = choose|i: int|
                0 <= i < n && (#[trigger] es[i]).kind == GitHubReleaseJournalEventV1::PublicReleaseObservedExact;
            assert(es2[i] == es[i]);
        }
    }
}

/// Nothing appends after completion.
pub proof fn lemma_completed_journal_is_closed(
    j: CargoAllowGitHubReleaseJournalV1,
    rid_observed: bool,
    public: bool,
    a: GitHubReleaseJournalAppendV1,
)
    requires
        has_upto(j.entries@, j.entries@.len() as int, GitHubReleaseJournalEventV1::OperationComplete),
    ensures
        append_error(j, rid_observed, public, j.entries@, j.entries@.len() as int, a)
            == Some("completed journals accept no further events"@),
{
    reveal(append_error);
}

/// An asset upload starts at most once: an unknown response is reconciled by
/// observation, never by a second upload of the same asset.
pub proof fn lemma_asset_upload_starts_once(
    j: CargoAllowGitHubReleaseJournalV1,
    rid_observed: bool,
    public: bool,
    a: GitHubReleaseJournalAppendV1,
)
    requires
        a.kind == GitHubReleaseJournalEventV1::AssetUploadStarted,
        a.asset_name is Some,
        has_named_upto(
            j.entries@,
            j.entries@.len() as int,
            GitHubReleaseJournalEventV1::AssetUploadStarted,
            a.asset_name->0@,
        ),
    ensures
        append_error(j, rid_observed, public, j.entries@, j.entries@.len() as int, a) is Some,
{
    reveal(append_error);
}

/// The release turns public only through an accepted public observation
/// that follows a started finalization, and never on a prerelease channel.
pub proof fn lemma_public_requires_finalization(
    j: CargoAllowGitHubReleaseJournalV1,
    a: GitHubReleaseJournalAppendV1,
)
    requires
        !j.is_public,
        append_error(j, j.github_release_id is Some, j.is_public, j.entries@, j.entries@.len() as int, a)
            is None,
        a.kind == GitHubReleaseJournalEventV1::PublicReleaseObservedExact,
    ensures
        has_upto(j.entries@, j.entries@.len() as int, GitHubReleaseJournalEventV1::FinalizeStarted),
        !j.github_prerelease,
{
    reveal(append_error);
}

/// A freshly begun journal verifies; with
/// `lemma_append_preserves_verification`, every journal built by `begin`
/// and accepted appends (without an identity observation) verifies.
pub proof fn lemma_begun_journal_verifies(j: CargoAllowGitHubReleaseJournalV1, init: GitHubReleaseJournalInitV1)
    requires
        begin_error(init) is None,
        j.schema_id@ == GITHUB_RELEASE_JOURNAL_SCHEMA_ID@,
        j.schema_version == GITHUB_RELEASE_JOURNAL_SCHEMA_VERSION,
        j.claim_boundary@ == GITHUB_RELEASE_JOURNAL_CLAIM_BOUNDARY@,
        j.journal_id == init.journal_id,
        j.operation_id == init.operation_id,
        j.operation_identity_digest == init.operation_identity_digest,
        j.authorization_digest == init.authorization_digest,
        j.custody_digest == init.custody_digest,
        j.freeze_digest == init.freeze_digest,
        j.github_release_id is None,
        !j.is_draft,
        !j.is_public,
        j.entries@.len() == 0,
    ensures
        verify_error(j) is None,
{
}

proof fn lemma_replay_prefix_unobserved(
    j: CargoAllowGitHubReleaseJournalV1,
    j2: CargoAllowGitHubReleaseJournalV1,
    n: nat,
)
    requires
        j2 == (CargoAllowGitHubReleaseJournalV1 {
            github_release_id: j2.github_release_id,
            is_draft: j2.is_draft,
            is_public: j2.is_public,
            entries: j2.entries,
            ..j
        }),
        n <= j.entries@.len(),
        n <= j2.entries@.len(),
        forall|i: int| 0 <= i < n ==> j2.entries@[i] == j.entries@[i],
        !has_upto(j.entries@, n as int, GitHubReleaseJournalEventV1::DraftObservedExact),
    ensures
        replay_error(j2, n) == replay_error(j, n),
    decreases n,
{
    if n > 0 {
        let k = n - 1;
        assert(!has_upto(j.entries@, k as int, GitHubReleaseJournalEventV1::DraftObservedExact)) by {
            if has_upto(j.entries@, k as int, GitHubReleaseJournalEventV1::DraftObservedExact) {
                let i = choose|i: int|
                    0 <= i < k && (#[trigger] j.entries@[i]).kind == GitHubReleaseJournalEventV1::DraftObservedExact;
                assert(0 <= i < n && j.entries@[i].kind == GitHubReleaseJournalEventV1::DraftObservedExact);
            }
        }
        lemma_replay_prefix_unobserved(j, j2, (n - 1) as nat);
        lemma_history_prefix(j.entries@, j2.entries@, k);
        lemma_history_prefix(j.entries@, j2.entries@, k + 1);
        let a = append_of(j.entries@[k]);
        assert(j2.entries@[k] == j.entries@[k]);
        assert(!replay_observed(j, k as int));
        assert(!replay_observed(j2, k as int));
        assert(replay_rid(j, k as int) == replay_rid(j2, k as int));
        assert forall|r: bool, p: bool| append_error(j2, r, p, j2.entries@, k as int, a) == append_error(j, r, p, j.entries@, k as int, a) by {
            lemma_append_error_congruent(j, j2, j.entries@, j2.entries@, k as int, r, p, a);
        }
        assert forall|rid: Option<Seq<char>>, d: bool, p: bool, sq: u64, pv: Seq<char>|
            digest_input(j2, rid, d, p, sq, pv, a) == digest_input(j, rid, d, p, sq, pv, a) by {
            lemma_digest_input_congruent(j, j2, rid, d, p, sq, pv, a);
        }
        assert(replay_step_error(j2, k as int) == replay_step_error(j, k as int)) by {
            reveal(replay_step_error);
            if k > 0 {
                assert(j2.entries@[k - 1] == j.entries@[k - 1]);
            }
        }
    }
}

/// Observing the release identity and then recording its exact draft keeps
/// a journal verifiable: when a verified journal that has not yet observed
/// its draft (and so retains no identity) observes the provider identity,
/// and the next accepted append is the exact draft observation, the
/// extended journal verifies. The journal in between, which retains an
/// identity that no entry has observed yet, is not a verified journal.
pub proof fn lemma_identity_then_draft_verifies(
    j0: CargoAllowGitHubReleaseJournalV1,
    j1: CargoAllowGitHubReleaseJournalV1,
    a: GitHubReleaseJournalAppendV1,
    j2: CargoAllowGitHubReleaseJournalV1,
)
    requires
        verify_error(j0) is None,
        j0.github_release_id is None,
        !has_upto(j0.entries@, j0.entries@.len() as int, GitHubReleaseJournalEventV1::DraftObservedExact),
        j1 == (CargoAllowGitHubReleaseJournalV1 {
            github_release_id: j1.github_release_id,
            is_draft: j1.is_draft,
            ..j0
        }),
        j1.github_release_id is Some,
        a.kind == GitHubReleaseJournalEventV1::DraftObservedExact,
        append_error(j1, true, j1.is_public, j1.entries@, j1.entries@.len() as int, a) is None,
        j2 == (CargoAllowGitHubReleaseJournalV1 {
            is_public: j1.is_public || a.kind == GitHubReleaseJournalEventV1::PublicReleaseObservedExact,
            entries: j2.entries,
            ..j1
        }),
        j2.entries@.len() == j1.entries@.len() + 1,
        j2.entries@.drop_last() == j1.entries@,
        is_appended_entry(j1, j2.is_public, a, j2.entries@.last()),
    ensures
        verify_error(j1) == Some("journal identity observations do not match the retained record"@),
        verify_error(j2) is None,
{
    let es = j0.entries@;
    let es2 = j2.entries@;
    let n = es.len();
    lemma_replay_prefix_unobserved(j0, j1, n);
    assert forall|i: int| 0 <= i < n implies es2[i] == es[i] by {
        assert(es2.drop_last()[i] == es2[i]);
    }
    lemma_replay_prefix_unobserved(j0, j2, n);
    lemma_history_prefix(es, es2, n as int);
    let e = es2[n as int];
    assert(e == es2.last());
    assert(append_of(e) == a);
    assert(replay_observed(j2, n as int)) by {
        assert(es2[n as int].kind == GitHubReleaseJournalEventV1::DraftObservedExact);
    }
    assert(replay_rid(j2, n as int) == opt_text(j1.github_release_id));
    assert(has_upto(es2, n as int, GitHubReleaseJournalEventV1::PublicReleaseObservedExact) == j1.is_public);
    lemma_append_error_congruent(j1, j2, es, es2, n as int, true, j1.is_public, a);
    lemma_digest_input_congruent(
        j1,
        j2,
        opt_text(j1.github_release_id),
        j1.is_draft,
        j2.is_public,
        (n + 1) as u64,
        chain_head(es),
        a,
    );
    if n > 0 {
        assert(es2[n - 1] == es[n - 1]);
        assert(es.last() == es[n - 1]);
    }
    assert(replay_step_error(j2, n as int) is None) by {
        reveal(replay_step_error);
    }
    assert(replay_error(j2, n + 1) is None);
    assert(has_upto(es2, (n + 1) as int, GitHubReleaseJournalEventV1::PublicReleaseObservedExact) == j2.is_public) by {
        if has_upto(es2, (n + 1) as int, GitHubReleaseJournalEventV1::PublicReleaseObservedExact) {
            let i = choose|i: int|
                0 <= i < n + 1 && (#[trigger] es2[i]).kind == GitHubReleaseJournalEventV1::PublicReleaseObservedExact;
            if i < n {
                assert(es[i] == es2[i]);
            }
        }
        if has_upto(es, n as int, GitHubReleaseJournalEventV1::PublicReleaseObservedExact) {
            let i = choose|i: int|
                0 <= i < n && (#[trigger] es[i]).kind == GitHubReleaseJournalEventV1::PublicReleaseObservedExact;
            assert(es2[i] == es[i]);
        }
    }
    assert(has_upto(es2, (n + 1) as int, GitHubReleaseJournalEventV1::DraftObservedExact));
}

} // verus!
