//! Remotely durable checkpoints for the GitHub Release journal.
//!
//! The journal survives process crashes on one runner; it does not survive
//! total hosted-runner loss. Before each GitHub Release mutation and before
//! a later mutation consumes the resulting state, the operation needs one
//! independently readable remote checkpoint bound to the exact operation,
//! journal prefix, and release identity, so a fresh runner reconstructs the
//! latest honest state instead of re-inferring it.
//!
//! Everything here is pure: provider outcomes are caller-supplied; the
//! checkpoint classifies them but never fetches them. A fresh checkpoint
//! reads back as `Missing` until an independent readback is recorded:
//! provider success without readback is never clean.

use vstd::prelude::*;
use vstd::utf8::encode_utf8;
use crate::digest::{bytes_digest, digest_bytes, digest_text, text_digest};
use crate::github_release_journal::{
    verify_error, verify_github_release_journal_v1, CargoAllowGitHubReleaseJournalEntryV1,
    CargoAllowGitHubReleaseJournalV1,
};
use crate::json::{
    json_obj, json_opt_str, json_str, json_str_array, kv, pretty_member, pretty_member_line, pretty_object,
    pretty_object_text, pretty_str_array, pretty_str_array_text, string_views, JsonList,
};
use crate::publication_journal::opt_text;
use crate::text::{
    ascii_lower, blank, char_ascii_lower, contains, contains_str, decimal, decimal_string, is_blank,
    is_lower_git_sha, is_lower_git_sha_str, is_lower_sha256_digest, is_lower_sha256_digest_str, str_eq,
    string_from_chars, views,
};

verus! {

pub const GITHUB_RELEASE_CHECKPOINT_SCHEMA_ID: &'static str = "cargo-allow.github-release-checkpoint.v1";

pub const GITHUB_RELEASE_CHECKPOINT_SCHEMA_VERSION: u32 = 1;

pub const GITHUB_RELEASE_CHECKPOINT_MIN_RETENTION_DAYS: u32 = 1;

pub const GITHUB_RELEASE_CHECKPOINT_MAX_RETENTION_DAYS: u32 = 90;

pub const GITHUB_RELEASE_CHECKPOINT_MAX_NOTE_LEN: usize = 256;

pub const GITHUB_RELEASE_CHECKPOINT_RETENTION_SECONDS_PER_DAY: u64 = 86400;

pub const GITHUB_RELEASE_CHECKPOINT_CLAIM_BOUNDARY: &'static str = "This record owns one remotely durable, independently readable checkpoint per GitHub Release journal prefix: exact operation and journal-prefix identity, monotonic sequence linkage, immutable provider object identity, producer trust, retention, and readback classification. It does not create, edit, publish, or delete a real GitHub Release, authorize the operation, or prove asset semantics independently.";

/// Checkpoint operation class, mirroring the journal vocabulary.
#[derive(Debug, Clone, Copy, PartialEq, Eq, Structural)]
pub enum GitHubReleaseCheckpointClassV1 {
    CleanFinalPublication,
    IncidentRecovery,
}

/// Checkpoint position in the mutation lifecycle.
#[derive(Debug, Clone, Copy, PartialEq, Eq, Structural)]
pub enum GitHubReleaseCheckpointKindV1 {
    PreMutationDurable,
    PostObservation,
}

/// Durable provider substrate: the selected GitHub Actions Artifact surface.
#[derive(Debug, Clone, Copy, PartialEq, Eq, Structural)]
pub enum GitHubReleaseCheckpointProviderV1 {
    GithubActionsArtifact,
}

/// Independent readback outcome. Only `Complete` authorizes progress.
/// `ProviderUnavailable` is an outage, never absence.
#[derive(Debug, Clone, Copy, PartialEq, Eq, Structural)]
pub enum GitHubReleaseCheckpointReadbackV1 {
    Complete,
    Missing,
    Stale,
    Mismatch,
    ProviderUnavailable,
    InstrumentFailure,
}

impl GitHubReleaseCheckpointClassV1 {
    pub open spec fn wire(self) -> Seq<char> {
        match self {
            Self::CleanFinalPublication => "clean_final_publication"@,
            Self::IncidentRecovery => "incident_recovery"@,
        }
    }

    pub fn wire_label(self) -> (r: &'static str)
        ensures
            r@ == self.wire(),
    {
        match self {
            Self::CleanFinalPublication => "clean_final_publication",
            Self::IncidentRecovery => "incident_recovery",
        }
    }
}

impl GitHubReleaseCheckpointKindV1 {
    pub open spec fn wire(self) -> Seq<char> {
        match self {
            Self::PreMutationDurable => "pre_mutation_durable"@,
            Self::PostObservation => "post_observation"@,
        }
    }

    pub fn wire_label(self) -> (r: &'static str)
        ensures
            r@ == self.wire(),
    {
        match self {
            Self::PreMutationDurable => "pre_mutation_durable",
            Self::PostObservation => "post_observation",
        }
    }
}

impl GitHubReleaseCheckpointProviderV1 {
    pub open spec fn wire(self) -> Seq<char> {
        "github_actions_artifact"@
    }

    pub fn wire_label(self) -> (r: &'static str)
        ensures
            r@ == self.wire(),
    {
        "github_actions_artifact"
    }
}

/// The remote provider object. `object_id` is the exact immutable provider
/// identity; `object_name` is a human label only and never participates in
/// discovery.
#[derive(Debug, Clone, PartialEq, Eq)]
pub struct GitHubReleaseCheckpointProviderObjectV1 {
    pub provider: GitHubReleaseCheckpointProviderV1,
    pub object_id: String,
    pub object_name: String,
    pub object_digest: String,
    pub object_size_bytes: u64,
}

/// The producer identity the release lane expects. Equality with the
/// expected producer is the trust check.
#[derive(Debug, Clone, PartialEq, Eq)]
pub struct GitHubReleaseCheckpointProducerV1 {
    pub workflow: String,
    pub run: String,
    pub attempt: String,
    pub job: String,
    pub git_ref: String,
    pub commit: String,
}

/// One remotely durable GitHub Release checkpoint.
#[derive(Debug, Clone, PartialEq, Eq)]
pub struct CargoAllowGitHubReleaseCheckpointV1 {
    pub schema_id: String,
    pub schema_version: u32,
    pub checkpoint_id: String,
    pub operation_id: String,
    /// Canonical operation identity digest the checkpoint is bound to.
    pub operation_identity_digest: String,
    pub operation_class: GitHubReleaseCheckpointClassV1,
    pub authorization_digest: String,
    pub custody_digest: String,
    pub freeze_digest: String,
    pub repository: String,
    pub tag: String,
    pub journal_head_sequence: u64,
    pub journal_head_digest: String,
    pub checkpoint_sequence: u64,
    /// Sequence one carries `None`; every later checkpoint carries the
    /// canonical digest of its predecessor.
    pub prior_checkpoint_digest: Option<String>,
    pub kind: GitHubReleaseCheckpointKindV1,
    /// GitHub Release ID observed at checkpoint time, when known.
    pub github_release_id: Option<String>,
    /// The mutation this checkpoint gates, as a bounded label. Labels route;
    /// they never authorize.
    pub gated_mutation: String,
    pub provider: GitHubReleaseCheckpointProviderObjectV1,
    pub producer: GitHubReleaseCheckpointProducerV1,
    pub retention_days: u32,
    pub created_at_unix_seconds: u64,
    pub expires_at_unix_seconds: u64,
    pub note: String,
    /// Fresh checkpoints start `Missing`.
    pub readback: GitHubReleaseCheckpointReadbackV1,
    pub readback_at_unix_seconds: Option<u64>,
    pub claim_boundary: String,
    pub limitations: Vec<String>,
}

/// Caller-supplied construction inputs. Linkage and readback are assigned by
/// the checkpoint, never the caller.
#[derive(Debug, Clone, PartialEq, Eq)]
pub struct GitHubReleaseCheckpointInitV1 {
    pub checkpoint_id: String,
    pub operation_id: String,
    pub operation_identity_digest: String,
    pub operation_class: GitHubReleaseCheckpointClassV1,
    pub authorization_digest: String,
    pub custody_digest: String,
    pub freeze_digest: String,
    pub repository: String,
    pub tag: String,
    pub journal_head_sequence: u64,
    pub journal_head_digest: String,
    pub checkpoint_sequence: u64,
    pub kind: GitHubReleaseCheckpointKindV1,
    pub github_release_id: Option<String>,
    pub gated_mutation: String,
    pub provider: GitHubReleaseCheckpointProviderObjectV1,
    pub producer: GitHubReleaseCheckpointProducerV1,
    pub retention_days: u32,
    pub created_at_unix_seconds: u64,
    pub note: String,
}

/// Caller-supplied provider outcome. Bytes are downloaded by the caller.
#[derive(Debug, Clone, PartialEq, Eq)]
pub enum GitHubCheckpointProviderOutcomeV1 {
    Delivered(Vec<u8>),
    Unavailable,
    InstrumentFailure,
}

/// Runtime-only proof that exact immutable provider bytes were independently
/// read back. Private fields: editing a checkpoint document can never
/// manufacture progress authority.
#[derive(Debug, Clone, PartialEq, Eq)]
pub struct GitHubReleaseCheckpointReadbackWitnessV1 {
    checkpoint_link_digest: String,
    provider_object_id: String,
    downloaded_bytes_digest: String,
    observed_at_unix_seconds: u64,
}

impl GitHubReleaseCheckpointReadbackWitnessV1 {
    pub closed spec fn link_digest(self) -> Seq<char> {
        self.checkpoint_link_digest@
    }

    pub closed spec fn object_id(self) -> Seq<char> {
        self.provider_object_id@
    }

    pub closed spec fn downloaded_digest(self) -> Seq<char> {
        self.downloaded_bytes_digest@
    }

    pub closed spec fn observed_at(self) -> u64 {
        self.observed_at_unix_seconds
    }
}

// ---------------------------------------------------------------------------
// Text shapes.
// ---------------------------------------------------------------------------

pub open spec fn lower_text(s: Seq<char>) -> Seq<char> {
    s.map_values(|c: char| ascii_lower(c))
}

/// Markers that never belong in checkpoint records, matched without regard
/// to ASCII case.
pub open spec fn checkpoint_secret_markers() -> Seq<Seq<char>> {
    seq!["github_pat_"@, "ghp_"@, "password="@, "token="@, "cargo_registry_token"@]
}

pub open spec fn has_secret_marker(s: Seq<char>) -> bool {
    exists|i: int| 0 <= i < 5 && contains(lower_text(s), #[trigger] checkpoint_secret_markers()[i])
}

pub(crate) fn lowercase(s: &str) -> (r: String)
    ensures
        r@ == lower_text(s@),
{
    let cs = crate::text::chars_of(s);
    let mut out: Vec<char> = Vec::new();
    let mut i: usize = 0;
    while i < cs.len()
        invariant
            i <= cs.len(),
            cs@ == s@,
            out@ == lower_text(s@).take(i as int),
        decreases cs.len() - i,
    {
        out.push(char_ascii_lower(cs[i]));
        assert(out@ =~= lower_text(s@).take(i + 1));
        i = i + 1;
    }
    assert(lower_text(s@).take(cs@.len() as int) =~= lower_text(s@));
    string_from_chars(&out)
}

fn secret_marker(value: &str) -> (r: bool)
    ensures
        r == has_secret_marker(value@),
{
    let lower = lowercase(value);
    proof {
        reveal_strlit("github_pat_");
        reveal_strlit("ghp_");
        reveal_strlit("password=");
        reveal_strlit("token=");
        reveal_strlit("cargo_registry_token");
    }
    let a = contains_str(lower.as_str(), "github_pat_");
    let b = contains_str(lower.as_str(), "ghp_");
    let c = contains_str(lower.as_str(), "password=");
    let d = contains_str(lower.as_str(), "token=");
    let e = contains_str(lower.as_str(), "cargo_registry_token");
    proof {
        let m = checkpoint_secret_markers();
        assert(m[0] == "github_pat_"@ && m[1] == "ghp_"@ && m[2] == "password="@ && m[3] == "token="@
            && m[4] == "cargo_registry_token"@);
        if has_secret_marker(value@) {
            let i = choose|i: int| 0 <= i < 5 && contains(lower_text(value@), #[trigger] m[i]);
            assert(a || b || c || d || e);
        }
    }
    a || b || c || d || e
}

// ---------------------------------------------------------------------------
// Canonical bytes.
// ---------------------------------------------------------------------------

pub open spec fn producer_json(p: GitHubReleaseCheckpointProducerV1) -> Seq<char> {
    json_obj(
        Seq::empty().push(kv("workflow"@, json_str(p.workflow@))).push(kv("run"@, json_str(p.run@))).push(
            kv("attempt"@, json_str(p.attempt@)),
        ).push(kv("job"@, json_str(p.job@))).push(kv("git_ref"@, json_str(p.git_ref@))).push(
            kv("commit"@, json_str(p.commit@)),
        ),
    )
}

/// The checkpoint body: every record field except the provider object and
/// the readback outcome, as compact JSON.
pub open spec fn body_json(c: CargoAllowGitHubReleaseCheckpointV1) -> Seq<char> {
    json_obj(
        Seq::empty().push(kv("schema_id"@, json_str(c.schema_id@))).push(
            kv("schema_version"@, decimal(c.schema_version as nat)),
        ).push(kv("checkpoint_id"@, json_str(c.checkpoint_id@))).push(
            kv("operation_id"@, json_str(c.operation_id@)),
        ).push(kv("operation_identity_digest"@, json_str(c.operation_identity_digest@))).push(
            kv("operation_class"@, json_str(c.operation_class.wire())),
        ).push(kv("authorization_digest"@, json_str(c.authorization_digest@))).push(
            kv("custody_digest"@, json_str(c.custody_digest@)),
        ).push(kv("freeze_digest"@, json_str(c.freeze_digest@))).push(
            kv("repository"@, json_str(c.repository@)),
        ).push(kv("tag"@, json_str(c.tag@))).push(
            kv("journal_head_sequence"@, decimal(c.journal_head_sequence as nat)),
        ).push(kv("journal_head_digest"@, json_str(c.journal_head_digest@))).push(
            kv("checkpoint_sequence"@, decimal(c.checkpoint_sequence as nat)),
        ).push(kv("prior_checkpoint_digest"@, json_opt_str(opt_text(c.prior_checkpoint_digest)))).push(
            kv("kind"@, json_str(c.kind.wire())),
        ).push(kv("github_release_id"@, json_opt_str(opt_text(c.github_release_id)))).push(
            kv("gated_mutation"@, json_str(c.gated_mutation@)),
        ).push(kv("producer"@, producer_json(c.producer))).push(
            kv("retention_days"@, decimal(c.retention_days as nat)),
        ).push(kv("created_at_unix_seconds"@, decimal(c.created_at_unix_seconds as nat))).push(
            kv("expires_at_unix_seconds"@, decimal(c.expires_at_unix_seconds as nat)),
        ).push(kv("note"@, json_str(c.note@))).push(kv("claim_boundary"@, json_str(c.claim_boundary@))).push(
            kv("limitations"@, json_str_array(string_views(c.limitations@))),
        ),
    )
}

pub open spec fn body_digest(c: CargoAllowGitHubReleaseCheckpointV1) -> Seq<char> {
    text_digest(body_json(c))
}

fn render_producer(p: &GitHubReleaseCheckpointProducerV1) -> (r: String)
    ensures
        r@ == producer_json(*p),
{
    let mut l = JsonList::new();
    l.push_str_member("workflow", p.workflow.as_str());
    l.push_str_member("run", p.run.as_str());
    l.push_str_member("attempt", p.attempt.as_str());
    l.push_str_member("job", p.job.as_str());
    l.push_str_member("git_ref", p.git_ref.as_str());
    l.push_str_member("commit", p.commit.as_str());
    l.finish_object()
}

fn render_body(c: &CargoAllowGitHubReleaseCheckpointV1) -> (r: String)
    ensures
        r@ == body_json(*c),
{
    let mut l = JsonList::new();
    l.push_str_member("schema_id", c.schema_id.as_str());
    l.push_u64_member("schema_version", c.schema_version as u64);
    l.push_str_member("checkpoint_id", c.checkpoint_id.as_str());
    l.push_str_member("operation_id", c.operation_id.as_str());
    l.push_str_member("operation_identity_digest", c.operation_identity_digest.as_str());
    l.push_str_member("operation_class", c.operation_class.wire_label());
    l.push_str_member("authorization_digest", c.authorization_digest.as_str());
    l.push_str_member("custody_digest", c.custody_digest.as_str());
    l.push_str_member("freeze_digest", c.freeze_digest.as_str());
    l.push_str_member("repository", c.repository.as_str());
    l.push_str_member("tag", c.tag.as_str());
    l.push_u64_member("journal_head_sequence", c.journal_head_sequence);
    l.push_str_member("journal_head_digest", c.journal_head_digest.as_str());
    l.push_u64_member("checkpoint_sequence", c.checkpoint_sequence);
    l.push_nullable_str_member("prior_checkpoint_digest", &c.prior_checkpoint_digest);
    l.push_str_member("kind", c.kind.wire_label());
    l.push_nullable_str_member("github_release_id", &c.github_release_id);
    l.push_str_member("gated_mutation", c.gated_mutation.as_str());
    let producer = render_producer(&c.producer);
    l.push_member("producer", producer.as_str());
    l.push_u64_member("retention_days", c.retention_days as u64);
    l.push_u64_member("created_at_unix_seconds", c.created_at_unix_seconds);
    l.push_u64_member("expires_at_unix_seconds", c.expires_at_unix_seconds);
    l.push_str_member("note", c.note.as_str());
    l.push_str_member("claim_boundary", c.claim_boundary.as_str());
    let limitations = crate::json::json_string_array(&c.limitations);
    l.push_member("limitations", limitations.as_str());
    l.finish_object()
}

/// Canonical digest of the checkpoint body, as retained in provider objects.
pub fn digest_github_release_checkpoint_body_v1(checkpoint: &CargoAllowGitHubReleaseCheckpointV1) -> (r: String)
    ensures
        r@ == body_digest(*checkpoint),
        is_lower_sha256_digest(r@),
{
    let body = render_body(checkpoint);
    digest_text(body.as_str())
}

pub open spec fn provider_lines(p: GitHubReleaseCheckpointProviderObjectV1) -> Seq<Seq<char>> {
    Seq::empty().push(pretty_member(1, "provider"@, json_str(p.provider.wire()))).push(
        pretty_member(1, "object_id"@, json_str(p.object_id@)),
    ).push(pretty_member(1, "object_name"@, json_str(p.object_name@))).push(
        pretty_member(1, "object_digest"@, json_str(p.object_digest@)),
    ).push(pretty_member(1, "object_size_bytes"@, decimal(p.object_size_bytes as nat)))
}

pub open spec fn producer_lines(p: GitHubReleaseCheckpointProducerV1) -> Seq<Seq<char>> {
    Seq::empty().push(pretty_member(1, "workflow"@, json_str(p.workflow@))).push(
        pretty_member(1, "run"@, json_str(p.run@)),
    ).push(pretty_member(1, "attempt"@, json_str(p.attempt@))).push(
        pretty_member(1, "job"@, json_str(p.job@)),
    ).push(pretty_member(1, "git_ref"@, json_str(p.git_ref@))).push(
        pretty_member(1, "commit"@, json_str(p.commit@)),
    )
}

/// The member lines of the stored record: the checkpoint as retained by the
/// provider, with the readback outcome reset to `missing` and no readback
/// time.
pub open spec fn stored_lines(c: CargoAllowGitHubReleaseCheckpointV1) -> Seq<Seq<char>> {
    Seq::empty().push(pretty_member(0, "schema_id"@, json_str(c.schema_id@))).push(
        pretty_member(0, "schema_version"@, decimal(c.schema_version as nat)),
    ).push(pretty_member(0, "checkpoint_id"@, json_str(c.checkpoint_id@))).push(
        pretty_member(0, "operation_id"@, json_str(c.operation_id@)),
    ).push(pretty_member(0, "operation_identity_digest"@, json_str(c.operation_identity_digest@))).push(
        pretty_member(0, "operation_class"@, json_str(c.operation_class.wire())),
    ).push(pretty_member(0, "authorization_digest"@, json_str(c.authorization_digest@))).push(
        pretty_member(0, "custody_digest"@, json_str(c.custody_digest@)),
    ).push(pretty_member(0, "freeze_digest"@, json_str(c.freeze_digest@))).push(
        pretty_member(0, "repository"@, json_str(c.repository@)),
    ).push(pretty_member(0, "tag"@, json_str(c.tag@))).push(
        pretty_member(0, "journal_head_sequence"@, decimal(c.journal_head_sequence as nat)),
    ).push(pretty_member(0, "journal_head_digest"@, json_str(c.journal_head_digest@))).push(
        pretty_member(0, "checkpoint_sequence"@, decimal(c.checkpoint_sequence as nat)),
    ).push(pretty_member(0, "prior_checkpoint_digest"@, json_opt_str(opt_text(c.prior_checkpoint_digest)))).push(
        pretty_member(0, "kind"@, json_str(c.kind.wire())),
    ).push(pretty_member(0, "github_release_id"@, json_opt_str(opt_text(c.github_release_id)))).push(
        pretty_member(0, "gated_mutation"@, json_str(c.gated_mutation@)),
    ).push(pretty_member(0, "provider"@, pretty_object(1, provider_lines(c.provider)))).push(
        pretty_member(0, "producer"@, pretty_object(1, producer_lines(c.producer))),
    ).push(pretty_member(0, "retention_days"@, decimal(c.retention_days as nat))).push(
        pretty_member(0, "created_at_unix_seconds"@, decimal(c.created_at_unix_seconds as nat)),
    ).push(pretty_member(0, "expires_at_unix_seconds"@, decimal(c.expires_at_unix_seconds as nat))).push(
        pretty_member(0, "note"@, json_str(c.note@)),
    ).push(pretty_member(0, "readback"@, json_str("missing"@))).push(
        pretty_member(0, "readback_at_unix_seconds"@, json_opt_str(None)),
    ).push(pretty_member(0, "claim_boundary"@, json_str(c.claim_boundary@))).push(
        pretty_member(0, "limitations"@, pretty_str_array(1, views(c.limitations@))),
    )
}

/// The exact stored bytes of a checkpoint, as pretty-printed JSON text.
pub open spec fn stored_json(c: CargoAllowGitHubReleaseCheckpointV1) -> Seq<char> {
    pretty_object(0, stored_lines(c))
}

/// The link digest: the digest of the exact stored bytes.
pub open spec fn link_digest(c: CargoAllowGitHubReleaseCheckpointV1) -> Seq<char> {
    text_digest(stored_json(c))
}

fn member(lines: &mut Vec<String>, key: &str, value: &str, level: usize)
    requires
        level < usize::MAX,
    ensures
        views(final(lines)@) == views(old(lines)@).push(pretty_member(level as nat, key@, value@)),
{
    let line = pretty_member_line(level, key, value);
    let ghost before = views(lines@);
    lines.push(line);
    assert(views(lines@) =~= before.push(pretty_member(level as nat, key@, value@)));
}

fn str_member(lines: &mut Vec<String>, key: &str, value: &str, level: usize)
    requires
        level < usize::MAX,
    ensures
        views(final(lines)@) == views(old(lines)@).push(pretty_member(level as nat, key@, json_str(value@))),
{
    let mut v = String::new();
    crate::json::push_json_str(&mut v, value);
    member(lines, key, v.as_str(), level);
}

fn u64_member(lines: &mut Vec<String>, key: &str, value: u64, level: usize)
    requires
        level < usize::MAX,
    ensures
        views(final(lines)@) == views(old(lines)@).push(pretty_member(level as nat, key@, decimal(value as nat))),
{
    let v = decimal_string(value);
    member(lines, key, v.as_str(), level);
}

fn opt_member(lines: &mut Vec<String>, key: &str, value: &Option<String>)
    ensures
        views(final(lines)@) == views(old(lines)@).push(pretty_member(0, key@, json_opt_str(opt_text(*value)))),
{
    let mut v = String::new();
    crate::json::push_json_opt_str(&mut v, value);
    member(lines, key, v.as_str(), 0);
}

fn render_stored(c: &CargoAllowGitHubReleaseCheckpointV1) -> (r: String)
    ensures
        r@ == stored_json(*c),
{
    let mut p: Vec<String> = Vec::new();
    str_member(&mut p, "provider", c.provider.provider.wire_label(), 1);
    str_member(&mut p, "object_id", c.provider.object_id.as_str(), 1);
    str_member(&mut p, "object_name", c.provider.object_name.as_str(), 1);
    str_member(&mut p, "object_digest", c.provider.object_digest.as_str(), 1);
    u64_member(&mut p, "object_size_bytes", c.provider.object_size_bytes, 1);
    assert(views(p@) =~= provider_lines(c.provider));
    let provider = pretty_object_text(1, &p);
    let mut q: Vec<String> = Vec::new();
    str_member(&mut q, "workflow", c.producer.workflow.as_str(), 1);
    str_member(&mut q, "run", c.producer.run.as_str(), 1);
    str_member(&mut q, "attempt", c.producer.attempt.as_str(), 1);
    str_member(&mut q, "job", c.producer.job.as_str(), 1);
    str_member(&mut q, "git_ref", c.producer.git_ref.as_str(), 1);
    str_member(&mut q, "commit", c.producer.commit.as_str(), 1);
    assert(views(q@) =~= producer_lines(c.producer));
    let producer = pretty_object_text(1, &q);
    let limitations = pretty_str_array_text(1, &c.limitations);
    let mut l: Vec<String> = Vec::new();
    str_member(&mut l, "schema_id", c.schema_id.as_str(), 0);
    u64_member(&mut l, "schema_version", c.schema_version as u64, 0);
    str_member(&mut l, "checkpoint_id", c.checkpoint_id.as_str(), 0);
    str_member(&mut l, "operation_id", c.operation_id.as_str(), 0);
    str_member(&mut l, "operation_identity_digest", c.operation_identity_digest.as_str(), 0);
    str_member(&mut l, "operation_class", c.operation_class.wire_label(), 0);
    str_member(&mut l, "authorization_digest", c.authorization_digest.as_str(), 0);
    str_member(&mut l, "custody_digest", c.custody_digest.as_str(), 0);
    str_member(&mut l, "freeze_digest", c.freeze_digest.as_str(), 0);
    str_member(&mut l, "repository", c.repository.as_str(), 0);
    str_member(&mut l, "tag", c.tag.as_str(), 0);
    u64_member(&mut l, "journal_head_sequence", c.journal_head_sequence, 0);
    str_member(&mut l, "journal_head_digest", c.journal_head_digest.as_str(), 0);
    u64_member(&mut l, "checkpoint_sequence", c.checkpoint_sequence, 0);
    opt_member(&mut l, "prior_checkpoint_digest", &c.prior_checkpoint_digest);
    str_member(&mut l, "kind", c.kind.wire_label(), 0);
    opt_member(&mut l, "github_release_id", &c.github_release_id);
    str_member(&mut l, "gated_mutation", c.gated_mutation.as_str(), 0);
    member(&mut l, "provider", provider.as_str(), 0);
    member(&mut l, "producer", producer.as_str(), 0);
    u64_member(&mut l, "retention_days", c.retention_days as u64, 0);
    u64_member(&mut l, "created_at_unix_seconds", c.created_at_unix_seconds, 0);
    u64_member(&mut l, "expires_at_unix_seconds", c.expires_at_unix_seconds, 0);
    str_member(&mut l, "note", c.note.as_str(), 0);
    str_member(&mut l, "readback", "missing", 0);
    let none: Option<String> = None;
    opt_member(&mut l, "readback_at_unix_seconds", &none);
    str_member(&mut l, "claim_boundary", c.claim_boundary.as_str(), 0);
    member(&mut l, "limitations", limitations.as_str(), 0);
    proof {
        reveal_strlit("missing");
    }
    assert(views(l@) =~= stored_lines(*c));
    pretty_object_text(0, &l)
}

/// Canonical digest of stored checkpoint bytes, as retained in provider
/// objects for exact-byte readback comparison.
pub fn digest_github_release_checkpoint_bytes_v1(bytes: &[u8]) -> (r: String)
    ensures
        r@ == bytes_digest(bytes@),
        is_lower_sha256_digest(r@),
{
    digest_bytes(bytes)
}

/// Canonical digest of a checkpoint record: the digest of its exact stored
/// bytes.
pub fn digest_github_release_checkpoint_v1(checkpoint: &CargoAllowGitHubReleaseCheckpointV1) -> (r: String)
    ensures
        r@ == link_digest(*checkpoint),
        is_lower_sha256_digest(r@),
{
    let stored = render_stored(checkpoint);
    digest_text(stored.as_str())
}

/// Stable predecessor-link digest.
pub fn digest_github_release_checkpoint_link_v1(checkpoint: &CargoAllowGitHubReleaseCheckpointV1) -> (r: String)
    ensures
        r@ == link_digest(*checkpoint),
        is_lower_sha256_digest(r@),
{
    let stored = render_stored(checkpoint);
    digest_text(stored.as_str())
}


/// The exact stored bytes of a checkpoint: the provider object must return
/// these verbatim.
pub fn canonical_stored_checkpoint_bytes_v1(checkpoint: &CargoAllowGitHubReleaseCheckpointV1) -> (r: Vec<u8>)
    ensures
        r@ == encode_utf8(stored_json(*checkpoint)),
{
    let stored = render_stored(checkpoint);
    let b = stored.as_str().as_bytes();
    let mut out: Vec<u8> = Vec::new();
    let mut i: usize = 0;
    while i < b.len()
        invariant
            i <= b@.len(),
            out@ == b@.take(i as int),
        decreases b@.len() - i,
    {
        out.push(b[i]);
        assert(out@ =~= b@.take(i + 1));
        i = i + 1;
    }
    assert(b@.take(b@.len() as int) =~= b@);
    out
}


// ---------------------------------------------------------------------------
// Construction.
// ---------------------------------------------------------------------------

pub open spec fn producer_error(p: GitHubReleaseCheckpointProducerV1) -> Option<Seq<char>> {
    if blank(p.workflow@) || blank(p.run@) || blank(p.attempt@) || blank(p.job@) || blank(p.git_ref@) {
        Some("checkpoint producer identity must be complete"@)
    } else if has_secret_marker(p.run@) || has_secret_marker(p.job@) {
        Some("secret material must never enter checkpoint records"@)
    } else if !is_lower_git_sha(p.commit@) {
        Some("checkpoint producer commit must be a canonical Git SHA"@)
    } else {
        None
    }
}

fn validate_producer(p: &GitHubReleaseCheckpointProducerV1) -> (r: Option<&'static str>)
    ensures
        match producer_error(*p) {
            None => r is None,
            Some(m) => r is Some && r->0@ == m,
        },
{
    if is_blank(p.workflow.as_str()) || is_blank(p.run.as_str()) || is_blank(p.attempt.as_str()) || is_blank(
        p.job.as_str(),
    ) || is_blank(p.git_ref.as_str()) {
        return Some("checkpoint producer identity must be complete");
    }
    if secret_marker(p.run.as_str()) || secret_marker(p.job.as_str()) {
        return Some("secret material must never enter checkpoint records");
    }
    if !is_lower_git_sha_str(p.commit.as_str()) {
        return Some("checkpoint producer commit must be a canonical Git SHA");
    }
    None
}

/// Why a checkpoint cannot begin, before linkage is considered.
pub open spec fn init_error(i: GitHubReleaseCheckpointInitV1) -> Option<Seq<char>> {
    if blank(i.checkpoint_id@) {
        Some("checkpoints require checkpoint identity"@)
    } else if blank(i.operation_id@) {
        Some("checkpoints require an operation name"@)
    } else if !is_lower_sha256_digest(i.operation_identity_digest@) || !is_lower_sha256_digest(
        i.authorization_digest@,
    ) || !is_lower_sha256_digest(i.custody_digest@) || !is_lower_sha256_digest(i.freeze_digest@)
        || !is_lower_sha256_digest(i.journal_head_digest@) {
        Some("checkpoints require canonical operation and journal digests"@)
    } else if blank(i.repository@) || blank(i.tag@) {
        Some("checkpoints require repository and tag identity"@)
    } else if i.journal_head_sequence < 1 {
        Some("checkpoints bind a non-empty journal prefix"@)
    } else if i.checkpoint_sequence < 1 {
        Some("checkpoint sequence starts at one"@)
    } else if blank(i.gated_mutation@) {
        Some("checkpoints name the gated mutation"@)
    } else if i.github_release_id is Some && blank(i.github_release_id->0@) {
        Some("checkpoint release IDs must be non-empty when present"@)
    } else if blank(i.provider.object_id@) || blank(i.provider.object_name@) {
        Some("checkpoints require exact provider object identity"@)
    } else if !is_lower_sha256_digest(i.provider.object_digest@) {
        Some("checkpoints require a canonical provider object digest"@)
    } else if i.provider.object_size_bytes < 1 {
        Some("checkpoints require a non-empty provider object"@)
    } else if producer_error(i.producer) is Some {
        producer_error(i.producer)
    } else if i.retention_days < GITHUB_RELEASE_CHECKPOINT_MIN_RETENTION_DAYS || i.retention_days
        > GITHUB_RELEASE_CHECKPOINT_MAX_RETENTION_DAYS {
        Some("checkpoint retention must fit the provider window"@)
    } else if i.created_at_unix_seconds < 1 {
        Some("checkpoints require a positive construction time"@)
    } else if i.created_at_unix_seconds + i.retention_days * GITHUB_RELEASE_CHECKPOINT_RETENTION_SECONDS_PER_DAY
        > u64::MAX {
        Some("checkpoint expiry overflowed"@)
    } else if encode_utf8(i.note@).len() > GITHUB_RELEASE_CHECKPOINT_MAX_NOTE_LEN {
        Some("checkpoint notes are bounded and carry no bodies"@)
    } else if has_secret_marker(i.note@) {
        Some("secret material must never enter checkpoint records"@)
    } else {
        None
    }
}

/// Why `i` cannot follow `prev` in the same operation.
pub open spec fn link_error(i: GitHubReleaseCheckpointInitV1, prev: CargoAllowGitHubReleaseCheckpointV1) -> Option<
    Seq<char>,
> {
    if i.checkpoint_sequence != prev.checkpoint_sequence + 1 {
        Some("checkpoint sequence must advance by exactly one"@)
    } else if i.operation_id@ != prev.operation_id@ || i.operation_identity_digest@
        != prev.operation_identity_digest@ || i.authorization_digest@ != prev.authorization_digest@
        || i.custody_digest@ != prev.custody_digest@ || i.freeze_digest@ != prev.freeze_digest@
        || i.repository@ != prev.repository@ || i.tag@ != prev.tag@ {
        Some("checkpoint linkage never crosses operations"@)
    } else if i.operation_class != prev.operation_class {
        Some("checkpoint linkage never crosses operation classes"@)
    } else if prev.readback != GitHubReleaseCheckpointReadbackV1::Complete {
        Some("checkpoint linkage requires a verified predecessor readback"@)
    } else if prev.readback_at_unix_seconds is None {
        Some("verified predecessor readback requires its observation time"@)
    } else if i.created_at_unix_seconds < prev.created_at_unix_seconds || i.created_at_unix_seconds
        < prev.readback_at_unix_seconds->0 {
        Some("checkpoint construction time never moves backward"@)
    } else if i.checkpoint_id@ == prev.checkpoint_id@ || i.provider.object_id@ == prev.provider.object_id@ {
        Some("later checkpoints require new checkpoint and provider object identities"@)
    } else if i.journal_head_sequence < prev.journal_head_sequence {
        Some("checkpoint journal prefixes never move backward"@)
    } else if i.journal_head_sequence == prev.journal_head_sequence && i.journal_head_digest@
        != prev.journal_head_digest@ {
        Some("checkpoint journal prefixes are never rewritten"@)
    } else {
        None
    }
}

pub open spec fn begin_error(
    i: GitHubReleaseCheckpointInitV1,
    prior: Option<CargoAllowGitHubReleaseCheckpointV1>,
) -> Option<Seq<char>> {
    if init_error(i) is Some {
        init_error(i)
    } else {
        match prior {
            None => if i.checkpoint_sequence != 1 {
                Some("the first checkpoint of an operation starts at sequence one"@)
            } else {
                None
            },
            Some(prev) => link_error(i, prev),
        }
    }
}

/// `c` is the fresh checkpoint begun from `i` after `prior`.
pub open spec fn begun_from(
    c: CargoAllowGitHubReleaseCheckpointV1,
    i: GitHubReleaseCheckpointInitV1,
    prior: Option<CargoAllowGitHubReleaseCheckpointV1>,
) -> bool {
    &&& c.schema_id@ == GITHUB_RELEASE_CHECKPOINT_SCHEMA_ID@
    &&& c.schema_version == GITHUB_RELEASE_CHECKPOINT_SCHEMA_VERSION
    &&& c.checkpoint_id == i.checkpoint_id
    &&& c.operation_id == i.operation_id
    &&& c.operation_identity_digest == i.operation_identity_digest
    &&& c.operation_class == i.operation_class
    &&& c.authorization_digest == i.authorization_digest
    &&& c.custody_digest == i.custody_digest
    &&& c.freeze_digest == i.freeze_digest
    &&& c.repository == i.repository
    &&& c.tag == i.tag
    &&& c.journal_head_sequence == i.journal_head_sequence
    &&& c.journal_head_digest == i.journal_head_digest
    &&& c.checkpoint_sequence == i.checkpoint_sequence
    &&& opt_text(c.prior_checkpoint_digest) == match prior {
        None => None,
        Some(prev) => Some(link_digest(prev)),
    }
    &&& c.kind == i.kind
    &&& c.github_release_id == i.github_release_id
    &&& c.gated_mutation == i.gated_mutation
    &&& c.provider == i.provider
    &&& c.producer == i.producer
    &&& c.retention_days == i.retention_days
    &&& c.created_at_unix_seconds == i.created_at_unix_seconds
    &&& c.expires_at_unix_seconds == i.created_at_unix_seconds + i.retention_days
        * GITHUB_RELEASE_CHECKPOINT_RETENTION_SECONDS_PER_DAY
    &&& c.note == i.note
    &&& c.readback == GitHubReleaseCheckpointReadbackV1::Missing
    &&& c.readback_at_unix_seconds is None
    &&& c.claim_boundary@ == GITHUB_RELEASE_CHECKPOINT_CLAIM_BOUNDARY@
    &&& views(c.limitations@) == seq![
        "does_not_create_releases"@,
        "does_not_upload_assets"@,
        "does_not_authorize_operation"@,
    ]
}

fn init_check(i: &GitHubReleaseCheckpointInitV1) -> (r: Option<&'static str>)
    ensures
        match init_error(*i) {
            None => r is None,
            Some(m) => r is Some && r->0@ == m,
        },
{
    if is_blank(i.checkpoint_id.as_str()) {
        return Some("checkpoints require checkpoint identity");
    }
    if is_blank(i.operation_id.as_str()) {
        return Some("checkpoints require an operation name");
    }
    if !is_lower_sha256_digest_str(i.operation_identity_digest.as_str()) || !is_lower_sha256_digest_str(
        i.authorization_digest.as_str(),
    ) || !is_lower_sha256_digest_str(i.custody_digest.as_str()) || !is_lower_sha256_digest_str(
        i.freeze_digest.as_str(),
    ) || !is_lower_sha256_digest_str(i.journal_head_digest.as_str()) {
        return Some("checkpoints require canonical operation and journal digests");
    }
    if is_blank(i.repository.as_str()) || is_blank(i.tag.as_str()) {
        return Some("checkpoints require repository and tag identity");
    }
    if i.journal_head_sequence < 1 {
        return Some("checkpoints bind a non-empty journal prefix");
    }
    if i.checkpoint_sequence < 1 {
        return Some("checkpoint sequence starts at one");
    }
    if is_blank(i.gated_mutation.as_str()) {
        return Some("checkpoints name the gated mutation");
    }
    match &i.github_release_id {
        Some(id) => {
            if is_blank(id.as_str()) {
                return Some("checkpoint release IDs must be non-empty when present");
            }
        },
        None => {},
    }
    if is_blank(i.provider.object_id.as_str()) || is_blank(i.provider.object_name.as_str()) {
        return Some("checkpoints require exact provider object identity");
    }
    if !is_lower_sha256_digest_str(i.provider.object_digest.as_str()) {
        return Some("checkpoints require a canonical provider object digest");
    }
    if i.provider.object_size_bytes < 1 {
        return Some("checkpoints require a non-empty provider object");
    }
    match validate_producer(&i.producer) {
        Some(m) => {
            return Some(m);
        },
        None => {},
    }
    if i.retention_days < GITHUB_RELEASE_CHECKPOINT_MIN_RETENTION_DAYS || i.retention_days
        > GITHUB_RELEASE_CHECKPOINT_MAX_RETENTION_DAYS {
        return Some("checkpoint retention must fit the provider window");
    }
    if i.created_at_unix_seconds < 1 {
        return Some("checkpoints require a positive construction time");
    }
    let retention_seconds = i.retention_days as u64 * GITHUB_RELEASE_CHECKPOINT_RETENTION_SECONDS_PER_DAY;
    if i.created_at_unix_seconds.checked_add(retention_seconds).is_none() {
        return Some("checkpoint expiry overflowed");
    }
    if i.note.as_str().as_bytes().len() > GITHUB_RELEASE_CHECKPOINT_MAX_NOTE_LEN {
        return Some("checkpoint notes are bounded and carry no bodies");
    }
    if secret_marker(i.note.as_str()) {
        return Some("secret material must never enter checkpoint records");
    }
    None
}

fn link_check(i: &GitHubReleaseCheckpointInitV1, prev: &CargoAllowGitHubReleaseCheckpointV1) -> (r: Option<
    &'static str,
>)
    ensures
        match link_error(*i, *prev) {
            None => r is None,
            Some(m) => r is Some && r->0@ == m,
        },
{
    if prev.checkpoint_sequence == u64::MAX || i.checkpoint_sequence != prev.checkpoint_sequence + 1 {
        return Some("checkpoint sequence must advance by exactly one");
    }
    if !str_eq(i.operation_id.as_str(), prev.operation_id.as_str()) || !str_eq(
        i.operation_identity_digest.as_str(),
        prev.operation_identity_digest.as_str(),
    ) || !str_eq(i.authorization_digest.as_str(), prev.authorization_digest.as_str()) || !str_eq(
        i.custody_digest.as_str(),
        prev.custody_digest.as_str(),
    ) || !str_eq(i.freeze_digest.as_str(), prev.freeze_digest.as_str()) || !str_eq(
        i.repository.as_str(),
        prev.repository.as_str(),
    ) || !str_eq(i.tag.as_str(), prev.tag.as_str()) {
        return Some("checkpoint linkage never crosses operations");
    }
    if i.operation_class != prev.operation_class {
        return Some("checkpoint linkage never crosses operation classes");
    }
    if prev.readback != GitHubReleaseCheckpointReadbackV1::Complete {
        return Some("checkpoint linkage requires a verified predecessor readback");
    }
    let previous_readback_at = match prev.readback_at_unix_seconds {
        Some(t) => t,
        None => {
            return Some("verified predecessor readback requires its observation time");
        },
    };
    if i.created_at_unix_seconds < prev.created_at_unix_seconds || i.created_at_unix_seconds
        < previous_readback_at {
        return Some("checkpoint construction time never moves backward");
    }
    if str_eq(i.checkpoint_id.as_str(), prev.checkpoint_id.as_str()) || str_eq(
        i.provider.object_id.as_str(),
        prev.provider.object_id.as_str(),
    ) {
        return Some("later checkpoints require new checkpoint and provider object identities");
    }
    if i.journal_head_sequence < prev.journal_head_sequence {
        return Some("checkpoint journal prefixes never move backward");
    }
    if i.journal_head_sequence == prev.journal_head_sequence && !str_eq(
        i.journal_head_digest.as_str(),
        prev.journal_head_digest.as_str(),
    ) {
        return Some("checkpoint journal prefixes are never rewritten");
    }
    None
}

/// Begins a checkpoint bound to one operation and journal prefix. `prior`
/// carries the predecessor in the same operation when the sequence exceeds
/// one; linkage is enforced here so a later clean record can never
/// overwrite incident history.
pub fn begin_github_release_checkpoint_v1(
    init: GitHubReleaseCheckpointInitV1,
    prior: Option<&CargoAllowGitHubReleaseCheckpointV1>,
) -> (r: Result<CargoAllowGitHubReleaseCheckpointV1, &'static str>)
    ensures
        match begin_error(
            init,
            match prior {
                Some(p) => Some(*p),
                None => None,
            },
        ) {
            Some(e) => r is Err && r->Err_0@ == e,
            None => r is Ok && begun_from(
                r->Ok_0,
                init,
                match prior {
                    Some(p) => Some(*p),
                    None => None,
                },
            ),
        },
{
    match init_check(&init) {
        Some(m) => {
            return Err(m);
        },
        None => {},
    }
    let expected_expiry = init.created_at_unix_seconds + init.retention_days as u64
        * GITHUB_RELEASE_CHECKPOINT_RETENTION_SECONDS_PER_DAY;
    let prior_checkpoint_digest = match prior {
        None => {
            if init.checkpoint_sequence != 1 {
                return Err("the first checkpoint of an operation starts at sequence one");
            }
            None
        },
        Some(previous) => {
            match link_check(&init, previous) {
                Some(m) => {
                    return Err(m);
                },
                None => {},
            }
            Some(digest_github_release_checkpoint_link_v1(previous))
        },
    };
    let mut limitations: Vec<String> = Vec::new();
    limitations.push("does_not_create_releases".to_string());
    limitations.push("does_not_upload_assets".to_string());
    limitations.push("does_not_authorize_operation".to_string());
    assert(views(limitations@) =~= seq![
        "does_not_create_releases"@,
        "does_not_upload_assets"@,
        "does_not_authorize_operation"@,
    ]);
    Ok(
        CargoAllowGitHubReleaseCheckpointV1 {
            schema_id: GITHUB_RELEASE_CHECKPOINT_SCHEMA_ID.to_string(),
            schema_version: GITHUB_RELEASE_CHECKPOINT_SCHEMA_VERSION,
            checkpoint_id: init.checkpoint_id,
            operation_id: init.operation_id,
            operation_identity_digest: init.operation_identity_digest,
            operation_class: init.operation_class,
            authorization_digest: init.authorization_digest,
            custody_digest: init.custody_digest,
            freeze_digest: init.freeze_digest,
            repository: init.repository,
            tag: init.tag,
            journal_head_sequence: init.journal_head_sequence,
            journal_head_digest: init.journal_head_digest,
            checkpoint_sequence: init.checkpoint_sequence,
            prior_checkpoint_digest,
            kind: init.kind,
            github_release_id: init.github_release_id,
            gated_mutation: init.gated_mutation,
            provider: init.provider,
            producer: init.producer,
            retention_days: init.retention_days,
            created_at_unix_seconds: init.created_at_unix_seconds,
            expires_at_unix_seconds: expected_expiry,
            note: init.note,
            readback: GitHubReleaseCheckpointReadbackV1::Missing,
            readback_at_unix_seconds: None,
            claim_boundary: GITHUB_RELEASE_CHECKPOINT_CLAIM_BOUNDARY.to_string(),
            limitations,
        },
    )
}

// ---------------------------------------------------------------------------
// Readback.
// ---------------------------------------------------------------------------

pub open spec fn same_producer(a: GitHubReleaseCheckpointProducerV1, b: GitHubReleaseCheckpointProducerV1) -> bool {
    &&& a.workflow@ == b.workflow@
    &&& a.run@ == b.run@
    &&& a.attempt@ == b.attempt@
    &&& a.job@ == b.job@
    &&& a.git_ref@ == b.git_ref@
    &&& a.commit@ == b.commit@
}

fn producers_equal(a: &GitHubReleaseCheckpointProducerV1, b: &GitHubReleaseCheckpointProducerV1) -> (r: bool)
    ensures
        r == same_producer(*a, *b),
{
    str_eq(a.workflow.as_str(), b.workflow.as_str()) && str_eq(a.run.as_str(), b.run.as_str()) && str_eq(
        a.attempt.as_str(),
        b.attempt.as_str(),
    ) && str_eq(a.job.as_str(), b.job.as_str()) && str_eq(a.git_ref.as_str(), b.git_ref.as_str())
        && str_eq(a.commit.as_str(), b.commit.as_str())
}

pub open spec fn same_subject(e: CargoAllowGitHubReleaseCheckpointV1, o: CargoAllowGitHubReleaseCheckpointV1) -> bool {
    &&& e.schema_id@ == o.schema_id@
    &&& e.schema_version == o.schema_version
    &&& e.operation_id@ == o.operation_id@
    &&& e.operation_identity_digest@ == o.operation_identity_digest@
    &&& e.operation_class == o.operation_class
    &&& e.authorization_digest@ == o.authorization_digest@
    &&& e.custody_digest@ == o.custody_digest@
    &&& e.freeze_digest@ == o.freeze_digest@
    &&& e.repository@ == o.repository@
    &&& e.tag@ == o.tag@
    &&& same_producer(e.producer, o.producer)
}

fn same_checkpoint_subject_v1(e: &CargoAllowGitHubReleaseCheckpointV1, o: &CargoAllowGitHubReleaseCheckpointV1) -> (r:
    bool)
    ensures
        r == same_subject(*e, *o),
{
    str_eq(e.schema_id.as_str(), o.schema_id.as_str()) && e.schema_version == o.schema_version && str_eq(
        e.operation_id.as_str(),
        o.operation_id.as_str(),
    ) && str_eq(e.operation_identity_digest.as_str(), o.operation_identity_digest.as_str())
        && e.operation_class == o.operation_class && str_eq(
        e.authorization_digest.as_str(),
        o.authorization_digest.as_str(),
    ) && str_eq(e.custody_digest.as_str(), o.custody_digest.as_str()) && str_eq(
        e.freeze_digest.as_str(),
        o.freeze_digest.as_str(),
    ) && str_eq(e.repository.as_str(), o.repository.as_str()) && str_eq(e.tag.as_str(), o.tag.as_str())
        && producers_equal(&e.producer, &o.producer)
}

/// The classification of delivered bytes. `parsed` is the checkpoint the
/// bytes decode to, or `None` when they are not a checkpoint document.
pub open spec fn delivered_class(
    c: CargoAllowGitHubReleaseCheckpointV1,
    bytes: Seq<u8>,
    parsed: Option<CargoAllowGitHubReleaseCheckpointV1>,
) -> GitHubReleaseCheckpointReadbackV1 {
    if bytes.len() == 0 {
        GitHubReleaseCheckpointReadbackV1::Mismatch
    } else {
        match parsed {
            None => GitHubReleaseCheckpointReadbackV1::Mismatch,
            Some(p) => if !same_subject(c, p) {
                GitHubReleaseCheckpointReadbackV1::Mismatch
            } else if p.checkpoint_sequence < c.checkpoint_sequence {
                GitHubReleaseCheckpointReadbackV1::Stale
            } else if p.checkpoint_sequence != c.checkpoint_sequence {
                GitHubReleaseCheckpointReadbackV1::Mismatch
            } else if bytes != encode_utf8(stored_json(c)) {
                GitHubReleaseCheckpointReadbackV1::Mismatch
            } else if bytes.len() != c.provider.object_size_bytes {
                GitHubReleaseCheckpointReadbackV1::Mismatch
            } else if body_digest(p) != c.provider.object_digest@ {
                GitHubReleaseCheckpointReadbackV1::Mismatch
            } else {
                GitHubReleaseCheckpointReadbackV1::Complete
            },
        }
    }
}

fn bytes_equal(a: &[u8], b: &[u8]) -> (r: bool)
    ensures
        r == (a@ == b@),
{
    if a.len() != b.len() {
        return false;
    }
    let mut i: usize = 0;
    while i < a.len()
        invariant
            i <= a@.len(),
            a@.len() == b@.len(),
            forall|k: int| 0 <= k < i ==> a@[k] == b@[k],
        decreases a@.len() - i,
    {
        if a[i] != b[i] {
            return false;
        }
        i = i + 1;
    }
    assert(a@ =~= b@);
    true
}

fn classify_delivered_v1(
    checkpoint: &CargoAllowGitHubReleaseCheckpointV1,
    bytes: &[u8],
    parsed: &Option<CargoAllowGitHubReleaseCheckpointV1>,
) -> (r: GitHubReleaseCheckpointReadbackV1)
    ensures
        r == delivered_class(*checkpoint, bytes@, *parsed),
{
    if bytes.len() == 0 {
        return GitHubReleaseCheckpointReadbackV1::Mismatch;
    }
    let p = match parsed {
        None => {
            return GitHubReleaseCheckpointReadbackV1::Mismatch;
        },
        Some(p) => p,
    };
    if !same_checkpoint_subject_v1(checkpoint, p) {
        return GitHubReleaseCheckpointReadbackV1::Mismatch;
    }
    if p.checkpoint_sequence < checkpoint.checkpoint_sequence {
        return GitHubReleaseCheckpointReadbackV1::Stale;
    }
    if p.checkpoint_sequence != checkpoint.checkpoint_sequence {
        return GitHubReleaseCheckpointReadbackV1::Mismatch;
    }
    let stored = render_stored(checkpoint);
    if !bytes_equal(bytes, stored.as_str().as_bytes()) {
        return GitHubReleaseCheckpointReadbackV1::Mismatch;
    }
    if bytes.len() as u64 != checkpoint.provider.object_size_bytes {
        return GitHubReleaseCheckpointReadbackV1::Mismatch;
    }
    let body = digest_github_release_checkpoint_body_v1(p);
    if !str_eq(body.as_str(), checkpoint.provider.object_digest.as_str()) {
        return GitHubReleaseCheckpointReadbackV1::Mismatch;
    }
    GitHubReleaseCheckpointReadbackV1::Complete
}

/// Why a readback observation at `at` is refused.
pub open spec fn readback_time_error(c: CargoAllowGitHubReleaseCheckpointV1, at: u64) -> Option<Seq<char>> {
    if at < c.created_at_unix_seconds {
        Some("readbacks must not predate checkpoint construction"@)
    } else if c.readback_at_unix_seconds is Some && at < c.readback_at_unix_seconds->0 {
        Some("readback observations never move backward"@)
    } else {
        None
    }
}

fn readback_time_check(c: &CargoAllowGitHubReleaseCheckpointV1, at: u64) -> (r: Option<&'static str>)
    ensures
        match readback_time_error(*c, at) {
            None => r is None,
            Some(m) => r is Some && r->0@ == m,
        },
{
    if at < c.created_at_unix_seconds {
        return Some("readbacks must not predate checkpoint construction");
    }
    match c.readback_at_unix_seconds {
        Some(previous) => {
            if at < previous {
                return Some("readback observations never move backward");
            }
        },
        None => {},
    }
    None
}

/// Records an outage or instrument failure on the checkpoint. Delivered
/// bytes are only classified here (the record is unchanged); recording them
/// goes through the witness path.
pub fn record_github_release_checkpoint_readback_v1(
    checkpoint: &mut CargoAllowGitHubReleaseCheckpointV1,
    outcome: GitHubCheckpointProviderOutcomeV1,
    at_unix_seconds: u64,
    parsed: Option<CargoAllowGitHubReleaseCheckpointV1>,
) -> (r: Result<GitHubReleaseCheckpointReadbackV1, &'static str>)
    ensures
        match readback_time_error(*old(checkpoint), at_unix_seconds) {
            Some(e) => r is Err && r->Err_0@ == e && *final(checkpoint) == *old(checkpoint),
            None => match outcome {
                GitHubCheckpointProviderOutcomeV1::Unavailable => r == Ok::<
                    GitHubReleaseCheckpointReadbackV1,
                    &'static str,
                >(GitHubReleaseCheckpointReadbackV1::ProviderUnavailable) && *final(checkpoint) == (
                CargoAllowGitHubReleaseCheckpointV1 {
                    readback: GitHubReleaseCheckpointReadbackV1::ProviderUnavailable,
                    readback_at_unix_seconds: Some(at_unix_seconds),
                    ..*old(checkpoint)
                }),
                GitHubCheckpointProviderOutcomeV1::InstrumentFailure => r == Ok::<
                    GitHubReleaseCheckpointReadbackV1,
                    &'static str,
                >(GitHubReleaseCheckpointReadbackV1::InstrumentFailure) && *final(checkpoint) == (
                CargoAllowGitHubReleaseCheckpointV1 {
                    readback: GitHubReleaseCheckpointReadbackV1::InstrumentFailure,
                    readback_at_unix_seconds: Some(at_unix_seconds),
                    ..*old(checkpoint)
                }),
                GitHubCheckpointProviderOutcomeV1::Delivered(bytes) => r == Ok::<
                    GitHubReleaseCheckpointReadbackV1,
                    &'static str,
                >(delivered_class(*old(checkpoint), bytes@, parsed)) && *final(checkpoint) == *old(
                    checkpoint,
                ),
            },
        },
{
    match readback_time_check(checkpoint, at_unix_seconds) {
        Some(m) => {
            return Err(m);
        },
        None => {},
    }
    match outcome {
        GitHubCheckpointProviderOutcomeV1::Unavailable => {
            checkpoint.readback = GitHubReleaseCheckpointReadbackV1::ProviderUnavailable;
            checkpoint.readback_at_unix_seconds = Some(at_unix_seconds);
            Ok(GitHubReleaseCheckpointReadbackV1::ProviderUnavailable)
        },
        GitHubCheckpointProviderOutcomeV1::InstrumentFailure => {
            checkpoint.readback = GitHubReleaseCheckpointReadbackV1::InstrumentFailure;
            checkpoint.readback_at_unix_seconds = Some(at_unix_seconds);
            Ok(GitHubReleaseCheckpointReadbackV1::InstrumentFailure)
        },
        GitHubCheckpointProviderOutcomeV1::Delivered(bytes) => {
            Ok(classify_delivered_v1(checkpoint, bytes.as_slice(), &parsed))
        },
    }
}

/// Records delivered provider bytes, returning an opaque witness when they
/// read back `Complete`. Outages and instrument failures record as in
/// `record_github_release_checkpoint_readback_v1`.
pub fn record_github_release_checkpoint_readback_with_witness_v1(
    checkpoint: &mut CargoAllowGitHubReleaseCheckpointV1,
    outcome: GitHubCheckpointProviderOutcomeV1,
    at_unix_seconds: u64,
    parsed: Option<CargoAllowGitHubReleaseCheckpointV1>,
) -> (r: Result<(GitHubReleaseCheckpointReadbackV1, Option<GitHubReleaseCheckpointReadbackWitnessV1>), &'static str>)
    ensures
        match readback_time_error(*old(checkpoint), at_unix_seconds) {
            Some(e) => r is Err && r->Err_0@ == e && *final(checkpoint) == *old(checkpoint),
            None => match outcome {
                GitHubCheckpointProviderOutcomeV1::Delivered(bytes) => {
                    let v = delivered_class(*old(checkpoint), bytes@, parsed);
                    &&& r is Ok
                    &&& r->Ok_0.0 == v
                    &&& *final(checkpoint) == (CargoAllowGitHubReleaseCheckpointV1 {
                        readback: v,
                        readback_at_unix_seconds: Some(at_unix_seconds),
                        ..*old(checkpoint)
                    })
                    &&& (v == GitHubReleaseCheckpointReadbackV1::Complete) == (r->Ok_0.1 is Some)
                    &&& r->Ok_0.1 is Some ==> {
                        let w = r->Ok_0.1->0;
                        &&& w.link_digest() == link_digest(*final(checkpoint))
                        &&& w.object_id() == old(checkpoint).provider.object_id@
                        &&& w.downloaded_digest() == bytes_digest(bytes@)
                        &&& w.observed_at() == at_unix_seconds
                    }
                },
                GitHubCheckpointProviderOutcomeV1::Unavailable => r == Ok::<
                    (GitHubReleaseCheckpointReadbackV1, Option<GitHubReleaseCheckpointReadbackWitnessV1>),
                    &'static str,
                >((GitHubReleaseCheckpointReadbackV1::ProviderUnavailable, None)) && *final(checkpoint) == (
                CargoAllowGitHubReleaseCheckpointV1 {
                    readback: GitHubReleaseCheckpointReadbackV1::ProviderUnavailable,
                    readback_at_unix_seconds: Some(at_unix_seconds),
                    ..*old(checkpoint)
                }),
                GitHubCheckpointProviderOutcomeV1::InstrumentFailure => r == Ok::<
                    (GitHubReleaseCheckpointReadbackV1, Option<GitHubReleaseCheckpointReadbackWitnessV1>),
                    &'static str,
                >((GitHubReleaseCheckpointReadbackV1::InstrumentFailure, None)) && *final(checkpoint) == (
                CargoAllowGitHubReleaseCheckpointV1 {
                    readback: GitHubReleaseCheckpointReadbackV1::InstrumentFailure,
                    readback_at_unix_seconds: Some(at_unix_seconds),
                    ..*old(checkpoint)
                }),
            },
        },
{
    match readback_time_check(checkpoint, at_unix_seconds) {
        Some(m) => {
            return Err(m);
        },
        None => {},
    }
    let bytes = match outcome {
        GitHubCheckpointProviderOutcomeV1::Unavailable => {
            checkpoint.readback = GitHubReleaseCheckpointReadbackV1::ProviderUnavailable;
            checkpoint.readback_at_unix_seconds = Some(at_unix_seconds);
            return Ok((GitHubReleaseCheckpointReadbackV1::ProviderUnavailable, None));
        },
        GitHubCheckpointProviderOutcomeV1::InstrumentFailure => {
            checkpoint.readback = GitHubReleaseCheckpointReadbackV1::InstrumentFailure;
            checkpoint.readback_at_unix_seconds = Some(at_unix_seconds);
            return Ok((GitHubReleaseCheckpointReadbackV1::InstrumentFailure, None));
        },
        GitHubCheckpointProviderOutcomeV1::Delivered(bytes) => bytes,
    };
    let verdict = classify_delivered_v1(checkpoint, bytes.as_slice(), &parsed);
    checkpoint.readback = verdict;
    checkpoint.readback_at_unix_seconds = Some(at_unix_seconds);
    if verdict != GitHubReleaseCheckpointReadbackV1::Complete {
        return Ok((verdict, None));
    }
    let witness = GitHubReleaseCheckpointReadbackWitnessV1 {
        checkpoint_link_digest: digest_github_release_checkpoint_link_v1(checkpoint),
        provider_object_id: checkpoint.provider.object_id.clone(),
        downloaded_bytes_digest: digest_github_release_checkpoint_bytes_v1(bytes.as_slice()),
        observed_at_unix_seconds: at_unix_seconds,
    };
    Ok((verdict, Some(witness)))
}

// ---------------------------------------------------------------------------
// Selection and verification.
// ---------------------------------------------------------------------------

pub open spec fn identity_match(
    c: CargoAllowGitHubReleaseCheckpointV1,
    object_id: Seq<char>,
    producer: GitHubReleaseCheckpointProducerV1,
    operation_id: Seq<char>,
    operation_identity_digest: Seq<char>,
) -> bool {
    &&& c.provider.object_id@ == object_id
    &&& same_producer(c.producer, producer)
    &&& c.operation_id@ == operation_id
    &&& c.operation_identity_digest@ == operation_identity_digest
}

/// Selects one checkpoint by exact identity. The provider object name never
/// participates: a same-name object from another run, producer, or operation
/// is never selected, and two exact matches are ambiguous.
pub fn select_github_release_checkpoint_by_exact_identity_v1<'a>(
    candidates: &'a Vec<CargoAllowGitHubReleaseCheckpointV1>,
    object_id: &str,
    expected_producer: &GitHubReleaseCheckpointProducerV1,
    operation_id: &str,
    operation_identity_digest: &str,
) -> (r: Result<Option<&'a CargoAllowGitHubReleaseCheckpointV1>, &'static str>)
    ensures
        match r {
            Err(e) => {
                &&& e@ == "checkpoint discovery by exact identity is ambiguous"@
                &&& exists|i: int, k: int|
                    0 <= i < k < candidates@.len() && identity_match(
                        #[trigger] candidates@[i],
                        object_id@,
                        *expected_producer,
                        operation_id@,
                        operation_identity_digest@,
                    ) && identity_match(
                        #[trigger] candidates@[k],
                        object_id@,
                        *expected_producer,
                        operation_id@,
                        operation_identity_digest@,
                    )
            },
            Ok(None) => forall|i: int|
                0 <= i < candidates@.len() ==> !identity_match(
                    #[trigger] candidates@[i],
                    object_id@,
                    *expected_producer,
                    operation_id@,
                    operation_identity_digest@,
                ),
            Ok(Some(c)) => exists|i: int|
                0 <= i < candidates@.len() && *c == candidates@[i] && identity_match(
                    candidates@[i],
                    object_id@,
                    *expected_producer,
                    operation_id@,
                    operation_identity_digest@,
                ) && forall|k: int|
                    0 <= k < candidates@.len() && k != i ==> !identity_match(
                        #[trigger] candidates@[k],
                        object_id@,
                        *expected_producer,
                        operation_id@,
                        operation_identity_digest@,
                    ),
        },
{
    let mut found: Option<usize> = None;
    let mut i: usize = 0;
    while i < candidates.len()
        invariant
            i <= candidates@.len(),
            match found {
                None => forall|k: int|
                    0 <= k < i ==> !identity_match(
                        #[trigger] candidates@[k],
                        object_id@,
                        *expected_producer,
                        operation_id@,
                        operation_identity_digest@,
                    ),
                Some(f) => f < i && identity_match(
                    candidates@[f as int],
                    object_id@,
                    *expected_producer,
                    operation_id@,
                    operation_identity_digest@,
                ) && forall|k: int|
                    0 <= k < i && k != f ==> !identity_match(
                        #[trigger] candidates@[k],
                        object_id@,
                        *expected_producer,
                        operation_id@,
                        operation_identity_digest@,
                    ),
            },
        decreases candidates@.len() - i,
    {
        let c = &candidates[i];
        if str_eq(c.provider.object_id.as_str(), object_id) && producers_equal(&c.producer, expected_producer)
            && str_eq(c.operation_id.as_str(), operation_id) && str_eq(
            c.operation_identity_digest.as_str(),
            operation_identity_digest,
        ) {
            match found {
                Some(f) => {
                    assert(identity_match(candidates@[f as int], object_id@, *expected_producer, operation_id@, operation_identity_digest@));
                    assert(identity_match(candidates@[i as int], object_id@, *expected_producer, operation_id@, operation_identity_digest@));
                    return Err("checkpoint discovery by exact identity is ambiguous");
                },
                None => {
                    found = Some(i);
                },
            }
        }
        i = i + 1;
    }
    match found {
        None => Ok(None),
        Some(f) => Ok(Some(&candidates[f])),
    }
}

pub open spec fn witness_error(
    c: CargoAllowGitHubReleaseCheckpointV1,
    w: GitHubReleaseCheckpointReadbackWitnessV1,
) -> Option<Seq<char>> {
    if w.link_digest() != link_digest(c) {
        Some("checkpoint readback witness does not bind this checkpoint"@)
    } else if w.object_id() != c.provider.object_id@ {
        Some("checkpoint readback witness names another provider object"@)
    } else if w.observed_at() != match c.readback_at_unix_seconds {
        Some(t) => t,
        None => 0,
    } {
        Some("checkpoint readback witness time does not match the observation"@)
    } else if text_digest(stored_json(c)) != w.downloaded_digest() {
        Some("checkpoint readback witness does not bind the exact downloaded bytes"@)
    } else {
        None
    }
}

fn verify_readback_witness_v1(
    c: &CargoAllowGitHubReleaseCheckpointV1,
    w: &GitHubReleaseCheckpointReadbackWitnessV1,
) -> (r: Option<&'static str>)
    ensures
        match witness_error(*c, *w) {
            None => r is None,
            Some(m) => r is Some && r->0@ == m,
        },
{
    let link = digest_github_release_checkpoint_link_v1(c);
    if !str_eq(w.checkpoint_link_digest.as_str(), link.as_str()) {
        return Some("checkpoint readback witness does not bind this checkpoint");
    }
    if !str_eq(w.provider_object_id.as_str(), c.provider.object_id.as_str()) {
        return Some("checkpoint readback witness names another provider object");
    }
    let at = match c.readback_at_unix_seconds {
        Some(t) => t,
        None => 0,
    };
    if w.observed_at_unix_seconds != at {
        return Some("checkpoint readback witness time does not match the observation");
    }
    let stored = render_stored(c);
    let d = digest_text(stored.as_str());
    if !str_eq(d.as_str(), w.downloaded_bytes_digest.as_str()) {
        return Some("checkpoint readback witness does not bind the exact downloaded bytes");
    }
    None
}

/// The live journal holds the entry the checkpoint names as its head.
pub open spec fn journal_has_head(
    es: Seq<CargoAllowGitHubReleaseJournalEntryV1>,
    sequence: u64,
    digest: Seq<char>,
) -> bool {
    exists|i: int| 0 <= i < es.len() && (#[trigger] es[i]).sequence == sequence && es[i].entry_digest@ == digest
}

/// Why a checkpoint does not authorize progress on the journal, in the
/// order checked after the witness and the journal itself.
pub open spec fn against_journal_error(
    c: CargoAllowGitHubReleaseCheckpointV1,
    j: CargoAllowGitHubReleaseJournalV1,
    expected: GitHubReleaseCheckpointProducerV1,
    now: u64,
) -> Option<Seq<char>> {
    if c.journal_head_sequence < 1 {
        Some("checkpoints bind a non-empty journal prefix"@)
    } else if !journal_has_head(j.entries@, c.journal_head_sequence, c.journal_head_digest@) {
        Some("checkpoint journal prefix does not match the live journal"@)
    } else if c.operation_identity_digest@ != j.operation_identity_digest@ || c.operation_id@ != j.operation_id@
        || c.authorization_digest@ != j.authorization_digest@ || c.custody_digest@ != j.custody_digest@
        || c.freeze_digest@ != j.freeze_digest@ || c.repository@ != j.repository@ || c.tag@ != j.tag@ {
        Some("checkpoint operation identity must match the verified journal header"@)
    } else if c.producer.workflow@ != j.workflow@ || c.producer.run@ != j.run@ || c.producer.attempt@
        != j.attempt@ || c.producer.job@ != j.job@ {
        Some("checkpoint producer execution identity must match the journal"@)
    } else if !same_producer(c.producer, expected) {
        Some("checkpoint producer must match the expected release producer"@)
    } else if c.readback != GitHubReleaseCheckpointReadbackV1::Complete {
        Some("provider success without readback is never clean"@)
    } else if c.readback_at_unix_seconds is None {
        Some("Complete readback requires an observation time"@)
    } else if c.readback_at_unix_seconds->0 < c.created_at_unix_seconds || c.readback_at_unix_seconds->0 > now
        || c.readback_at_unix_seconds->0 >= c.expires_at_unix_seconds {
        Some("checkpoint readback time is outside its trusted window"@)
    } else if now < c.created_at_unix_seconds || now >= c.expires_at_unix_seconds {
        Some("expired or premature checkpoints never authorize progress"@)
    } else {
        None
    }
}

fn journal_head_present(es: &Vec<CargoAllowGitHubReleaseJournalEntryV1>, sequence: u64, digest: &str) -> (r: bool)
    ensures
        r == journal_has_head(es@, sequence, digest@),
{
    let mut i: usize = 0;
    while i < es.len()
        invariant
            i <= es@.len(),
            forall|k: int| 0 <= k < i ==> !((#[trigger] es@[k]).sequence == sequence && es@[k].entry_digest@ == digest@),
        decreases es@.len() - i,
    {
        if es[i].sequence == sequence && str_eq(es[i].entry_digest.as_str(), digest) {
            assert(es@[i as int].sequence == sequence);
            return true;
        }
        i = i + 1;
    }
    false
}

/// Verifies a checkpoint against the live journal, the expected producer,
/// the opaque exact-byte readback witness, and the wall clock. A serialized
/// `readback=complete` field is evidence only, never progress authority.
pub fn verify_github_release_checkpoint_against_journal_v1(
    checkpoint: &CargoAllowGitHubReleaseCheckpointV1,
    witness: &GitHubReleaseCheckpointReadbackWitnessV1,
    journal: &CargoAllowGitHubReleaseJournalV1,
    expected_producer: &GitHubReleaseCheckpointProducerV1,
    now_unix_seconds: u64,
) -> (r: Result<(), &'static str>)
    ensures
        if witness_error(*checkpoint, *witness) is Some {
            r is Err && r->Err_0@ == witness_error(*checkpoint, *witness)->0
        } else if verify_error(*journal) is Some {
            r is Err && r->Err_0@ == verify_error(*journal)->0
        } else {
            match against_journal_error(*checkpoint, *journal, *expected_producer, now_unix_seconds) {
                Some(e) => r is Err && r->Err_0@ == e,
                None => r is Ok,
            }
        },
{
    match verify_readback_witness_v1(checkpoint, witness) {
        Some(m) => {
            return Err(m);
        },
        None => {},
    }
    match verify_github_release_journal_v1(journal) {
        Err(m) => {
            return Err(m);
        },
        Ok(()) => {},
    }
    let c = checkpoint;
    let j = journal;
    if c.journal_head_sequence < 1 {
        return Err("checkpoints bind a non-empty journal prefix");
    }
    if !journal_head_present(&j.entries, c.journal_head_sequence, c.journal_head_digest.as_str()) {
        return Err("checkpoint journal prefix does not match the live journal");
    }
    if !str_eq(c.operation_identity_digest.as_str(), j.operation_identity_digest.as_str()) || !str_eq(
        c.operation_id.as_str(),
        j.operation_id.as_str(),
    ) || !str_eq(c.authorization_digest.as_str(), j.authorization_digest.as_str()) || !str_eq(
        c.custody_digest.as_str(),
        j.custody_digest.as_str(),
    ) || !str_eq(c.freeze_digest.as_str(), j.freeze_digest.as_str()) || !str_eq(
        c.repository.as_str(),
        j.repository.as_str(),
    ) || !str_eq(c.tag.as_str(), j.tag.as_str()) {
        return Err("checkpoint operation identity must match the verified journal header");
    }
    if !str_eq(c.producer.workflow.as_str(), j.workflow.as_str()) || !str_eq(c.producer.run.as_str(), j.run.as_str())
        || !str_eq(c.producer.attempt.as_str(), j.attempt.as_str()) || !str_eq(
        c.producer.job.as_str(),
        j.job.as_str(),
    ) {
        return Err("checkpoint producer execution identity must match the journal");
    }
    if !producers_equal(&c.producer, expected_producer) {
        return Err("checkpoint producer must match the expected release producer");
    }
    if c.readback != GitHubReleaseCheckpointReadbackV1::Complete {
        return Err("provider success without readback is never clean");
    }
    let readback_at = match c.readback_at_unix_seconds {
        Some(t) => t,
        None => {
            return Err("Complete readback requires an observation time");
        },
    };
    if readback_at < c.created_at_unix_seconds || readback_at > now_unix_seconds || readback_at
        >= c.expires_at_unix_seconds {
        return Err("checkpoint readback time is outside its trusted window");
    }
    if now_unix_seconds < c.created_at_unix_seconds || now_unix_seconds >= c.expires_at_unix_seconds {
        return Err("expired or premature checkpoints never authorize progress");
    }
    Ok(())
}

// ---------------------------------------------------------------------------
// Laws.
// ---------------------------------------------------------------------------

/// Provider success without readback is never clean: a freshly begun
/// checkpoint authorizes no progress on any journal at any time.
pub proof fn lemma_fresh_checkpoint_never_authorizes(
    c: CargoAllowGitHubReleaseCheckpointV1,
    i: GitHubReleaseCheckpointInitV1,
    prior: Option<CargoAllowGitHubReleaseCheckpointV1>,
    j: CargoAllowGitHubReleaseJournalV1,
    expected: GitHubReleaseCheckpointProducerV1,
    now: u64,
)
    requires
        begun_from(c, i, prior),
    ensures
        against_journal_error(c, j, expected, now) is Some,
{
}

/// Linkage never crosses operations: a checkpoint begun after a predecessor
/// carries the predecessor's operation identity, advances the sequence by
/// exactly one, and binds the predecessor's exact stored bytes.
pub proof fn lemma_linkage_stays_in_operation(
    c: CargoAllowGitHubReleaseCheckpointV1,
    i: GitHubReleaseCheckpointInitV1,
    prev: CargoAllowGitHubReleaseCheckpointV1,
)
    requires
        begin_error(i, Some(prev)) is None,
        begun_from(c, i, Some(prev)),
    ensures
        c.checkpoint_sequence == prev.checkpoint_sequence + 1,
        c.operation_id@ == prev.operation_id@,
        c.operation_identity_digest@ == prev.operation_identity_digest@,
        c.operation_class == prev.operation_class,
        c.repository@ == prev.repository@ && c.tag@ == prev.tag@,
        prev.readback == GitHubReleaseCheckpointReadbackV1::Complete,
        c.journal_head_sequence >= prev.journal_head_sequence,
        opt_text(c.prior_checkpoint_digest) == Some(link_digest(prev)),
{
}

/// A `Complete` readback means the provider returned exactly the stored
/// bytes of this checkpoint, and the witness it yields verifies against
/// the recorded checkpoint.
pub proof fn lemma_complete_readback_binds_bytes(
    c: CargoAllowGitHubReleaseCheckpointV1,
    bytes: Seq<u8>,
    parsed: Option<CargoAllowGitHubReleaseCheckpointV1>,
    at: u64,
    w: GitHubReleaseCheckpointReadbackWitnessV1,
)
    requires
        delivered_class(c, bytes, parsed) == GitHubReleaseCheckpointReadbackV1::Complete,
        w.link_digest() == link_digest(
            CargoAllowGitHubReleaseCheckpointV1 {
                readback: GitHubReleaseCheckpointReadbackV1::Complete,
                readback_at_unix_seconds: Some(at),
                ..c
            },
        ),
        w.object_id() == c.provider.object_id@,
        w.downloaded_digest() == bytes_digest(bytes),
        w.observed_at() == at,
    ensures
        bytes == encode_utf8(stored_json(c)),
        witness_error(
            CargoAllowGitHubReleaseCheckpointV1 {
                readback: GitHubReleaseCheckpointReadbackV1::Complete,
                readback_at_unix_seconds: Some(at),
                ..c
            },
            w,
        ) is None,
{
    let recorded = CargoAllowGitHubReleaseCheckpointV1 {
        readback: GitHubReleaseCheckpointReadbackV1::Complete,
        readback_at_unix_seconds: Some(at),
        ..c
    };
    assert(stored_lines(recorded) == stored_lines(c));
}

} // verus!
