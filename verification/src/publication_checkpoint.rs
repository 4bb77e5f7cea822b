//! Remotely durable checkpoints for the publication journal.
//!
//! The journal survives process crashes on one runner; it does not survive
//! total hosted-runner loss. Before and after each irreversible package row,
//! the release operation needs one independently readable remote checkpoint
//! bound to the exact operation and journal prefix, so a fresh runner can
//! reconstruct the latest honest state instead of re-inferring it.
//!
//! Discovery is by exact object ID plus producer and operation identity;
//! artifact-name lookup across runs is forbidden because one name identifies
//! many runs.
//!
//! Everything here is pure: provider outcomes are caller-supplied; the
//! checkpoint classifies them but never fetches them. A fresh checkpoint
//! reads back as `Missing` until an independent readback is recorded:
//! provider success without readback is never clean.

use vstd::prelude::*;
use vstd::utf8::encode_utf8;
use crate::digest::{bytes_digest, digest_bytes, digest_text, text_digest};
use crate::json::{json_bool, json_obj, json_opt_str, json_opt_u64, json_str, json_str_array, kv, string_views, JsonList};
use crate::publication_journal::{
    chain_error, opt_text, verify_publication_journal_v1, CargoAllowPublicationJournalEntryV1,
    CargoAllowPublicationJournalV1, PublicationJournalClassV1, PublicationJournalEventV1, PublicationJournalRowV1,
    PUBLICATION_JOURNAL_OPERATION, PUBLICATION_JOURNAL_RECOVERY_OPERATION, PUBLICATION_JOURNAL_SCHEMA_ID,
};
use crate::release_authorization_custody::{secret_marker, secret_marker_spec};
use crate::text::{blank, is_blank, is_lower_git_sha, is_lower_git_sha_str, is_lower_sha256_digest, is_lower_sha256_digest_str, str_eq, views};

verus! {

pub const PUBLICATION_CHECKPOINT_SCHEMA_ID: &'static str = "cargo-allow.publication-checkpoint.v1";

pub const PUBLICATION_CHECKPOINT_SCHEMA_VERSION: u32 = 1;

/// The journal schema every checkpoint binds.
pub const PUBLICATION_CHECKPOINT_JOURNAL_SCHEMA_ID: &'static str = "cargo-allow.publication-journal.v1";

/// Bounded operator note: leak prevention by construction, not screening.
pub const PUBLICATION_CHECKPOINT_MAX_NOTE_LEN: usize = 256;

/// Provider artifact retention bounds, in days. Checkpoints must outlive the
/// release and recovery window and cannot outlive provider retention.
pub const PUBLICATION_CHECKPOINT_MIN_RETENTION_DAYS: u32 = 1;

pub const PUBLICATION_CHECKPOINT_MAX_RETENTION_DAYS: u32 = 90;

pub const PUBLICATION_CHECKPOINT_RETENTION_SECONDS_PER_DAY: u64 = 86400;

pub const PUBLICATION_CHECKPOINT_CLAIM_BOUNDARY: &'static str = "This record owns one remotely durable, independently readable checkpoint per publication journal prefix: exact operation and journal-prefix identity, monotonic sequence linkage, immutable provider object identity, producer trust, retention, and readback classification. It does not upload packages, observe the registry, authorize the operation, or execute recovery.";

/// Checkpoint operation class, mirroring the journal vocabulary. Clean
/// checkpoints never become recovery checkpoints; recovery starts a new
/// checkpoint sequence.
#[derive(Debug, Clone, Copy, PartialEq, Eq, Structural)]
pub enum PublicationCheckpointClassV1 {
    CleanFinalPublication,
    IncidentRecovery,
}

/// Checkpoint position in the row lifecycle. Pre-intent checkpoints gate the
/// upload; post-observation checkpoints gate dependant rows.
#[derive(Debug, Clone, Copy, PartialEq, Eq, Structural)]
pub enum PublicationCheckpointKindV1 {
    PreIntentDurable,
    PostObservation,
}

/// Producer-claimed row state at checkpoint time. A claim, not a proof: the
/// journal prefix check is the verification invariant.
#[derive(Debug, Clone, Copy, PartialEq, Eq, Structural)]
pub enum PublicationCheckpointRowStateV1 {
    IntentDurable,
    UploadStarted,
    ResponseObserved,
    ResponseUnknown,
    VisibleExact,
    VisibleConflict,
    ObservedAbsent,
    Waiting,
    Incident,
}

/// Durable provider substrate: the selected GitHub Actions Artifact surface.
#[derive(Debug, Clone, Copy, PartialEq, Eq, Structural)]
pub enum PublicationCheckpointProviderV1 {
    GithubActionsArtifact,
}

/// Independent readback outcome. Only `Complete` authorizes progress.
/// `ProviderUnavailable` is an outage, never absence.
#[derive(Debug, Clone, Copy, PartialEq, Eq, Structural)]
pub enum PublicationCheckpointReadbackV1 {
    Complete,
    Missing,
    Stale,
    Mismatch,
    ProviderUnavailable,
    InstrumentFailure,
}

impl PublicationCheckpointClassV1 {
    pub open spec fn wire(self) -> Seq<char> {
        match self {
            Self::CleanFinalPublication => "clean_final_publication"@,
            Self::IncidentRecovery => "incident_recovery"@,
        }
    }

    pub fn wire_label(self) -> (r: &'static str)
        ensures
            r@ == self.wire(),
    {
        match self {
            Self::CleanFinalPublication => "clean_final_publication",
            Self::IncidentRecovery => "incident_recovery",
        }
    }
}

impl PublicationCheckpointKindV1 {
    pub open spec fn wire(self) -> Seq<char> {
        match self {
            Self::PreIntentDurable => "pre_intent_durable"@,
            Self::PostObservation => "post_observation"@,
        }
    }

    pub fn wire_label(self) -> (r: &'static str)
        ensures
            r@ == self.wire(),
    {
        match self {
            Self::PreIntentDurable => "pre_intent_durable",
            Self::PostObservation => "post_observation",
        }
    }
}

impl PublicationCheckpointRowStateV1 {
    pub open spec fn wire(self) -> Seq<char> {
        match self {
            Self::IntentDurable => "intent_durable"@,
            Self::UploadStarted => "upload_started"@,
            Self::ResponseObserved => "response_observed"@,
            Self::ResponseUnknown => "response_unknown"@,
            Self::VisibleExact => "visible_exact"@,
            Self::VisibleConflict => "visible_conflict"@,
            Self::ObservedAbsent => "observed_absent"@,
            Self::Waiting => "waiting"@,
            Self::Incident => "incident"@,
        }
    }

    pub fn wire_label(self) -> (r: &'static str)
        ensures
            r@ == self.wire(),
    {
        match self {
            Self::IntentDurable => "intent_durable",
            Self::UploadStarted => "upload_started",
            Self::ResponseObserved => "response_observed",
            Self::ResponseUnknown => "response_unknown",
            Self::VisibleExact => "visible_exact",
            Self::VisibleConflict => "visible_conflict",
            Self::ObservedAbsent => "observed_absent",
            Self::Waiting => "waiting",
            Self::Incident => "incident",
        }
    }
}

impl PublicationCheckpointProviderV1 {
    pub open spec fn wire(self) -> Seq<char> {
        "github_actions_artifact"@
    }

    pub fn wire_label(self) -> (r: &'static str)
        ensures
            r@ == self.wire(),
    {
        "github_actions_artifact"
    }
}

impl PublicationCheckpointReadbackV1 {
    pub open spec fn wire(self) -> Seq<char> {
        match self {
            Self::Complete => "complete"@,
            Self::Missing => "missing"@,
            Self::Stale => "stale"@,
            Self::Mismatch => "mismatch"@,
            Self::ProviderUnavailable => "provider_unavailable"@,
            Self::InstrumentFailure => "instrument_failure"@,
        }
    }

    pub fn wire_label(self) -> (r: &'static str)
        ensures
            r@ == self.wire(),
    {
        match self {
            Self::Complete => "complete",
            Self::Missing => "missing",
            Self::Stale => "stale",
            Self::Mismatch => "mismatch",
            Self::ProviderUnavailable => "provider_unavailable",
            Self::InstrumentFailure => "instrument_failure",
        }
    }
}

/// The package row this checkpoint gates.
#[derive(Debug, Clone, PartialEq, Eq)]
pub struct PublicationCheckpointRowV1 {
    pub package_name: String,
    pub row_order: u32,
    pub state: PublicationCheckpointRowStateV1,
}

/// The remote provider object. `object_id` is the exact immutable provider
/// identity; `object_name` is a human label only and never participates in
/// discovery.
#[derive(Debug, Clone, PartialEq, Eq)]
pub struct PublicationCheckpointProviderObjectV1 {
    pub provider: PublicationCheckpointProviderV1,
    pub object_id: String,
    pub object_name: String,
    pub object_digest: String,
    pub object_size_bytes: u64,
}

/// The producer identity the release lane expects. Equality with the
/// expected producer is the trust check.
#[derive(Debug, Clone, PartialEq, Eq)]
pub struct PublicationCheckpointProducerV1 {
    pub workflow: String,
    pub run: String,
    pub attempt: String,
    pub job: String,
    pub git_ref: String,
    pub commit: String,
}

/// One remotely durable publication checkpoint.
#[derive(Debug, Clone, PartialEq, Eq)]
pub struct CargoAllowPublicationCheckpointV1 {
    pub schema_id: String,
    pub schema_version: u32,
    pub checkpoint_id: String,
    pub operation_id: String,
    pub operation_class: PublicationCheckpointClassV1,
    pub authorization_digest: String,
    pub custody_digest: String,
    pub freeze_digest: String,
    pub journal_schema_id: String,
    pub journal_head_sequence: u64,
    pub journal_head_digest: String,
    pub checkpoint_sequence: u64,
    /// Sequence one carries `None`; every later checkpoint carries the link
    /// digest of its predecessor.
    pub prior_checkpoint_digest: Option<String>,
    pub kind: PublicationCheckpointKindV1,
    pub row: PublicationCheckpointRowV1,
    /// The first row that crossed an irreversible request, once known.
    /// Incident posture is monotonic: once set or recorded, it never clears.
    pub first_irreversible_row: Option<String>,
    pub incident_recorded: bool,
    pub provider: PublicationCheckpointProviderObjectV1,
    pub producer: PublicationCheckpointProducerV1,
    pub retention_days: u32,
    pub created_at_unix_seconds: u64,
    pub expires_at_unix_seconds: u64,
    pub note: String,
    /// Fresh checkpoints start `Missing`.
    pub readback: PublicationCheckpointReadbackV1,
    pub readback_at_unix_seconds: Option<u64>,
    pub claim_boundary: String,
    pub limitations: Vec<String>,
}

/// Caller-supplied construction inputs. Linkage and readback are assigned by
/// the checkpoint, never the caller.
#[derive(Debug, Clone, PartialEq, Eq)]
pub struct PublicationCheckpointInitV1 {
    pub checkpoint_id: String,
    pub operation_id: String,
    pub operation_class: PublicationCheckpointClassV1,
    pub authorization_digest: String,
    pub custody_digest: String,
    pub freeze_digest: String,
    pub journal_head_sequence: u64,
    pub journal_head_digest: String,
    pub checkpoint_sequence: u64,
    pub kind: PublicationCheckpointKindV1,
    pub row: PublicationCheckpointRowV1,
    pub first_irreversible_row: Option<String>,
    pub incident_recorded: bool,
    pub provider: PublicationCheckpointProviderObjectV1,
    pub producer: PublicationCheckpointProducerV1,
    pub retention_days: u32,
    pub created_at_unix_seconds: u64,
    pub note: String,
}

/// Caller-supplied provider outcome. Bytes are downloaded by the caller; the
/// checkpoint classifies them but never fetches them.
#[derive(Debug, Clone, PartialEq, Eq)]
pub enum CheckpointProviderOutcomeV1 {
    Delivered(Vec<u8>),
    Unavailable,
    InstrumentFailure,
}

// ---------------------------------------------------------------------------
// Canonical JSON and digests.
// ---------------------------------------------------------------------------

pub open spec fn row_json(r: PublicationCheckpointRowV1) -> Seq<char> {
    json_obj(
        Seq::empty().push(kv("package_name"@, json_str(r.package_name@))).push(
            kv("row_order"@, crate::text::decimal(r.row_order as nat)),
        ).push(kv("state"@, json_str(r.state.wire()))),
    )
}

pub open spec fn provider_json(p: PublicationCheckpointProviderObjectV1) -> Seq<char> {
    json_obj(
        Seq::empty().push(kv("provider"@, json_str(p.provider.wire()))).push(
            kv("object_id"@, json_str(p.object_id@)),
        ).push(kv("object_name"@, json_str(p.object_name@))).push(
            kv("object_digest"@, json_str(p.object_digest@)),
        ).push(kv("object_size_bytes"@, crate::text::decimal(p.object_size_bytes as nat))),
    )
}

pub open spec fn producer_json(p: PublicationCheckpointProducerV1) -> Seq<char> {
    json_obj(
        Seq::empty().push(kv("workflow"@, json_str(p.workflow@))).push(kv("run"@, json_str(p.run@))).push(
            kv("attempt"@, json_str(p.attempt@)),
        ).push(kv("job"@, json_str(p.job@))).push(kv("git_ref"@, json_str(p.git_ref@))).push(
            kv("commit"@, json_str(p.commit@)),
        ),
    )
}

/// The members shared by the record and its body, up to the row state.
pub open spec fn head_members(c: CargoAllowPublicationCheckpointV1) -> Seq<Seq<char>> {
    Seq::empty().push(kv("schema_id"@, json_str(c.schema_id@))).push(
        kv("schema_version"@, crate::text::decimal(c.schema_version as nat)),
    ).push(kv("checkpoint_id"@, json_str(c.checkpoint_id@))).push(
        kv("operation_id"@, json_str(c.operation_id@)),
    ).push(kv("operation_class"@, json_str(c.operation_class.wire()))).push(
        kv("authorization_digest"@, json_str(c.authorization_digest@)),
    ).push(kv("custody_digest"@, json_str(c.custody_digest@))).push(
        kv("freeze_digest"@, json_str(c.freeze_digest@)),
    ).push(kv("journal_schema_id"@, json_str(c.journal_schema_id@))).push(
        kv("journal_head_sequence"@, crate::text::decimal(c.journal_head_sequence as nat)),
    ).push(kv("journal_head_digest"@, json_str(c.journal_head_digest@))).push(
        kv("checkpoint_sequence"@, crate::text::decimal(c.checkpoint_sequence as nat)),
    ).push(kv("prior_checkpoint_digest"@, json_opt_str(opt_text(c.prior_checkpoint_digest)))).push(
        kv("kind"@, json_str(c.kind.wire())),
    ).push(kv("row"@, row_json(c.row))).push(
        kv("first_irreversible_row"@, json_opt_str(opt_text(c.first_irreversible_row))),
    ).push(kv("incident_recorded"@, json_bool(c.incident_recorded)))
}

/// The whole record as compact JSON, with the given readback outcome and
/// readback time in place of the record's own.
pub open spec fn record_json_with(
    c: CargoAllowPublicationCheckpointV1,
    readback: PublicationCheckpointReadbackV1,
    readback_at: Option<u64>,
) -> Seq<char> {
    json_obj(
        head_members(c).push(kv("provider"@, provider_json(c.provider))).push(
            kv("producer"@, producer_json(c.producer)),
        ).push(kv("retention_days"@, crate::text::decimal(c.retention_days as nat))).push(
            kv("created_at_unix_seconds"@, crate::text::decimal(c.created_at_unix_seconds as nat)),
        ).push(kv("expires_at_unix_seconds"@, crate::text::decimal(c.expires_at_unix_seconds as nat))).push(
            kv("note"@, json_str(c.note@)),
        ).push(kv("readback"@, json_str(readback.wire()))).push(
            kv("readback_at_unix_seconds"@, json_opt_u64(readback_at)),
        ).push(kv("claim_boundary"@, json_str(c.claim_boundary@))).push(
            kv("limitations"@, json_str_array(string_views(c.limitations@))),
        ),
    )
}

/// The checkpoint body: every record field except the provider object and
/// the readback outcome, as compact JSON.
pub open spec fn body_json(c: CargoAllowPublicationCheckpointV1) -> Seq<char> {
    json_obj(
        head_members(c).push(kv("producer"@, producer_json(c.producer))).push(
            kv("retention_days"@, crate::text::decimal(c.retention_days as nat)),
        ).push(kv("created_at_unix_seconds"@, crate::text::decimal(c.created_at_unix_seconds as nat))).push(
            kv("expires_at_unix_seconds"@, crate::text::decimal(c.expires_at_unix_seconds as nat)),
        ).push(kv("note"@, json_str(c.note@))).push(kv("claim_boundary"@, json_str(c.claim_boundary@))).push(
            kv("limitations"@, json_str_array(string_views(c.limitations@))),
        ),
    )
}

/// The canonical digest of a whole record.
pub open spec fn record_digest(c: CargoAllowPublicationCheckpointV1) -> Seq<char> {
    text_digest(record_json_with(c, c.readback, c.readback_at_unix_seconds))
}

/// The stable predecessor-link digest: the record digest with the readback
/// observation reset to `missing` and no time, so it does not depend on when
/// or how the record was read back.
pub open spec fn link_digest(c: CargoAllowPublicationCheckpointV1) -> Seq<char> {
    text_digest(record_json_with(c, PublicationCheckpointReadbackV1::Missing, None))
}

pub open spec fn body_digest(c: CargoAllowPublicationCheckpointV1) -> Seq<char> {
    text_digest(body_json(c))
}

fn render_row(r: &PublicationCheckpointRowV1) -> (s: String)
    ensures
        s@ == row_json(*r),
{
    let mut l = JsonList::new();
    l.push_str_member("package_name", r.package_name.as_str());
    l.push_u64_member("row_order", r.row_order as u64);
    l.push_str_member("state", r.state.wire_label());
    l.finish_object()
}

fn render_provider(p: &PublicationCheckpointProviderObjectV1) -> (s: String)
    ensures
        s@ == provider_json(*p),
{
    let mut l = JsonList::new();
    l.push_str_member("provider", p.provider.wire_label());
    l.push_str_member("object_id", p.object_id.as_str());
    l.push_str_member("object_name", p.object_name.as_str());
    l.push_str_member("object_digest", p.object_digest.as_str());
    l.push_u64_member("object_size_bytes", p.object_size_bytes);
    l.finish_object()
}

fn render_producer(p: &PublicationCheckpointProducerV1) -> (s: String)
    ensures
        s@ == producer_json(*p),
{
    let mut l = JsonList::new();
    l.push_str_member("workflow", p.workflow.as_str());
    l.push_str_member("run", p.run.as_str());
    l.push_str_member("attempt", p.attempt.as_str());
    l.push_str_member("job", p.job.as_str());
    l.push_str_member("git_ref", p.git_ref.as_str());
    l.push_str_member("commit", p.commit.as_str());
    l.finish_object()
}

fn push_head(l: &mut JsonList, c: &CargoAllowPublicationCheckpointV1)
    requires
        old(l).wf(),
        old(l).count == 0,
    ensures
        final(l).wf(),
        final(l).count == 17,
        final(l).items@ == head_members(*c),
{
    l.push_str_member("schema_id", c.schema_id.as_str());
    l.push_u64_member("schema_version", c.schema_version as u64);
    l.push_str_member("checkpoint_id", c.checkpoint_id.as_str());
    l.push_str_member("operation_id", c.operation_id.as_str());
    l.push_str_member("operation_class", c.operation_class.wire_label());
    l.push_str_member("authorization_digest", c.authorization_digest.as_str());
    l.push_str_member("custody_digest", c.custody_digest.as_str());
    l.push_str_member("freeze_digest", c.freeze_digest.as_str());
    l.push_str_member("journal_schema_id", c.journal_schema_id.as_str());
    l.push_u64_member("journal_head_sequence", c.journal_head_sequence);
    l.push_str_member("journal_head_digest", c.journal_head_digest.as_str());
    l.push_u64_member("checkpoint_sequence", c.checkpoint_sequence);
    l.push_nullable_str_member("prior_checkpoint_digest", &c.prior_checkpoint_digest);
    l.push_str_member("kind", c.kind.wire_label());
    let row = render_row(&c.row);
    l.push_member("row", row.as_str());
    l.push_nullable_str_member("first_irreversible_row", &c.first_irreversible_row);
    l.push_bool_member("incident_recorded", c.incident_recorded);
    assert(l.items@ =~= head_members(*c));
}

fn render_record_with(
    c: &CargoAllowPublicationCheckpointV1,
    readback: PublicationCheckpointReadbackV1,
    readback_at: Option<u64>,
) -> (s: String)
    ensures
        s@ == record_json_with(*c, readback, readback_at),
{
    let mut l = JsonList::new();
    push_head(&mut l, c);
    let provider = render_provider(&c.provider);
    l.push_member("provider", provider.as_str());
    let producer = render_producer(&c.producer);
    l.push_member("producer", producer.as_str());
    l.push_u64_member("retention_days", c.retention_days as u64);
    l.push_u64_member("created_at_unix_seconds", c.created_at_unix_seconds);
    l.push_u64_member("expires_at_unix_seconds", c.expires_at_unix_seconds);
    l.push_str_member("note", c.note.as_str());
    l.push_str_member("readback", readback.wire_label());
    let mut at = String::new();
    crate::json::push_json_opt_u64(&mut at, readback_at);
    assert(at@ =~= json_opt_u64(readback_at));
    l.push_member("readback_at_unix_seconds", at.as_str());
    l.push_str_member("claim_boundary", c.claim_boundary.as_str());
    let limitations = crate::json::json_string_array(&c.limitations);
    l.push_member("limitations", limitations.as_str());
    l.finish_object()
}

fn render_body(c: &CargoAllowPublicationCheckpointV1) -> (s: String)
    ensures
        s@ == body_json(*c),
{
    let mut l = JsonList::new();
    push_head(&mut l, c);
    let producer = render_producer(&c.producer);
    l.push_member("producer", producer.as_str());
    l.push_u64_member("retention_days", c.retention_days as u64);
    l.push_u64_member("created_at_unix_seconds", c.created_at_unix_seconds);
    l.push_u64_member("expires_at_unix_seconds", c.expires_at_unix_seconds);
    l.push_str_member("note", c.note.as_str());
    l.push_str_member("claim_boundary", c.claim_boundary.as_str());
    let limitations = crate::json::json_string_array(&c.limitations);
    l.push_member("limitations", limitations.as_str());
    l.finish_object()
}

/// Canonical digest of checkpoint bytes, as retained in provider objects.
pub fn digest_publication_checkpoint_bytes_v1(bytes: &[u8]) -> (r: String)
    ensures
        r@ == bytes_digest(bytes@),
        is_lower_sha256_digest(r@),
{
    digest_bytes(bytes)
}

/// Canonical digest of a whole checkpoint record, computed over its compact
/// JSON form.
pub fn digest_publication_checkpoint_v1(checkpoint: &CargoAllowPublicationCheckpointV1) -> (r: String)
    ensures
        r@ == record_digest(*checkpoint),
        is_lower_sha256_digest(r@),
{
    let text = render_record_with(checkpoint, checkpoint.readback, checkpoint.readback_at_unix_seconds);
    digest_text(text.as_str())
}

/// Stable predecessor-link digest. Readback is an observation about
/// immutable provider bytes, not part of the stored checkpoint subject, so a
/// fresh runner reproduces the same predecessor identity after recording its
/// own readback at another time.
pub fn digest_publication_checkpoint_link_v1(checkpoint: &CargoAllowPublicationCheckpointV1) -> (r: String)
    ensures
        r@ == link_digest(*checkpoint),
        is_lower_sha256_digest(r@),
{
    let text = render_record_with(checkpoint, PublicationCheckpointReadbackV1::Missing, None);
    digest_text(text.as_str())
}

/// Canonical digest of the checkpoint body, as retained in provider objects.
/// The provider object digest binds the body (not the full record) so
/// producers can compute it before storing.
pub fn digest_publication_checkpoint_body_v1(checkpoint: &CargoAllowPublicationCheckpointV1) -> (r: String)
    ensures
        r@ == body_digest(*checkpoint),
        is_lower_sha256_digest(r@),
{
    let text = render_body(checkpoint);
    digest_text(text.as_str())
}

// ---------------------------------------------------------------------------
// Construction.
// ---------------------------------------------------------------------------

/// The operation name each checkpoint class binds.
pub open spec fn class_operation(class: PublicationCheckpointClassV1) -> Seq<char> {
    match class {
        PublicationCheckpointClassV1::CleanFinalPublication => PUBLICATION_JOURNAL_OPERATION@,
        PublicationCheckpointClassV1::IncidentRecovery => PUBLICATION_JOURNAL_RECOVERY_OPERATION@,
    }
}

pub open spec fn producer_error(p: PublicationCheckpointProducerV1) -> Option<Seq<char>> {
    if blank(p.workflow@) || blank(p.run@) || blank(p.attempt@) || blank(p.job@) || blank(p.git_ref@) || blank(
        p.commit@,
    ) {
        Some("checkpoints require exact producer identity"@)
    } else if !is_lower_git_sha(p.commit@) {
        Some("checkpoint producer commit must be a canonical Git SHA"@)
    } else {
        None
    }
}

fn validate_producer(p: &PublicationCheckpointProducerV1) -> (r: Option<&'static str>)
    ensures
        match producer_error(*p) {
            None => r is None,
            Some(m) => r is Some && r->0@ == m,
        },
{
    if is_blank(p.workflow.as_str()) || is_blank(p.run.as_str()) || is_blank(p.attempt.as_str()) || is_blank(
        p.job.as_str(),
    ) || is_blank(p.git_ref.as_str()) || is_blank(p.commit.as_str()) {
        return Some("checkpoints require exact producer identity");
    }
    if !is_lower_git_sha_str(p.commit.as_str()) {
        return Some("checkpoint producer commit must be a canonical Git SHA");
    }
    None
}

/// Why a checkpoint cannot begin, before linkage is considered, in the
/// order the checks run.
pub open spec fn init_error(i: PublicationCheckpointInitV1) -> Option<Seq<char>> {
    if blank(i.checkpoint_id@) {
        Some("checkpoints require checkpoint identity"@)
    } else if i.operation_id@ != class_operation(i.operation_class) {
        Some("checkpoint operation identity must match its class"@)
    } else if !is_lower_sha256_digest(i.authorization_digest@) || !is_lower_sha256_digest(i.custody_digest@)
        || !is_lower_sha256_digest(i.freeze_digest@) {
        Some("checkpoints require canonical operation identity digests"@)
    } else if i.journal_head_sequence < 1 {
        Some("checkpoints bind a non-empty journal prefix"@)
    } else if !is_lower_sha256_digest(i.journal_head_digest@) {
        Some("checkpoints bind a canonical journal head digest"@)
    } else if i.checkpoint_sequence < 1 {
        Some("checkpoint sequence starts at one"@)
    } else if blank(i.row.package_name@) {
        Some("checkpoint rows require a package name"@)
    } else if i.incident_recorded && i.first_irreversible_row is None {
        Some("incident posture requires a first irreversible row"@)
    } else if i.first_irreversible_row is Some && blank(i.first_irreversible_row->0@) {
        Some("the first irreversible row must name a package"@)
    } else if blank(i.provider.object_id@) || blank(i.provider.object_name@) {
        Some("checkpoints require exact provider object identity"@)
    } else if !is_lower_sha256_digest(i.provider.object_digest@) {
        Some("checkpoints require a canonical provider object digest"@)
    } else if i.provider.object_size_bytes < 1 {
        Some("checkpoints require a non-empty provider object"@)
    } else if producer_error(i.producer) is Some {
        producer_error(i.producer)
    } else if i.retention_days < PUBLICATION_CHECKPOINT_MIN_RETENTION_DAYS || i.retention_days
        > PUBLICATION_CHECKPOINT_MAX_RETENTION_DAYS {
        Some("checkpoint retention must fit the provider window"@)
    } else if i.created_at_unix_seconds < 1 {
        Some("checkpoints require a positive construction time"@)
    } else if i.created_at_unix_seconds + i.retention_days * PUBLICATION_CHECKPOINT_RETENTION_SECONDS_PER_DAY
        > u64::MAX {
        Some("checkpoint expiry overflowed"@)
    } else if encode_utf8(i.note@).len() > PUBLICATION_CHECKPOINT_MAX_NOTE_LEN {
        Some("checkpoint notes are bounded and carry no bodies"@)
    } else if secret_marker_spec(i.note@) is Some {
        Some("secret material must never enter checkpoint records"@)
    } else {
        None
    }
}

/// Why `i` cannot follow `prev` in the same operation.
pub open spec fn link_error(i: PublicationCheckpointInitV1, prev: CargoAllowPublicationCheckpointV1) -> Option<
    Seq<char>,
> {
    if i.checkpoint_sequence != prev.checkpoint_sequence + 1 {
        Some("checkpoint sequence must advance by exactly one"@)
    } else if i.operation_id@ != prev.operation_id@ || i.authorization_digest@ != prev.authorization_digest@
        || i.custody_digest@ != prev.custody_digest@ || i.freeze_digest@ != prev.freeze_digest@ {
        Some("checkpoint linkage never crosses operations"@)
    } else if i.operation_class != prev.operation_class {
        Some("checkpoint linkage never crosses operation classes"@)
    } else if prev.readback != PublicationCheckpointReadbackV1::Complete {
        Some("checkpoint linkage requires a verified predecessor readback"@)
    } else if prev.readback_at_unix_seconds is None {
        Some("verified predecessor readback requires its observation time"@)
    } else if i.created_at_unix_seconds < prev.created_at_unix_seconds || i.created_at_unix_seconds
        < prev.readback_at_unix_seconds->0 {
        Some("checkpoint construction time never moves backward"@)
    } else if i.checkpoint_id@ == prev.checkpoint_id@ || i.provider.object_id@ == prev.provider.object_id@ {
        Some("later checkpoints require new checkpoint and provider object identities"@)
    } else if i.journal_head_sequence < prev.journal_head_sequence {
        Some("checkpoint journal prefixes never move backward"@)
    } else if prev.incident_recorded && !i.incident_recorded {
        Some("incident history is never overwritten by later checkpoints"@)
    } else if prev.first_irreversible_row is Some && opt_text(i.first_irreversible_row) != opt_text(
        prev.first_irreversible_row,
    ) {
        Some("the first irreversible row never changes"@)
    } else {
        None
    }
}

pub open spec fn begin_error(
    i: PublicationCheckpointInitV1,
    prior: Option<CargoAllowPublicationCheckpointV1>,
) -> Option<Seq<char>> {
    if init_error(i) is Some {
        init_error(i)
    } else {
        match prior {
            None => if i.checkpoint_sequence != 1 {
                Some("the first checkpoint of an operation starts at sequence one"@)
            } else {
                None
            },
            Some(prev) => link_error(i, prev),
        }
    }
}

/// `c` is the fresh checkpoint begun from `i` after `prior`.
pub open spec fn begun_from(
    c: CargoAllowPublicationCheckpointV1,
    i: PublicationCheckpointInitV1,
    prior: Option<CargoAllowPublicationCheckpointV1>,
) -> bool {
    &&& c.schema_id@ == PUBLICATION_CHECKPOINT_SCHEMA_ID@
    &&& c.schema_version == PUBLICATION_CHECKPOINT_SCHEMA_VERSION
    &&& c.checkpoint_id == i.checkpoint_id
    &&& c.operation_id == i.operation_id
    &&& c.operation_class == i.operation_class
    &&& c.authorization_digest == i.authorization_digest
    &&& c.custody_digest == i.custody_digest
    &&& c.freeze_digest == i.freeze_digest
    &&& c.journal_schema_id@ == PUBLICATION_CHECKPOINT_JOURNAL_SCHEMA_ID@
    &&& c.journal_head_sequence == i.journal_head_sequence
    &&& c.journal_head_digest == i.journal_head_digest
    &&& c.checkpoint_sequence == i.checkpoint_sequence
    &&& opt_text(c.prior_checkpoint_digest) == match prior {
        None => None,
        Some(prev) => Some(link_digest(prev)),
    }
    &&& c.kind == i.kind
    &&& c.row == i.row
    &&& c.first_irreversible_row == i.first_irreversible_row
    &&& c.incident_recorded == i.incident_recorded
    &&& c.provider == i.provider
    &&& c.producer == i.producer
    &&& c.retention_days == i.retention_days
    &&& c.created_at_unix_seconds == i.created_at_unix_seconds
    &&& c.expires_at_unix_seconds == i.created_at_unix_seconds + i.retention_days
        * PUBLICATION_CHECKPOINT_RETENTION_SECONDS_PER_DAY
    &&& c.note == i.note
    &&& c.readback == PublicationCheckpointReadbackV1::Missing
    &&& c.readback_at_unix_seconds is None
    &&& c.claim_boundary@ == PUBLICATION_CHECKPOINT_CLAIM_BOUNDARY@
    &&& views(c.limitations@) == seq![
        "does_not_upload_packages"@,
        "does_not_observe_registry"@,
        "does_not_authorize_operation"@,
    ]
}

fn init_check(i: &PublicationCheckpointInitV1) -> (r: Option<&'static str>)
    ensures
        match init_error(*i) {
            None => r is None,
            Some(m) => r is Some && r->0@ == m,
        },
{
    if is_blank(i.checkpoint_id.as_str()) {
        return Some("checkpoints require checkpoint identity");
    }
    let expected_operation = match i.operation_class {
        PublicationCheckpointClassV1::CleanFinalPublication => PUBLICATION_JOURNAL_OPERATION,
        PublicationCheckpointClassV1::IncidentRecovery => PUBLICATION_JOURNAL_RECOVERY_OPERATION,
    };
    if !str_eq(i.operation_id.as_str(), expected_operation) {
        return Some("checkpoint operation identity must match its class");
    }
    if !is_lower_sha256_digest_str(i.authorization_digest.as_str()) || !is_lower_sha256_digest_str(
        i.custody_digest.as_str(),
    ) || !is_lower_sha256_digest_str(i.freeze_digest.as_str()) {
        return Some("checkpoints require canonical operation identity digests");
    }
    if i.journal_head_sequence < 1 {
        return Some("checkpoints bind a non-empty journal prefix");
    }
    if !is_lower_sha256_digest_str(i.journal_head_digest.as_str()) {
        return Some("checkpoints bind a canonical journal head digest");
    }
    if i.checkpoint_sequence < 1 {
        return Some("checkpoint sequence starts at one");
    }
    if is_blank(i.row.package_name.as_str()) {
        return Some("checkpoint rows require a package name");
    }
    if i.incident_recorded && i.first_irreversible_row.is_none() {
        return Some("incident posture requires a first irreversible row");
    }
    match &i.first_irreversible_row {
        Some(first) => {
            if is_blank(first.as_str()) {
                return Some("the first irreversible row must name a package");
            }
        },
        None => {},
    }
    if is_blank(i.provider.object_id.as_str()) || is_blank(i.provider.object_name.as_str()) {
        return Some("checkpoints require exact provider object identity");
    }
    if !is_lower_sha256_digest_str(i.provider.object_digest.as_str()) {
        return Some("checkpoints require a canonical provider object digest");
    }
    if i.provider.object_size_bytes < 1 {
        return Some("checkpoints require a non-empty provider object");
    }
    match validate_producer(&i.producer) {
        Some(m) => {
            return Some(m);
        },
        None => {},
    }
    if i.retention_days < PUBLICATION_CHECKPOINT_MIN_RETENTION_DAYS || i.retention_days
        > PUBLICATION_CHECKPOINT_MAX_RETENTION_DAYS {
        return Some("checkpoint retention must fit the provider window");
    }
    if i.created_at_unix_seconds < 1 {
        return Some("checkpoints require a positive construction time");
    }
    let retention_seconds = i.retention_days as u64 * PUBLICATION_CHECKPOINT_RETENTION_SECONDS_PER_DAY;
    if i.created_at_unix_seconds.checked_add(retention_seconds).is_none() {
        return Some("checkpoint expiry overflowed");
    }
    if i.note.as_str().as_bytes().len() > PUBLICATION_CHECKPOINT_MAX_NOTE_LEN {
        return Some("checkpoint notes are bounded and carry no bodies");
    }
    if secret_marker(i.note.as_str()).is_some() {
        return Some("secret material must never enter checkpoint records");
    }
    None
}

fn link_check(i: &PublicationCheckpointInitV1, prev: &CargoAllowPublicationCheckpointV1) -> (r: Option<&'static str>)
    ensures
        match link_error(*i, *prev) {
            None => r is None,
            Some(m) => r is Some && r->0@ == m,
        },
{
    if prev.checkpoint_sequence == u64::MAX || i.checkpoint_sequence != prev.checkpoint_sequence + 1 {
        return Some("checkpoint sequence must advance by exactly one");
    }
    if !str_eq(i.operation_id.as_str(), prev.operation_id.as_str()) || !str_eq(
        i.authorization_digest.as_str(),
        prev.authorization_digest.as_str(),
    ) || !str_eq(i.custody_digest.as_str(), prev.custody_digest.as_str()) || !str_eq(
        i.freeze_digest.as_str(),
        prev.freeze_digest.as_str(),
    ) {
        return Some("checkpoint linkage never crosses operations");
    }
    if i.operation_class != prev.operation_class {
        return Some("checkpoint linkage never crosses operation classes");
    }
    if prev.readback != PublicationCheckpointReadbackV1::Complete {
        return Some("checkpoint linkage requires a verified predecessor readback");
    }
    let previous_readback_at = match prev.readback_at_unix_seconds {
        Some(t) => t,
        None => {
            return Some("verified predecessor readback requires its observation time");
        },
    };
    if i.created_at_unix_seconds < prev.created_at_unix_seconds || i.created_at_unix_seconds
        < previous_readback_at {
        return Some("checkpoint construction time never moves backward");
    }
    if str_eq(i.checkpoint_id.as_str(), prev.checkpoint_id.as_str()) || str_eq(
        i.provider.object_id.as_str(),
        prev.provider.object_id.as_str(),
    ) {
        return Some("later checkpoints require new checkpoint and provider object identities");
    }
    if i.journal_head_sequence < prev.journal_head_sequence {
        return Some("checkpoint journal prefixes never move backward");
    }
    if prev.incident_recorded && !i.incident_recorded {
        return Some("incident history is never overwritten by later checkpoints");
    }
    match &prev.first_irreversible_row {
        Some(first) => {
            let same = match &i.first_irreversible_row {
                Some(mine) => str_eq(mine.as_str(), first.as_str()),
                None => false,
            };
            if !same {
                return Some("the first irreversible row never changes");
            }
        },
        None => {},
    }
    None
}

/// Begins a checkpoint bound to one operation and journal prefix. `prior`
/// carries the predecessor in the same operation when the sequence exceeds
/// one; linkage, incident monotonicity and journal-prefix monotonicity are
/// enforced here so a later clean record can never overwrite incident
/// history.
pub fn begin_publication_checkpoint_v1(
    init: PublicationCheckpointInitV1,
    prior: Option<&CargoAllowPublicationCheckpointV1>,
) -> (r: Result<CargoAllowPublicationCheckpointV1, &'static str>)
    ensures
        match begin_error(
            init,
            match prior {
                Some(p) => Some(*p),
                None => None,
            },
        ) {
            Some(e) => r is Err && r->Err_0@ == e,
            None => r is Ok && begun_from(
                r->Ok_0,
                init,
                match prior {
                    Some(p) => Some(*p),
                    None => None,
                },
            ),
        },
{
    match init_check(&init) {
        Some(m) => {
            return Err(m);
        },
        None => {},
    }
    let expected_expiry = init.created_at_unix_seconds + init.retention_days as u64
        * PUBLICATION_CHECKPOINT_RETENTION_SECONDS_PER_DAY;
    let prior_checkpoint_digest = match prior {
        None => {
            if init.checkpoint_sequence != 1 {
                return Err("the first checkpoint of an operation starts at sequence one");
            }
            None
        },
        Some(previous) => {
            match link_check(&init, previous) {
                Some(m) => {
                    return Err(m);
                },
                None => {},
            }
            Some(digest_publication_checkpoint_link_v1(previous))
        },
    };
    let mut limitations: Vec<String> = Vec::new();
    limitations.push("does_not_upload_packages".to_string());
    limitations.push("does_not_observe_registry".to_string());
    limitations.push("does_not_authorize_operation".to_string());
    assert(views(limitations@) =~= seq![
        "does_not_upload_packages"@,
        "does_not_observe_registry"@,
        "does_not_authorize_operation"@,
    ]);
    Ok(
        CargoAllowPublicationCheckpointV1 {
            schema_id: PUBLICATION_CHECKPOINT_SCHEMA_ID.to_string(),
            schema_version: PUBLICATION_CHECKPOINT_SCHEMA_VERSION,
            checkpoint_id: init.checkpoint_id,
            operation_id: init.operation_id,
            operation_class: init.operation_class,
            authorization_digest: init.authorization_digest,
            custody_digest: init.custody_digest,
            freeze_digest: init.freeze_digest,
            journal_schema_id: PUBLICATION_CHECKPOINT_JOURNAL_SCHEMA_ID.to_string(),
            journal_head_sequence: init.journal_head_sequence,
            journal_head_digest: init.journal_head_digest,
            checkpoint_sequence: init.checkpoint_sequence,
            prior_checkpoint_digest,
            kind: init.kind,
            row: init.row,
            first_irreversible_row: init.first_irreversible_row,
            incident_recorded: init.incident_recorded,
            provider: init.provider,
            producer: init.producer,
            retention_days: init.retention_days,
            created_at_unix_seconds: init.created_at_unix_seconds,
            expires_at_unix_seconds: expected_expiry,
            note: init.note,
            readback: PublicationCheckpointReadbackV1::Missing,
            readback_at_unix_seconds: None,
            claim_boundary: PUBLICATION_CHECKPOINT_CLAIM_BOUNDARY.to_string(),
            limitations,
        },
    )
}

// ---------------------------------------------------------------------------
// Readback.
// ---------------------------------------------------------------------------

pub open spec fn same_producer(a: PublicationCheckpointProducerV1, b: PublicationCheckpointProducerV1) -> bool {
    &&& a.workflow@ == b.workflow@
    &&& a.run@ == b.run@
    &&& a.attempt@ == b.attempt@
    &&& a.job@ == b.job@
    &&& a.git_ref@ == b.git_ref@
    &&& a.commit@ == b.commit@
}

fn producers_equal(a: &PublicationCheckpointProducerV1, b: &PublicationCheckpointProducerV1) -> (r: bool)
    ensures
        r == same_producer(*a, *b),
{
    str_eq(a.workflow.as_str(), b.workflow.as_str()) && str_eq(a.run.as_str(), b.run.as_str()) && str_eq(
        a.attempt.as_str(),
        b.attempt.as_str(),
    ) && str_eq(a.job.as_str(), b.job.as_str()) && str_eq(a.git_ref.as_str(), b.git_ref.as_str())
        && str_eq(a.commit.as_str(), b.commit.as_str())
}

/// The delivered record names the same operation, schema and producer.
pub open spec fn same_subject(e: CargoAllowPublicationCheckpointV1, o: CargoAllowPublicationCheckpointV1) -> bool {
    &&& e.schema_id@ == o.schema_id@
    &&& e.schema_version == o.schema_version
    &&& e.operation_id@ == o.operation_id@
    &&& e.operation_class == o.operation_class
    &&& e.authorization_digest@ == o.authorization_digest@
    &&& e.custody_digest@ == o.custody_digest@
    &&& e.freeze_digest@ == o.freeze_digest@
    &&& e.journal_schema_id@ == o.journal_schema_id@
    &&& same_producer(e.producer, o.producer)
}

fn same_checkpoint_subject_v1(e: &CargoAllowPublicationCheckpointV1, o: &CargoAllowPublicationCheckpointV1) -> (r: bool)
    ensures
        r == same_subject(*e, *o),
{
    str_eq(e.schema_id.as_str(), o.schema_id.as_str()) && e.schema_version == o.schema_version && str_eq(
        e.operation_id.as_str(),
        o.operation_id.as_str(),
    ) && e.operation_class == o.operation_class && str_eq(
        e.authorization_digest.as_str(),
        o.authorization_digest.as_str(),
    ) && str_eq(e.custody_digest.as_str(), o.custody_digest.as_str()) && str_eq(
        e.freeze_digest.as_str(),
        o.freeze_digest.as_str(),
    ) && str_eq(e.journal_schema_id.as_str(), o.journal_schema_id.as_str()) && producers_equal(
        &e.producer,
        &o.producer,
    )
}

/// Two records agree on every stored field: all of them but the readback
/// outcome and its time, text compared by content.
pub open spec fn same_stored(a: CargoAllowPublicationCheckpointV1, b: CargoAllowPublicationCheckpointV1) -> bool {
    &&& same_subject(a, b)
    &&& a.checkpoint_id@ == b.checkpoint_id@
    &&& a.journal_head_sequence == b.journal_head_sequence
    &&& a.journal_head_digest@ == b.journal_head_digest@
    &&& a.checkpoint_sequence == b.checkpoint_sequence
    &&& opt_text(a.prior_checkpoint_digest) == opt_text(b.prior_checkpoint_digest)
    &&& a.kind == b.kind
    &&& a.row.package_name@ == b.row.package_name@
    &&& a.row.row_order == b.row.row_order
    &&& a.row.state == b.row.state
    &&& opt_text(a.first_irreversible_row) == opt_text(b.first_irreversible_row)
    &&& a.incident_recorded == b.incident_recorded
    &&& a.provider.provider == b.provider.provider
    &&& a.provider.object_id@ == b.provider.object_id@
    &&& a.provider.object_name@ == b.provider.object_name@
    &&& a.provider.object_digest@ == b.provider.object_digest@
    &&& a.provider.object_size_bytes == b.provider.object_size_bytes
    &&& a.retention_days == b.retention_days
    &&& a.created_at_unix_seconds == b.created_at_unix_seconds
    &&& a.expires_at_unix_seconds == b.expires_at_unix_seconds
    &&& a.note@ == b.note@
    &&& a.claim_boundary@ == b.claim_boundary@
    &&& views(a.limitations@) == views(b.limitations@)
}

fn opt_text_equal(a: &Option<String>, b: &Option<String>) -> (r: bool)
    ensures
        r == (opt_text(*a) == opt_text(*b)),
{
    match (a, b) {
        (Some(x), Some(y)) => str_eq(x.as_str(), y.as_str()),
        (None, None) => true,
        _ => false,
    }
}

fn same_stored_fields(a: &CargoAllowPublicationCheckpointV1, b: &CargoAllowPublicationCheckpointV1) -> (r: bool)
    ensures
        r == same_stored(*a, *b),
{
    same_checkpoint_subject_v1(a, b) && str_eq(a.checkpoint_id.as_str(), b.checkpoint_id.as_str())
        && a.journal_head_sequence == b.journal_head_sequence && str_eq(
        a.journal_head_digest.as_str(),
        b.journal_head_digest.as_str(),
    ) && a.checkpoint_sequence == b.checkpoint_sequence && opt_text_equal(
        &a.prior_checkpoint_digest,
        &b.prior_checkpoint_digest,
    ) && a.kind == b.kind && str_eq(a.row.package_name.as_str(), b.row.package_name.as_str())
        && a.row.row_order == b.row.row_order && a.row.state == b.row.state && opt_text_equal(
        &a.first_irreversible_row,
        &b.first_irreversible_row,
    ) && a.incident_recorded == b.incident_recorded && a.provider.provider == b.provider.provider && str_eq(
        a.provider.object_id.as_str(),
        b.provider.object_id.as_str(),
    ) && str_eq(a.provider.object_name.as_str(), b.provider.object_name.as_str()) && str_eq(
        a.provider.object_digest.as_str(),
        b.provider.object_digest.as_str(),
    ) && a.provider.object_size_bytes == b.provider.object_size_bytes && a.retention_days == b.retention_days
        && a.created_at_unix_seconds == b.created_at_unix_seconds && a.expires_at_unix_seconds
        == b.expires_at_unix_seconds && str_eq(a.note.as_str(), b.note.as_str()) && str_eq(
        a.claim_boundary.as_str(),
        b.claim_boundary.as_str(),
    ) && crate::publication_journal::strings_equal(&a.limitations, &b.limitations)
}

/// The classification of delivered bytes. `parsed` is the checkpoint record
/// the bytes decode to, or `None` when they are not a checkpoint document.
/// Emptiness, structure, operation, sequence, size and body digest each fail
/// closed; an older sequence of the same operation is `Stale`, decided before
/// size and digest so older evidence reports its age.
pub open spec fn delivered_class(
    c: CargoAllowPublicationCheckpointV1,
    bytes: Seq<u8>,
    parsed: Option<CargoAllowPublicationCheckpointV1>,
) -> PublicationCheckpointReadbackV1 {
    if bytes.len() == 0 {
        PublicationCheckpointReadbackV1::Mismatch
    } else {
        match parsed {
            None => PublicationCheckpointReadbackV1::Mismatch,
            Some(p) => if !same_subject(c, p) {
                PublicationCheckpointReadbackV1::Mismatch
            } else if p.checkpoint_sequence < c.checkpoint_sequence {
                PublicationCheckpointReadbackV1::Stale
            } else if p.checkpoint_sequence != c.checkpoint_sequence {
                PublicationCheckpointReadbackV1::Mismatch
            } else if p.readback != PublicationCheckpointReadbackV1::Missing || p.readback_at_unix_seconds is Some {
                PublicationCheckpointReadbackV1::Mismatch
            } else if !same_stored(p, c) {
                PublicationCheckpointReadbackV1::Mismatch
            } else if bytes.len() != c.provider.object_size_bytes {
                PublicationCheckpointReadbackV1::Mismatch
            } else if body_digest(p) != c.provider.object_digest@ {
                PublicationCheckpointReadbackV1::Mismatch
            } else {
                PublicationCheckpointReadbackV1::Complete
            },
        }
    }
}

fn classify_delivered_v1(
    checkpoint: &CargoAllowPublicationCheckpointV1,
    bytes: &[u8],
    parsed: &Option<CargoAllowPublicationCheckpointV1>,
) -> (r: PublicationCheckpointReadbackV1)
    ensures
        r == delivered_class(*checkpoint, bytes@, *parsed),
{
    if bytes.len() == 0 {
        return PublicationCheckpointReadbackV1::Mismatch;
    }
    let p = match parsed {
        None => {
            return PublicationCheckpointReadbackV1::Mismatch;
        },
        Some(p) => p,
    };
    if !same_checkpoint_subject_v1(checkpoint, p) {
        return PublicationCheckpointReadbackV1::Mismatch;
    }
    if p.checkpoint_sequence < checkpoint.checkpoint_sequence {
        return PublicationCheckpointReadbackV1::Stale;
    }
    if p.checkpoint_sequence != checkpoint.checkpoint_sequence {
        return PublicationCheckpointReadbackV1::Mismatch;
    }
    if p.readback != PublicationCheckpointReadbackV1::Missing || p.readback_at_unix_seconds.is_some() {
        return PublicationCheckpointReadbackV1::Mismatch;
    }
    if !same_stored_fields(p, checkpoint) {
        return PublicationCheckpointReadbackV1::Mismatch;
    }
    if bytes.len() as u64 != checkpoint.provider.object_size_bytes {
        return PublicationCheckpointReadbackV1::Mismatch;
    }
    let body = digest_publication_checkpoint_body_v1(p);
    if !str_eq(body.as_str(), checkpoint.provider.object_digest.as_str()) {
        return PublicationCheckpointReadbackV1::Mismatch;
    }
    PublicationCheckpointReadbackV1::Complete
}

/// The verdict a provider outcome reads back as.
pub open spec fn outcome_class(
    c: CargoAllowPublicationCheckpointV1,
    outcome: CheckpointProviderOutcomeV1,
    parsed: Option<CargoAllowPublicationCheckpointV1>,
) -> PublicationCheckpointReadbackV1 {
    match outcome {
        CheckpointProviderOutcomeV1::Unavailable => PublicationCheckpointReadbackV1::ProviderUnavailable,
        CheckpointProviderOutcomeV1::InstrumentFailure => PublicationCheckpointReadbackV1::InstrumentFailure,
        CheckpointProviderOutcomeV1::Delivered(bytes) => delivered_class(c, bytes@, parsed),
    }
}

/// Why a readback observation at `at` is refused.
pub open spec fn readback_time_error(c: CargoAllowPublicationCheckpointV1, at: u64) -> Option<Seq<char>> {
    if at < c.created_at_unix_seconds {
        Some("readbacks must not predate checkpoint construction"@)
    } else if c.readback_at_unix_seconds is Some && at < c.readback_at_unix_seconds->0 {
        Some("checkpoint readback observation time never moves backward"@)
    } else {
        None
    }
}

/// Records an independent readback of the stored provider bytes. The latest
/// observation wins; only `Complete` authorizes progress. `parsed` is the
/// checkpoint record that the delivered bytes decode to (`None` when they
/// do not decode); it is ignored for an outage or an instrument failure.
pub fn record_checkpoint_readback_v1(
    checkpoint: &mut CargoAllowPublicationCheckpointV1,
    outcome: CheckpointProviderOutcomeV1,
    at_unix_seconds: u64,
    parsed: Option<CargoAllowPublicationCheckpointV1>,
) -> (r: Result<PublicationCheckpointReadbackV1, &'static str>)
    ensures
        match readback_time_error(*old(checkpoint), at_unix_seconds) {
            Some(e) => r is Err && r->Err_0@ == e && *final(checkpoint) == *old(checkpoint),
            None => {
                let v = outcome_class(*old(checkpoint), outcome, parsed);
                &&& r == Ok::<PublicationCheckpointReadbackV1, &'static str>(v)
                &&& *final(checkpoint) == (CargoAllowPublicationCheckpointV1 {
                    readback: v,
                    readback_at_unix_seconds: Some(at_unix_seconds),
                    ..*old(checkpoint)
                })
            },
        },
{
    if at_unix_seconds < checkpoint.created_at_unix_seconds {
        return Err("readbacks must not predate checkpoint construction");
    }
    match checkpoint.readback_at_unix_seconds {
        Some(previous) => {
            if at_unix_seconds < previous {
                return Err("checkpoint readback observation time never moves backward");
            }
        },
        None => {},
    }
    let readback = match outcome {
        CheckpointProviderOutcomeV1::Unavailable => PublicationCheckpointReadbackV1::ProviderUnavailable,
        CheckpointProviderOutcomeV1::InstrumentFailure => PublicationCheckpointReadbackV1::InstrumentFailure,
        CheckpointProviderOutcomeV1::Delivered(bytes) => classify_delivered_v1(checkpoint, bytes.as_slice(), &parsed),
    };
    checkpoint.readback = readback;
    checkpoint.readback_at_unix_seconds = Some(at_unix_seconds);
    Ok(readback)
}

// ---------------------------------------------------------------------------
// Selection.
// ---------------------------------------------------------------------------

pub open spec fn identity_match(
    c: CargoAllowPublicationCheckpointV1,
    object_id: Seq<char>,
    producer: PublicationCheckpointProducerV1,
    operation_id: Seq<char>,
) -> bool {
    &&& c.provider.object_id@ == object_id
    &&& same_producer(c.producer, producer)
    &&& c.operation_id@ == operation_id
}

/// Selects one checkpoint by exact identity. The provider object name never
/// participates: a same-name object from another run or producer is never
/// selected, no matter how recent it claims to be, and two exact matches are
/// ambiguous.
pub fn select_checkpoint_by_exact_identity_v1<'a>(
    candidates: &'a Vec<CargoAllowPublicationCheckpointV1>,
    object_id: &str,
    expected_producer: &PublicationCheckpointProducerV1,
    operation_id: &str,
) -> (r: Result<Option<&'a CargoAllowPublicationCheckpointV1>, &'static str>)
    ensures
        match r {
            Err(e) => {
                &&& e@ == "checkpoint discovery by exact identity is ambiguous"@
                &&& exists|i: int, k: int|
                    0 <= i < k < candidates@.len() && identity_match(
                        #[trigger] candidates@[i],
                        object_id@,
                        *expected_producer,
                        operation_id@,
                    ) && identity_match(#[trigger] candidates@[k], object_id@, *expected_producer, operation_id@)
            },
            Ok(None) => forall|i: int|
                0 <= i < candidates@.len() ==> !identity_match(
                    #[trigger] candidates@[i],
                    object_id@,
                    *expected_producer,
                    operation_id@,
                ),
            Ok(Some(c)) => exists|i: int|
                0 <= i < candidates@.len() && *c == candidates@[i] && identity_match(
                    candidates@[i],
                    object_id@,
                    *expected_producer,
                    operation_id@,
                ) && forall|k: int|
                    0 <= k < candidates@.len() && k != i ==> !identity_match(
                        #[trigger] candidates@[k],
                        object_id@,
                        *expected_producer,
                        operation_id@,
                    ),
        },
{
    let mut found: Option<usize> = None;
    let mut i: usize = 0;
    while i < candidates.len()
        invariant
            i <= candidates@.len(),
            match found {
                None => forall|k: int|
                    0 <= k < i ==> !identity_match(
                        #[trigger] candidates@[k],
                        object_id@,
                        *expected_producer,
                        operation_id@,
                    ),
                Some(f) => f < i && identity_match(
                    candidates@[f as int],
                    object_id@,
                    *expected_producer,
                    operation_id@,
                ) && forall|k: int|
                    0 <= k < i && k != f ==> !identity_match(
                        #[trigger] candidates@[k],
                        object_id@,
                        *expected_producer,
                        operation_id@,
                    ),
            },
        decreases candidates@.len() - i,
    {
        let c = &candidates[i];
        if str_eq(c.provider.object_id.as_str(), object_id) && producers_equal(&c.producer, expected_producer)
            && str_eq(c.operation_id.as_str(), operation_id) {
            match found {
                Some(f) => {
                    assert(identity_match(candidates@[f as int], object_id@, *expected_producer, operation_id@));
                    assert(identity_match(candidates@[i as int], object_id@, *expected_producer, operation_id@));
                    return Err("checkpoint discovery by exact identity is ambiguous");
                },
                None => {
                    found = Some(i);
                },
            }
        }
        i = i + 1;
    }
    match found {
        None => Ok(None),
        Some(f) => Ok(Some(&candidates[f])),
    }
}

// ---------------------------------------------------------------------------
// Verification against the live journal.
// ---------------------------------------------------------------------------

/// The index of the first entry at or after `i` with the given sequence.
pub open spec fn first_with_sequence(es: Seq<CargoAllowPublicationJournalEntryV1>, seq: u64, i: int) -> Option<int>
    decreases es.len() - i,
{
    if i < 0 || i >= es.len() {
        None
    } else if es[i].sequence == seq {
        Some(i)
    } else {
        first_with_sequence(es, seq, i + 1)
    }
}

/// The journal entry a checkpoint binds as its head: the first entry with
/// the head sequence, provided its digest is the head digest.
pub open spec fn bound_entry_index(c: CargoAllowPublicationCheckpointV1, j: CargoAllowPublicationJournalV1) -> Option<
    int,
> {
    match first_with_sequence(j.entries@, c.journal_head_sequence, 0) {
        Some(k) => if j.entries@[k].entry_digest@ == c.journal_head_digest@ {
            Some(k)
        } else {
            None
        },
        None => None,
    }
}

/// The index of the first row at or after `i` with the given package name.
pub open spec fn first_row_named(rows: Seq<PublicationJournalRowV1>, name: Seq<char>, i: int) -> Option<int>
    decreases rows.len() - i,
{
    if i < 0 || i >= rows.len() {
        None
    } else if rows[i].package_name@ == name {
        Some(i)
    } else {
        first_row_named(rows, name, i + 1)
    }
}

/// The journal row a checkpoint gates: the first row declared under its
/// package name, provided the row order agrees.
pub open spec fn declared_row_index(c: CargoAllowPublicationCheckpointV1, j: CargoAllowPublicationJournalV1) -> Option<
    int,
> {
    match first_row_named(j.rows@, c.row.package_name@, 0) {
        Some(k) => if j.rows@[k].row_order == c.row.row_order {
            Some(k)
        } else {
            None
        },
        None => None,
    }
}

/// The index of the first upload request started at or after `i` within
/// the prefix up to sequence `seq`.
pub open spec fn first_upload_start(es: Seq<CargoAllowPublicationJournalEntryV1>, seq: u64, i: int) -> Option<int>
    decreases es.len() - i,
{
    if i < 0 || i >= es.len() {
        None
    } else if es[i].sequence <= seq && es[i].kind == PublicationJournalEventV1::UploadRequestStarted {
        Some(i)
    } else {
        first_upload_start(es, seq, i + 1)
    }
}

/// The row named by the first irreversible request in the prefix.
pub open spec fn prefix_first_irreversible_row(es: Seq<CargoAllowPublicationJournalEntryV1>, seq: u64) -> Option<
    Seq<char>,
> {
    match first_upload_start(es, seq, 0) {
        Some(k) => opt_text(es[k].package_name),
        None => None,
    }
}

pub open spec fn prefix_has_incident(es: Seq<CargoAllowPublicationJournalEntryV1>, seq: u64) -> bool {
    exists|i: int|
        0 <= i < es.len() && (#[trigger] es[i]).sequence <= seq && es[i].kind
            == PublicationJournalEventV1::OperationIncident
}

pub open spec fn journal_has_incident(es: Seq<CargoAllowPublicationJournalEntryV1>) -> bool {
    exists|i: int| 0 <= i < es.len() && (#[trigger] es[i]).kind == PublicationJournalEventV1::OperationIncident
}

pub open spec fn journal_class(c: PublicationCheckpointClassV1) -> PublicationJournalClassV1 {
    match c {
        PublicationCheckpointClassV1::CleanFinalPublication => PublicationJournalClassV1::CleanFinalPublication,
        PublicationCheckpointClassV1::IncidentRecovery => PublicationJournalClassV1::IncidentRecovery,
    }
}

/// Why a checkpoint does not verify against a journal whose chain verifies,
/// in the order the checks run.
pub open spec fn against_journal_error(
    c: CargoAllowPublicationCheckpointV1,
    j: CargoAllowPublicationJournalV1,
    expected: PublicationCheckpointProducerV1,
    now: u64,
) -> Option<Seq<char>> {
    let es = j.entries@;
    if c.journal_schema_id@ != PUBLICATION_CHECKPOINT_JOURNAL_SCHEMA_ID@ || j.schema_id@
        != PUBLICATION_CHECKPOINT_JOURNAL_SCHEMA_ID@ {
        Some("checkpoint and journal schema identities must agree"@)
    } else if c.operation_id@ != j.operation_id@ {
        Some("checkpoints verify against their own operation only"@)
    } else if j.operation_class != journal_class(c.operation_class) {
        Some("checkpoint and journal operation classes must agree"@)
    } else if c.authorization_digest@ != j.authorization_digest@ || c.custody_digest@ != j.custody_digest@
        || c.freeze_digest@ != j.freeze_digest@ {
        Some("checkpoint operation identity must match the verified journal header"@)
    } else if c.producer.workflow@ != j.workflow@ || c.producer.run@ != j.run@ || c.producer.attempt@
        != j.attempt@ || c.producer.job@ != j.job@ {
        Some("checkpoint producer execution identity must match the journal"@)
    } else if !same_producer(c.producer, expected) {
        Some("checkpoint producer must match the expected release producer"@)
    } else if bound_entry_index(c, j) is None {
        Some("checkpoint journal prefix does not match the live journal"@)
    } else if declared_row_index(c, j) is None {
        Some("checkpoint row does not match the journal denominator"@)
    } else if c.incident_recorded != prefix_has_incident(es, c.journal_head_sequence) {
        Some("checkpoint incident posture must match its bound journal prefix"@)
    } else if opt_text(c.first_irreversible_row) != prefix_first_irreversible_row(es, c.journal_head_sequence) {
        Some("checkpoint first irreversible row must match its bound journal prefix"@)
    } else if c.readback != PublicationCheckpointReadbackV1::Complete {
        Some("provider success without readback is never clean"@)
    } else if c.readback_at_unix_seconds is None {
        Some("Complete readback requires an observation time"@)
    } else if c.readback_at_unix_seconds->0 < c.created_at_unix_seconds || c.readback_at_unix_seconds->0 > now
        || c.readback_at_unix_seconds->0 >= c.expires_at_unix_seconds {
        Some("checkpoint readback time is outside its trusted window"@)
    } else if now < c.created_at_unix_seconds || now >= c.expires_at_unix_seconds {
        Some("expired or premature checkpoints never authorize progress"@)
    } else if journal_has_incident(es) && !c.incident_recorded {
        Some("checkpoints must not under-report journal incidents"@)
    } else {
        None
    }
}

/// Why a checkpoint does not verify against a journal: the journal's own
/// chain first, then the checkpoint's bindings.
pub open spec fn checkpoint_journal_error(
    c: CargoAllowPublicationCheckpointV1,
    j: CargoAllowPublicationJournalV1,
    expected: PublicationCheckpointProducerV1,
    now: u64,
) -> Option<Seq<char>> {
    if chain_error(j.entries@, j.entries@.len()) is Some {
        chain_error(j.entries@, j.entries@.len())
    } else {
        against_journal_error(c, j, expected, now)
    }
}

fn find_sequence(es: &Vec<CargoAllowPublicationJournalEntryV1>, seq: u64) -> (r: Option<usize>)
    ensures
        match r {
            Some(k) => first_with_sequence(es@, seq, 0) == Some(k as int),
            None => first_with_sequence(es@, seq, 0) is None,
        },
        r is Some ==> r->0 < es@.len(),
{
    let mut i: usize = 0;
    while i < es.len()
        invariant
            i <= es@.len(),
            first_with_sequence(es@, seq, 0) == first_with_sequence(es@, seq, i as int),
        decreases es@.len() - i,
    {
        if es[i].sequence == seq {
            return Some(i);
        }
        i = i + 1;
    }
    None
}

fn bound_entry(c: &CargoAllowPublicationCheckpointV1, j: &CargoAllowPublicationJournalV1) -> (r: Option<usize>)
    ensures
        match r {
            Some(k) => bound_entry_index(*c, *j) == Some(k as int),
            None => bound_entry_index(*c, *j) is None,
        },
{
    match find_sequence(&j.entries, c.journal_head_sequence) {
        Some(k) => {
            if str_eq(j.entries[k].entry_digest.as_str(), c.journal_head_digest.as_str()) {
                Some(k)
            } else {
                None
            }
        },
        None => None,
    }
}

fn declared_row(c: &CargoAllowPublicationCheckpointV1, j: &CargoAllowPublicationJournalV1) -> (r: Option<usize>)
    ensures
        match r {
            Some(k) => declared_row_index(*c, *j) == Some(k as int),
            None => declared_row_index(*c, *j) is None,
        },
{
    let rows = &j.rows;
    let name = c.row.package_name.as_str();
    let mut i: usize = 0;
    while i < rows.len()
        invariant
            i <= rows@.len(),
            rows@ == j.rows@,
            name@ == c.row.package_name@,
            first_row_named(rows@, name@, 0) == first_row_named(rows@, name@, i as int),
        decreases rows@.len() - i,
    {
        if str_eq(rows[i].package_name.as_str(), name) {
            if rows[i].row_order == c.row.row_order {
                return Some(i);
            } else {
                return None;
            }
        }
        i = i + 1;
    }
    None
}

fn first_irreversible(es: &Vec<CargoAllowPublicationJournalEntryV1>, seq: u64) -> (r: Option<&String>)
    ensures
        match r {
            Some(s) => prefix_first_irreversible_row(es@, seq) == Some(s@),
            None => prefix_first_irreversible_row(es@, seq) is None,
        },
{
    let mut i: usize = 0;
    while i < es.len()
        invariant
            i <= es@.len(),
            first_upload_start(es@, seq, 0) == first_upload_start(es@, seq, i as int),
        decreases es@.len() - i,
    {
        if es[i].sequence <= seq && es[i].kind == PublicationJournalEventV1::UploadRequestStarted {
            return match &es[i].package_name {
                Some(s) => Some(s),
                None => None,
            };
        }
        i = i + 1;
    }
    None
}

fn has_incident_upto(es: &Vec<CargoAllowPublicationJournalEntryV1>, seq: u64) -> (r: bool)
    ensures
        r == prefix_has_incident(es@, seq),
{
    let mut i: usize = 0;
    while i < es.len()
        invariant
            i <= es@.len(),
            forall|k: int|
                0 <= k < i ==> !((#[trigger] es@[k]).sequence <= seq && es@[k].kind
                    == PublicationJournalEventV1::OperationIncident),
        decreases es@.len() - i,
    {
        if es[i].sequence <= seq && es[i].kind == PublicationJournalEventV1::OperationIncident {
            assert(es@[i as int].sequence <= seq);
            return true;
        }
        i = i + 1;
    }
    false
}

fn has_incident(es: &Vec<CargoAllowPublicationJournalEntryV1>) -> (r: bool)
    ensures
        r == journal_has_incident(es@),
{
    let mut i: usize = 0;
    while i < es.len()
        invariant
            i <= es@.len(),
            forall|k: int| 0 <= k < i ==> (#[trigger] es@[k]).kind != PublicationJournalEventV1::OperationIncident,
        decreases es@.len() - i,
    {
        if es[i].kind == PublicationJournalEventV1::OperationIncident {
            assert(es@[i as int].kind == PublicationJournalEventV1::OperationIncident);
            return true;
        }
        i = i + 1;
    }
    false
}

/// Verifies a checkpoint against the live journal, the expected producer
/// and the wall clock. Fails closed on operation drift, truncated or
/// rewritten journal prefixes, producer mismatch, missing readback, expiry,
/// and incident under-reporting.
pub fn verify_checkpoint_against_journal_v1(
    checkpoint: &CargoAllowPublicationCheckpointV1,
    journal: &CargoAllowPublicationJournalV1,
    expected_producer: &PublicationCheckpointProducerV1,
    now_unix_seconds: u64,
) -> (r: Result<(), &'static str>)
    ensures
        match checkpoint_journal_error(*checkpoint, *journal, *expected_producer, now_unix_seconds) {
            Some(e) => r is Err && r->Err_0@ == e,
            None => r is Ok,
        },
{
    match verify_publication_journal_v1(journal) {
        Err(m) => {
            return Err(m);
        },
        Ok(()) => {},
    }
    let c = checkpoint;
    let j = journal;
    if !str_eq(c.journal_schema_id.as_str(), PUBLICATION_CHECKPOINT_JOURNAL_SCHEMA_ID) || !str_eq(
        j.schema_id.as_str(),
        PUBLICATION_CHECKPOINT_JOURNAL_SCHEMA_ID,
    ) {
        return Err("checkpoint and journal schema identities must agree");
    }
    if !str_eq(c.operation_id.as_str(), j.operation_id.as_str()) {
        return Err("checkpoints verify against their own operation only");
    }
    let expected_class = match c.operation_class {
        PublicationCheckpointClassV1::CleanFinalPublication => PublicationJournalClassV1::CleanFinalPublication,
        PublicationCheckpointClassV1::IncidentRecovery => PublicationJournalClassV1::IncidentRecovery,
    };
    if j.operation_class != expected_class {
        return Err("checkpoint and journal operation classes must agree");
    }
    if !str_eq(c.authorization_digest.as_str(), j.authorization_digest.as_str()) || !str_eq(
        c.custody_digest.as_str(),
        j.custody_digest.as_str(),
    ) || !str_eq(c.freeze_digest.as_str(), j.freeze_digest.as_str()) {
        return Err("checkpoint operation identity must match the verified journal header");
    }
    if !str_eq(c.producer.workflow.as_str(), j.workflow.as_str()) || !str_eq(c.producer.run.as_str(), j.run.as_str())
        || !str_eq(c.producer.attempt.as_str(), j.attempt.as_str()) || !str_eq(
        c.producer.job.as_str(),
        j.job.as_str(),
    ) {
        return Err("checkpoint producer execution identity must match the journal");
    }
    if !producers_equal(&c.producer, expected_producer) {
        return Err("checkpoint producer must match the expected release producer");
    }
    if bound_entry(c, j).is_none() {
        return Err("checkpoint journal prefix does not match the live journal");
    }
    if declared_row(c, j).is_none() {
        return Err("checkpoint row does not match the journal denominator");
    }
    if c.incident_recorded != has_incident_upto(&j.entries, c.journal_head_sequence) {
        return Err("checkpoint incident posture must match its bound journal prefix");
    }
    let first = first_irreversible(&j.entries, c.journal_head_sequence);
    let first_matches = match (&c.first_irreversible_row, first) {
        (Some(mine), Some(theirs)) => str_eq(mine.as_str(), theirs.as_str()),
        (None, None) => true,
        _ => false,
    };
    if !first_matches {
        return Err("checkpoint first irreversible row must match its bound journal prefix");
    }
    if c.readback != PublicationCheckpointReadbackV1::Complete {
        return Err("provider success without readback is never clean");
    }
    let readback_at = match c.readback_at_unix_seconds {
        Some(t) => t,
        None => {
            return Err("Complete readback requires an observation time");
        },
    };
    if readback_at < c.created_at_unix_seconds || readback_at > now_unix_seconds || readback_at
        >= c.expires_at_unix_seconds {
        return Err("checkpoint readback time is outside its trusted window");
    }
    if now_unix_seconds < c.created_at_unix_seconds || now_unix_seconds >= c.expires_at_unix_seconds {
        return Err("expired or premature checkpoints never authorize progress");
    }
    if has_incident(&j.entries) && !c.incident_recorded {
        return Err("checkpoints must not under-report journal incidents");
    }
    Ok(())
}

// ---------------------------------------------------------------------------
// Progress gates.
// ---------------------------------------------------------------------------

/// The bound journal entry records exactly this row.
pub open spec fn entry_matches_row(e: CargoAllowPublicationJournalEntryV1, r: PublicationJournalRowV1) -> bool {
    &&& opt_text(e.package_name) == Some(r.package_name@)
    &&& e.row_order == Some(r.row_order)
    &&& opt_text(e.candidate_archive_digest) == Some(r.candidate_archive_digest@)
}

fn bound_entry_matches_row_v1(e: &CargoAllowPublicationJournalEntryV1, r: &PublicationJournalRowV1) -> (b: bool)
    ensures
        b == entry_matches_row(*e, *r),
{
    let name = match &e.package_name {
        Some(n) => str_eq(n.as_str(), r.package_name.as_str()),
        None => false,
    };
    let order = match e.row_order {
        Some(o) => o == r.row_order,
        None => false,
    };
    let digest = match &e.candidate_archive_digest {
        Some(d) => str_eq(d.as_str(), r.candidate_archive_digest.as_str()),
        None => false,
    };
    name && order && digest
}

/// Why a checkpoint does not open a gate: it must verify, have the given
/// kind and claimed row state, and bind the row's journal entry of the
/// given kind.
pub open spec fn gate_error(
    c: CargoAllowPublicationCheckpointV1,
    j: CargoAllowPublicationJournalV1,
    expected: PublicationCheckpointProducerV1,
    now: u64,
    kind: PublicationCheckpointKindV1,
    state: PublicationCheckpointRowStateV1,
    entry_kind: PublicationJournalEventV1,
    kind_message: Seq<char>,
    entry_message: Seq<char>,
) -> Option<Seq<char>> {
    if checkpoint_journal_error(c, j, expected, now) is Some {
        checkpoint_journal_error(c, j, expected, now)
    } else if c.kind != kind || c.row.state != state {
        Some(kind_message)
    } else {
        match (declared_row_index(c, j), bound_entry_index(c, j)) {
            (None, _) => Some("checkpoint row does not match the journal denominator"@),
            (Some(_), None) => Some("checkpoint journal prefix does not match the live journal"@),
            (Some(r), Some(b)) => if j.entries@[b].kind != entry_kind || !entry_matches_row(
                j.entries@[b],
                j.rows@[r],
            ) {
                Some(entry_message)
            } else {
                None
            },
        }
    }
}

pub open spec fn upload_gate_error(
    c: CargoAllowPublicationCheckpointV1,
    j: CargoAllowPublicationJournalV1,
    expected: PublicationCheckpointProducerV1,
    now: u64,
) -> Option<Seq<char>> {
    gate_error(
        c,
        j,
        expected,
        now,
        PublicationCheckpointKindV1::PreIntentDurable,
        PublicationCheckpointRowStateV1::IntentDurable,
        PublicationJournalEventV1::UploadIntentDurable,
        "uploads begin only from a verified durable-intent checkpoint"@,
        "upload checkpoint must bind the exact row's durable intent journal entry"@,
    )
}

pub open spec fn dependant_gate_error(
    c: CargoAllowPublicationCheckpointV1,
    j: CargoAllowPublicationJournalV1,
    expected: PublicationCheckpointProducerV1,
    now: u64,
) -> Option<Seq<char>> {
    gate_error(
        c,
        j,
        expected,
        now,
        PublicationCheckpointKindV1::PostObservation,
        PublicationCheckpointRowStateV1::VisibleExact,
        PublicationJournalEventV1::RegistryVisibleExact,
        "dependants begin only from a verified exact-visibility checkpoint"@,
        "dependant checkpoint must bind the exact row's visible-exact journal entry"@,
    )
}

fn check_gate(
    c: &CargoAllowPublicationCheckpointV1,
    j: &CargoAllowPublicationJournalV1,
    expected: &PublicationCheckpointProducerV1,
    now: u64,
    kind: PublicationCheckpointKindV1,
    state: PublicationCheckpointRowStateV1,
    entry_kind: PublicationJournalEventV1,
    kind_message: &'static str,
    entry_message: &'static str,
) -> (r: Result<(), &'static str>)
    ensures
        match gate_error(*c, *j, *expected, now, kind, state, entry_kind, kind_message@, entry_message@) {
            Some(e) => r is Err && r->Err_0@ == e,
            None => r is Ok,
        },
{
    match verify_checkpoint_against_journal_v1(c, j, expected, now) {
        Err(m) => {
            return Err(m);
        },
        Ok(()) => {},
    }
    if c.kind != kind || c.row.state != state {
        return Err(kind_message);
    }
    let r = match declared_row(c, j) {
        Some(r) => r,
        None => {
            return Err("checkpoint row does not match the journal denominator");
        },
    };
    let b = match bound_entry(c, j) {
        Some(b) => b,
        None => {
            return Err("checkpoint journal prefix does not match the live journal");
        },
    };
    proof {
        lemma_first_row_named_bounds(j.rows@, c.row.package_name@, 0);
        lemma_first_with_sequence_bounds(j.entries@, c.journal_head_sequence, 0);
    }
    if j.entries[b].kind != entry_kind || !bound_entry_matches_row_v1(&j.entries[b], &j.rows[r]) {
        return Err(entry_message);
    }
    Ok(())
}

proof fn lemma_first_with_sequence_bounds(es: Seq<CargoAllowPublicationJournalEntryV1>, seq: u64, i: int)
    ensures
        first_with_sequence(es, seq, i) is Some ==> i <= first_with_sequence(es, seq, i)->0 < es.len(),
    decreases es.len() - i,
{
    if 0 <= i < es.len() && es[i].sequence != seq {
        lemma_first_with_sequence_bounds(es, seq, i + 1);
    }
}

proof fn lemma_first_row_named_bounds(rows: Seq<PublicationJournalRowV1>, name: Seq<char>, i: int)
    ensures
        first_row_named(rows, name, i) is Some ==> i <= first_row_named(rows, name, i)->0 < rows.len(),
    decreases rows.len() - i,
{
    if 0 <= i < rows.len() && rows[i].package_name@ != name {
        lemma_first_row_named_bounds(rows, name, i + 1);
    }
}

/// A read-back pre-intent checkpoint authorizes exactly one upload to
/// begin: the row's durable upload intent it binds.
pub fn checkpoint_permits_upload_v1(
    checkpoint: &CargoAllowPublicationCheckpointV1,
    journal: &CargoAllowPublicationJournalV1,
    expected_producer: &PublicationCheckpointProducerV1,
    now_unix_seconds: u64,
) -> (r: Result<(), &'static str>)
    ensures
        match upload_gate_error(*checkpoint, *journal, *expected_producer, now_unix_seconds) {
            Some(e) => r is Err && r->Err_0@ == e,
            None => r is Ok,
        },
{
    check_gate(
        checkpoint,
        journal,
        expected_producer,
        now_unix_seconds,
        PublicationCheckpointKindV1::PreIntentDurable,
        PublicationCheckpointRowStateV1::IntentDurable,
        PublicationJournalEventV1::UploadIntentDurable,
        "uploads begin only from a verified durable-intent checkpoint",
        "upload checkpoint must bind the exact row's durable intent journal entry",
    )
}

/// A read-back post-observation checkpoint unlocks exactly one dependant
/// row: the row whose exact registry visibility it binds.
pub fn checkpoint_permits_dependant_v1(
    checkpoint: &CargoAllowPublicationCheckpointV1,
    journal: &CargoAllowPublicationJournalV1,
    expected_producer: &PublicationCheckpointProducerV1,
    now_unix_seconds: u64,
) -> (r: Result<(), &'static str>)
    ensures
        match dependant_gate_error(*checkpoint, *journal, *expected_producer, now_unix_seconds) {
            Some(e) => r is Err && r->Err_0@ == e,
            None => r is Ok,
        },
{
    check_gate(
        checkpoint,
        journal,
        expected_producer,
        now_unix_seconds,
        PublicationCheckpointKindV1::PostObservation,
        PublicationCheckpointRowStateV1::VisibleExact,
        PublicationJournalEventV1::RegistryVisibleExact,
        "dependants begin only from a verified exact-visibility checkpoint",
        "dependant checkpoint must bind the exact row's visible-exact journal entry",
    )
}

// ---------------------------------------------------------------------------
// Laws.
// ---------------------------------------------------------------------------

/// A fresh checkpoint reads back as `Missing`, and provider success without
/// readback is never clean: a freshly begun checkpoint verifies against no
/// journal and opens neither gate, at any time.
pub proof fn lemma_fresh_checkpoint_never_authorizes(
    c: CargoAllowPublicationCheckpointV1,
    i: PublicationCheckpointInitV1,
    prior: Option<CargoAllowPublicationCheckpointV1>,
    j: CargoAllowPublicationJournalV1,
    expected: PublicationCheckpointProducerV1,
    now: u64,
)
    requires
        begun_from(c, i, prior),
    ensures
        c.readback == PublicationCheckpointReadbackV1::Missing,
        checkpoint_journal_error(c, j, expected, now) is Some,
        upload_gate_error(c, j, expected, now) is Some,
        dependant_gate_error(c, j, expected, now) is Some,
{
}

/// Linkage never crosses operations and incident history is never
/// overwritten: a checkpoint begun after a predecessor keeps its operation
/// identity and class, advances the sequence by exactly one, never moves
/// the journal prefix backward, keeps a recorded incident and the first
/// irreversible row, and binds the predecessor's link digest.
pub proof fn lemma_linkage_stays_in_operation(
    c: CargoAllowPublicationCheckpointV1,
    i: PublicationCheckpointInitV1,
    prev: CargoAllowPublicationCheckpointV1,
)
    requires
        begin_error(i, Some(prev)) is None,
        begun_from(c, i, Some(prev)),
    ensures
        c.checkpoint_sequence == prev.checkpoint_sequence + 1,
        c.operation_id@ == prev.operation_id@,
        c.authorization_digest@ == prev.authorization_digest@,
        c.custody_digest@ == prev.custody_digest@,
        c.freeze_digest@ == prev.freeze_digest@,
        c.operation_class == prev.operation_class,
        prev.readback == PublicationCheckpointReadbackV1::Complete,
        c.journal_head_sequence >= prev.journal_head_sequence,
        prev.incident_recorded ==> c.incident_recorded,
        prev.first_irreversible_row is Some ==> opt_text(c.first_irreversible_row) == opt_text(
            prev.first_irreversible_row,
        ),
        opt_text(c.prior_checkpoint_digest) == Some(link_digest(prev)),
{
}

/// The link digest does not depend on the readback observation: recording
/// a readback leaves the digest a successor binds unchanged.
pub proof fn lemma_link_digest_ignores_readback(
    c: CargoAllowPublicationCheckpointV1,
    readback: PublicationCheckpointReadbackV1,
    at: Option<u64>,
)
    ensures
        link_digest(CargoAllowPublicationCheckpointV1 { readback, readback_at_unix_seconds: at, ..c })
            == link_digest(c),
{
    let d = CargoAllowPublicationCheckpointV1 { readback, readback_at_unix_seconds: at, ..c };
    assert(head_members(d) == head_members(c));
}

/// A `Complete` readback means the delivered record is the stored form of
/// this checkpoint field for field, never read back before, its size is
/// the provider object's size, and its body digest is the provider
/// object's digest.
pub proof fn lemma_complete_readback_matches_stored(
    c: CargoAllowPublicationCheckpointV1,
    bytes: Seq<u8>,
    parsed: Option<CargoAllowPublicationCheckpointV1>,
)
    requires
        delivered_class(c, bytes, parsed) == PublicationCheckpointReadbackV1::Complete,
    ensures
        parsed is Some,
        same_stored(parsed->0, c),
        parsed->0.readback == PublicationCheckpointReadbackV1::Missing,
        parsed->0.readback_at_unix_seconds is None,
        bytes.len() == c.provider.object_size_bytes,
        body_digest(parsed->0) == c.provider.object_digest@,
{
}

/// A checkpoint that verifies never under-reports an incident: when the
/// journal records one anywhere, the checkpoint records incident posture.
pub proof fn lemma_verified_checkpoint_reports_incidents(
    c: CargoAllowPublicationCheckpointV1,
    j: CargoAllowPublicationJournalV1,
    expected: PublicationCheckpointProducerV1,
    now: u64,
)
    requires
        checkpoint_journal_error(c, j, expected, now) is None,
        journal_has_incident(j.entries@),
    ensures
        c.incident_recorded,
{
}

/// An open upload gate means a verified, read-back, unexpired pre-intent
/// checkpoint whose bound journal entry is the durable upload intent of
/// exactly its declared row.
pub proof fn lemma_upload_gate_binds_durable_intent(
    c: CargoAllowPublicationCheckpointV1,
    j: CargoAllowPublicationJournalV1,
    expected: PublicationCheckpointProducerV1,
    now: u64,
)
    requires
        upload_gate_error(c, j, expected, now) is None,
    ensures
        checkpoint_journal_error(c, j, expected, now) is None,
        c.readback == PublicationCheckpointReadbackV1::Complete,
        c.created_at_unix_seconds <= now < c.expires_at_unix_seconds,
        c.kind == PublicationCheckpointKindV1::PreIntentDurable,
        bound_entry_index(c, j) is Some,
        declared_row_index(c, j) is Some,
        j.entries@[bound_entry_index(c, j)->0].kind == PublicationJournalEventV1::UploadIntentDurable,
        entry_matches_row(j.entries@[bound_entry_index(c, j)->0], j.rows@[declared_row_index(c, j)->0]),
{
}

} // verus!
