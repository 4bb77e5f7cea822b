//! Append-only publication journal for the final release.
//!
//! The final release publishes one exact operation across many package rows
//! with crash-prone seams between them: an upload may be accepted by the
//! registry while the runner dies before recording the response. This
//! module gives every package row one durable pre-intent and one
//! append-only outcome history under a single operation identity. Responses
//! are recorded as observed or unknown, never inferred; registry visibility
//! comes from caller-supplied provider observations; entries are never
//! edited; a later success cannot rewrite or omit an earlier incident. After
//! an incident the clean journal refuses further upload intent.
//!
//! Everything here is pure: observations are caller-supplied and validated,
//! never fetched. A refused append is a stop signal for the caller.

use vstd::prelude::*;
use vstd::utf8::encode_utf8;
use crate::digest::{digest_text, text_digest};
use crate::json::{json_obj, json_opt_str, json_opt_u64, json_str, kv, JsonList};
use crate::release_authorization_custody::{secret_marker, secret_marker_spec};
use crate::text::{blank, decimal, is_blank, is_lower_sha256_digest, is_lower_sha256_digest_str, str_eq, views};

verus! {

pub const PUBLICATION_JOURNAL_SCHEMA_ID: &'static str = "cargo-allow.publication-journal.v1";

pub const PUBLICATION_JOURNAL_SCHEMA_VERSION: u32 = 1;

/// The exact selected operation this journal may carry.
pub const PUBLICATION_JOURNAL_OPERATION: &'static str = "publish_cargo_allow_final_0_2_0";

/// Recovery journals bind the original journal instead of continuing it.
pub const PUBLICATION_JOURNAL_RECOVERY_OPERATION: &'static str = "recover_cargo_allow_final_publication";

/// Digest chaining starts here; the first entry must reference it.
pub const PUBLICATION_JOURNAL_GENESIS_DIGEST: &'static str = "sha256:0000000000000000000000000000000000000000000000000000000000000000";

/// Bounded upload retries after an unknown response or a proven absence.
pub const PUBLICATION_JOURNAL_MAX_UPLOAD_ATTEMPTS: u32 = 3;

/// Bounded provider note, in bytes: leak prevention by construction.
pub const PUBLICATION_JOURNAL_MAX_RESPONSE_DETAIL_LEN: usize = 256;

pub const PUBLICATION_JOURNAL_CLAIM_BOUNDARY: &'static str = "This record owns one append-only, crash-consistent history per cargo-allow package publication attempt: durable pre-intent, observed or unknown responses, provider observation verdicts, and incident preservation. It does not upload packages, observe the registry, authorize the operation, or execute recovery.";

/// Journal operation class, mirroring the release-operation vocabulary.
/// Clean journals never become recovery journals; recovery starts a new
/// journal bound to the original via `prior_journal_digest`.
#[derive(Debug, Clone, Copy, PartialEq, Eq, Structural)]
pub enum PublicationJournalClassV1 {
    CleanFinalPublication,
    IncidentRecovery,
}

/// Ordered journal event vocabulary.
#[derive(Debug, Clone, Copy, PartialEq, Eq, Structural)]
pub enum PublicationJournalEventV1 {
    OperationSelected,
    AuthorizationConsumed,
    TagObservedExact,
    RowPreflightComplete,
    UploadIntentDurable,
    UploadRequestStarted,
    UploadResponseObserved,
    UploadResponseUnknown,
    RegistryObservationStarted,
    RegistryVisibleExact,
    RegistryVisibleConflict,
    RegistryObservedAbsent,
    RegistryWaiting,
    OperationIncident,
    OperationComplete,
}

/// Provider response class. A missing or unsuccessful response is recorded
/// as `UploadResponseUnknown` with a class naming the last known position,
/// never as an inference about the registry.
#[derive(Debug, Clone, Copy, PartialEq, Eq, Structural)]
pub enum UploadResponseClassV1 {
    Success,
    TransportError,
    NonzeroExit,
    Timeout,
    Unknown,
}

/// One package row the journal tracks. `candidate_archive_digest` is the
/// exact custody-bound archive digest the executor supplies; the journal records it
/// verbatim and never substitutes moving-`main` bytes for it.
#[derive(Debug, Clone, PartialEq, Eq)]
pub struct PublicationJournalRowV1 {
    pub package_name: String,
    pub version: String,
    pub row_order: u32,
    pub candidate_archive_digest: String,
    pub depends_on: Vec<String>,
}

/// Caller-supplied registry observation. Reachability, visibility, and
/// digest agreement are separate claims: an unreachable provider is never
/// inferred as absent, and a visible row with a mismatched digest is a
/// conflict, never exact.
#[derive(Debug, Clone, PartialEq, Eq)]
pub struct PublicationRegistryObservationV1 {
    pub provider_reachable: bool,
    pub row_visible: bool,
    pub archive_digest_matches: bool,
}

/// Caller-supplied upload response with a bounded note. The note carries
/// operational position only; unbounded provider bodies and credentials have
/// no field to live in.
#[derive(Debug, Clone, PartialEq, Eq)]
pub struct PublicationUploadResponseV1 {
    pub class: UploadResponseClassV1,
    pub detail: String,
}

/// One append-only journal entry.
#[derive(Debug, Clone, PartialEq, Eq)]
pub struct CargoAllowPublicationJournalEntryV1 {
    pub sequence: u64,
    pub previous_digest: String,
    pub entry_digest: String,
    pub kind: PublicationJournalEventV1,
    pub package_name: Option<String>,
    pub row_order: Option<u32>,
    pub candidate_archive_digest: Option<String>,
    pub at_unix_seconds: u64,
    pub reason: String,
    pub response_class: Option<UploadResponseClassV1>,
    pub workflow: String,
    pub run: String,
    pub attempt: String,
    pub job: String,
}

/// The publication journal record.
#[derive(Debug, Clone, PartialEq, Eq)]
pub struct CargoAllowPublicationJournalV1 {
    pub schema_id: String,
    pub schema_version: u32,
    pub journal_id: String,
    pub operation_id: String,
    /// Canonical operation identity digest the journal is bound to; recovery
    /// decisions and checkpoint positions must repeat it.
    pub operation_identity_digest: String,
    pub operation_class: PublicationJournalClassV1,
    pub authorization_digest: String,
    pub custody_digest: String,
    pub freeze_digest: String,
    /// Recovery journals name the original clean journal; clean journals
    /// carry `None` and can never gain one later.
    pub prior_journal_digest: Option<String>,
    pub created_at_unix_seconds: u64,
    pub workflow: String,
    pub run: String,
    pub attempt: String,
    pub job: String,
    /// The exact bound row set. Declared once, never extended.
    pub rows: Vec<PublicationJournalRowV1>,
    pub entries: Vec<CargoAllowPublicationJournalEntryV1>,
    pub claim_boundary: String,
    pub limitations: Vec<String>,
}

/// Caller-supplied construction inputs.
#[derive(Debug, Clone, PartialEq, Eq)]
pub struct PublicationJournalInitV1 {
    pub journal_id: String,
    pub operation_id: String,
    pub operation_identity_digest: String,
    pub operation_class: PublicationJournalClassV1,
    pub authorization_digest: String,
    pub custody_digest: String,
    pub freeze_digest: String,
    pub prior_journal_digest: Option<String>,
    /// The exact bound row set, usually from the frozen candidate. Rows
    /// cannot be added later: completion requires every declared row
    /// terminally resolved, so an omitted row can never vanish silently.
    pub rows: Vec<PublicationJournalRowV1>,
    pub created_at_unix_seconds: u64,
    pub workflow: String,
    pub run: String,
    pub attempt: String,
    pub job: String,
}

/// Caller-supplied append request. Sequence and chaining are assigned by the
/// journal, never the caller, so a sequence number or previous digest cannot
/// be reused or forged through this API.
#[derive(Debug, Clone, PartialEq, Eq)]
pub struct PublicationJournalAppendV1 {
    pub kind: PublicationJournalEventV1,
    pub row: Option<PublicationJournalRowV1>,
    pub response: Option<PublicationUploadResponseV1>,
    pub observation: Option<PublicationRegistryObservationV1>,
    pub at_unix_seconds: u64,
    pub reason: String,
}


impl PublicationJournalEventV1 {
    pub open spec fn wire(self) -> Seq<char> {
        match self {
            Self::OperationSelected => "operation_selected"@,
            Self::AuthorizationConsumed => "authorization_consumed"@,
            Self::TagObservedExact => "tag_observed_exact"@,
            Self::RowPreflightComplete => "row_preflight_complete"@,
            Self::UploadIntentDurable => "upload_intent_durable"@,
            Self::UploadRequestStarted => "upload_request_started"@,
            Self::UploadResponseObserved => "upload_response_observed"@,
            Self::UploadResponseUnknown => "upload_response_unknown"@,
            Self::RegistryObservationStarted => "registry_observation_started"@,
            Self::RegistryVisibleExact => "registry_visible_exact"@,
            Self::RegistryVisibleConflict => "registry_visible_conflict"@,
            Self::RegistryObservedAbsent => "registry_observed_absent"@,
            Self::RegistryWaiting => "registry_waiting"@,
            Self::OperationIncident => "operation_incident"@,
            Self::OperationComplete => "operation_complete"@,
        }
    }

    pub fn wire_label(self) -> (r: &'static str)
        ensures
            r@ == self.wire(),
    {
        match self {
            Self::OperationSelected => "operation_selected",
            Self::AuthorizationConsumed => "authorization_consumed",
            Self::TagObservedExact => "tag_observed_exact",
            Self::RowPreflightComplete => "row_preflight_complete",
            Self::UploadIntentDurable => "upload_intent_durable",
            Self::UploadRequestStarted => "upload_request_started",
            Self::UploadResponseObserved => "upload_response_observed",
            Self::UploadResponseUnknown => "upload_response_unknown",
            Self::RegistryObservationStarted => "registry_observation_started",
            Self::RegistryVisibleExact => "registry_visible_exact",
            Self::RegistryVisibleConflict => "registry_visible_conflict",
            Self::RegistryObservedAbsent => "registry_observed_absent",
            Self::RegistryWaiting => "registry_waiting",
            Self::OperationIncident => "operation_incident",
            Self::OperationComplete => "operation_complete",
        }
    }

    /// Operation-scoped events carry no row; every other event is row-scoped.
    pub open spec fn operation_scoped(self) -> bool {
        self == Self::OperationSelected || self == Self::AuthorizationConsumed || self
            == Self::TagObservedExact || self == Self::OperationIncident || self
            == Self::OperationComplete
    }
}

impl UploadResponseClassV1 {
    pub open spec fn wire(self) -> Seq<char> {
        match self {
            Self::Success => "success"@,
            Self::TransportError => "transport_error"@,
            Self::NonzeroExit => "nonzero_exit"@,
            Self::Timeout => "timeout"@,
            Self::Unknown => "unknown"@,
        }
    }

    pub fn wire_label(self) -> (r: &'static str)
        ensures
            r@ == self.wire(),
    {
        match self {
            Self::Success => "success",
            Self::TransportError => "transport_error",
            Self::NonzeroExit => "nonzero_exit",
            Self::Timeout => "timeout",
            Self::Unknown => "unknown",
        }
    }
}

// ---------------------------------------------------------------------------
// Views and shapes.
// ---------------------------------------------------------------------------

pub open spec fn opt_text(o: Option<String>) -> Option<Seq<char>> {
    match o {
        Some(s) => Some(s@),
        None => None,
    }
}

/// (package, version, order, archive digest, dependencies)
pub type JournalRowView = (Seq<char>, Seq<char>, u32, Seq<char>, Seq<Seq<char>>);

pub open spec fn journal_row_view(r: PublicationJournalRowV1) -> JournalRowView {
    (r.package_name@, r.version@, r.row_order, r.candidate_archive_digest@, views(r.depends_on@))
}

/// (sequence, previous digest, entry digest, kind, package, order, archive
/// digest, time, reason, response class, workflow, run, attempt, job)
pub type EntryView = (
    u64,
    Seq<char>,
    Seq<char>,
    PublicationJournalEventV1,
    Option<Seq<char>>,
    Option<u32>,
    Option<Seq<char>>,
    u64,
    Seq<char>,
    Option<UploadResponseClassV1>,
    Seq<char>,
    Seq<char>,
    Seq<char>,
    Seq<char>,
);

pub open spec fn entry_view(e: CargoAllowPublicationJournalEntryV1) -> EntryView {
    (
        e.sequence,
        e.previous_digest@,
        e.entry_digest@,
        e.kind,
        opt_text(e.package_name),
        e.row_order,
        opt_text(e.candidate_archive_digest),
        e.at_unix_seconds,
        e.reason@,
        e.response_class,
        e.workflow@,
        e.run@,
        e.attempt@,
        e.job@,
    )
}

pub open spec fn entries_view(v: Seq<CargoAllowPublicationJournalEntryV1>) -> Seq<EntryView> {
    v.map_values(|e: CargoAllowPublicationJournalEntryV1| entry_view(e))
}

pub open spec fn digest_shape(s: Seq<char>) -> bool {
    is_lower_sha256_digest(s)
}

/// The canonical digest input of an entry: every chained field, in order,
/// as compact JSON (absent options as `null`).
pub open spec fn entry_input_json(e: EntryView) -> Seq<char> {
    json_obj(
        Seq::empty().push(kv("sequence"@, decimal(e.0 as nat))).push(
            kv("previous_digest"@, json_str(e.1)),
        ).push(kv("kind"@, json_str(e.3.wire()))).push(kv("package_name"@, json_opt_str(e.4))).push(
            kv(
                "row_order"@,
                json_opt_u64(
                    match e.5 {
                        Some(n) => Some(n as u64),
                        None => None,
                    },
                ),
            ),
        ).push(kv("candidate_archive_digest"@, json_opt_str(e.6))).push(
            kv("at_unix_seconds"@, decimal(e.7 as nat)),
        ).push(kv("reason"@, json_str(e.8))).push(
            kv(
                "response_class"@,
                json_opt_str(
                    match e.9 {
                        Some(c) => Some(c.wire()),
                        None => None,
                    },
                ),
            ),
        ).push(kv("workflow"@, json_str(e.10))).push(kv("run"@, json_str(e.11))).push(
            kv("attempt"@, json_str(e.12)),
        ).push(kv("job"@, json_str(e.13))),
    )
}

/// The digest an entry's chained fields determine.
pub open spec fn entry_digest_of(e: EntryView) -> Seq<char> {
    text_digest(entry_input_json(e))
}

// ---------------------------------------------------------------------------
// Construction.
// ---------------------------------------------------------------------------

pub open spec fn row_error(r: PublicationJournalRowV1) -> Option<Seq<char>> {
    if blank(r.package_name@) || blank(r.version@) {
        Some("journal rows require a package name and version"@)
    } else if !digest_shape(r.candidate_archive_digest@) {
        Some("journal rows require a canonical candidate archive digest"@)
    } else if exists|k: int| 0 <= k < r.depends_on@.len() && blank(#[trigger] r.depends_on@[k]@) {
        Some("journal row dependencies must name packages"@)
    } else if exists|k: int|
        0 <= k < r.depends_on@.len() && #[trigger] r.depends_on@[k]@ == r.package_name@ {
        Some("journal rows cannot depend on themselves"@)
    } else {
        None
    }
}

/// The first invalid row, in order.
pub open spec fn rows_error(rows: Seq<PublicationJournalRowV1>) -> Option<Seq<char>>
    decreases rows.len(),
{
    if rows.len() == 0 {
        None
    } else if row_error(rows[0]) is Some {
        row_error(rows[0])
    } else {
        rows_error(rows.drop_first())
    }
}

pub open spec fn unique_names(rows: Seq<PublicationJournalRowV1>) -> bool {
    forall|a: int, b: int|
        0 <= a < b < rows.len() ==> #[trigger] rows[a].package_name@ != #[trigger] rows[b].package_name@
}

pub open spec fn journal_begin_error(i: PublicationJournalInitV1) -> Option<Seq<char>> {
    if blank(i.journal_id@) || blank(i.operation_id@) {
        Some("journal requires operation and journal identity"@)
    } else if !digest_shape(i.authorization_digest@) || !digest_shape(i.custody_digest@)
        || !digest_shape(i.freeze_digest@) {
        Some("journal requires canonical operation identity digests"@)
    } else if i.operation_class == PublicationJournalClassV1::IncidentRecovery
        && i.prior_journal_digest is None {
        Some("recovery journals require the original journal digest"@)
    } else if i.prior_journal_digest is Some && i.operation_class
        != PublicationJournalClassV1::IncidentRecovery {
        Some("only a recovery journal may bind a prior journal"@)
    } else if i.prior_journal_digest is Some && !digest_shape(i.prior_journal_digest->0@) {
        Some("recovery journals require a canonical prior journal digest"@)
    } else if i.created_at_unix_seconds < 1 {
        Some("journal requires a positive construction time"@)
    } else if i.rows@.len() == 0 {
        Some("journal requires a non-empty bound row set"@)
    } else if rows_error(i.rows@) is Some {
        rows_error(i.rows@)
    } else if !unique_names(i.rows@) {
        Some("journal row names must be unique"@)
    } else if blank(i.workflow@) || blank(i.run@) || blank(i.attempt@) || blank(i.job@) {
        Some("journal requires workflow/run/attempt/job identity"@)
    } else {
        None
    }
}

#[verifier::loop_isolation(false)]
fn validate_row(row: &PublicationJournalRowV1) -> (r: Option<&'static str>)
    ensures
        match r {
            None => row_error(*row) is None,
            Some(e) => row_error(*row) == Some(e@),
        },
{
    if is_blank(row.package_name.as_str()) || is_blank(row.version.as_str()) {
        return Some("journal rows require a package name and version");
    }
    if !is_lower_sha256_digest_str(row.candidate_archive_digest.as_str()) {
        return Some("journal rows require a canonical candidate archive digest");
    }
    let mut k: usize = 0;
    while k < row.depends_on.len()
        invariant
            k <= row.depends_on.len(),
            forall|j: int| 0 <= j < k ==> !blank(#[trigger] row.depends_on@[j]@),
        decreases row.depends_on.len() - k,
    {
        if is_blank(row.depends_on[k].as_str()) {
            assert(blank(row.depends_on@[k as int]@));
            return Some("journal row dependencies must name packages");
        }
        k = k + 1;
    }
    let mut k: usize = 0;
    while k < row.depends_on.len()
        invariant
            k <= row.depends_on.len(),
            forall|j: int| 0 <= j < row.depends_on@.len() ==> !blank(#[trigger] row.depends_on@[j]@),
            forall|j: int| 0 <= j < k ==> #[trigger] row.depends_on@[j]@ != row.package_name@,
        decreases row.depends_on.len() - k,
    {
        if str_eq(row.depends_on[k].as_str(), row.package_name.as_str()) {
            assert(row.depends_on@[k as int]@ == row.package_name@);
            return Some("journal rows cannot depend on themselves");
        }
        k = k + 1;
    }
    None
}

fn validate_rows(rows: &Vec<PublicationJournalRowV1>) -> (r: Option<&'static str>)
    ensures
        match r {
            None => rows_error(rows@) is None,
            Some(e) => rows_error(rows@) == Some(e@),
        },
{
    let mut k: usize = 0;
    assert(rows@.skip(0) =~= rows@);
    while k < rows.len()
        invariant
            k <= rows.len(),
            rows_error(rows@) == rows_error(rows@.skip(k as int)),
        decreases rows.len() - k,
    {
        assert(rows@.skip(k as int)[0] == rows@[k as int]);
        assert(rows@.skip(k as int).drop_first() =~= rows@.skip(k + 1));
        let e = validate_row(&rows[k]);
        if e.is_some() {
            return e;
        }
        k = k + 1;
    }
    None
}

fn names_unique(rows: &Vec<PublicationJournalRowV1>) -> (r: bool)
    ensures
        r == unique_names(rows@),
{
    let mut b: usize = 0;
    while b < rows.len()
        invariant
            b <= rows.len(),
            forall|x: int, y: int|
                0 <= x < y < b ==> #[trigger] rows@[x].package_name@ != #[trigger] rows@[y].package_name@,
        decreases rows.len() - b,
    {
        let mut a: usize = 0;
        while a < b
            invariant
                a <= b < rows.len(),
                forall|x: int, y: int|
                    0 <= x < y < b ==> #[trigger] rows@[x].package_name@
                        != #[trigger] rows@[y].package_name@,
                forall|x: int| 0 <= x < a ==> #[trigger] rows@[x].package_name@ != rows@[b as int].package_name@,
            decreases b - a,
        {
            if str_eq(rows[a].package_name.as_str(), rows[b].package_name.as_str()) {
                assert(rows@[a as int].package_name@ == rows@[b as int].package_name@);
                return false;
            }
            a = a + 1;
        }
        b = b + 1;
    }
    true
}

/// The journal built from a valid initializer: the bound identities and
/// rows, no entries yet.
pub open spec fn journal_begun_from(j: CargoAllowPublicationJournalV1, i: PublicationJournalInitV1) -> bool {
    &&& j.schema_id@ == PUBLICATION_JOURNAL_SCHEMA_ID@
    &&& j.schema_version == PUBLICATION_JOURNAL_SCHEMA_VERSION
    &&& j.journal_id == i.journal_id
    &&& j.operation_id == i.operation_id
    &&& j.operation_identity_digest == i.operation_identity_digest
    &&& j.operation_class == i.operation_class
    &&& j.authorization_digest == i.authorization_digest
    &&& j.custody_digest == i.custody_digest
    &&& j.freeze_digest == i.freeze_digest
    &&& j.prior_journal_digest == i.prior_journal_digest
    &&& j.created_at_unix_seconds == i.created_at_unix_seconds
    &&& j.workflow == i.workflow
    &&& j.run == i.run
    &&& j.attempt == i.attempt
    &&& j.job == i.job
    &&& j.rows == i.rows
    &&& j.entries@.len() == 0
    &&& j.claim_boundary@ == PUBLICATION_JOURNAL_CLAIM_BOUNDARY@
    &&& views(j.limitations@) == seq![
        "does_not_upload_packages"@,
        "does_not_observe_registry"@,
        "does_not_authorize_operation"@,
    ]
}

/// Begins a journal bound to one operation. Recovery journals must name the
/// original clean journal; clean journals carry no prior digest.
pub fn begin_publication_journal_v1(init: PublicationJournalInitV1) -> (r: Result<
    CargoAllowPublicationJournalV1,
    &'static str,
>)
    ensures
        match r {
            Ok(j) => journal_begin_error(init) is None && journal_begun_from(j, init),
            Err(e) => journal_begin_error(init) == Some(e@),
        },
{
    if is_blank(init.journal_id.as_str()) || is_blank(init.operation_id.as_str()) {
        return Err("journal requires operation and journal identity");
    }
    if !is_lower_sha256_digest_str(init.authorization_digest.as_str())
        || !is_lower_sha256_digest_str(init.custody_digest.as_str())
        || !is_lower_sha256_digest_str(init.freeze_digest.as_str()) {
        return Err("journal requires canonical operation identity digests");
    }
    if init.operation_class == PublicationJournalClassV1::IncidentRecovery
        && init.prior_journal_digest.is_none() {
        return Err("recovery journals require the original journal digest");
    }
    match &init.prior_journal_digest {
        Some(prior) => {
            if init.operation_class != PublicationJournalClassV1::IncidentRecovery {
                return Err("only a recovery journal may bind a prior journal");
            }
            if !is_lower_sha256_digest_str(prior.as_str()) {
                return Err("recovery journals require a canonical prior journal digest");
            }
        },
        None => {},
    }
    if init.created_at_unix_seconds < 1 {
        return Err("journal requires a positive construction time");
    }
    if init.rows.len() == 0 {
        return Err("journal requires a non-empty bound row set");
    }
    match validate_rows(&init.rows) {
        Some(e) => {
            return Err(e);
        },
        None => {},
    }
    if !names_unique(&init.rows) {
        return Err("journal row names must be unique");
    }
    if is_blank(init.workflow.as_str()) || is_blank(init.run.as_str()) || is_blank(
        init.attempt.as_str(),
    ) || is_blank(init.job.as_str()) {
        return Err("journal requires workflow/run/attempt/job identity");
    }
    let mut limitations: Vec<String> = Vec::new();
    limitations.push("does_not_upload_packages".to_string());
    limitations.push("does_not_observe_registry".to_string());
    limitations.push("does_not_authorize_operation".to_string());
    assert(views(limitations@) =~= seq![
        "does_not_upload_packages"@,
        "does_not_observe_registry"@,
        "does_not_authorize_operation"@,
    ]);
    Ok(
        CargoAllowPublicationJournalV1 {
            schema_id: PUBLICATION_JOURNAL_SCHEMA_ID.to_string(),
            schema_version: PUBLICATION_JOURNAL_SCHEMA_VERSION,
            journal_id: init.journal_id,
            operation_id: init.operation_id,
            operation_identity_digest: init.operation_identity_digest,
            operation_class: init.operation_class,
            authorization_digest: init.authorization_digest,
            custody_digest: init.custody_digest,
            freeze_digest: init.freeze_digest,
            prior_journal_digest: init.prior_journal_digest,
            created_at_unix_seconds: init.created_at_unix_seconds,
            workflow: init.workflow,
            run: init.run,
            attempt: init.attempt,
            job: init.job,
            rows: init.rows,
            entries: Vec::new(),
            claim_boundary: PUBLICATION_JOURNAL_CLAIM_BOUNDARY.to_string(),
            limitations,
        },
    )
}

// ---------------------------------------------------------------------------
// Appending.
// ---------------------------------------------------------------------------

pub open spec fn has_kind(es: Seq<CargoAllowPublicationJournalEntryV1>, k: PublicationJournalEventV1) -> bool {
    exists|i: int| 0 <= i < es.len() && #[trigger] es[i].kind == k
}

pub open spec fn row_has_kind(
    es: Seq<CargoAllowPublicationJournalEntryV1>,
    package: Seq<char>,
    k: PublicationJournalEventV1,
) -> bool {
    exists|i: int|
        0 <= i < es.len() && #[trigger] es[i].kind == k && opt_text(es[i].package_name) == Some(
            package,
        )
}

/// Upload requests started for `package`.
pub open spec fn upload_attempts(es: Seq<CargoAllowPublicationJournalEntryV1>, package: Seq<char>) -> nat
    decreases es.len(),
{
    if es.len() == 0 {
        0
    } else {
        upload_attempts(es.drop_last(), package) + if es.last().kind
            == PublicationJournalEventV1::UploadRequestStarted && opt_text(es.last().package_name)
            == Some(package) {
            1nat
        } else {
            0nat
        }
    }
}

/// The kind of the latest entry for `package`.
pub open spec fn latest_kind(es: Seq<CargoAllowPublicationJournalEntryV1>, package: Seq<char>) -> Option<
    PublicationJournalEventV1,
>
    decreases es.len(),
{
    if es.len() == 0 {
        None
    } else if opt_text(es.last().package_name) == Some(package) {
        Some(es.last().kind)
    } else {
        latest_kind(es.drop_last(), package)
    }
}

/// Exact visibility ends a row; conflict ends it only with a recorded
/// operation incident; unknown and waiting never terminate.
pub open spec fn terminally_resolved(es: Seq<CargoAllowPublicationJournalEntryV1>, package: Seq<char>) -> bool {
    match latest_kind(es, package) {
        Some(PublicationJournalEventV1::RegistryVisibleExact) => true,
        Some(PublicationJournalEventV1::RegistryVisibleConflict) => has_kind(
            es,
            PublicationJournalEventV1::OperationIncident,
        ),
        _ => false,
    }
}

/// The first declared row (in order) that is not terminally resolved.
pub open spec fn first_unresolved(
    rows: Seq<PublicationJournalRowV1>,
    es: Seq<CargoAllowPublicationJournalEntryV1>,
) -> Option<Seq<char>>
    decreases rows.len(),
{
    if rows.len() == 0 {
        None
    } else if !terminally_resolved(es, rows[0].package_name@) {
        Some(rows[0].package_name@)
    } else {
        first_unresolved(rows.drop_first(), es)
    }
}

/// The first declared row named like `r`, if any.
pub open spec fn declared_named(rows: Seq<PublicationJournalRowV1>, name: Seq<char>) -> Option<
    PublicationJournalRowV1,
>
    decreases rows.len(),
{
    if rows.len() == 0 {
        None
    } else if rows[0].package_name@ == name {
        Some(rows[0])
    } else {
        declared_named(rows.drop_first(), name)
    }
}

pub open spec fn after_response(k: Option<PublicationJournalEventV1>) -> bool {
    k == Some(PublicationJournalEventV1::UploadResponseObserved) || k == Some(
        PublicationJournalEventV1::UploadResponseUnknown,
    )
}

pub open spec fn reconciles(k: Option<PublicationJournalEventV1>) -> bool {
    after_response(k) || k == Some(PublicationJournalEventV1::RegistryObservationStarted) || k
        == Some(PublicationJournalEventV1::RegistryWaiting)
}

pub open spec fn preflight_error(
    es: Seq<CargoAllowPublicationJournalEntryV1>,
    r: PublicationJournalRowV1,
) -> Option<Seq<char>> {
    if !has_kind(es, PublicationJournalEventV1::TagObservedExact) {
        Some("row preflight requires the exact observed tag"@)
    } else if row_has_kind(es, r.package_name@, PublicationJournalEventV1::RowPreflightComplete) {
        Some("row preflight is recorded exactly once per row"@)
    } else if exists|k: int|
        0 <= k < r.depends_on@.len() && !row_has_kind(
            es,
            #[trigger] r.depends_on@[k]@,
            PublicationJournalEventV1::RegistryVisibleExact,
        ) {
        Some("dependent rows wait for exact dependency visibility"@)
    } else {
        None
    }
}

/// The per-kind legality of an append whose row scope is already right.
pub open spec fn kind_error(j: CargoAllowPublicationJournalV1, a: PublicationJournalAppendV1) -> Option<
    Seq<char>,
> {
    let es = j.entries@;
    let p = a.row->0.package_name@;
    let latest = latest_kind(es, p);
    match a.kind {
        PublicationJournalEventV1::OperationSelected => if has_kind(
            es,
            PublicationJournalEventV1::OperationSelected,
        ) {
            Some("one journal binds exactly one operation selection"@)
        } else {
            None
        },
        PublicationJournalEventV1::AuthorizationConsumed => if !has_kind(
            es,
            PublicationJournalEventV1::OperationSelected,
        ) {
            Some("authorization consumption requires a selected operation"@)
        } else if has_kind(es, PublicationJournalEventV1::AuthorizationConsumed) {
            Some("authorization is consumed exactly once per journal"@)
        } else {
            None
        },
        PublicationJournalEventV1::TagObservedExact => if !has_kind(
            es,
            PublicationJournalEventV1::AuthorizationConsumed,
        ) {
            Some("exact tag observation requires consumed authorization"@)
        } else if has_kind(es, PublicationJournalEventV1::TagObservedExact) {
            Some("the exact tag is observed exactly once per journal"@)
        } else {
            None
        },
        PublicationJournalEventV1::RowPreflightComplete => preflight_error(es, a.row->0),
        PublicationJournalEventV1::UploadIntentDurable => if has_kind(
            es,
            PublicationJournalEventV1::OperationIncident,
        ) {
            Some(
                "clean authorization cannot continue after an incident; recovery starts a new journal"@,
            )
        } else if !row_has_kind(es, p, PublicationJournalEventV1::RowPreflightComplete) {
            Some("upload intent requires row preflight"@)
        } else if row_has_kind(es, p, PublicationJournalEventV1::UploadIntentDurable) && !(latest
            == Some(PublicationJournalEventV1::UploadResponseUnknown) || latest == Some(
            PublicationJournalEventV1::RegistryObservedAbsent,
        )) {
            Some(
                "upload intent is durable once per attempt; retry requires an unreconciled unknown or proven absence"@,
            )
        } else if row_has_kind(es, p, PublicationJournalEventV1::UploadIntentDurable)
            && upload_attempts(es, p) >= PUBLICATION_JOURNAL_MAX_UPLOAD_ATTEMPTS {
            Some("upload attempt bound reached; operator decision required"@)
        } else {
            None
        },
        PublicationJournalEventV1::UploadRequestStarted => if latest != Some(
            PublicationJournalEventV1::UploadIntentDurable,
        ) {
            Some("upload requests start only from durable intent"@)
        } else {
            None
        },
        PublicationJournalEventV1::UploadResponseObserved
        | PublicationJournalEventV1::UploadResponseUnknown => if latest != Some(
            PublicationJournalEventV1::UploadRequestStarted,
        ) {
            Some("responses belong to a started upload only"@)
        } else if a.response is None {
            Some("responses require a response class"@)
        } else {
            None
        },
        PublicationJournalEventV1::RegistryObservationStarted => if !(after_response(latest)
            || latest == Some(PublicationJournalEventV1::RegistryWaiting)) {
            Some("registry observation follows an upload response"@)
        } else {
            None
        },
        PublicationJournalEventV1::RegistryObservedAbsent => if a.observation is None {
            Some("absence verdicts require provider observation"@)
        } else if !a.observation->0.provider_reachable || a.observation->0.row_visible {
            Some("absence requires a reachable provider and an invisible row"@)
        } else if !reconciles(latest) {
            Some("absence verdicts reconcile an upload response"@)
        } else {
            None
        },
        PublicationJournalEventV1::RegistryVisibleExact => if a.observation is None {
            Some("exact visibility requires provider observation"@)
        } else if !a.observation->0.provider_reachable || !a.observation->0.row_visible {
            Some("exact visibility requires a reachable, visible row"@)
        } else if !a.observation->0.archive_digest_matches {
            Some("a digest mismatch is a conflict, never exact"@)
        } else if !reconciles(latest) {
            Some("exact visibility reconciles an upload response"@)
        } else {
            None
        },
        PublicationJournalEventV1::RegistryVisibleConflict => if a.observation is None {
            Some("conflict verdicts require provider observation"@)
        } else if !reconciles(latest) {
            Some("conflict verdicts reconcile an upload response"@)
        } else {
            None
        },
        PublicationJournalEventV1::RegistryWaiting => if !(after_response(latest) || latest
            == Some(PublicationJournalEventV1::RegistryObservationStarted)) {
            Some("waiting follows an upload response or observation start"@)
        } else {
            None
        },
        PublicationJournalEventV1::OperationIncident => if !has_kind(
            es,
            PublicationJournalEventV1::OperationSelected,
        ) {
            Some("incidents belong to a selected operation"@)
        } else {
            None
        },
        PublicationJournalEventV1::OperationComplete => if !has_kind(
            es,
            PublicationJournalEventV1::TagObservedExact,
        ) {
            Some("completion requires the exact observed tag"@)
        } else {
            match first_unresolved(j.rows@, es) {
                None => None,
                Some(u) => if latest_kind(es, u) == Some(
                    PublicationJournalEventV1::RegistryVisibleConflict,
                ) {
                    Some("completion with a conflict requires a recorded operation incident"@)
                } else {
                    Some("completion requires every declared row terminally resolved"@)
                },
            }
        },
    }
}

/// The earliest time the next entry may carry.
pub open spec fn journal_baseline(j: CargoAllowPublicationJournalV1) -> u64 {
    if j.entries@.len() > 0 {
        j.entries@.last().at_unix_seconds
    } else {
        j.created_at_unix_seconds
    }
}

/// The first reason an append is refused, in the order it is checked.
pub open spec fn append_error(j: CargoAllowPublicationJournalV1, a: PublicationJournalAppendV1) -> Option<
    Seq<char>,
> {
    if blank(a.reason@) {
        Some("journal entries require a reason"@)
    } else if secret_marker_spec(a.reason@) is Some {
        Some("secret material must never enter journal records"@)
    } else if a.response is Some && encode_utf8(a.response->0.detail@).len()
        > PUBLICATION_JOURNAL_MAX_RESPONSE_DETAIL_LEN {
        Some("journal response notes are bounded and carry no bodies"@)
    } else if a.at_unix_seconds < journal_baseline(j) {
        Some("journal entries must not predate construction or predecessors"@)
    } else if a.row is Some && row_error(a.row->0) is Some {
        row_error(a.row->0)
    } else if a.row is Some && !(declared_named(j.rows@, a.row->0.package_name@) is Some
        && journal_row_view(declared_named(j.rows@, a.row->0.package_name@)->0)
        == journal_row_view(a.row->0)) {
        Some("journal rows must match the bound row set exactly"@)
    } else if a.kind.operation_scoped() && a.row is Some {
        Some("operation events carry no row"@)
    } else if !a.kind.operation_scoped() && a.row is None {
        Some("row events require a row"@)
    } else {
        kind_error(j, a)
    }
}

/// The entry an accepted append records: the next sequence, chained to the
/// previous digest (or genesis), with its own digest over every chained
/// field and the journal's execution identity.
pub open spec fn appended_entry(j: CargoAllowPublicationJournalV1, a: PublicationJournalAppendV1) -> EntryView {
    let sequence = (j.entries@.len() + 1) as u64;
    let previous = if j.entries@.len() > 0 {
        j.entries@.last().entry_digest@
    } else {
        PUBLICATION_JOURNAL_GENESIS_DIGEST@
    };
    let package = match a.row {
        Some(r) => Some(r.package_name@),
        None => None,
    };
    let order = match a.row {
        Some(r) => Some(r.row_order),
        None => None,
    };
    let archive = match a.row {
        Some(r) => Some(r.candidate_archive_digest@),
        None => None,
    };
    let class = match a.response {
        Some(r) => Some(r.class),
        None => None,
    };
    let unsigned: EntryView = (
        sequence,
        previous,
        Seq::empty(),
        a.kind,
        package,
        order,
        archive,
        a.at_unix_seconds,
        a.reason@,
        class,
        j.workflow@,
        j.run@,
        j.attempt@,
        j.job@,
    );
    (
        sequence,
        previous,
        entry_digest_of(unsigned),
        a.kind,
        package,
        order,
        archive,
        a.at_unix_seconds,
        a.reason@,
        class,
        j.workflow@,
        j.run@,
        j.attempt@,
        j.job@,
    )
}

/// Everything but the entries is equal.
pub open spec fn same_journal_header(a: CargoAllowPublicationJournalV1, b: CargoAllowPublicationJournalV1) -> bool {
    &&& a.schema_id == b.schema_id
    &&& a.schema_version == b.schema_version
    &&& a.journal_id == b.journal_id
    &&& a.operation_id == b.operation_id
    &&& a.operation_identity_digest == b.operation_identity_digest
    &&& a.operation_class == b.operation_class
    &&& a.authorization_digest == b.authorization_digest
    &&& a.custody_digest == b.custody_digest
    &&& a.freeze_digest == b.freeze_digest
    &&& a.prior_journal_digest == b.prior_journal_digest
    &&& a.created_at_unix_seconds == b.created_at_unix_seconds
    &&& a.workflow == b.workflow
    &&& a.run == b.run
    &&& a.attempt == b.attempt
    &&& a.job == b.job
    &&& a.rows == b.rows
    &&& a.claim_boundary == b.claim_boundary
    &&& a.limitations == b.limitations
}

pub(crate) fn journal_has(es: &Vec<CargoAllowPublicationJournalEntryV1>, k: PublicationJournalEventV1) -> (r: bool)
    ensures
        r == has_kind(es@, k),
{
    let mut i: usize = 0;
    while i < es.len()
        invariant
            i <= es.len(),
            forall|x: int| 0 <= x < i ==> #[trigger] es@[x].kind != k,
        decreases es.len() - i,
    {
        if es[i].kind == k {
            return true;
        }
        i = i + 1;
    }
    false
}

fn opt_is(o: &Option<String>, s: &str) -> (r: bool)
    ensures
        r == (opt_text(*o) == Some(s@)),
{
    match o {
        Some(v) => str_eq(v.as_str(), s),
        None => false,
    }
}

pub(crate) fn row_has(
    es: &Vec<CargoAllowPublicationJournalEntryV1>,
    package: &str,
    k: PublicationJournalEventV1,
) -> (r: bool)
    ensures
        r == row_has_kind(es@, package@, k),
{
    let mut i: usize = 0;
    while i < es.len()
        invariant
            i <= es.len(),
            forall|x: int|
                0 <= x < i ==> !(#[trigger] es@[x].kind == k && opt_text(es@[x].package_name) == Some(
                    package@,
                )),
        decreases es.len() - i,
    {
        if es[i].kind == k && opt_is(&es[i].package_name, package) {
            return true;
        }
        i = i + 1;
    }
    false
}

fn row_upload_attempts(es: &Vec<CargoAllowPublicationJournalEntryV1>, package: &str) -> (r: u64)
    ensures
        r == upload_attempts(es@, package@),
{
    let mut count: u64 = 0;
    let mut i: usize = 0;
    while i < es.len()
        invariant
            i <= es.len(),
            count == upload_attempts(es@.take(i as int), package@),
            count <= i,
        decreases es.len() - i,
    {
        assert(es@.take(i + 1).drop_last() =~= es@.take(i as int));
        if es[i].kind == PublicationJournalEventV1::UploadRequestStarted && opt_is(
            &es[i].package_name,
            package,
        ) {
            count = count + 1;
        }
        i = i + 1;
    }
    assert(es@.take(i as int) =~= es@);
    count
}

pub(crate) fn row_latest_kind(es: &Vec<CargoAllowPublicationJournalEntryV1>, package: &str) -> (r: Option<
    PublicationJournalEventV1,
>)
    ensures
        r == latest_kind(es@, package@),
{
    let mut i: usize = es.len();
    assert(es@.take(i as int) =~= es@);
    while i > 0
        invariant
            i <= es.len(),
            latest_kind(es@, package@) == latest_kind(es@.take(i as int), package@),
        decreases i,
    {
        assert(es@.take(i as int).drop_last() =~= es@.take(i - 1));
        assert(es@.take(i as int).last() == es@[i - 1]);
        if opt_is(&es[i - 1].package_name, package) {
            return Some(es[i - 1].kind);
        }
        i = i - 1;
    }
    None
}

fn row_terminal(es: &Vec<CargoAllowPublicationJournalEntryV1>, package: &str) -> (r: bool)
    ensures
        r == terminally_resolved(es@, package@),
{
    match row_latest_kind(es, package) {
        Some(PublicationJournalEventV1::RegistryVisibleExact) => true,
        Some(PublicationJournalEventV1::RegistryVisibleConflict) => journal_has(
            es,
            PublicationJournalEventV1::OperationIncident,
        ),
        _ => false,
    }
}

fn first_unresolved_row(journal: &CargoAllowPublicationJournalV1) -> (r: Option<&String>)
    ensures
        match r {
            None => first_unresolved(journal.rows@, journal.entries@) is None,
            Some(p) => first_unresolved(journal.rows@, journal.entries@) == Some(p@),
        },
{
    let rows = &journal.rows;
    let mut k: usize = 0;
    assert(rows@.skip(0) =~= rows@);
    while k < rows.len()
        invariant
            k <= rows.len(),
            first_unresolved(journal.rows@, journal.entries@) == first_unresolved(
                rows@.skip(k as int),
                journal.entries@,
            ),
        decreases rows.len() - k,
    {
        assert(rows@.skip(k as int)[0] == rows@[k as int]);
        assert(rows@.skip(k as int).drop_first() =~= rows@.skip(k + 1));
        if !row_terminal(&journal.entries, rows[k].package_name.as_str()) {
            return Some(&rows[k].package_name);
        }
        k = k + 1;
    }
    None
}

pub(crate) fn declared_row_matches(journal: &CargoAllowPublicationJournalV1, row: &PublicationJournalRowV1) -> (r:
    bool)
    ensures
        r == (declared_named(journal.rows@, row.package_name@) is Some && journal_row_view(
            declared_named(journal.rows@, row.package_name@)->0,
        ) == journal_row_view(*row)),
{
    let rows = &journal.rows;
    let mut k: usize = 0;
    assert(rows@.skip(0) =~= rows@);
    while k < rows.len()
        invariant
            k <= rows.len(),
            declared_named(journal.rows@, row.package_name@) == declared_named(
                rows@.skip(k as int),
                row.package_name@,
            ),
        decreases rows.len() - k,
    {
        assert(rows@.skip(k as int)[0] == rows@[k as int]);
        assert(rows@.skip(k as int).drop_first() =~= rows@.skip(k + 1));
        let d = &rows[k];
        if str_eq(d.package_name.as_str(), row.package_name.as_str()) {
            return str_eq(d.version.as_str(), row.version.as_str()) && d.row_order == row.row_order
                && str_eq(d.candidate_archive_digest.as_str(), row.candidate_archive_digest.as_str())
                && strings_equal(&d.depends_on, &row.depends_on);
        }
        k = k + 1;
    }
    false
}

/// Element-wise equality of two string lists.
pub(crate) fn strings_equal(a: &Vec<String>, b: &Vec<String>) -> (r: bool)
    ensures
        r == (views(a@) == views(b@)),
{
    if a.len() != b.len() {
        assert(views(a@).len() != views(b@).len());
        return false;
    }
    let mut k: usize = 0;
    while k < a.len()
        invariant
            k <= a.len(),
            a.len() == b.len(),
            forall|j: int| 0 <= j < k ==> #[trigger] views(a@)[j] == views(b@)[j],
        decreases a.len() - k,
    {
        if !str_eq(a[k].as_str(), b[k].as_str()) {
            assert(views(a@)[k as int] != views(b@)[k as int]);
            return false;
        }
        k = k + 1;
    }
    assert(views(a@) =~= views(b@));
    true
}

fn check_preflight(
    es: &Vec<CargoAllowPublicationJournalEntryV1>,
    row: &PublicationJournalRowV1,
) -> (r: Option<&'static str>)
    ensures
        match r {
            None => preflight_error(es@, *row) is None,
            Some(e) => preflight_error(es@, *row) == Some(e@),
        },
{
    if !journal_has(es, PublicationJournalEventV1::TagObservedExact) {
        return Some("row preflight requires the exact observed tag");
    }
    if row_has(es, row.package_name.as_str(), PublicationJournalEventV1::RowPreflightComplete) {
        return Some("row preflight is recorded exactly once per row");
    }
    let mut k: usize = 0;
    while k < row.depends_on.len()
        invariant
            k <= row.depends_on.len(),
            has_kind(es@, PublicationJournalEventV1::TagObservedExact),
            !row_has_kind(es@, row.package_name@, PublicationJournalEventV1::RowPreflightComplete),
            forall|j: int|
                0 <= j < k ==> row_has_kind(
                    es@,
                    #[trigger] row.depends_on@[j]@,
                    PublicationJournalEventV1::RegistryVisibleExact,
                ),
        decreases row.depends_on.len() - k,
    {
        if !row_has(es, row.depends_on[k].as_str(), PublicationJournalEventV1::RegistryVisibleExact) {
            return Some("dependent rows wait for exact dependency visibility");
        }
        k = k + 1;
    }
    None
}

fn kind_check(journal: &CargoAllowPublicationJournalV1, append: &PublicationJournalAppendV1) -> (r:
    Option<&'static str>)
    requires
        !append.kind.operation_scoped() ==> append.row is Some,
    ensures
        match r {
            None => kind_error(*journal, *append) is None,
            Some(e) => kind_error(*journal, *append) == Some(e@),
        },
{
    let es = &journal.entries;
    match append.kind {
        PublicationJournalEventV1::OperationSelected => {
            if journal_has(es, PublicationJournalEventV1::OperationSelected) {
                return Some("one journal binds exactly one operation selection");
            }
            None
        },
        PublicationJournalEventV1::AuthorizationConsumed => {
            if !journal_has(es, PublicationJournalEventV1::OperationSelected) {
                return Some("authorization consumption requires a selected operation");
            }
            if journal_has(es, PublicationJournalEventV1::AuthorizationConsumed) {
                return Some("authorization is consumed exactly once per journal");
            }
            None
        },
        PublicationJournalEventV1::TagObservedExact => {
            if !journal_has(es, PublicationJournalEventV1::AuthorizationConsumed) {
                return Some("exact tag observation requires consumed authorization");
            }
            if journal_has(es, PublicationJournalEventV1::TagObservedExact) {
                return Some("the exact tag is observed exactly once per journal");
            }
            None
        },
        PublicationJournalEventV1::OperationIncident => {
            if !journal_has(es, PublicationJournalEventV1::OperationSelected) {
                return Some("incidents belong to a selected operation");
            }
            None
        },
        PublicationJournalEventV1::OperationComplete => {
            if !journal_has(es, PublicationJournalEventV1::TagObservedExact) {
                return Some("completion requires the exact observed tag");
            }
            match first_unresolved_row(journal) {
                None => None,
                Some(package) => {
                    if row_latest_kind(es, package.as_str()) == Some(
                        PublicationJournalEventV1::RegistryVisibleConflict,
                    ) {
                        Some("completion with a conflict requires a recorded operation incident")
                    } else {
                        Some("completion requires every declared row terminally resolved")
                    }
                },
            }
        },
        _ => {
            let row = match &append.row {
                Some(row) => row,
                None => {
                    return None;
                },
            };
            row_kind_check(es, append, row)
        },
    }
}

fn row_kind_check(
    es: &Vec<CargoAllowPublicationJournalEntryV1>,
    append: &PublicationJournalAppendV1,
    row: &PublicationJournalRowV1,
) -> (r: Option<&'static str>)
    requires
        append.row == Some(*row),
        !append.kind.operation_scoped(),
    ensures
        forall|j: CargoAllowPublicationJournalV1|
            j.entries@ == es@ ==> match r {
                None => kind_error(j, *append) is None,
                Some(e) => kind_error(j, *append) == Some(e@),
            },
{
    let p = row.package_name.as_str();
    let latest = row_latest_kind(es, p);
    match append.kind {
        PublicationJournalEventV1::RowPreflightComplete => check_preflight(es, row),
        PublicationJournalEventV1::UploadIntentDurable => {
            if journal_has(es, PublicationJournalEventV1::OperationIncident) {
                return Some(
                    "clean authorization cannot continue after an incident; recovery starts a new journal",
                );
            }
            if !row_has(es, p, PublicationJournalEventV1::RowPreflightComplete) {
                return Some("upload intent requires row preflight");
            }
            if row_has(es, p, PublicationJournalEventV1::UploadIntentDurable) {
                if !(latest == Some(PublicationJournalEventV1::UploadResponseUnknown) || latest
                    == Some(PublicationJournalEventV1::RegistryObservedAbsent)) {
                    return Some(
                        "upload intent is durable once per attempt; retry requires an unreconciled unknown or proven absence",
                    );
                }
                if row_upload_attempts(es, p) >= PUBLICATION_JOURNAL_MAX_UPLOAD_ATTEMPTS as u64 {
                    return Some("upload attempt bound reached; operator decision required");
                }
            }
            None
        },
        PublicationJournalEventV1::UploadRequestStarted => {
            if latest != Some(PublicationJournalEventV1::UploadIntentDurable) {
                return Some("upload requests start only from durable intent");
            }
            None
        },
        PublicationJournalEventV1::UploadResponseObserved
        | PublicationJournalEventV1::UploadResponseUnknown => {
            if latest != Some(PublicationJournalEventV1::UploadRequestStarted) {
                return Some("responses belong to a started upload only");
            }
            if append.response.is_none() {
                return Some("responses require a response class");
            }
            None
        },
        PublicationJournalEventV1::RegistryObservationStarted => {
            if !(latest == Some(PublicationJournalEventV1::UploadResponseObserved) || latest == Some(
                PublicationJournalEventV1::UploadResponseUnknown,
            ) || latest == Some(PublicationJournalEventV1::RegistryWaiting)) {
                return Some("registry observation follows an upload response");
            }
            None
        },
        PublicationJournalEventV1::RegistryObservedAbsent => {
            let observation = match &append.observation {
                Some(o) => o,
                None => {
                    return Some("absence verdicts require provider observation");
                },
            };
            if !observation.provider_reachable || observation.row_visible {
                return Some("absence requires a reachable provider and an invisible row");
            }
            if !reconciles_exec(latest) {
                return Some("absence verdicts reconcile an upload response");
            }
            None
        },
        PublicationJournalEventV1::RegistryVisibleExact => {
            let observation = match &append.observation {
                Some(o) => o,
                None => {
                    return Some("exact visibility requires provider observation");
                },
            };
            if !observation.provider_reachable || !observation.row_visible {
                return Some("exact visibility requires a reachable, visible row");
            }
            if !observation.archive_digest_matches {
                return Some("a digest mismatch is a conflict, never exact");
            }
            if !reconciles_exec(latest) {
                return Some("exact visibility reconciles an upload response");
            }
            None
        },
        PublicationJournalEventV1::RegistryVisibleConflict => {
            if append.observation.is_none() {
                return Some("conflict verdicts require provider observation");
            }
            if !reconciles_exec(latest) {
                return Some("conflict verdicts reconcile an upload response");
            }
            None
        },
        _ => {
            if !(latest == Some(PublicationJournalEventV1::UploadResponseObserved) || latest == Some(
                PublicationJournalEventV1::UploadResponseUnknown,
            ) || latest == Some(PublicationJournalEventV1::RegistryObservationStarted)) {
                return Some("waiting follows an upload response or observation start");
            }
            None
        },
    }
}

fn reconciles_exec(k: Option<PublicationJournalEventV1>) -> (r: bool)
    ensures
        r == reconciles(k),
{
    k == Some(PublicationJournalEventV1::UploadResponseObserved) || k == Some(
        PublicationJournalEventV1::UploadResponseUnknown,
    ) || k == Some(PublicationJournalEventV1::RegistryObservationStarted) || k == Some(
        PublicationJournalEventV1::RegistryWaiting,
    )
}

/// The compact JSON digest input of an entry with these chained fields.
fn render_entry_input(
    sequence: u64,
    previous: &str,
    kind: PublicationJournalEventV1,
    package: &Option<String>,
    order: Option<u32>,
    archive: &Option<String>,
    at: u64,
    reason: &str,
    class: Option<UploadResponseClassV1>,
    workflow: &str,
    run: &str,
    attempt: &str,
    job: &str,
) -> (r: String)
    ensures
        r@ == entry_input_json(
            (
                sequence,
                previous@,
                Seq::empty(),
                kind,
                opt_text(*package),
                order,
                opt_text(*archive),
                at,
                reason@,
                class,
                workflow@,
                run@,
                attempt@,
                job@,
            ),
        ),
{
    let mut l = JsonList::new();
    l.push_u64_member("sequence", sequence);
    l.push_str_member("previous_digest", previous);
    l.push_str_member("kind", kind.wire_label());
    l.push_nullable_str_member("package_name", package);
    let order_text = match order {
        Some(n) => crate::text::decimal_string(n as u64),
        None => {
            let mut t = String::new();
            crate::json::push_json_null(&mut t);
            t
        },
    };
    l.push_member("row_order", order_text.as_str());
    l.push_nullable_str_member("candidate_archive_digest", archive);
    l.push_u64_member("at_unix_seconds", at);
    l.push_str_member("reason", reason);
    let class_text = match class {
        Some(c) => Some(c.wire_label().to_string()),
        None => None,
    };
    l.push_nullable_str_member("response_class", &class_text);
    l.push_str_member("workflow", workflow);
    l.push_str_member("run", run);
    l.push_str_member("attempt", attempt);
    l.push_str_member("job", job);
    l.finish_object()
}

fn copy_text(o: &Option<String>) -> (r: Option<String>)
    ensures
        r == *o,
{
    match o {
        Some(s) => Some(s.clone()),
        None => None,
    }
}

/// Appends one event. Ordering, chaining, and legality are enforced here; a
/// refused append leaves the journal unchanged and is a stop signal for the
/// caller, never a skipped log line.
pub fn append_journal_event_v1(
    journal: &mut CargoAllowPublicationJournalV1,
    append: PublicationJournalAppendV1,
) -> (r: Result<(), &'static str>)
    requires
        old(journal).entries@.len() < u64::MAX,
    ensures
        match append_error(*old(journal), append) {
            Some(e) => r is Err && r->Err_0@ == e && *final(journal) == *old(journal),
            None => {
                &&& r is Ok
                &&& same_journal_header(*old(journal), *final(journal))
                &&& entries_view(final(journal).entries@) == entries_view(old(journal).entries@).push(
                    appended_entry(*old(journal), append),
                )
                &&& is_lower_sha256_digest(final(journal).entries@.last().entry_digest@)
            },
        },
{
    if is_blank(append.reason.as_str()) {
        return Err("journal entries require a reason");
    }
    if secret_marker(append.reason.as_str()).is_some() {
        return Err("secret material must never enter journal records");
    }
    match &append.response {
        Some(response) => {
            if response.detail.as_str().as_bytes().len() > PUBLICATION_JOURNAL_MAX_RESPONSE_DETAIL_LEN {
                return Err("journal response notes are bounded and carry no bodies");
            }
        },
        None => {},
    }
    let n = journal.entries.len();
    let baseline = if n > 0 {
        journal.entries[n - 1].at_unix_seconds
    } else {
        journal.created_at_unix_seconds
    };
    if append.at_unix_seconds < baseline {
        return Err("journal entries must not predate construction or predecessors");
    }
    match &append.row {
        Some(row) => {
            match validate_row(row) {
                Some(e) => {
                    return Err(e);
                },
                None => {},
            }
            if !declared_row_matches(journal, row) {
                return Err("journal rows must match the bound row set exactly");
            }
        },
        None => {},
    }
    let operation_scoped = match append.kind {
        PublicationJournalEventV1::OperationSelected
        | PublicationJournalEventV1::AuthorizationConsumed
        | PublicationJournalEventV1::TagObservedExact
        | PublicationJournalEventV1::OperationIncident
        | PublicationJournalEventV1::OperationComplete => true,
        _ => false,
    };
    if operation_scoped && append.row.is_some() {
        return Err("operation events carry no row");
    }
    if !operation_scoped && append.row.is_none() {
        return Err("row events require a row");
    }
    match kind_check(journal, &append) {
        Some(e) => {
            return Err(e);
        },
        None => {},
    }
    let sequence = n as u64 + 1;
    let previous_digest = if n > 0 {
        journal.entries[n - 1].entry_digest.clone()
    } else {
        PUBLICATION_JOURNAL_GENESIS_DIGEST.to_string()
    };
    let (package_name, row_order, candidate_archive_digest) = match &append.row {
        Some(row) => (
            Some(row.package_name.clone()),
            Some(row.row_order),
            Some(row.candidate_archive_digest.clone()),
        ),
        None => (None, None, None),
    };
    let response_class = match &append.response {
        Some(response) => Some(response.class),
        None => None,
    };
    let input = render_entry_input(
        sequence,
        previous_digest.as_str(),
        append.kind,
        &package_name,
        row_order,
        &candidate_archive_digest,
        append.at_unix_seconds,
        append.reason.as_str(),
        response_class,
        journal.workflow.as_str(),
        journal.run.as_str(),
        journal.attempt.as_str(),
        journal.job.as_str(),
    );
    let entry_digest = digest_text(input.as_str());
    let entry = CargoAllowPublicationJournalEntryV1 {
        sequence,
        previous_digest,
        entry_digest,
        kind: append.kind,
        package_name,
        row_order,
        candidate_archive_digest,
        at_unix_seconds: append.at_unix_seconds,
        reason: append.reason,
        response_class,
        workflow: journal.workflow.clone(),
        run: journal.run.clone(),
        attempt: journal.attempt.clone(),
        job: journal.job.clone(),
    };
    let ghost before = journal.entries@;
    journal.entries.push(entry);
    assert(entries_view(journal.entries@) =~= entries_view(before).push(entry_view(entry)));
    Ok(())
}

// ---------------------------------------------------------------------------
// Verification of the chain.
// ---------------------------------------------------------------------------

/// The digest entry `i` must chain to.
pub open spec fn chained_previous(es: Seq<CargoAllowPublicationJournalEntryV1>, i: int) -> Seq<char> {
    if i == 0 {
        PUBLICATION_JOURNAL_GENESIS_DIGEST@
    } else {
        es[i - 1].entry_digest@
    }
}

#[verifier::opaque]
pub open spec fn entry_chain_error(es: Seq<CargoAllowPublicationJournalEntryV1>, i: int) -> Option<
    Seq<char>,
> {
    if es[i].sequence != i + 1 {
        Some("journal sequence must be gapless from one"@)
    } else if es[i].previous_digest@ != chained_previous(es, i) {
        Some("journal previous digest must chain to the prior entry"@)
    } else if entry_digest_of(entry_view(es[i])) != es[i].entry_digest@ {
        Some("journal entry digest mismatch; entries are append-only"@)
    } else {
        None
    }
}

/// The first broken link among the first `n` entries.
pub open spec fn chain_error(es: Seq<CargoAllowPublicationJournalEntryV1>, n: nat) -> Option<Seq<char>>
    decreases n,
{
    if n == 0 {
        None
    } else if chain_error(es, (n - 1) as nat) is Some {
        chain_error(es, (n - 1) as nat)
    } else {
        entry_chain_error(es, n - 1)
    }
}

proof fn lemma_chain_error_stable(es: Seq<CargoAllowPublicationJournalEntryV1>, m: nat, n: nat)
    requires
        m <= n,
        chain_error(es, m) is Some,
    ensures
        chain_error(es, n) == chain_error(es, m),
    decreases n - m,
{
    if m < n {
        lemma_chain_error_stable(es, m, (n - 1) as nat);
    }
}

/// Checks one link of the chain: the sequence number, the previous digest
/// and the recomputed entry digest of entry `i`.
fn entry_check(es: &Vec<CargoAllowPublicationJournalEntryV1>, i: usize) -> (r: Option<&'static str>)
    requires
        i < es@.len(),
    ensures
        match entry_chain_error(es@, i as int) {
            None => r is None,
            Some(m) => r is Some && r->0@ == m,
        },
{
    proof {
        reveal(entry_chain_error);
    }
    let e = &es[i];
    if e.sequence == 0 || e.sequence - 1 != i as u64 {
        return Some("journal sequence must be gapless from one");
    }
    let previous_ok = if i == 0 {
        str_eq(e.previous_digest.as_str(), PUBLICATION_JOURNAL_GENESIS_DIGEST)
    } else {
        str_eq(e.previous_digest.as_str(), es[i - 1].entry_digest.as_str())
    };
    if !previous_ok {
        return Some("journal previous digest must chain to the prior entry");
    }
    let input = render_entry_input(
        e.sequence,
        e.previous_digest.as_str(),
        e.kind,
        &e.package_name,
        e.row_order,
        &e.candidate_archive_digest,
        e.at_unix_seconds,
        e.reason.as_str(),
        e.response_class,
        e.workflow.as_str(),
        e.run.as_str(),
        e.attempt.as_str(),
        e.job.as_str(),
    );
    let recomputed = digest_text(input.as_str());
    if !str_eq(recomputed.as_str(), e.entry_digest.as_str()) {
        return Some("journal entry digest mismatch; entries are append-only");
    }
    None
}

/// Recomputes every link and digest: detects edited entries, reordered
/// entries, and broken chains after retries or storage faults.
pub fn verify_publication_journal_v1(journal: &CargoAllowPublicationJournalV1) -> (r: Result<
    (),
    &'static str,
>)
    ensures
        match chain_error(journal.entries@, journal.entries@.len()) {
            None => r is Ok,
            Some(e) => r is Err && r->Err_0@ == e,
        },
{
    let es = &journal.entries;
    let mut i: usize = 0;
    while i < es.len()
        invariant
            es@ == journal.entries@,
            i <= es.len(),
            chain_error(es@, i as nat) is None,
        decreases es.len() - i,
    {
        match entry_check(es, i) {
            Some(m) => {
                proof {
                    assert(chain_error(es@, (i + 1) as nat) == entry_chain_error(es@, i as int));
                    lemma_chain_error_stable(es@, (i + 1) as nat, es@.len());
                }
                return Err(m);
            },
                None => {
                assert(chain_error(es@, (i + 1) as nat) == entry_chain_error(es@, i as int));
            },
        }
        i = i + 1;
    }
    Ok(())
}

// ---------------------------------------------------------------------------
// Laws.
// ---------------------------------------------------------------------------

/// The digest of an entry does not depend on the digest field it carries.
proof fn lemma_entry_digest_ignores_own_digest(e: EntryView, d: Seq<char>)
    ensures
        entry_digest_of(e) == entry_digest_of(
            (e.0, e.1, d, e.3, e.4, e.5, e.6, e.7, e.8, e.9, e.10, e.11, e.12, e.13),
        ),
{
}

proof fn lemma_chain_prefix(
    es: Seq<CargoAllowPublicationJournalEntryV1>,
    longer: Seq<CargoAllowPublicationJournalEntryV1>,
    n: nat,
)
    requires
        n <= es.len(),
        es.len() <= longer.len(),
        forall|i: int| 0 <= i < es.len() ==> entry_view(#[trigger] longer[i]) == entry_view(es[i]),
    ensures
        chain_error(longer, n) == chain_error(es, n),
    decreases n,
{
    reveal(entry_chain_error);
    if n > 0 {
        lemma_chain_prefix(es, longer, (n - 1) as nat);
        let i = n - 1;
        assert(entry_view(longer[i]) == entry_view(es[i]));
        if i > 0 {
            assert(entry_view(longer[i - 1]) == entry_view(es[i - 1]));
        }
    }
}

/// Appending keeps the chain intact: when a journal verifies and an append
/// is accepted, the extended journal verifies too.
pub proof fn lemma_append_preserves_chain(
    j: CargoAllowPublicationJournalV1,
    a: PublicationJournalAppendV1,
    extended: Seq<CargoAllowPublicationJournalEntryV1>,
)
    requires
        j.entries@.len() < u64::MAX,
        chain_error(j.entries@, j.entries@.len()) is None,
        append_error(j, a) is None,
        entries_view(extended) == entries_view(j.entries@).push(appended_entry(j, a)),
    ensures
        chain_error(extended, extended.len()) is None,
{
    let es = j.entries@;
    let n = es.len();
    assert(extended.len() == n + 1) by {
        assert(entries_view(extended).len() == extended.len());
    }
    assert forall|i: int| 0 <= i < n implies entry_view(#[trigger] extended[i]) == entry_view(es[i]) by {
        assert(entries_view(extended)[i] == entries_view(es)[i]);
    }
    lemma_chain_prefix(es, extended, n);
    let last = extended[n as int];
    assert(entry_view(last) == appended_entry(j, a)) by {
        assert(entries_view(extended)[n as int] == appended_entry(j, a));
    }
    let v = appended_entry(j, a);
    lemma_entry_digest_ignores_own_digest(v, Seq::empty());
    if n > 0 {
        assert(entry_view(extended[n - 1]) == entry_view(es[n - 1]));
    }
    assert(entry_chain_error(extended, n as int) is None) by {
        reveal(entry_chain_error);
    }
}

/// A clean journal refuses further upload intent once an operation incident
/// is recorded: recovery starts a new journal.
pub proof fn lemma_no_upload_intent_after_incident(
    j: CargoAllowPublicationJournalV1,
    a: PublicationJournalAppendV1,
)
    requires
        has_kind(j.entries@, PublicationJournalEventV1::OperationIncident),
        a.kind == PublicationJournalEventV1::UploadIntentDurable,
    ensures
        append_error(j, a) is Some,
{
}

/// An accepted append never edits or drops an earlier entry: the previous
/// entries are a prefix of the new history, so an earlier incident survives
/// every later success.
pub proof fn lemma_append_keeps_history(
    before: Seq<CargoAllowPublicationJournalEntryV1>,
    after: Seq<CargoAllowPublicationJournalEntryV1>,
    added: EntryView,
)
    requires
        entries_view(after) == entries_view(before).push(added),
    ensures
        after.len() == before.len() + 1,
        forall|i: int| 0 <= i < before.len() ==> entry_view(#[trigger] after[i]) == entry_view(before[i]),
        has_kind(before, PublicationJournalEventV1::OperationIncident) ==> has_kind(
            after,
            PublicationJournalEventV1::OperationIncident,
        ),
{
    assert(entries_view(after).len() == after.len());
    assert forall|i: int| 0 <= i < before.len() implies entry_view(#[trigger] after[i]) == entry_view(
        before[i],
    ) by {
        assert(entries_view(after)[i] == entries_view(before)[i]);
    }
    if has_kind(before, PublicationJournalEventV1::OperationIncident) {
        let i = choose|i: int|
            0 <= i < before.len() && #[trigger] before[i].kind
                == PublicationJournalEventV1::OperationIncident;
        assert(entry_view(after[i]) == entry_view(before[i]));
        assert(after[i].kind == PublicationJournalEventV1::OperationIncident);
    }
}

/// A freshly begun journal verifies; with `lemma_append_preserves_chain`,
/// every journal built by `begin` and accepted appends verifies.
pub proof fn lemma_begun_journal_verifies(j: CargoAllowPublicationJournalV1, i: PublicationJournalInitV1)
    requires
        journal_begun_from(j, i),
    ensures
        chain_error(j.entries@, j.entries@.len()) is None,
{
}

} // verus!
