//! Deterministic unknown-upload recovery for the final release.
//!
//! The publication journal records an `UploadResponseUnknown` when the
//! runner cannot know whether the provider accepted the request. This
//! module decides the only safe next transition for one package row from
//! exact evidence: the live journal, verified checkpoint positions, original
//! custody, authorization identities, and bounded multi-surface provider
//! observations.
//!
//! `UploadResponseUnknown` is neither failure nor success. Exact visibility
//! means skip, never re-upload; conflict means incident and stop; absence
//! after bounded observation may permit the original custody bytes to be
//! uploaded exactly once, and only under exact recovery authorization. A
//! provider outage is never absence, and recovery never rebuilds the row
//! from moving source.
//!
//! Everything here is pure: observations are caller-supplied multi-surface
//! claims; the decision classifies them but never fetches them. Checkpoint
//! positions are verified by the caller before deciding.

use vstd::prelude::*;
use crate::publication_journal::{
    declared_named, declared_row_matches, has_kind, journal_has, journal_row_view, latest_kind,
    opt_text, row_has, row_has_kind, row_latest_kind, CargoAllowPublicationJournalEntryV1,
    CargoAllowPublicationJournalV1, PublicationJournalClassV1, PublicationJournalEventV1,
    PublicationJournalRowV1, PUBLICATION_JOURNAL_GENESIS_DIGEST,
};
use crate::text::{blank, is_blank, is_lower_sha256_digest, is_lower_sha256_digest_str, str_eq, views};

pub use crate::publication_checkpoint::PublicationCheckpointKindV1;

verus! {

pub const PUBLICATION_RECOVERY_SCHEMA_ID: &'static str = "cargo-allow.publication-recovery.v1";

pub const PUBLICATION_RECOVERY_SCHEMA_VERSION: u32 = 1;

/// Bounded read-only observation rounds before absence may be considered.
/// Absence is never inferred from fewer rounds, and never from a silent
/// surface no matter how many rounds elapsed.
pub const PUBLICATION_RECOVERY_MAX_OBSERVATION_ROUNDS: u32 = 5;

pub const PUBLICATION_RECOVERY_CLAIM_BOUNDARY: &'static str = "This record owns one deterministic recovery disposition per package row with an unknown upload outcome: exact operation and row identity, the decided journal head, consumed observation rounds, authorization posture, and preserved incident lineage. It does not upload packages, observe the registry, authorize recovery, or rewrite history.";

/// Recovery dispositions. An unknown outcome stays unknown until read-only
/// observation resolves it, and every upload path stays closed until its
/// exact preconditions hold.
#[derive(Debug, Clone, Copy, PartialEq, Eq, Structural)]
pub enum UnknownUploadRecoveryClassV1 {
    NotAttemptedSafeToStart,
    ResponseUnknownObservationRequired,
    VisibleExactSkipAndContinue,
    WaitingForPropagation,
    VisibleConflictIncident,
    MissingAfterBoundedObservationRecoveryMayUpload,
    ProviderUnavailableStop,
    RecoveryAuthorizationRequired,
    InstrumentFailure,
}

/// One provider surface claim. Reachability, visibility, and digest
/// agreement are separate: an unreachable surface says nothing, an
/// invisible surface is not absence by itself, and a digest verdict binds
/// visible rows only. `digest_matches` is `None` when the surface cannot
/// compare archive bytes.
#[derive(Debug, Clone, Copy, PartialEq, Eq, Structural)]
pub struct RecoverySurfaceObservationV1 {
    pub reachable: bool,
    pub visible: bool,
    pub digest_matches: Option<bool>,
}

/// Bounded multi-surface registry observation: the provider API, the
/// registry index, a download probe, and the resolver view, plus how many
/// read-only rounds produced them and whether the observation harness
/// itself failed.
#[derive(Debug, Clone, Copy, PartialEq, Eq, Structural)]
pub struct RecoveryRegistryObservationsV1 {
    pub api: RecoverySurfaceObservationV1,
    pub index: RecoverySurfaceObservationV1,
    pub download: RecoverySurfaceObservationV1,
    pub resolver: RecoverySurfaceObservationV1,
    pub rounds: u32,
    pub instrument_failure: bool,
}

/// Original custody: the exact candidate bytes the freeze bound, plus the
/// custody and freeze digests that authorize them.
#[derive(Debug, Clone, PartialEq, Eq)]
pub struct RecoveryCustodyV1 {
    pub candidate_archive_digest: String,
    pub custody_digest: String,
    pub freeze_digest: String,
}

/// Exact recovery authorization: its own digest, the recovery plan it
/// executes, and the original candidate it is bound to.
#[derive(Debug, Clone, PartialEq, Eq)]
pub struct RecoveryAuthorizationV1 {
    pub authorization_digest: String,
    pub plan_digest: String,
    pub bound_candidate_digest: String,
}

/// Authorization identities available to the recovery lane.
#[derive(Debug, Clone, PartialEq, Eq)]
pub struct RecoveryAuthorizationsV1 {
    pub clean_authorization_digest: String,
    pub recovery: Option<RecoveryAuthorizationV1>,
}

/// A caller-verified checkpoint position.
#[derive(Debug, Clone, PartialEq, Eq)]
pub struct RecoveryCheckpointPositionV1 {
    pub operation_id: String,
    /// Canonical operation identity digest; must equal the bound journal's.
    pub operation_identity_digest: String,
    pub checkpoint_sequence: u64,
    pub journal_head_sequence: u64,
    pub journal_head_digest: String,
    pub kind: PublicationCheckpointKindV1,
    pub readback_complete: bool,
}

/// One deterministic recovery disposition for one package row.
#[derive(Debug, Clone, PartialEq, Eq)]
pub struct CargoAllowUnknownUploadRecoveryV1 {
    pub schema_id: String,
    pub schema_version: u32,
    pub operation_id: String,
    pub operation_identity_digest: String,
    pub operation_class: PublicationJournalClassV1,
    pub package_name: String,
    pub row_order: u32,
    pub class: UnknownUploadRecoveryClassV1,
    /// The journal head this decision was taken against.
    pub decided_journal_head_sequence: u64,
    pub decided_journal_head_digest: String,
    pub rounds_consumed: u32,
    /// True when the disposition consumes recovery authority or waits for it.
    pub requires_recovery_authorization: bool,
    /// The journal incident posture at decision time, preserved verbatim.
    pub preserved_incident: bool,
    pub claim_boundary: String,
    pub limitations: Vec<String>,
}

// ---------------------------------------------------------------------------
// Surfaces.
// ---------------------------------------------------------------------------

pub open spec fn surface_inconsistent(s: RecoverySurfaceObservationV1) -> bool {
    (s.visible && !s.reachable) || (s.digest_matches is Some && !s.visible)
}

pub open spec fn surface_conflict(s: RecoverySurfaceObservationV1) -> bool {
    s.visible && s.digest_matches == Some(false)
}

pub open spec fn surface_exact(s: RecoverySurfaceObservationV1) -> bool {
    s.visible && s.digest_matches == Some(true)
}

pub open spec fn surface_uncompared(s: RecoverySurfaceObservationV1) -> bool {
    s.visible && s.digest_matches is None
}

pub open spec fn surface_absent(s: RecoverySurfaceObservationV1) -> bool {
    s.reachable && !s.visible
}

/// Some surface of `o` satisfies `p`.
pub open spec fn any_surface(o: RecoveryRegistryObservationsV1, p: spec_fn(RecoverySurfaceObservationV1) -> bool) -> bool {
    p(o.api) || p(o.index) || p(o.download) || p(o.resolver)
}

fn inconsistent(s: RecoverySurfaceObservationV1) -> (r: bool)
    ensures
        r == surface_inconsistent(s),
{
    (s.visible && !s.reachable) || (s.digest_matches.is_some() && !s.visible)
}

fn conflict(s: RecoverySurfaceObservationV1) -> (r: bool)
    ensures
        r == surface_conflict(s),
{
    s.visible && s.digest_matches == Some(false)
}

fn exact(s: RecoverySurfaceObservationV1) -> (r: bool)
    ensures
        r == surface_exact(s),
{
    s.visible && s.digest_matches == Some(true)
}

fn uncompared(s: RecoverySurfaceObservationV1) -> (r: bool)
    ensures
        r == surface_uncompared(s),
{
    s.visible && s.digest_matches.is_none()
}

fn absent(s: RecoverySurfaceObservationV1) -> (r: bool)
    ensures
        r == surface_absent(s),
{
    s.reachable && !s.visible
}

// ---------------------------------------------------------------------------
// Positions and history.
// ---------------------------------------------------------------------------

pub open spec fn position_error(
    j: CargoAllowPublicationJournalV1,
    p: RecoveryCheckpointPositionV1,
) -> Option<Seq<char>> {
    if blank(p.operation_id@) {
        Some("checkpoint positions must name their operation"@)
    } else if !is_lower_sha256_digest(p.journal_head_digest@) || !is_lower_sha256_digest(
        p.operation_identity_digest@,
    ) {
        Some("checkpoint positions must bind a canonical journal head"@)
    } else if p.operation_identity_digest@ != j.operation_identity_digest@ {
        Some("checkpoint positions must belong to the decided operation"@)
    } else {
        None
    }
}

/// The first malformed position among the first `n`.
pub open spec fn positions_error(
    j: CargoAllowPublicationJournalV1,
    ps: Seq<RecoveryCheckpointPositionV1>,
    n: nat,
) -> Option<Seq<char>>
    decreases n,
{
    if n == 0 {
        None
    } else if positions_error(j, ps, (n - 1) as nat) is Some {
        positions_error(j, ps, (n - 1) as nat)
    } else {
        position_error(j, ps[n - 1])
    }
}

proof fn lemma_positions_error_stable(
    j: CargoAllowPublicationJournalV1,
    ps: Seq<RecoveryCheckpointPositionV1>,
    m: nat,
    n: nat,
)
    requires
        m <= n,
        positions_error(j, ps, m) is Some,
    ensures
        positions_error(j, ps, n) == positions_error(j, ps, m),
    decreases n - m,
{
    if m < n {
        lemma_positions_error_stable(j, ps, m, (n - 1) as nat);
    }
}

/// Entry `e` is the durable upload intent of `row` that position `p` names.
pub open spec fn intent_at(
    e: CargoAllowPublicationJournalEntryV1,
    p: RecoveryCheckpointPositionV1,
    row: PublicationJournalRowV1,
) -> bool {
    &&& e.sequence == p.journal_head_sequence
    &&& e.entry_digest@ == p.journal_head_digest@
    &&& e.kind == PublicationJournalEventV1::UploadIntentDurable
    &&& opt_text(e.package_name) == Some(row.package_name@)
    &&& e.row_order == Some(row.row_order)
    &&& opt_text(e.candidate_archive_digest) == Some(row.candidate_archive_digest@)
}

/// A verified pre-intent position for this row's upload: the referenced
/// journal entry is still present, is the row's durable upload intent, and
/// repeats the row's identity exactly.
pub open spec fn pre_intent_position(
    j: CargoAllowPublicationJournalV1,
    p: RecoveryCheckpointPositionV1,
    row: PublicationJournalRowV1,
) -> bool {
    &&& p.kind == PublicationCheckpointKindV1::PreIntentDurable
    &&& p.readback_complete
    &&& p.operation_id@ == j.operation_id@
    &&& p.operation_identity_digest@ == j.operation_identity_digest@
    &&& exists|i: int| 0 <= i < j.entries@.len() && intent_at(#[trigger] j.entries@[i], p, row)
}

pub open spec fn has_pre_intent_position(
    j: CargoAllowPublicationJournalV1,
    ps: Seq<RecoveryCheckpointPositionV1>,
    row: PublicationJournalRowV1,
) -> bool {
    exists|i: int| 0 <= i < ps.len() && pre_intent_position(j, #[trigger] ps[i], row)
}

fn intent_present(
    j: &CargoAllowPublicationJournalV1,
    p: &RecoveryCheckpointPositionV1,
    row: &PublicationJournalRowV1,
) -> (r: bool)
    ensures
        r == exists|i: int| 0 <= i < j.entries@.len() && intent_at(#[trigger] j.entries@[i], *p, *row),
{
    let es = &j.entries;
    let mut i: usize = 0;
    while i < es.len()
        invariant
            es@ == j.entries@,
            i <= es.len(),
            forall|x: int| 0 <= x < i ==> !intent_at(#[trigger] es@[x], *p, *row),
        decreases es.len() - i,
    {
        let e = &es[i];
        let name_ok = match &e.package_name {
            Some(n) => str_eq(n.as_str(), row.package_name.as_str()),
            None => false,
        };
        let digest_ok = match &e.candidate_archive_digest {
            Some(d) => str_eq(d.as_str(), row.candidate_archive_digest.as_str()),
            None => false,
        };
        let order_ok = match e.row_order {
            Some(o) => o == row.row_order,
            None => false,
        };
        if e.sequence == p.journal_head_sequence && str_eq(e.entry_digest.as_str(), p.journal_head_digest.as_str())
            && e.kind == PublicationJournalEventV1::UploadIntentDurable && name_ok && order_ok && digest_ok {
            assert(intent_at(es@[i as int], *p, *row));
            return true;
        }
        i = i + 1;
    }
    false
}

fn find_pre_intent_position(
    j: &CargoAllowPublicationJournalV1,
    ps: &Vec<RecoveryCheckpointPositionV1>,
    row: &PublicationJournalRowV1,
) -> (r: bool)
    ensures
        r == has_pre_intent_position(*j, ps@, *row),
{
    let mut i: usize = 0;
    while i < ps.len()
        invariant
            i <= ps.len(),
            forall|x: int| 0 <= x < i ==> !pre_intent_position(*j, #[trigger] ps@[x], *row),
        decreases ps.len() - i,
    {
        let p = &ps[i];
        if p.kind == PublicationCheckpointKindV1::PreIntentDurable && p.readback_complete && str_eq(
            p.operation_id.as_str(),
            j.operation_id.as_str(),
        ) && str_eq(p.operation_identity_digest.as_str(), j.operation_identity_digest.as_str())
            && intent_present(j, p, row) {
            assert(pre_intent_position(*j, ps@[i as int], *row));
            return true;
        }
        i = i + 1;
    }
    false
}

fn check_positions(j: &CargoAllowPublicationJournalV1, ps: &Vec<RecoveryCheckpointPositionV1>) -> (r: Option<
    &'static str,
>)
    ensures
        match positions_error(*j, ps@, ps@.len()) {
            None => r is None,
            Some(m) => r is Some && r->0@ == m,
        },
{
    let mut i: usize = 0;
    while i < ps.len()
        invariant
            i <= ps.len(),
            positions_error(*j, ps@, i as nat) is None,
        decreases ps.len() - i,
    {
        let p = &ps[i];
        let e: Option<&'static str> = if is_blank(p.operation_id.as_str()) {
            Some("checkpoint positions must name their operation")
        } else if !is_lower_sha256_digest_str(p.journal_head_digest.as_str()) || !is_lower_sha256_digest_str(
            p.operation_identity_digest.as_str(),
        ) {
            Some("checkpoint positions must bind a canonical journal head")
        } else if !str_eq(p.operation_identity_digest.as_str(), j.operation_identity_digest.as_str()) {
            Some("checkpoint positions must belong to the decided operation")
        } else {
            None
        };
        assert(positions_error(*j, ps@, (i + 1) as nat) == position_error(*j, ps@[i as int]));
        match e {
            Some(m) => {
                proof {
                    lemma_positions_error_stable(*j, ps@, (i + 1) as nat, ps@.len());
                }
                return Some(m);
            },
            None => {},
        }
        i = i + 1;
    }
    None
}

// ---------------------------------------------------------------------------
// The decision.
// ---------------------------------------------------------------------------

/// The bound row repeats the journal denominator exactly.
pub open spec fn row_declared(j: CargoAllowPublicationJournalV1, row: PublicationJournalRowV1) -> bool {
    declared_named(j.rows@, row.package_name@) is Some && journal_row_view(
        declared_named(j.rows@, row.package_name@)->0,
    ) == journal_row_view(row)
}

/// Why the evidence cannot be decided on at all.
pub open spec fn evidence_error(
    j: CargoAllowPublicationJournalV1,
    ps: Seq<RecoveryCheckpointPositionV1>,
    row: PublicationJournalRowV1,
    custody: RecoveryCustodyV1,
    auths: RecoveryAuthorizationsV1,
    obs: RecoveryRegistryObservationsV1,
) -> Option<Seq<char>> {
    if !row_declared(j, row) {
        Some("recovery rows must match the bound journal row set exactly"@)
    } else if row.candidate_archive_digest@ != custody.candidate_archive_digest@ {
        Some("recovery continues from the original custody bytes only"@)
    } else if !is_lower_sha256_digest(custody.candidate_archive_digest@) || !is_lower_sha256_digest(
        custody.custody_digest@,
    ) || !is_lower_sha256_digest(custody.freeze_digest@) || !is_lower_sha256_digest(
        auths.clean_authorization_digest@,
    ) {
        Some("recovery requires canonical custody and authorization identity"@)
    } else if auths.recovery is Some && (!is_lower_sha256_digest(
        auths.recovery->0.authorization_digest@,
    ) || !is_lower_sha256_digest(auths.recovery->0.plan_digest@) || !is_lower_sha256_digest(
        auths.recovery->0.bound_candidate_digest@,
    )) {
        Some("recovery authorization must carry canonical identity"@)
    } else if custody.custody_digest@ != j.custody_digest@ || custody.freeze_digest@ != j.freeze_digest@
        || auths.clean_authorization_digest@ != j.authorization_digest@ {
        Some("recovery custody and authorization must agree with the journal header"@)
    } else if any_surface(obs, |s: RecoverySurfaceObservationV1| surface_inconsistent(s)) {
        Some("recovery surfaces must be internally consistent"@)
    } else {
        positions_error(j, ps, ps.len())
    }
}

/// The disposition for evidence that can be decided on: the class and
/// whether it consumes or waits for recovery authority, or the refusal of an
/// upload that lacks a verified pre-intent position.
pub open spec fn decision(
    j: CargoAllowPublicationJournalV1,
    ps: Seq<RecoveryCheckpointPositionV1>,
    row: PublicationJournalRowV1,
    custody: RecoveryCustodyV1,
    auths: RecoveryAuthorizationsV1,
    obs: RecoveryRegistryObservationsV1,
) -> Result<(UnknownUploadRecoveryClassV1, bool), Seq<char>> {
    let es = j.entries@;
    if obs.instrument_failure {
        Ok((UnknownUploadRecoveryClassV1::InstrumentFailure, false))
    } else if latest_kind(es, row.package_name@) == Some(PublicationJournalEventV1::RegistryVisibleExact) {
        Ok((UnknownUploadRecoveryClassV1::VisibleExactSkipAndContinue, false))
    } else if any_surface(obs, |s: RecoverySurfaceObservationV1| surface_conflict(s)) {
        Ok((UnknownUploadRecoveryClassV1::VisibleConflictIncident, false))
    } else if !any_surface(obs, |s: RecoverySurfaceObservationV1| s.reachable) {
        Ok((UnknownUploadRecoveryClassV1::ProviderUnavailableStop, false))
    } else if any_surface(obs, |s: RecoverySurfaceObservationV1| surface_exact(s)) {
        Ok((UnknownUploadRecoveryClassV1::VisibleExactSkipAndContinue, false))
    } else if any_surface(obs, |s: RecoverySurfaceObservationV1| surface_uncompared(s)) {
        Ok((UnknownUploadRecoveryClassV1::WaitingForPropagation, false))
    } else if !row_has_kind(es, row.package_name@, PublicationJournalEventV1::UploadRequestStarted) {
        if has_kind(es, PublicationJournalEventV1::OperationIncident) {
            Ok((UnknownUploadRecoveryClassV1::RecoveryAuthorizationRequired, true))
        } else {
            Ok((UnknownUploadRecoveryClassV1::NotAttemptedSafeToStart, false))
        }
    } else if !(surface_absent(obs.api) && surface_absent(obs.index) && surface_absent(obs.download)
        && surface_absent(obs.resolver)) {
        if obs.rounds < PUBLICATION_RECOVERY_MAX_OBSERVATION_ROUNDS {
            Ok((UnknownUploadRecoveryClassV1::ResponseUnknownObservationRequired, false))
        } else {
            Ok((UnknownUploadRecoveryClassV1::ProviderUnavailableStop, false))
        }
    } else if obs.rounds < PUBLICATION_RECOVERY_MAX_OBSERVATION_ROUNDS {
        Ok((UnknownUploadRecoveryClassV1::ResponseUnknownObservationRequired, false))
    } else if !(auths.recovery is Some && auths.recovery->0.bound_candidate_digest@
        == custody.candidate_archive_digest@) {
        Ok((UnknownUploadRecoveryClassV1::RecoveryAuthorizationRequired, true))
    } else if !has_pre_intent_position(j, ps, row) {
        Err("recovery uploads require a verified pre-intent checkpoint position"@)
    } else {
        Ok((UnknownUploadRecoveryClassV1::MissingAfterBoundedObservationRecoveryMayUpload, true))
    }
}

/// The journal head a decision is taken against.
pub open spec fn head_sequence(es: Seq<CargoAllowPublicationJournalEntryV1>) -> u64 {
    if es.len() == 0 {
        0
    } else {
        es.last().sequence
    }
}

pub open spec fn head_digest(es: Seq<CargoAllowPublicationJournalEntryV1>) -> Seq<char> {
    if es.len() == 0 {
        PUBLICATION_JOURNAL_GENESIS_DIGEST@
    } else {
        es.last().entry_digest@
    }
}

/// `d` records disposition `class` for `row` against journal `j`.
pub open spec fn disposition_of(
    d: CargoAllowUnknownUploadRecoveryV1,
    j: CargoAllowPublicationJournalV1,
    row: PublicationJournalRowV1,
    class: UnknownUploadRecoveryClassV1,
    rounds: u32,
    requires_recovery_authorization: bool,
) -> bool {
    &&& d.schema_id@ == PUBLICATION_RECOVERY_SCHEMA_ID@
    &&& d.schema_version == PUBLICATION_RECOVERY_SCHEMA_VERSION
    &&& d.operation_id@ == j.operation_id@
    &&& d.operation_identity_digest@ == j.operation_identity_digest@
    &&& d.operation_class == j.operation_class
    &&& d.package_name@ == row.package_name@
    &&& d.row_order == row.row_order
    &&& d.class == class
    &&& d.decided_journal_head_sequence == head_sequence(j.entries@)
    &&& d.decided_journal_head_digest@ == head_digest(j.entries@)
    &&& d.rounds_consumed == rounds
    &&& d.requires_recovery_authorization == requires_recovery_authorization
    &&& d.preserved_incident == has_kind(j.entries@, PublicationJournalEventV1::OperationIncident)
    &&& d.claim_boundary@ == PUBLICATION_RECOVERY_CLAIM_BOUNDARY@
    &&& views(d.limitations@) == seq![
        "does_not_upload_packages"@,
        "does_not_observe_registry"@,
        "does_not_authorize_operation"@,
    ]
}

fn finish(
    j: &CargoAllowPublicationJournalV1,
    row: &PublicationJournalRowV1,
    class: UnknownUploadRecoveryClassV1,
    rounds: u32,
    requires_recovery_authorization: bool,
) -> (d: CargoAllowUnknownUploadRecoveryV1)
    ensures
        disposition_of(d, *j, *row, class, rounds, requires_recovery_authorization),
{
    let n = j.entries.len();
    let (sequence, digest) = if n > 0 {
        (j.entries[n - 1].sequence, j.entries[n - 1].entry_digest.clone())
    } else {
        (0u64, PUBLICATION_JOURNAL_GENESIS_DIGEST.to_string())
    };
    let mut limitations: Vec<String> = Vec::new();
    limitations.push("does_not_upload_packages".to_string());
    limitations.push("does_not_observe_registry".to_string());
    limitations.push("does_not_authorize_operation".to_string());
    assert(views(limitations@) =~= seq![
        "does_not_upload_packages"@,
        "does_not_observe_registry"@,
        "does_not_authorize_operation"@,
    ]);
    CargoAllowUnknownUploadRecoveryV1 {
        schema_id: PUBLICATION_RECOVERY_SCHEMA_ID.to_string(),
        schema_version: PUBLICATION_RECOVERY_SCHEMA_VERSION,
        operation_id: j.operation_id.clone(),
        operation_identity_digest: j.operation_identity_digest.clone(),
        operation_class: j.operation_class,
        package_name: row.package_name.clone(),
        row_order: row.row_order,
        class,
        decided_journal_head_sequence: sequence,
        decided_journal_head_digest: digest,
        rounds_consumed: rounds,
        requires_recovery_authorization,
        preserved_incident: journal_has(&j.entries, PublicationJournalEventV1::OperationIncident),
        claim_boundary: PUBLICATION_RECOVERY_CLAIM_BOUNDARY.to_string(),
        limitations,
    }
}

fn evidence_check(
    j: &CargoAllowPublicationJournalV1,
    ps: &Vec<RecoveryCheckpointPositionV1>,
    row: &PublicationJournalRowV1,
    custody: &RecoveryCustodyV1,
    auths: &RecoveryAuthorizationsV1,
    obs: &RecoveryRegistryObservationsV1,
) -> (r: Option<&'static str>)
    ensures
        match evidence_error(*j, ps@, *row, *custody, *auths, *obs) {
            None => r is None,
            Some(m) => r is Some && r->0@ == m,
        },
{
    if !declared_row_matches(j, row) {
        return Some("recovery rows must match the bound journal row set exactly");
    }
    if !str_eq(row.candidate_archive_digest.as_str(), custody.candidate_archive_digest.as_str()) {
        return Some("recovery continues from the original custody bytes only");
    }
    if !is_lower_sha256_digest_str(custody.candidate_archive_digest.as_str())
        || !is_lower_sha256_digest_str(custody.custody_digest.as_str())
        || !is_lower_sha256_digest_str(custody.freeze_digest.as_str())
        || !is_lower_sha256_digest_str(auths.clean_authorization_digest.as_str()) {
        return Some("recovery requires canonical custody and authorization identity");
    }
    match &auths.recovery {
        Some(rec) => {
            if !is_lower_sha256_digest_str(rec.authorization_digest.as_str())
                || !is_lower_sha256_digest_str(rec.plan_digest.as_str())
                || !is_lower_sha256_digest_str(rec.bound_candidate_digest.as_str()) {
                return Some("recovery authorization must carry canonical identity");
            }
        },
        None => {},
    }
    if !str_eq(custody.custody_digest.as_str(), j.custody_digest.as_str()) || !str_eq(
        custody.freeze_digest.as_str(),
        j.freeze_digest.as_str(),
    ) || !str_eq(auths.clean_authorization_digest.as_str(), j.authorization_digest.as_str()) {
        return Some("recovery custody and authorization must agree with the journal header");
    }
    if inconsistent(obs.api) || inconsistent(obs.index) || inconsistent(obs.download) || inconsistent(
        obs.resolver,
    ) {
        return Some("recovery surfaces must be internally consistent");
    }
    check_positions(j, ps)
}

/// Decides the only safe next transition for one row with an unknown upload
/// outcome. Every upload path stays closed until exact preconditions hold,
/// and no path infers success, failure, or absence from silence.
pub fn decide_unknown_upload_recovery_v1(
    journal: &CargoAllowPublicationJournalV1,
    checkpoints: &Vec<RecoveryCheckpointPositionV1>,
    row: &PublicationJournalRowV1,
    custody: &RecoveryCustodyV1,
    authorizations: &RecoveryAuthorizationsV1,
    observations: &RecoveryRegistryObservationsV1,
) -> (r: Result<CargoAllowUnknownUploadRecoveryV1, &'static str>)
    ensures
        match evidence_error(*journal, checkpoints@, *row, *custody, *authorizations, *observations) {
            Some(e) => r is Err && r->Err_0@ == e,
            None => match decision(
                *journal,
                checkpoints@,
                *row,
                *custody,
                *authorizations,
                *observations,
            ) {
                Err(e) => r is Err && r->Err_0@ == e,
                Ok((class, needs)) => r is Ok && disposition_of(
                    r->Ok_0,
                    *journal,
                    *row,
                    class,
                    observations.rounds,
                    needs,
                ),
            },
        },
{
    match evidence_check(journal, checkpoints, row, custody, authorizations, observations) {
        Some(m) => {
            return Err(m);
        },
        None => {},
    }
    let o = observations;
    let rounds = o.rounds;
    if o.instrument_failure {
        return Ok(finish(journal, row, UnknownUploadRecoveryClassV1::InstrumentFailure, rounds, false));
    }
    if row_latest_kind(&journal.entries, row.package_name.as_str()) == Some(
        PublicationJournalEventV1::RegistryVisibleExact,
    ) {
        return Ok(finish(journal, row, UnknownUploadRecoveryClassV1::VisibleExactSkipAndContinue, rounds, false));
    }
    if conflict(o.api) || conflict(o.index) || conflict(o.download) || conflict(o.resolver) {
        return Ok(finish(journal, row, UnknownUploadRecoveryClassV1::VisibleConflictIncident, rounds, false));
    }
    if !(o.api.reachable || o.index.reachable || o.download.reachable || o.resolver.reachable) {
        return Ok(finish(journal, row, UnknownUploadRecoveryClassV1::ProviderUnavailableStop, rounds, false));
    }
    if exact(o.api) || exact(o.index) || exact(o.download) || exact(o.resolver) {
        return Ok(finish(journal, row, UnknownUploadRecoveryClassV1::VisibleExactSkipAndContinue, rounds, false));
    }
    if uncompared(o.api) || uncompared(o.index) || uncompared(o.download) || uncompared(o.resolver) {
        return Ok(finish(journal, row, UnknownUploadRecoveryClassV1::WaitingForPropagation, rounds, false));
    }
    if !row_has(&journal.entries, row.package_name.as_str(), PublicationJournalEventV1::UploadRequestStarted) {
        if journal_has(&journal.entries, PublicationJournalEventV1::OperationIncident) {
            return Ok(finish(journal, row, UnknownUploadRecoveryClassV1::RecoveryAuthorizationRequired, rounds, true));
        }
        return Ok(finish(journal, row, UnknownUploadRecoveryClassV1::NotAttemptedSafeToStart, rounds, false));
    }
    if !(absent(o.api) && absent(o.index) && absent(o.download) && absent(o.resolver)) {
        if rounds < PUBLICATION_RECOVERY_MAX_OBSERVATION_ROUNDS {
            return Ok(
                finish(journal, row, UnknownUploadRecoveryClassV1::ResponseUnknownObservationRequired, rounds, false),
            );
        }
        return Ok(finish(journal, row, UnknownUploadRecoveryClassV1::ProviderUnavailableStop, rounds, false));
    }
    if rounds < PUBLICATION_RECOVERY_MAX_OBSERVATION_ROUNDS {
        return Ok(
            finish(journal, row, UnknownUploadRecoveryClassV1::ResponseUnknownObservationRequired, rounds, false),
        );
    }
    let authorized = match &authorizations.recovery {
        Some(rec) => str_eq(rec.bound_candidate_digest.as_str(), custody.candidate_archive_digest.as_str()),
        None => false,
    };
    if !authorized {
        return Ok(finish(journal, row, UnknownUploadRecoveryClassV1::RecoveryAuthorizationRequired, rounds, true));
    }
    if !find_pre_intent_position(journal, checkpoints, row) {
        return Err("recovery uploads require a verified pre-intent checkpoint position");
    }
    Ok(
        finish(
            journal,
            row,
            UnknownUploadRecoveryClassV1::MissingAfterBoundedObservationRecoveryMayUpload,
            rounds,
            true,
        ),
    )
}

/// Every dependency of the row is exactly reconciled in the journal.
pub open spec fn dependencies_reconciled(j: CargoAllowPublicationJournalV1, row: PublicationJournalRowV1) -> bool {
    forall|i: int|
        0 <= i < row.depends_on@.len() ==> latest_kind(j.entries@, (#[trigger] row.depends_on@[i])@)
            == Some(PublicationJournalEventV1::RegistryVisibleExact)
}

/// Dependants remain blocked until every prerequisite row is exactly
/// reconciled in the journal. A recovered row unlocks its dependants only
/// through `RegistryVisibleExact`, never through a recovery disposition
/// alone.
pub fn recovery_dependant_may_begin_v1(
    journal: &CargoAllowPublicationJournalV1,
    row: &PublicationJournalRowV1,
) -> (r: Result<(), &'static str>)
    ensures
        if !row_declared(*journal, *row) {
            r is Err && r->Err_0@ == "recovery rows must match the bound journal row set exactly"@
        } else if !dependencies_reconciled(*journal, *row) {
            r is Err && r->Err_0@ == "dependants remain blocked until prerequisites are registry-visible exact"@
        } else {
            r is Ok
        },
{
    if !declared_row_matches(journal, row) {
        return Err("recovery rows must match the bound journal row set exactly");
    }
    let mut i: usize = 0;
    while i < row.depends_on.len()
        invariant
            i <= row.depends_on@.len(),
            row_declared(*journal, *row),
            forall|x: int|
                0 <= x < i ==> latest_kind(journal.entries@, (#[trigger] row.depends_on@[x])@) == Some(
                    PublicationJournalEventV1::RegistryVisibleExact,
                ),
        decreases row.depends_on@.len() - i,
    {
        if row_latest_kind(&journal.entries, row.depends_on[i].as_str()) != Some(
            PublicationJournalEventV1::RegistryVisibleExact,
        ) {
            assert(latest_kind(journal.entries@, row.depends_on@[i as int]@) != Some(
                PublicationJournalEventV1::RegistryVisibleExact,
            ));
            return Err("dependants remain blocked until prerequisites are registry-visible exact");
        }
        i = i + 1;
    }
    Ok(())
}

// ---------------------------------------------------------------------------
// Laws.
// ---------------------------------------------------------------------------

/// Recovery may upload only when every surface answered reachably and
/// absent through the full round budget, the row was attempted, recovery
/// authority is bound to the original custody bytes, and a verified
/// pre-intent position exists. A provider outage is therefore never
/// absence, and the bytes uploaded are always the original custody bytes.
pub proof fn lemma_upload_only_after_bounded_absence(
    j: CargoAllowPublicationJournalV1,
    ps: Seq<RecoveryCheckpointPositionV1>,
    row: PublicationJournalRowV1,
    custody: RecoveryCustodyV1,
    auths: RecoveryAuthorizationsV1,
    obs: RecoveryRegistryObservationsV1,
)
    requires
        evidence_error(j, ps, row, custody, auths, obs) is None,
        decision(j, ps, row, custody, auths, obs) is Ok,
        decision(j, ps, row, custody, auths, obs)->Ok_0.0
            == UnknownUploadRecoveryClassV1::MissingAfterBoundedObservationRecoveryMayUpload,
    ensures
        !obs.instrument_failure,
        surface_absent(obs.api) && surface_absent(obs.index) && surface_absent(obs.download)
            && surface_absent(obs.resolver),
        obs.rounds >= PUBLICATION_RECOVERY_MAX_OBSERVATION_ROUNDS,
        row_has_kind(j.entries@, row.package_name@, PublicationJournalEventV1::UploadRequestStarted),
        auths.recovery is Some,
        auths.recovery->0.bound_candidate_digest@ == row.candidate_archive_digest@,
        has_pre_intent_position(j, ps, row),
        decision(j, ps, row, custody, auths, obs)->Ok_0.1,
{
}

/// Exact visibility means skip, never re-upload: when a surface shows the
/// exact bytes and none shows a conflict, the row is skipped.
pub proof fn lemma_exact_visibility_skips(
    j: CargoAllowPublicationJournalV1,
    ps: Seq<RecoveryCheckpointPositionV1>,
    row: PublicationJournalRowV1,
    custody: RecoveryCustodyV1,
    auths: RecoveryAuthorizationsV1,
    obs: RecoveryRegistryObservationsV1,
)
    requires
        evidence_error(j, ps, row, custody, auths, obs) is None,
        !obs.instrument_failure,
        any_surface(obs, |s: RecoverySurfaceObservationV1| surface_exact(s)),
        !any_surface(obs, |s: RecoverySurfaceObservationV1| surface_conflict(s)),
    ensures
        decision(j, ps, row, custody, auths, obs) == Ok::<(UnknownUploadRecoveryClassV1, bool), Seq<char>>(
            (UnknownUploadRecoveryClassV1::VisibleExactSkipAndContinue, false),
        ),
{
}

/// A row is skipped as exactly published only on exact evidence: the
/// journal already records its exact registry visibility, or some surface
/// shows the row visible with matching bytes. Visibility alone is never
/// enough.
pub proof fn lemma_skip_only_on_exact_evidence(
    j: CargoAllowPublicationJournalV1,
    ps: Seq<RecoveryCheckpointPositionV1>,
    row: PublicationJournalRowV1,
    custody: RecoveryCustodyV1,
    auths: RecoveryAuthorizationsV1,
    obs: RecoveryRegistryObservationsV1,
)
    requires
        decision(j, ps, row, custody, auths, obs) is Ok,
        decision(j, ps, row, custody, auths, obs)->Ok_0.0 == UnknownUploadRecoveryClassV1::VisibleExactSkipAndContinue,
    ensures
        latest_kind(j.entries@, row.package_name@) == Some(PublicationJournalEventV1::RegistryVisibleExact) || (
        obs.api.visible && obs.api.digest_matches == Some(true)) || (obs.index.visible
            && obs.index.digest_matches == Some(true)) || (obs.download.visible && obs.download.digest_matches
            == Some(true)) || (obs.resolver.visible && obs.resolver.digest_matches == Some(true)),
{
}

/// Visible but not yet compared is propagation in flight, never permission:
/// when the journal has not reconciled the row, no surface conflicts or
/// matches exactly, and some surface shows the row without a digest
/// comparison, the decision is to wait, consuming no authority.
pub proof fn lemma_uncompared_visibility_waits(
    j: CargoAllowPublicationJournalV1,
    ps: Seq<RecoveryCheckpointPositionV1>,
    row: PublicationJournalRowV1,
    custody: RecoveryCustodyV1,
    auths: RecoveryAuthorizationsV1,
    obs: RecoveryRegistryObservationsV1,
    s: RecoverySurfaceObservationV1,
)
    requires
        evidence_error(j, ps, row, custody, auths, obs) is None,
        !obs.instrument_failure,
        latest_kind(j.entries@, row.package_name@) != Some(PublicationJournalEventV1::RegistryVisibleExact),
        s == obs.api || s == obs.index || s == obs.download || s == obs.resolver,
        s.visible,
        s.digest_matches is None,
        forall|t: RecoverySurfaceObservationV1|
            (t == obs.api || t == obs.index || t == obs.download || t == obs.resolver) ==> (t.visible
                ==> t.digest_matches != Some(true) && t.digest_matches != Some(false)),
    ensures
        decision(j, ps, row, custody, auths, obs) == Ok::<(UnknownUploadRecoveryClassV1, bool), Seq<char>>(
            (UnknownUploadRecoveryClassV1::WaitingForPropagation, false),
        ),
{
    assert(!surface_inconsistent(s));
    assert(s.reachable);
    assert(!surface_conflict(obs.api) && !surface_conflict(obs.index) && !surface_conflict(obs.download)
        && !surface_conflict(obs.resolver));
    assert(!surface_exact(obs.api) && !surface_exact(obs.index) && !surface_exact(obs.download)
        && !surface_exact(obs.resolver));
}

/// A visible conflict on any surface is an incident, whatever the other
/// surfaces say, unless the row is already reconciled exactly.
pub proof fn lemma_conflict_is_incident(
    j: CargoAllowPublicationJournalV1,
    ps: Seq<RecoveryCheckpointPositionV1>,
    row: PublicationJournalRowV1,
    custody: RecoveryCustodyV1,
    auths: RecoveryAuthorizationsV1,
    obs: RecoveryRegistryObservationsV1,
)
    requires
        !obs.instrument_failure,
        latest_kind(j.entries@, row.package_name@) != Some(PublicationJournalEventV1::RegistryVisibleExact),
        any_surface(obs, |s: RecoverySurfaceObservationV1| surface_conflict(s)),
    ensures
        decision(j, ps, row, custody, auths, obs) == Ok::<(UnknownUploadRecoveryClassV1, bool), Seq<char>>(
            (UnknownUploadRecoveryClassV1::VisibleConflictIncident, false),
        ),
{
}

/// Recovery authority is consumed or awaited exactly by the upload and the
/// authorization-required dispositions.
pub proof fn lemma_authority_flag(
    j: CargoAllowPublicationJournalV1,
    ps: Seq<RecoveryCheckpointPositionV1>,
    row: PublicationJournalRowV1,
    custody: RecoveryCustodyV1,
    auths: RecoveryAuthorizationsV1,
    obs: RecoveryRegistryObservationsV1,
)
    requires
        decision(j, ps, row, custody, auths, obs) is Ok,
    ensures
        decision(j, ps, row, custody, auths, obs)->Ok_0.1 <==> (decision(
            j,
            ps,
            row,
            custody,
            auths,
            obs,
        )->Ok_0.0 == UnknownUploadRecoveryClassV1::MissingAfterBoundedObservationRecoveryMayUpload
            || decision(j, ps, row, custody, auths, obs)->Ok_0.0
            == UnknownUploadRecoveryClassV1::RecoveryAuthorizationRequired),
{
}

} // verus!
