//! Typed reconciliation record for the moved `v0.2.0-rc.1` publication
//! incident.
//!
//! The record reconciles the entire rc.1 attempt sequence against retained
//! evidence and current registry state. Later green completions do not erase
//! earlier partial attempts, name and version visibility is not candidate
//! identity, and rows published from different source candidates stay
//! visibly different. The channel posture and final-candidate eligibility
//! are fixed by the incident ruling and are not free fields.

use vstd::prelude::*;
use crate::text::{all_hex, all_hex_str, cat, cat3, decimal, decimal_string, starts_with, starts_with_str, str_eq};

verus! {

pub const RC_PUBLICATION_INCIDENT_SCHEMA: &'static str = "cargo-allow.rc-publication-incident.v1";

/// How completely the incident sequence was observed. `PartialObservation`
/// must carry at least one explicit observation limit.
#[derive(Debug, Clone, Copy, PartialEq, Eq, Structural)]
pub enum ObservationCompletenessV1 {
    CompleteObservation,
    PartialObservation,
    ProviderUnavailable,
    InstrumentFailure,
}

/// Fixed by the incident ruling: rc.1 is publicly installable but carries
/// its publication-incident lineage.
#[derive(Debug, Clone, Copy, PartialEq, Eq, Structural)]
pub enum ChannelPostureV1 {
    PublicPrereleaseWithIncident,
}

/// Fixed by the incident ruling: rc.1 evidence may not be reused as the
/// final 0.2.0 identity.
#[derive(Debug, Clone, Copy, PartialEq, Eq, Structural)]
pub enum FinalCandidateEligibilityV1 {
    NotReusable,
}

/// One observed release attempt over the incident tag.
#[derive(Debug, Clone, PartialEq, Eq)]
pub struct ReleaseAttemptV1 {
    pub run_id: u64,
    pub commit: String,
    pub tree: String,
    pub conclusion: String,
    pub result_class: String,
    pub retained_publish_receipt_artifact_id: u64,
}

/// Observed state of the incident tag. Event-level create/delete/recreate
/// history requires retained audit evidence; when absent, the limit must
/// be explicit and the current target recorded.
#[derive(Debug, Clone, PartialEq, Eq)]
pub struct TagObservationV1 {
    pub current_tag_object: String,
    pub current_target_commit: String,
    pub events: Vec<String>,
    pub observation_limit: Option<String>,
}

/// Per-row reconciliation over the candidate set. Each state carries
/// exactly the evidence its classification requires; a row whose registry
/// bytes match no retained candidate stays visibly across-candidate.
#[derive(Debug, Clone, PartialEq, Eq)]
pub enum RowReconciliationV1 {
    PublishedExactCandidate {
        package: String,
        version: String,
        candidate_commit: String,
        candidate_tree: String,
        candidate_receipt_artifact_id: u64,
        expected_checksum: String,
        observed_checksum: String,
    },
    PublishedAcrossCandidateHistory {
        package: String,
        version: String,
        registry_checksum: String,
        retained_candidate_checksums: Vec<String>,
        note: String,
    },
    PublishedButCandidateEvidenceUnavailable {
        package: String,
        version: String,
        registry_checksum: String,
        note: String,
    },
    Missing {
        package: String,
        version: String,
    },
    Yanked {
        package: String,
        version: String,
        registry_checksum: String,
    },
    ChecksumConflict {
        package: String,
        version: String,
        expected_checksum: String,
        observed_checksum: String,
    },
    ProviderUnavailable {
        package: String,
    },
    InstrumentFailure {
        package: String,
        note: String,
    },
}


/// The package a row reconciles.
pub open spec fn row_package(r: RowReconciliationV1) -> Seq<char> {
    match r {
        RowReconciliationV1::PublishedExactCandidate { package, .. } => package@,
        RowReconciliationV1::PublishedAcrossCandidateHistory { package, .. } => package@,
        RowReconciliationV1::PublishedButCandidateEvidenceUnavailable { package, .. } => package@,
        RowReconciliationV1::Missing { package, .. } => package@,
        RowReconciliationV1::Yanked { package, .. } => package@,
        RowReconciliationV1::ChecksumConflict { package, .. } => package@,
        RowReconciliationV1::ProviderUnavailable { package } => package@,
        RowReconciliationV1::InstrumentFailure { package, .. } => package@,
    }
}

impl RowReconciliationV1 {
    /// The package this row reconciles.
    pub fn package(&self) -> (r: &str)
        ensures
            r@ == row_package(*self),
    {
        match self {
            Self::PublishedExactCandidate { package, .. } => package.as_str(),
            Self::PublishedAcrossCandidateHistory { package, .. } => package.as_str(),
            Self::PublishedButCandidateEvidenceUnavailable { package, .. } => package.as_str(),
            Self::Missing { package, .. } => package.as_str(),
            Self::Yanked { package, .. } => package.as_str(),
            Self::ChecksumConflict { package, .. } => package.as_str(),
            Self::ProviderUnavailable { package } => package.as_str(),
            Self::InstrumentFailure { package, .. } => package.as_str(),
        }
    }
}

/// Observed GitHub Release state for the incident tag. Deviations (for
/// example an RC published with a stable release posture) are recorded as
/// observations, never normalized away.
#[derive(Debug, Clone, PartialEq, Eq)]
pub struct GitHubReleaseObservationV1 {
    pub name: String,
    pub draft: bool,
    pub prerelease: bool,
    pub asset_count: u32,
    pub observed_note: String,
}

/// Current registry observation covering the candidate set.
#[derive(Debug, Clone, PartialEq, Eq)]
pub struct RegistryObservationV1 {
    pub observed_at: String,
    pub rows_present: u32,
    pub yanked_count: u32,
}

#[derive(Debug, Clone, PartialEq, Eq)]
pub struct RcPublicationIncidentV1 {
    pub schema: String,
    pub incident_id: String,
    pub channel_version: String,
    pub channel_tag: String,
    pub attempts: Vec<ReleaseAttemptV1>,
    pub tag_observation: TagObservationV1,
    pub row_reconciliations: Vec<RowReconciliationV1>,
    pub github_release: GitHubReleaseObservationV1,
    pub registry_observation: RegistryObservationV1,
    pub observation_completeness: ObservationCompletenessV1,
    pub observation_limits: Vec<String>,
    pub channel_posture: ChannelPostureV1,
    pub final_candidate_eligibility: FinalCandidateEligibilityV1,
    pub claim_boundary: String,
}


// ---------------------------------------------------------------------------
// The reconciliation law.
// ---------------------------------------------------------------------------

/// The first of two possible errors.
pub open spec fn or_else(a: Option<Seq<char>>, b: Option<Seq<char>>) -> Option<Seq<char>> {
    if a is Some {
        a
    } else {
        b
    }
}

pub open spec fn error_if(cond: bool, msg: Seq<char>) -> Option<Seq<char>> {
    if cond {
        Some(msg)
    } else {
        None
    }
}

/// 40 to 64 hexadecimal digits.
pub open spec fn hex_identity(v: Seq<char>) -> bool {
    40 <= v.len() <= 64 && all_hex(v)
}

pub open spec fn hex_error(v: Seq<char>, label: Seq<char>) -> Option<Seq<char>> {
    error_if(!hex_identity(v), label + " `"@ + v + "` is not a 40-64 character hex identity"@)
}

/// 64 hexadecimal digits, optionally behind `sha256:`.
pub open spec fn checksum_shape(v: Seq<char>) -> bool {
    let d = if starts_with(v, "sha256:"@) {
        v.skip(7)
    } else {
        v
    };
    d.len() == 64 && all_hex(d)
}

pub open spec fn checksum_error(v: Seq<char>, package: Seq<char>) -> Option<Seq<char>> {
    error_if(!checksum_shape(v), package + ": checksum `"@ + v + "` is not a sha256 digest"@)
}

/// The first error in the evidence one attempt must carry.
pub open spec fn attempt_error(attempts: Seq<ReleaseAttemptV1>, k: int) -> Option<Seq<char>> {
    let a = attempts[k];
    or_else(
        error_if(
            exists|j: int| 0 <= j < k && #[trigger] attempts[j].run_id == a.run_id,
            "duplicate attempt run id "@ + decimal(a.run_id as nat),
        ),
        or_else(
            hex_error(a.commit@, "attempt commit"@),
            or_else(
                hex_error(a.tree@, "attempt tree"@),
                error_if(
                    a.conclusion@.len() == 0 || a.result_class@.len() == 0,
                    "attempt "@ + decimal(a.run_id as nat)
                        + " must carry conclusion and result class"@,
                ),
            ),
        ),
    )
}

pub open spec fn attempts_error(attempts: Seq<ReleaseAttemptV1>, n: nat) -> Option<Seq<char>>
    decreases n,
{
    if n == 0 {
        None
    } else {
        or_else(attempts_error(attempts, (n - 1) as nat), attempt_error(attempts, n - 1))
    }
}

/// The first error in the evidence one row state requires.
pub open spec fn row_state_error(r: RowReconciliationV1) -> Option<Seq<char>> {
    let p = row_package(r);
    match r {
        RowReconciliationV1::PublishedExactCandidate {
            candidate_commit,
            candidate_tree,
            expected_checksum,
            observed_checksum,
            ..
        } => or_else(
            hex_error(candidate_commit@, "candidate commit"@),
            or_else(
                hex_error(candidate_tree@, "candidate tree"@),
                or_else(
                    checksum_error(expected_checksum@, p),
                    or_else(
                        checksum_error(observed_checksum@, p),
                        error_if(
                            expected_checksum@ != observed_checksum@,
                            p
                                + ": exact-candidate rows must have equal expected and observed checksums; use checksum_conflict instead"@,
                        ),
                    ),
                ),
            ),
        ),
        RowReconciliationV1::PublishedAcrossCandidateHistory {
            registry_checksum,
            retained_candidate_checksums,
            note,
            ..
        } => or_else(
            checksum_error(registry_checksum@, p),
            or_else(
                error_if(note@.len() == 0, p + ": across-candidate rows must name the provenance gap"@),
                or_else(
                    error_if(
                        retained_candidate_checksums@.len() == 0,
                        p
                            + ": across-candidate rows must list the retained candidate checksums that do not match"@,
                    ),
                    error_if(
                        exists|j: int|
                            0 <= j < retained_candidate_checksums@.len()
                                && #[trigger] retained_candidate_checksums@[j]@
                                == registry_checksum@,
                        p
                            + ": registry bytes match a retained candidate; classify as published_exact_candidate"@,
                    ),
                ),
            ),
        ),
        RowReconciliationV1::PublishedButCandidateEvidenceUnavailable {
            registry_checksum,
            note,
            ..
        } => or_else(
            checksum_error(registry_checksum@, p),
            error_if(note@.len() == 0, p + ": unavailable-evidence rows must describe the gap"@),
        ),
        RowReconciliationV1::Yanked { registry_checksum, .. } => checksum_error(
            registry_checksum@,
            p,
        ),
        RowReconciliationV1::ChecksumConflict { expected_checksum, observed_checksum, .. } => or_else(
            checksum_error(expected_checksum@, p),
            checksum_error(observed_checksum@, p),
        ),
        RowReconciliationV1::InstrumentFailure { note, .. } => error_if(
            note@.len() == 0,
            "instrument-failure rows must describe the failure"@,
        ),
        _ => None,
    }
}

pub open spec fn row_error(rows: Seq<RowReconciliationV1>, k: int) -> Option<Seq<char>> {
    or_else(
        error_if(
            exists|j: int| 0 <= j < k && row_package(#[trigger] rows[j]) == row_package(rows[k]),
            "duplicate row for package "@ + row_package(rows[k]),
        ),
        row_state_error(rows[k]),
    )
}

pub open spec fn rows_error(rows: Seq<RowReconciliationV1>, n: nat) -> Option<Seq<char>>
    decreases n,
{
    if n == 0 {
        None
    } else {
        or_else(rows_error(rows, (n - 1) as nat), row_error(rows, n - 1))
    }
}

pub open spec fn lacks_provenance(r: RowReconciliationV1) -> bool {
    r is PublishedAcrossCandidateHistory || r is PublishedButCandidateEvidenceUnavailable
}

/// The observation and ruling checks that follow the rows.
pub open spec fn observation_error(i: RcPublicationIncidentV1) -> Option<Seq<char>> {
    let complete = i.observation_completeness == ObservationCompletenessV1::CompleteObservation;
    or_else(
        hex_error(i.tag_observation.current_target_commit@, "tag target commit"@),
        or_else(
            error_if(
                i.tag_observation.events@.len() == 0 && i.tag_observation.observation_limit is None,
                "tag history needs either observed events or an explicit observation limit"@,
            ),
            or_else(
                error_if(
                    i.observation_completeness == ObservationCompletenessV1::PartialObservation
                        && i.observation_limits@.len() == 0,
                    "partial observation must carry at least one explicit observation limit"@,
                ),
                or_else(
                    error_if(
                        complete && i.observation_limits@.len() > 0,
                        "complete observation must not carry observation limits"@,
                    ),
                    or_else(
                        error_if(
                            complete && exists|k: int|
                                0 <= k < i.row_reconciliations@.len() && lacks_provenance(
                                    #[trigger] i.row_reconciliations@[k],
                                ),
                            "complete observation cannot carry rows without retained candidate provenance"@,
                        ),
                        error_if(i.claim_boundary@.len() == 0, "claim_boundary must be non-empty"@),
                    ),
                ),
            ),
        ),
    )
}

/// The first violation of the reconciliation law, in the order it is
/// checked, or `None` when the record is lawful.
pub open spec fn incident_error(i: RcPublicationIncidentV1) -> Option<Seq<char>> {
    or_else(
        error_if(
            i.schema@ != RC_PUBLICATION_INCIDENT_SCHEMA@,
            "schema must be "@ + RC_PUBLICATION_INCIDENT_SCHEMA@ + ", got "@ + i.schema@,
        ),
        or_else(
            error_if(i.incident_id@.len() == 0, "incident_id must be non-empty"@),
            or_else(
                error_if(i.attempts@.len() == 0, "at least one release attempt must be recorded"@),
                or_else(
                    attempts_error(i.attempts@, i.attempts@.len()),
                    or_else(
                        error_if(
                            i.row_reconciliations@.len() != 10,
                            "the candidate denominator is 10 rows, got "@ + decimal(
                                i.row_reconciliations@.len(),
                            ),
                        ),
                        or_else(
                            rows_error(i.row_reconciliations@, i.row_reconciliations@.len()),
                            observation_error(i),
                        ),
                    ),
                ),
            ),
        ),
    )
}

pub open spec fn outcome_view(r: Result<(), String>) -> Option<Seq<char>> {
    match r {
        Ok(_) => None,
        Err(e) => Some(e@),
    }
}

pub open spec fn opt_msg(o: Option<String>) -> Option<Seq<char>> {
    match o {
        Some(s) => Some(s@),
        None => None,
    }
}

fn text_is_empty(s: &str) -> (r: bool)
    ensures
        r == (s@.len() == 0),
{
    s.unicode_len() == 0
}

fn hex_check(value: &str, label: &str) -> (r: Option<String>)
    ensures
        opt_msg(r) == hex_error(value@, label@),
{
    let n = value.unicode_len();
    if n >= 40 && n <= 64 && all_hex_str(value) {
        None
    } else {
        let mut s = cat3(label, " `", value);
        crate::text::push_str(&mut s, "` is not a 40-64 character hex identity");
        Some(s)
    }
}

fn checksum_check(value: &str, package: &str) -> (r: Option<String>)
    ensures
        opt_msg(r) == checksum_error(value@, package@),
{
    let prefixed = starts_with_str(value, "sha256:");
    let n = value.unicode_len();
    let ok = if prefixed {
        proof {
            reveal_strlit("sha256:");
        }
        let digest = value.substring_char(7, n);
        assert(digest@ =~= value@.skip(7));
        digest.unicode_len() == 64 && all_hex_str(digest)
    } else {
        n == 64 && all_hex_str(value)
    };
    if ok {
        None
    } else {
        let mut s = cat3(package, ": checksum `", value);
        crate::text::push_str(&mut s, "` is not a sha256 digest");
        Some(s)
    }
}

proof fn lemma_attempts_error_stable(attempts: Seq<ReleaseAttemptV1>, m: nat, n: nat)
    requires
        m <= n,
        attempts_error(attempts, m) is Some,
    ensures
        attempts_error(attempts, n) == attempts_error(attempts, m),
    decreases n - m,
{
    if m < n {
        lemma_attempts_error_stable(attempts, m, (n - 1) as nat);
    }
}

proof fn lemma_rows_error_stable(rows: Seq<RowReconciliationV1>, m: nat, n: nat)
    requires
        m <= n,
        rows_error(rows, m) is Some,
    ensures
        rows_error(rows, n) == rows_error(rows, m),
    decreases n - m,
{
    if m < n {
        lemma_rows_error_stable(rows, m, (n - 1) as nat);
    }
}

#[verifier::loop_isolation(false)]
fn attempts_check(attempts: &Vec<ReleaseAttemptV1>) -> (r: Option<String>)
    ensures
        opt_msg(r) == attempts_error(attempts@, attempts@.len()),
{
    let mut k: usize = 0;
    while k < attempts.len()
        invariant
            k <= attempts.len(),
            attempts_error(attempts@, k as nat) is None,
        decreases attempts.len() - k,
    {
        let a = &attempts[k];
        let mut j: usize = 0;
        while j < k
            invariant
                j <= k < attempts.len(),
                forall|x: int| 0 <= x < j ==> #[trigger] attempts@[x].run_id != attempts@[k as int].run_id,
            decreases k - j,
        {
            if attempts[j].run_id == a.run_id {
                assert(attempts@[j as int].run_id == attempts@[k as int].run_id);
                let e = cat("duplicate attempt run id ", decimal_string(a.run_id).as_str());
                proof {
                    lemma_attempts_error_stable(attempts@, (k + 1) as nat, attempts@.len());
                }
                return Some(e);
            }
            j = j + 1;
        }
        let e = hex_check(a.commit.as_str(), "attempt commit");
        if e.is_some() {
            proof {
                lemma_attempts_error_stable(attempts@, (k + 1) as nat, attempts@.len());
            }
            return e;
        }
        let e = hex_check(a.tree.as_str(), "attempt tree");
        if e.is_some() {
            proof {
                lemma_attempts_error_stable(attempts@, (k + 1) as nat, attempts@.len());
            }
            return e;
        }
        if text_is_empty(a.conclusion.as_str()) || text_is_empty(a.result_class.as_str()) {
            let mut s = cat("attempt ", decimal_string(a.run_id).as_str());
            crate::text::push_str(&mut s, " must carry conclusion and result class");
            proof {
                lemma_attempts_error_stable(attempts@, (k + 1) as nat, attempts@.len());
            }
            return Some(s);
        }
        k = k + 1;
    }
    None
}

#[verifier::loop_isolation(false)]
fn row_state_check(row: &RowReconciliationV1) -> (r: Option<String>)
    ensures
        opt_msg(r) == row_state_error(*row),
{
    let p = row.package();
    match row {
        RowReconciliationV1::PublishedExactCandidate {
            candidate_commit,
            candidate_tree,
            expected_checksum,
            observed_checksum,
            ..
        } => {
            let e = hex_check(candidate_commit.as_str(), "candidate commit");
            if e.is_some() {
                return e;
            }
            let e = hex_check(candidate_tree.as_str(), "candidate tree");
            if e.is_some() {
                return e;
            }
            let e = checksum_check(expected_checksum.as_str(), p);
            if e.is_some() {
                return e;
            }
            let e = checksum_check(observed_checksum.as_str(), p);
            if e.is_some() {
                return e;
            }
            if !str_eq(expected_checksum.as_str(), observed_checksum.as_str()) {
                return Some(
                    cat(
                        p,
                        ": exact-candidate rows must have equal expected and observed checksums; use checksum_conflict instead",
                    ),
                );
            }
            None
        },
        RowReconciliationV1::PublishedAcrossCandidateHistory {
            registry_checksum,
            retained_candidate_checksums,
            note,
            ..
        } => {
            let e = checksum_check(registry_checksum.as_str(), p);
            if e.is_some() {
                return e;
            }
            if text_is_empty(note.as_str()) {
                return Some(cat(p, ": across-candidate rows must name the provenance gap"));
            }
            if retained_candidate_checksums.len() == 0 {
                return Some(
                    cat(
                        p,
                        ": across-candidate rows must list the retained candidate checksums that do not match",
                    ),
                );
            }
            let mut k: usize = 0;
            while k < retained_candidate_checksums.len()
                invariant
                    k <= retained_candidate_checksums.len(),
                    forall|j: int|
                        0 <= j < k ==> #[trigger] retained_candidate_checksums@[j]@
                            != registry_checksum@,
                decreases retained_candidate_checksums.len() - k,
            {
                if str_eq(retained_candidate_checksums[k].as_str(), registry_checksum.as_str()) {
                    return Some(
                        cat(
                            p,
                            ": registry bytes match a retained candidate; classify as published_exact_candidate",
                        ),
                    );
                }
                k = k + 1;
            }
            None
        },
        RowReconciliationV1::PublishedButCandidateEvidenceUnavailable {
            registry_checksum,
            note,
            ..
        } => {
            let e = checksum_check(registry_checksum.as_str(), p);
            if e.is_some() {
                return e;
            }
            if text_is_empty(note.as_str()) {
                return Some(cat(p, ": unavailable-evidence rows must describe the gap"));
            }
            None
        },
        RowReconciliationV1::Yanked { registry_checksum, .. } => {
            checksum_check(registry_checksum.as_str(), p)
        },
        RowReconciliationV1::ChecksumConflict { expected_checksum, observed_checksum, .. } => {
            let e = checksum_check(expected_checksum.as_str(), p);
            if e.is_some() {
                return e;
            }
            checksum_check(observed_checksum.as_str(), p)
        },
        RowReconciliationV1::InstrumentFailure { note, .. } => {
            if text_is_empty(note.as_str()) {
                return Some("instrument-failure rows must describe the failure".to_string());
            }
            None
        },
        _ => None,
    }
}

#[verifier::loop_isolation(false)]
fn rows_check(rows: &Vec<RowReconciliationV1>) -> (r: Option<String>)
    ensures
        opt_msg(r) == rows_error(rows@, rows@.len()),
{
    let mut k: usize = 0;
    while k < rows.len()
        invariant
            k <= rows.len(),
            rows_error(rows@, k as nat) is None,
        decreases rows.len() - k,
    {
        let p = rows[k].package();
        let mut j: usize = 0;
        while j < k
            invariant
                j <= k < rows.len(),
                p@ == row_package(rows@[k as int]),
                forall|x: int| 0 <= x < j ==> row_package(#[trigger] rows@[x]) != row_package(rows@[k as int]),
            decreases k - j,
        {
            if str_eq(rows[j].package(), p) {
                assert(row_package(rows@[j as int]) == row_package(rows@[k as int]));
                let e = cat("duplicate row for package ", p);
                proof {
                    lemma_rows_error_stable(rows@, (k + 1) as nat, rows@.len());
                }
                return Some(e);
            }
            j = j + 1;
        }
        let e = row_state_check(&rows[k]);
        if e.is_some() {
            proof {
                lemma_rows_error_stable(rows@, (k + 1) as nat, rows@.len());
            }
            return e;
        }
        k = k + 1;
    }
    None
}

#[verifier::loop_isolation(false)]
fn observation_check(i: &RcPublicationIncidentV1) -> (r: Option<String>)
    ensures
        opt_msg(r) == observation_error(*i),
{
    let e = hex_check(i.tag_observation.current_target_commit.as_str(), "tag target commit");
    if e.is_some() {
        return e;
    }
    if i.tag_observation.events.len() == 0 && i.tag_observation.observation_limit.is_none() {
        return Some(
            "tag history needs either observed events or an explicit observation limit".to_string(),
        );
    }
    if i.observation_completeness == ObservationCompletenessV1::PartialObservation
        && i.observation_limits.len() == 0 {
        return Some(
            "partial observation must carry at least one explicit observation limit".to_string(),
        );
    }
    let complete = i.observation_completeness == ObservationCompletenessV1::CompleteObservation;
    if complete && i.observation_limits.len() > 0 {
        return Some("complete observation must not carry observation limits".to_string());
    }
    if complete {
        let mut k: usize = 0;
        while k < i.row_reconciliations.len()
            invariant
                k <= i.row_reconciliations.len(),
                forall|j: int| 0 <= j < k ==> !lacks_provenance(#[trigger] i.row_reconciliations@[j]),
            decreases i.row_reconciliations.len() - k,
        {
            let gap = match &i.row_reconciliations[k] {
                RowReconciliationV1::PublishedAcrossCandidateHistory { .. } => true,
                RowReconciliationV1::PublishedButCandidateEvidenceUnavailable { .. } => true,
                _ => false,
            };
            if gap {
                return Some(
                    "complete observation cannot carry rows without retained candidate provenance".to_string(),
                );
            }
            k = k + 1;
        }
    }
    if text_is_empty(i.claim_boundary.as_str()) {
        return Some("claim_boundary must be non-empty".to_string());
    }
    None
}

impl RcPublicationIncidentV1 {
    /// Fail-honest validation of the reconciliation law: the first violation
    /// is reported, in the order the law lists them.
    pub fn validate(&self) -> (r: Result<(), String>)
        ensures
            outcome_view(r) == incident_error(*self),
    {
        if !str_eq(self.schema.as_str(), RC_PUBLICATION_INCIDENT_SCHEMA) {
            let mut s = cat("schema must be ", RC_PUBLICATION_INCIDENT_SCHEMA);
            crate::text::push_str(&mut s, ", got ");
            crate::text::push_str(&mut s, self.schema.as_str());
            return Err(s);
        }
        if text_is_empty(self.incident_id.as_str()) {
            return Err("incident_id must be non-empty".to_string());
        }
        if self.attempts.len() == 0 {
            return Err("at least one release attempt must be recorded".to_string());
        }
        match attempts_check(&self.attempts) {
            Some(e) => {
                return Err(e);
            },
            None => {},
        }
        if self.row_reconciliations.len() != 10 {
            return Err(
                cat(
                    "the candidate denominator is 10 rows, got ",
                    decimal_string(self.row_reconciliations.len() as u64).as_str(),
                ),
            );
        }
        match rows_check(&self.row_reconciliations) {
            Some(e) => {
                return Err(e);
            },
            None => {},
        }
        match observation_check(self) {
            Some(e) => Err(e),
            None => Ok(()),
        }
    }
}

proof fn lemma_attempts_lawful(attempts: Seq<ReleaseAttemptV1>, n: nat)
    requires
        attempts_error(attempts, n) is None,
    ensures
        forall|k: int| 0 <= k < n ==> (#[trigger] attempt_error(attempts, k)) is None,
    decreases n,
{
    if n > 0 {
        lemma_attempts_lawful(attempts, (n - 1) as nat);
    }
}

proof fn lemma_rows_lawful(rows: Seq<RowReconciliationV1>, n: nat)
    requires
        rows_error(rows, n) is None,
    ensures
        forall|k: int| 0 <= k < n ==> (#[trigger] row_error(rows, k)) is None,
    decreases n,
{
    if n > 0 {
        lemma_rows_lawful(rows, (n - 1) as nat);
    }
}

/// The reconciliation law of a valid record: attempts are all kept, one per
/// run id, and the candidate denominator has ten rows, one per package;
/// an exact-candidate row has equal expected and observed checksums, an
/// across-candidate row's registry bytes match none of the retained
/// candidates (so rows from different source candidates stay visibly
/// different), and a complete observation carries no row without retained
/// candidate provenance.
pub proof fn lemma_valid_incident_keeps_candidates_distinct(i: RcPublicationIncidentV1)
    requires
        incident_error(i) is None,
    ensures
        i.attempts@.len() > 0,
        forall|a: int, b: int|
            0 <= a < b < i.attempts@.len() ==> #[trigger] i.attempts@[a].run_id != #[trigger] i.attempts@[b].run_id,
        i.row_reconciliations@.len() == 10,
        forall|a: int, b: int|
            0 <= a < b < i.row_reconciliations@.len() ==> row_package(#[trigger] i.row_reconciliations@[a])
                != row_package(#[trigger] i.row_reconciliations@[b]),
        forall|k: int|
            0 <= k < i.row_reconciliations@.len() ==> (#[trigger] i.row_reconciliations@[k] matches RowReconciliationV1::PublishedExactCandidate {
                expected_checksum,
                observed_checksum,
                ..
            } ==> expected_checksum@ == observed_checksum@),
        forall|k: int|
            0 <= k < i.row_reconciliations@.len() ==> (#[trigger] i.row_reconciliations@[k] matches RowReconciliationV1::PublishedAcrossCandidateHistory {
                registry_checksum,
                retained_candidate_checksums,
                ..
            } ==> retained_candidate_checksums@.len() > 0 && forall|j: int|
                0 <= j < retained_candidate_checksums@.len() ==> (#[trigger] retained_candidate_checksums@[j])@
                    != registry_checksum@),
        i.observation_completeness == ObservationCompletenessV1::CompleteObservation ==> forall|k: int|
            0 <= k < i.row_reconciliations@.len() ==> !lacks_provenance(#[trigger] i.row_reconciliations@[k]),
{
    let att = i.attempts@;
    let rows = i.row_reconciliations@;
    lemma_attempts_lawful(att, att.len());
    lemma_rows_lawful(rows, rows.len());
    assert forall|a: int, b: int| 0 <= a < b < att.len() implies #[trigger] att[a].run_id != #[trigger] att[b].run_id by {
        assert(attempt_error(att, b) is None);
    }
    assert forall|a: int, b: int|
        0 <= a < b < rows.len() implies row_package(#[trigger] rows[a]) != row_package(#[trigger] rows[b]) by {
        assert(row_error(rows, b) is None);
    }
    assert forall|k: int| 0 <= k < rows.len() implies row_state_error(#[trigger] rows[k]) is None by {
        assert(row_error(rows, k) is None);
    }
}

} // verus!
