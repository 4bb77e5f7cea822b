//! Pure final-registry feasibility contract: retained expectations, provider
//! observations with independent provenance, and a fail-closed feasibility
//! receipt that never authorizes publication.
//!
//! Provider evidence is an explicit input. Nothing here contacts a registry,
//! inspects credentials, authorizes publication, or proves that supplied
//! observations were actually collected. Fixture provenance stays visible.

use vstd::prelude::*;
use crate::digest::{digest_text, text_digest};
use crate::json::{json_arr, json_obj, json_str, kv, JsonList};
use crate::package_candidate::{
    candidate_class, candidate_gaps, json_candidate_rows, json_payload, render_candidate_rows,
    render_payload_json, validate_package_candidate_v2, PackageCandidateDependencyKindV2,
    PackageCandidateDependencyRowV2, PackageCandidateFamilyV2, PackageCandidatePayloadV2,
    PackageCandidateResultV2, PackageCandidateRowV2,
};
use crate::text::{
    is_lower_sha256_digest,
    lemma_concat_assoc, blank, cat, cat3, is_blank, is_sha256_digest, is_sha256_digest_str,
    starts_with, starts_with_str, str_eq, views,
};

verus! {

pub const FINAL_REGISTRY_PREFLIGHT_SCHEMA_ID: &'static str = "cargo-allow.final-registry-preflight.v1";

pub const FINAL_REGISTRY_PREFLIGHT_SCHEMA_VERSION: u32 = 1;

/// Retained registry namespace authority, independent of locally packaged bytes.
#[derive(Debug, Clone, PartialEq, Eq)]
pub struct FinalRegistrySharedAuthorityV1 {
    pub package_name: String,
    pub package_version: String,
    pub expected_checksum: String,
    pub authority_digest: String,
}

#[derive(Debug, Clone, PartialEq, Eq)]
pub struct FinalRegistryPreflightInputV1 {
    pub schema_id: String,
    pub schema_version: u32,
    pub candidate: PackageCandidatePayloadV2,
    pub shared_authorities: Vec<FinalRegistrySharedAuthorityV1>,
    pub observed_context: FinalRegistryContextV1,
    pub current_context: FinalRegistryContextV1,
    pub evaluated_at_unix_seconds: u64,
    pub maximum_age_seconds: u64,
    /// Full selected release order, including interleaved shared prerequisites.
    pub observations: Vec<FinalRegistryObservationV1>,
}

/// Every context component invalidates observations independently when moved.
#[derive(Debug, Clone, PartialEq, Eq)]
pub struct FinalRegistryContextV1 {
    pub candidate_digest: String,
    pub denominator_digest: String,
    pub workflow_digest: String,
    pub principal: String,
    pub environment: String,
    pub owner_team_digest: String,
    pub release_controls_digest: String,
    pub provider_state_digest: String,
}

#[derive(Debug, Clone, Copy, PartialEq, Eq, Structural)]
pub enum FinalRegistryRowRoleV1 {
    FinalUploadCandidate,
    SharedPrerequisite,
}

/// Expected checksums are retained independently of provider responses.
#[derive(Debug, Clone, PartialEq, Eq)]
pub struct FinalRegistryExpectedRowV1 {
    pub logical_id: String,
    pub package_name: String,
    pub package_version: String,
    pub release_order: u32,
    pub role: FinalRegistryRowRoleV1,
    pub expected_checksum: String,
    pub checksum_authority_digest: String,
    /// Shared-row repackaging is diagnostic, never an expected-byte authority.
    pub diagnostic_local_checksum: Option<String>,
}

#[derive(Debug, Clone, Copy, PartialEq, Eq, Structural)]
pub enum FinalRegistryObservationOriginV1 {
    TestFixture,
    ExternalProvider,
}

/// An evidence reference is provenance, not cryptographic authentication of a
/// remote service. The collecting adapter owns retaining the referenced bytes.
#[derive(Debug, Clone, PartialEq, Eq)]
pub struct FinalRegistryProvenanceV1 {
    pub origin: FinalRegistryObservationOriginV1,
    pub provider: String,
    pub source: String,
    pub evidence_digest: String,
    pub observed_at_unix_seconds: u64,
}

#[derive(Debug, Clone, PartialEq, Eq)]
pub enum FinalRegistryVersionResponseV1 {
    Found { checksum: String, yanked: bool },
    Missing {},
    NameUnavailable {},
    VisibilityPending {},
    Timeout {},
    RateLimited {},
    ProviderUnavailable {},
    MalformedResponse {},
}

#[derive(Debug, Clone, Copy, PartialEq, Eq, Structural)]
pub enum FinalRegistryOwnerStateV1 {
    OwnedByExpectedPrincipal,
    UnexpectedOwner,
    PermissionNotProven,
    ProviderUnavailable,
}

#[derive(Debug, Clone, Copy, PartialEq, Eq, Structural)]
pub enum FinalRegistryPublishAuthorityV1 {
    Proven,
    SupportingEvidenceOnly,
    NotProven,
    Conflict,
    ProviderUnavailable,
    InstrumentFailure,
}

/// Version, ownership, and authority retain separate provenance and outcomes.
/// A successful version query must not conceal a failed owner endpoint.
#[derive(Debug, Clone, PartialEq, Eq)]
pub struct FinalRegistryObservationV1 {
    pub package_name: String,
    pub package_version: String,
    pub version: FinalRegistryVersionResponseV1,
    pub version_provenance: Option<FinalRegistryProvenanceV1>,
    pub owner: FinalRegistryOwnerStateV1,
    pub owner_provenance: Option<FinalRegistryProvenanceV1>,
    pub publish_authority: FinalRegistryPublishAuthorityV1,
    pub authority_provenance: Option<FinalRegistryProvenanceV1>,
}

/// The external adapter and fixtures return exactly this observation shape.
/// Calls are explicit; implementing this trait does not grant authority.
pub trait FinalRegistryProviderV1 {
    fn observe(&self, row: &FinalRegistryExpectedRowV1) -> FinalRegistryObservationV1;
}

#[derive(Debug, Clone, Copy, PartialEq, Eq, Structural)]
pub enum FinalRegistryVersionStateV1 {
    Missing,
    AlreadyPublishedExact,
    AlreadyPublishedConflict,
    Yanked,
    NameUnavailable,
    Unknown,
}

/// Ordered by fail-closed aggregate precedence, with all findings retained.
#[derive(Debug, Clone, Copy, PartialEq, Eq, Structural)]
pub enum FinalRegistryPreflightResultV1 {
    UnsupportedGeneration,
    Malformed,
    InstrumentFailure,
    Conflict,
    Stale,
    ProviderUnavailable,
    Incomplete,
    CompleteWithResidualAuthorityRisk,
    Complete,
}

impl FinalRegistryPreflightResultV1 {
    /// Position in the fail-closed precedence; smaller wins.
    pub open spec fn rank(self) -> nat {
        match self {
            Self::UnsupportedGeneration => 0,
            Self::Malformed => 1,
            Self::InstrumentFailure => 2,
            Self::Conflict => 3,
            Self::Stale => 4,
            Self::ProviderUnavailable => 5,
            Self::Incomplete => 6,
            Self::CompleteWithResidualAuthorityRisk => 7,
            Self::Complete => 8,
        }
    }

    /// The snake_case wire label.
    pub open spec fn wire(self) -> Seq<char> {
        match self {
            Self::UnsupportedGeneration => "unsupported_generation"@,
            Self::Malformed => "malformed"@,
            Self::InstrumentFailure => "instrument_failure"@,
            Self::Conflict => "conflict"@,
            Self::Stale => "stale"@,
            Self::ProviderUnavailable => "provider_unavailable"@,
            Self::Incomplete => "incomplete"@,
            Self::CompleteWithResidualAuthorityRisk => "complete_with_residual_authority_risk"@,
            Self::Complete => "complete"@,
        }
    }

    pub fn wire_label(self) -> (r: &'static str)
        ensures
            r@ == self.wire(),
    {
        match self {
            Self::UnsupportedGeneration => "unsupported_generation",
            Self::Malformed => "malformed",
            Self::InstrumentFailure => "instrument_failure",
            Self::Conflict => "conflict",
            Self::Stale => "stale",
            Self::ProviderUnavailable => "provider_unavailable",
            Self::Incomplete => "incomplete",
            Self::CompleteWithResidualAuthorityRisk => "complete_with_residual_authority_risk",
            Self::Complete => "complete",
        }
    }
}


#[derive(Debug, Clone, Copy, PartialEq, Eq, Structural)]
pub enum FinalRegistryNextActionV1 {
    RepairInput,
    ResolveConflict,
    RefreshObservation,
    RestoreProvider,
    AwaitVisibility,
    ObtainPrerequisite,
    ObtainAuthorityEvidence,
    AwaitSeparateAuthorization,
    RetainExactPrerequisite,
}

#[derive(Debug, Clone, PartialEq, Eq)]
pub struct FinalRegistryPreflightFindingV1 {
    pub result: FinalRegistryPreflightResultV1,
    pub reason: String,
}

#[derive(Debug, Clone, PartialEq, Eq)]
pub struct FinalRegistryPreflightRowV1 {
    pub expected: FinalRegistryExpectedRowV1,
    pub observation: Option<FinalRegistryObservationV1>,
    pub version_state: FinalRegistryVersionStateV1,
    pub findings: Vec<FinalRegistryPreflightFindingV1>,
    pub next_action: FinalRegistryNextActionV1,
}

/// Feasibility receipt; even `Complete` is not release authorization.
#[derive(Debug, Clone, PartialEq, Eq)]
pub struct CargoAllowFinalRegistryPreflightV1 {
    pub schema_id: String,
    pub schema_version: u32,
    pub observed_context: FinalRegistryContextV1,
    pub current_context: FinalRegistryContextV1,
    pub evaluated_at_unix_seconds: u64,
    pub maximum_age_seconds: u64,
    pub result: FinalRegistryPreflightResultV1,
    pub findings: Vec<FinalRegistryPreflightFindingV1>,
    pub upload_rows: Vec<FinalRegistryPreflightRowV1>,
    pub shared_prerequisites: Vec<FinalRegistryPreflightRowV1>,
    /// Unpaired observations in input order; never selected package authority.
    pub surplus_observations: Vec<FinalRegistryObservationV1>,
}

// ---------------------------------------------------------------------------
// Findings.
// ---------------------------------------------------------------------------

pub type PreflightFindingView = (FinalRegistryPreflightResultV1, Seq<char>);

pub open spec fn finding_view(f: FinalRegistryPreflightFindingV1) -> PreflightFindingView {
    (f.result, f.reason@)
}

pub open spec fn findings_view(v: Seq<FinalRegistryPreflightFindingV1>) -> Seq<PreflightFindingView> {
    v.map_values(|f: FinalRegistryPreflightFindingV1| finding_view(f))
}

/// One finding when `cond` holds, none otherwise.
#[verifier::opaque]
pub open spec fn flag(cond: bool, result: FinalRegistryPreflightResultV1, reason: Seq<char>) -> Seq<
    PreflightFindingView,
> {
    if cond {
        Seq::empty().push((result, reason))
    } else {
        Seq::empty()
    }
}

/// The fail-closed aggregate: the finding result of smallest rank, or
/// `Complete` when there is none.
pub open spec fn aggregate(s: Seq<PreflightFindingView>) -> FinalRegistryPreflightResultV1
    decreases s.len(),
{
    if s.len() == 0 {
        FinalRegistryPreflightResultV1::Complete
    } else {
        let rest = aggregate(s.drop_last());
        if s.last().0.rank() < rest.rank() {
            s.last().0
        } else {
            rest
        }
    }
}

/// `sha256:` followed by exactly 64 hexadecimal digits.
pub open spec fn digest_ok(s: Seq<char>) -> bool {
    is_sha256_digest(s)
}

// ---------------------------------------------------------------------------
// Bindings.
// ---------------------------------------------------------------------------

pub open spec fn json_shared_authority(a: FinalRegistrySharedAuthorityV1) -> Seq<char> {
    json_obj(
        Seq::empty()
            .push(kv("package_name"@, json_str(a.package_name@)))
            .push(kv("package_version"@, json_str(a.package_version@)))
            .push(kv("expected_checksum"@, json_str(a.expected_checksum@)))
            .push(kv("authority_digest"@, json_str(a.authority_digest@))),
    )
}

pub open spec fn json_shared_authorities(v: Seq<FinalRegistrySharedAuthorityV1>) -> Seq<char> {
    json_arr(v.map_values(|a: FinalRegistrySharedAuthorityV1| json_shared_authority(a)))
}

/// The compact JSON of the pair (candidate rows, shared authorities).
pub open spec fn json_denominator(
    rows: Seq<PackageCandidateRowV2>,
    shared: Seq<FinalRegistrySharedAuthorityV1>,
) -> Seq<char> {
    json_arr(Seq::empty().push(json_candidate_rows(rows)).push(json_shared_authorities(shared)))
}

/// Content binding of the whole candidate payload.
pub open spec fn candidate_binding(c: PackageCandidatePayloadV2) -> Seq<char> {
    text_digest(json_payload(c))
}

/// Content binding of the selected rows together with the shared authorities.
pub open spec fn denominator_binding(
    c: PackageCandidatePayloadV2,
    shared: Seq<FinalRegistrySharedAuthorityV1>,
) -> Seq<char> {
    text_digest(json_denominator(c.rows@, shared))
}

/// The denominator binding reads only the candidate's rows and the shared
/// authorities: editing any other candidate field leaves it unchanged.
pub proof fn lemma_denominator_binding_reads_only_rows(
    c: PackageCandidatePayloadV2,
    c2: PackageCandidatePayloadV2,
    shared: Seq<FinalRegistrySharedAuthorityV1>,
)
    requires
        c2.rows@ == c.rows@,
    ensures
        denominator_binding(c2, shared) == denominator_binding(c, shared),
{
}

// ---------------------------------------------------------------------------
// Input-wide findings.
// ---------------------------------------------------------------------------

pub open spec fn seg_generation(i: FinalRegistryPreflightInputV1) -> Seq<PreflightFindingView> {
    flag(
        i.schema_id@ != FINAL_REGISTRY_PREFLIGHT_SCHEMA_ID@ || i.schema_version
            != FINAL_REGISTRY_PREFLIGHT_SCHEMA_VERSION,
        FinalRegistryPreflightResultV1::UnsupportedGeneration,
        "non-current preflight generation"@,
    )
}

/// The result under which candidate gaps are reported.
pub open spec fn candidate_gap_state(c: PackageCandidatePayloadV2) -> FinalRegistryPreflightResultV1 {
    if candidate_class(c, candidate_gaps(c)) == PackageCandidateResultV2::UnsupportedGeneration {
        FinalRegistryPreflightResultV1::UnsupportedGeneration
    } else {
        FinalRegistryPreflightResultV1::Malformed
    }
}

pub open spec fn seg_candidate(c: PackageCandidatePayloadV2) -> Seq<PreflightFindingView> {
    let state = candidate_gap_state(c);
    candidate_gaps(c).map_values(|g: Seq<char>| (state, "candidate: "@ + g))
}

pub open spec fn seg_topology(c: PackageCandidatePayloadV2) -> Seq<PreflightFindingView> {
    flag(
        c.topology_id@ != "CARGO-ALLOW-PKG-TOPOLOGY-V2-0001"@ || c.candidate_product_id@
            != "cargo-allow-0.2"@ || c.root_logical_id@ != "cargo-allow"@ || c.root_package_name@
            != "cargo-allow"@ || c.root_package_version@ != "0.2.0"@,
        FinalRegistryPreflightResultV1::Malformed,
        "candidate topology/product/root is not the selected final cargo-allow 0.2.0 generation"@,
    )
}

pub open spec fn seg_counts(i: FinalRegistryPreflightInputV1) -> Seq<PreflightFindingView> {
    flag(
        i.candidate.rows@.len() != 13 || i.observations@.len() != 13
            || i.shared_authorities@.len() != 3,
        FinalRegistryPreflightResultV1::Malformed,
        "expected exactly 13 candidate/observation rows and 3 shared authorities"@,
    )
}

/// Name of context component `k`, in declaration order.
pub open spec fn context_name(k: int) -> Seq<char> {
    if k == 0 {
        "candidate_digest"@
    } else if k == 1 {
        "denominator_digest"@
    } else if k == 2 {
        "workflow_digest"@
    } else if k == 3 {
        "principal"@
    } else if k == 4 {
        "environment"@
    } else if k == 5 {
        "owner_team_digest"@
    } else if k == 6 {
        "release_controls_digest"@
    } else {
        "provider_state_digest"@
    }
}

/// Value of context component `k`.
pub open spec fn context_value(c: FinalRegistryContextV1, k: int) -> Seq<char> {
    if k == 0 {
        c.candidate_digest@
    } else if k == 1 {
        c.denominator_digest@
    } else if k == 2 {
        c.workflow_digest@
    } else if k == 3 {
        c.principal@
    } else if k == 4 {
        c.environment@
    } else if k == 5 {
        c.owner_team_digest@
    } else if k == 6 {
        c.release_controls_digest@
    } else {
        c.provider_state_digest@
    }
}

/// Components whose name ends in `digest` must carry a digest.
pub open spec fn context_is_digest(k: int) -> bool {
    k != 3 && k != 4
}

pub open spec fn seg_context_field(
    observed: FinalRegistryContextV1,
    current: FinalRegistryContextV1,
    k: int,
) -> Seq<PreflightFindingView> {
    let o = context_value(observed, k);
    let c = context_value(current, k);
    flag(
        blank(o) || blank(c) || (context_is_digest(k) && (!digest_ok(o) || !digest_ok(c))),
        FinalRegistryPreflightResultV1::Malformed,
        "invalid context "@ + context_name(k),
    ) + flag(
        o != c,
        FinalRegistryPreflightResultV1::Stale,
        "context moved: "@ + context_name(k),
    )
}

pub open spec fn seg_context_upto(
    observed: FinalRegistryContextV1,
    current: FinalRegistryContextV1,
    n: nat,
) -> Seq<PreflightFindingView>
    decreases n,
{
    if n == 0 {
        Seq::empty()
    } else {
        seg_context_upto(observed, current, (n - 1) as nat) + seg_context_field(
            observed,
            current,
            n - 1,
        )
    }
}

pub open spec fn seg_bindings(i: FinalRegistryPreflightInputV1) -> Seq<PreflightFindingView> {
    flag(
        candidate_binding(i.candidate) != i.current_context.candidate_digest@,
        FinalRegistryPreflightResultV1::Stale,
        "candidate content does not match current binding"@,
    ) + flag(
        denominator_binding(i.candidate, i.shared_authorities@)
            != i.current_context.denominator_digest@,
        FinalRegistryPreflightResultV1::Stale,
        "selected denominator/authorities do not match current binding"@,
    )
}

/// The selected version of the first candidate row named `name`, if any.
pub open spec fn selected_version(rows: Seq<PackageCandidateRowV2>, name: Seq<char>) -> Option<
    Seq<char>,
>
    decreases rows.len(),
{
    if rows.len() == 0 {
        None
    } else if rows[0].cargo_package_name@ == name {
        Some(rows[0].cargo_package_version@)
    } else {
        selected_version(rows.drop_first(), name)
    }
}

/// An internal dependency must name the exact version its candidate row
/// selects (absent rows are the candidate validation's finding).
pub open spec fn dependency_version_finding(
    rows: Seq<PackageCandidateRowV2>,
    owner: Seq<char>,
    d: PackageCandidateDependencyRowV2,
) -> Seq<PreflightFindingView> {
    flag(
        d.dependency_kind == PackageCandidateDependencyKindV2::Internal && selected_version(
            rows,
            d.package_name@,
        ) is Some && selected_version(rows, d.package_name@)->0 != d.package_version@,
        FinalRegistryPreflightResultV1::Malformed,
        "internal dependency "@ + d.package_name@ + " of "@ + owner
            + " does not name the selected exact version"@,
    )
}

pub open spec fn row_dependency_findings(
    rows: Seq<PackageCandidateRowV2>,
    owner: Seq<char>,
    deps: Seq<PackageCandidateDependencyRowV2>,
) -> Seq<PreflightFindingView>
    decreases deps.len(),
{
    if deps.len() == 0 {
        Seq::empty()
    } else {
        row_dependency_findings(rows, owner, deps.drop_last()) + dependency_version_finding(
            rows,
            owner,
            deps.last(),
        )
    }
}

pub open spec fn seg_dependency_versions(rows: Seq<PackageCandidateRowV2>, n: nat) -> Seq<
    PreflightFindingView,
>
    decreases n,
{
    if n == 0 {
        Seq::empty()
    } else {
        seg_dependency_versions(rows, (n - 1) as nat) + row_dependency_findings(
            rows,
            rows[n - 1].cargo_package_name@,
            rows[n - 1].expected_dependency_rows@,
        )
    }
}

/// The findings that apply to every row.
pub open spec fn global_findings(i: FinalRegistryPreflightInputV1) -> Seq<PreflightFindingView> {
    seg_generation(i) + seg_candidate(i.candidate) + seg_dependency_versions(
        i.candidate.rows@,
        i.candidate.rows@.len(),
    ) + seg_topology(i.candidate) + seg_counts(i)
        + seg_context_upto(i.observed_context, i.current_context, 8) + seg_bindings(i) + flag(
        i.maximum_age_seconds == 0,
        FinalRegistryPreflightResultV1::Malformed,
        "freshness window must be positive"@,
    )
}

// ---------------------------------------------------------------------------
// Selection and expected rows.
// ---------------------------------------------------------------------------

/// Entry `k` of the final selection: logical id, package name, release order.
pub open spec fn selection(k: int) -> (Seq<char>, Seq<char>, u32) {
    if k == 0 {
        ("allow-core"@, "allow-core"@, 10)
    } else if k == 1 {
        ("allow-policy"@, "allow-policy"@, 20)
    } else if k == 2 {
        ("allow-inventory"@, "allow-inventory"@, 30)
    } else if k == 3 {
        ("allow-files"@, "allow-files"@, 40)
    } else if k == 4 {
        ("allow-rust"@, "allow-rust"@, 50)
    } else if k == 5 {
        ("allow-match"@, "allow-match"@, 60)
    } else if k == 6 {
        ("allow-report"@, "allow-report"@, 70)
    } else if k == 7 {
        ("allow-policy-legacy"@, "allow-policy-legacy"@, 75)
    } else if k == 8 {
        ("repo-protocol"@, "effortless-repo-protocol"@, 80)
    } else if k == 9 {
        ("repo-snapshot"@, "effortless-repo-snapshot"@, 85)
    } else if k == 10 {
        ("repo-edit"@, "effortless-repo-edit"@, 90)
    } else if k == 11 {
        ("allow-diff"@, "allow-diff"@, 95)
    } else {
        ("cargo-allow"@, "cargo-allow"@, 100)
    }
}

pub open spec fn is_shared_row(r: PackageCandidateRowV2) -> bool {
    r.product_family == PackageCandidateFamilyV2::Shared01
}

/// Whether candidate row `k` differs from the selected final generation.
pub open spec fn row_off_selection(r: PackageCandidateRowV2, k: int) -> bool {
    let shared = is_shared_row(r);
    ||| k >= 13
    ||| r.logical_id@ != selection(k).0
    ||| r.cargo_package_name@ != selection(k).1
    ||| r.release_order != selection(k).2
    ||| r.cargo_package_version@ != (if shared {
        "0.1.0"@
    } else {
        "0.2.0"@
    })
    ||| shared != starts_with(r.cargo_package_name@, "effortless-repo-"@)
    ||| !r.publish
}

/// Number of shared rows among the first `n` candidate rows.
pub open spec fn shared_before(rows: Seq<PackageCandidateRowV2>, n: int) -> nat
    decreases n,
{
    if n <= 0 {
        0
    } else {
        shared_before(rows, n - 1) + if is_shared_row(rows[n - 1]) {
            1nat
        } else {
            0nat
        }
    }
}

/// Whether shared row `k` finds its retained authority in the matching slot.
pub open spec fn authority_matches(i: FinalRegistryPreflightInputV1, k: int) -> bool {
    let r = i.candidate.rows@[k];
    let slot = shared_before(i.candidate.rows@, k) as int;
    &&& slot < i.shared_authorities@.len()
    &&& i.shared_authorities@[slot].package_name@ == r.cargo_package_name@
    &&& i.shared_authorities@[slot].package_version@ == r.cargo_package_version@
}

pub open spec fn opt_view(o: Option<String>) -> Option<Seq<char>> {
    match o {
        Some(s) => Some(s@),
        None => None,
    }
}

/// (logical id, package, version, order, role, checksum, authority, local checksum)
pub type ExpectedView = (
    Seq<char>,
    Seq<char>,
    Seq<char>,
    u32,
    FinalRegistryRowRoleV1,
    Seq<char>,
    Seq<char>,
    Option<Seq<char>>,
);

pub open spec fn expected_view(e: FinalRegistryExpectedRowV1) -> ExpectedView {
    (
        e.logical_id@,
        e.package_name@,
        e.package_version@,
        e.release_order,
        e.role,
        e.expected_checksum@,
        e.checksum_authority_digest@,
        opt_view(e.diagnostic_local_checksum),
    )
}

/// The expected row retained for candidate row `k`: final rows take their
/// checksum from the candidate and its authority from the current candidate
/// binding; shared rows take both from the retained shared authority, and
/// keep the local checksum as a diagnostic only.
pub open spec fn expected_spec(i: FinalRegistryPreflightInputV1, k: int) -> ExpectedView {
    let r = i.candidate.rows@[k];
    let shared = is_shared_row(r);
    let slot = shared_before(i.candidate.rows@, k) as int;
    let checksum = if shared {
        if authority_matches(i, k) {
            i.shared_authorities@[slot].expected_checksum@
        } else {
            Seq::empty()
        }
    } else {
        match r.crate_digest {
            Some(d) => d@,
            None => Seq::empty(),
        }
    };
    let authority = if shared {
        if authority_matches(i, k) {
            i.shared_authorities@[slot].authority_digest@
        } else {
            Seq::empty()
        }
    } else {
        i.current_context.candidate_digest@
    };
    (
        r.logical_id@,
        r.cargo_package_name@,
        r.cargo_package_version@,
        r.release_order,
        if shared {
            FinalRegistryRowRoleV1::SharedPrerequisite
        } else {
            FinalRegistryRowRoleV1::FinalUploadCandidate
        },
        checksum,
        authority,
        if shared {
            opt_view(r.crate_digest)
        } else {
            None
        },
    )
}

/// Findings about the expectation itself (before any observation).
pub open spec fn expected_findings(i: FinalRegistryPreflightInputV1, k: int) -> Seq<
    PreflightFindingView,
> {
    let r = i.candidate.rows@[k];
    let e = expected_spec(i, k);
    flag(
        row_off_selection(r, k),
        FinalRegistryPreflightResultV1::Malformed,
        "row differs from final generation selection/order"@,
    ) + flag(
        is_shared_row(r) && !authority_matches(i, k),
        FinalRegistryPreflightResultV1::Malformed,
        "missing/reordered shared checksum authority"@,
    ) + flag(
        !digest_ok(e.5) || !digest_ok(e.6),
        FinalRegistryPreflightResultV1::Malformed,
        "expected checksum or its authority is malformed/missing"@,
    )
}

// ---------------------------------------------------------------------------
// Reconciling one observation.
// ---------------------------------------------------------------------------

/// The observation was made within the freshness window, not in the future.
pub open spec fn fresh(p: FinalRegistryProvenanceV1, i: FinalRegistryPreflightInputV1) -> bool {
    &&& p.observed_at_unix_seconds <= i.evaluated_at_unix_seconds
    &&& i.maximum_age_seconds > 0
    &&& i.evaluated_at_unix_seconds - p.observed_at_unix_seconds <= i.maximum_age_seconds
}

pub open spec fn provenance_shape(p: FinalRegistryProvenanceV1) -> bool {
    !blank(p.provider@) && !blank(p.source@) && digest_ok(p.evidence_digest@)
}

pub open spec fn provenance_findings(
    p: Option<FinalRegistryProvenanceV1>,
    dimension: Seq<char>,
    i: FinalRegistryPreflightInputV1,
) -> Seq<PreflightFindingView> {
    match p {
        None => flag(
            true,
            FinalRegistryPreflightResultV1::Malformed,
            "missing "@ + dimension + " provenance"@,
        ),
        Some(p) => flag(
            !provenance_shape(p),
            FinalRegistryPreflightResultV1::Malformed,
            "malformed "@ + dimension + " provenance"@,
        ) + flag(
            !fresh(p, i),
            FinalRegistryPreflightResultV1::Stale,
            dimension + " observation is future-dated or expired"@,
        ),
    }
}

/// Provenance is present, well formed and fresh.
pub open spec fn provenance_ok(
    p: Option<FinalRegistryProvenanceV1>,
    i: FinalRegistryPreflightInputV1,
) -> bool {
    match p {
        None => false,
        Some(p) => provenance_shape(p) && fresh(p, i),
    }
}

pub open spec fn version_findings(
    v: FinalRegistryVersionResponseV1,
    e: ExpectedView,
) -> Seq<PreflightFindingView> {
    match v {
        FinalRegistryVersionResponseV1::Found { checksum, yanked } => flag(
            yanked,
            FinalRegistryPreflightResultV1::Conflict,
            "selected registry version is yanked"@,
        ) + if !digest_ok(checksum@) {
            flag(
                true,
                FinalRegistryPreflightResultV1::Malformed,
                "malformed observed checksum"@,
            )
        } else {
            flag(
                checksum@ != e.5,
                FinalRegistryPreflightResultV1::Conflict,
                "immutable registry checksum conflict"@,
            )
        },
        FinalRegistryVersionResponseV1::Missing {  } => flag(
            e.4 == FinalRegistryRowRoleV1::SharedPrerequisite,
            FinalRegistryPreflightResultV1::Incomplete,
            "shared prerequisite is absent"@,
        ),
        FinalRegistryVersionResponseV1::NameUnavailable {  } => flag(
            true,
            FinalRegistryPreflightResultV1::Incomplete,
            "name unavailable does not establish exact-version absence"@,
        ),
        FinalRegistryVersionResponseV1::VisibilityPending {  } => flag(
            true,
            FinalRegistryPreflightResultV1::Incomplete,
            "exact-version visibility pending"@,
        ),
        FinalRegistryVersionResponseV1::MalformedResponse {  } => flag(
            true,
            FinalRegistryPreflightResultV1::InstrumentFailure,
            "malformed provider response"@,
        ),
        _ => flag(
            true,
            FinalRegistryPreflightResultV1::ProviderUnavailable,
            "version provider unavailable"@,
        ),
    }
}

/// The version state a response supports before identity and provenance.
pub open spec fn version_base(
    v: FinalRegistryVersionResponseV1,
    e: ExpectedView,
) -> FinalRegistryVersionStateV1 {
    match v {
        FinalRegistryVersionResponseV1::Found { checksum, yanked } => if !digest_ok(checksum@) {
            FinalRegistryVersionStateV1::Unknown
        } else if yanked {
            FinalRegistryVersionStateV1::Yanked
        } else if checksum@ == e.5 {
            FinalRegistryVersionStateV1::AlreadyPublishedExact
        } else {
            FinalRegistryVersionStateV1::AlreadyPublishedConflict
        },
        FinalRegistryVersionResponseV1::Missing {  } => FinalRegistryVersionStateV1::Missing,
        FinalRegistryVersionResponseV1::NameUnavailable {  } => FinalRegistryVersionStateV1::NameUnavailable,
        _ => FinalRegistryVersionStateV1::Unknown,
    }
}

pub open spec fn owner_findings(o: FinalRegistryOwnerStateV1) -> Seq<PreflightFindingView> {
    match o {
        FinalRegistryOwnerStateV1::UnexpectedOwner => flag(
            true,
            FinalRegistryPreflightResultV1::Conflict,
            "unexpected package owner"@,
        ),
        FinalRegistryOwnerStateV1::ProviderUnavailable => flag(
            true,
            FinalRegistryPreflightResultV1::ProviderUnavailable,
            "owner endpoint unavailable"@,
        ),
        FinalRegistryOwnerStateV1::PermissionNotProven => flag(
            true,
            FinalRegistryPreflightResultV1::CompleteWithResidualAuthorityRisk,
            "owner permission remains unproven"@,
        ),
        FinalRegistryOwnerStateV1::OwnedByExpectedPrincipal => Seq::empty(),
    }
}

pub open spec fn authority_findings(a: FinalRegistryPublishAuthorityV1) -> Seq<PreflightFindingView> {
    match a {
        FinalRegistryPublishAuthorityV1::Proven => Seq::empty(),
        FinalRegistryPublishAuthorityV1::SupportingEvidenceOnly => flag(
            true,
            FinalRegistryPreflightResultV1::CompleteWithResidualAuthorityRisk,
            "publication authority remains unproven"@,
        ),
        FinalRegistryPublishAuthorityV1::NotProven => flag(
            true,
            FinalRegistryPreflightResultV1::CompleteWithResidualAuthorityRisk,
            "publication authority remains unproven"@,
        ),
        FinalRegistryPublishAuthorityV1::Conflict => flag(
            true,
            FinalRegistryPreflightResultV1::Conflict,
            "publication authority conflict"@,
        ),
        FinalRegistryPublishAuthorityV1::ProviderUnavailable => flag(
            true,
            FinalRegistryPreflightResultV1::ProviderUnavailable,
            "authority provider unavailable"@,
        ),
        FinalRegistryPublishAuthorityV1::InstrumentFailure => flag(
            true,
            FinalRegistryPreflightResultV1::InstrumentFailure,
            "authority instrument failure"@,
        ),
    }
}

pub open spec fn identity_matches(o: FinalRegistryObservationV1, e: ExpectedView) -> bool {
    o.package_name@ == e.1 && o.package_version@ == e.2
}

/// Everything one observation contributes, dimension by dimension.
pub open spec fn observation_findings(
    o: FinalRegistryObservationV1,
    e: ExpectedView,
    i: FinalRegistryPreflightInputV1,
) -> Seq<PreflightFindingView> {
    flag(
        !identity_matches(o, e),
        FinalRegistryPreflightResultV1::Malformed,
        "observation requested identity differs from selected exact version"@,
    ) + provenance_findings(o.version_provenance, "version"@, i) + version_findings(o.version, e)
        + provenance_findings(o.owner_provenance, "owner"@, i) + owner_findings(o.owner)
        + provenance_findings(o.authority_provenance, "authority"@, i) + authority_findings(
        o.publish_authority,
    )
}

/// The version state an observation supports: unknown unless it answers the
/// exact identity with valid, fresh version provenance.
pub open spec fn observation_version(
    o: FinalRegistryObservationV1,
    e: ExpectedView,
    i: FinalRegistryPreflightInputV1,
) -> FinalRegistryVersionStateV1 {
    if !identity_matches(o, e) || !provenance_ok(o.version_provenance, i) {
        FinalRegistryVersionStateV1::Unknown
    } else {
        version_base(o.version, e)
    }
}

pub open spec fn next_action_spec(
    result: FinalRegistryPreflightResultV1,
    version: FinalRegistryVersionStateV1,
    shared: bool,
) -> FinalRegistryNextActionV1 {
    match result {
        FinalRegistryPreflightResultV1::UnsupportedGeneration
        | FinalRegistryPreflightResultV1::Malformed
        | FinalRegistryPreflightResultV1::InstrumentFailure => FinalRegistryNextActionV1::RepairInput,
        FinalRegistryPreflightResultV1::Conflict => FinalRegistryNextActionV1::ResolveConflict,
        FinalRegistryPreflightResultV1::Stale => FinalRegistryNextActionV1::RefreshObservation,
        FinalRegistryPreflightResultV1::ProviderUnavailable => FinalRegistryNextActionV1::RestoreProvider,
        FinalRegistryPreflightResultV1::Incomplete => if shared && version
            == FinalRegistryVersionStateV1::Missing {
            FinalRegistryNextActionV1::ObtainPrerequisite
        } else {
            FinalRegistryNextActionV1::AwaitVisibility
        },
        FinalRegistryPreflightResultV1::CompleteWithResidualAuthorityRisk => FinalRegistryNextActionV1::ObtainAuthorityEvidence,
        FinalRegistryPreflightResultV1::Complete => if shared {
            FinalRegistryNextActionV1::RetainExactPrerequisite
        } else {
            FinalRegistryNextActionV1::AwaitSeparateAuthorization
        },
    }
}

// ---------------------------------------------------------------------------
// Rows.
// ---------------------------------------------------------------------------

/// (expected, observation, version state, findings, next action)
pub type RowView = (
    ExpectedView,
    Option<FinalRegistryObservationV1>,
    FinalRegistryVersionStateV1,
    Seq<PreflightFindingView>,
    FinalRegistryNextActionV1,
);

pub open spec fn row_view(r: FinalRegistryPreflightRowV1) -> RowView {
    (expected_view(r.expected), r.observation, r.version_state, findings_view(r.findings@), r.next_action)
}

pub open spec fn rows_view(v: Seq<FinalRegistryPreflightRowV1>) -> Seq<RowView> {
    v.map_values(|r: FinalRegistryPreflightRowV1| row_view(r))
}

pub open spec fn row_findings_spec(i: FinalRegistryPreflightInputV1, k: int) -> Seq<
    PreflightFindingView,
> {
    let e = expected_spec(i, k);
    expected_findings(i, k) + if k < i.observations@.len() {
        observation_findings(i.observations@[k], e, i)
    } else {
        flag(true, FinalRegistryPreflightResultV1::Malformed, "missing observation"@)
    }
}

pub open spec fn row_version_spec(i: FinalRegistryPreflightInputV1, k: int) -> FinalRegistryVersionStateV1 {
    if k < i.observations@.len() {
        observation_version(i.observations@[k], expected_spec(i, k), i)
    } else {
        FinalRegistryVersionStateV1::Unknown
    }
}

/// Row `k` of the receipt: its result weighs its own findings together with
/// every input-wide finding.
#[verifier::opaque]
pub open spec fn row_spec(i: FinalRegistryPreflightInputV1, k: int) -> RowView {
    let findings = row_findings_spec(i, k);
    let version = row_version_spec(i, k);
    let shared = is_shared_row(i.candidate.rows@[k]);
    (
        expected_spec(i, k),
        if k < i.observations@.len() {
            Some(i.observations@[k])
        } else {
            None
        },
        version,
        findings,
        next_action_spec(aggregate(findings + global_findings(i)), version, shared),
    )
}

pub open spec fn all_rows(i: FinalRegistryPreflightInputV1) -> Seq<RowView> {
    Seq::new(i.candidate.rows@.len(), |k: int| row_spec(i, k))
}

/// The rows of one role, in input order.
pub open spec fn rows_of_role(rows: Seq<RowView>, role: FinalRegistryRowRoleV1) -> Seq<RowView>
    decreases rows.len(),
{
    if rows.len() == 0 {
        Seq::empty()
    } else {
        let rest = rows_of_role(rows.drop_last(), role);
        if rows.last().0.4 == role {
            rest.push(rows.last())
        } else {
            rest
        }
    }
}

/// All row findings, row after row.
pub open spec fn row_findings_flat(rows: Seq<RowView>) -> Seq<PreflightFindingView>
    decreases rows.len(),
{
    if rows.len() == 0 {
        Seq::empty()
    } else {
        row_findings_flat(rows.drop_last()) + rows.last().3
    }
}

pub open spec fn upload_rows_spec(i: FinalRegistryPreflightInputV1) -> Seq<RowView> {
    rows_of_role(all_rows(i), FinalRegistryRowRoleV1::FinalUploadCandidate)
}

pub open spec fn shared_rows_spec(i: FinalRegistryPreflightInputV1) -> Seq<RowView> {
    rows_of_role(all_rows(i), FinalRegistryRowRoleV1::SharedPrerequisite)
}

/// The receipt result: the fail-closed aggregate of input-wide findings and
/// every row finding.
pub open spec fn preflight_result(i: FinalRegistryPreflightInputV1) -> FinalRegistryPreflightResultV1 {
    aggregate(
        global_findings(i) + row_findings_flat(upload_rows_spec(i)) + row_findings_flat(
            shared_rows_spec(i),
        ),
    )
}

// ---------------------------------------------------------------------------
// Executable evaluation.
// ---------------------------------------------------------------------------

fn push_finding(
    findings: &mut Vec<FinalRegistryPreflightFindingV1>,
    result: FinalRegistryPreflightResultV1,
    reason: String,
)
    ensures
        findings_view(final(findings)@) == findings_view(old(findings)@).push((result, reason@)),
{
    findings.push(FinalRegistryPreflightFindingV1 { result, reason });
    assert(findings_view(findings@) =~= findings_view(old(findings)@).push((result, reason@)));
}

fn finding_if_string(
    findings: &mut Vec<FinalRegistryPreflightFindingV1>,
    cond: bool,
    result: FinalRegistryPreflightResultV1,
    reason: String,
)
    ensures
        findings_view(final(findings)@) == findings_view(old(findings)@) + flag(
            cond,
            result,
            reason@,
        ),
{
    reveal(flag);
    if cond {
        push_finding(findings, result, reason);
        assert(findings_view(findings@) =~= findings_view(old(findings)@) + flag(
            cond,
            result,
            reason@,
        ));
    } else {
        assert(findings_view(findings@) =~= findings_view(findings@) + flag(cond, result, reason@));
    }
}

fn finding_if(
    findings: &mut Vec<FinalRegistryPreflightFindingV1>,
    cond: bool,
    result: FinalRegistryPreflightResultV1,
    reason: &str,
)
    ensures
        findings_view(final(findings)@) == findings_view(old(findings)@) + flag(
            cond,
            result,
            reason@,
        ),
{
    reveal(flag);
    if cond {
        push_finding(findings, result, reason.to_string());
        assert(findings_view(findings@) =~= findings_view(old(findings)@) + flag(
            cond,
            result,
            reason@,
        ));
    } else {
        assert(findings_view(findings@) =~= findings_view(findings@) + flag(cond, result, reason@));
    }
}

impl FinalRegistryPreflightResultV1 {
    fn rank_of(self) -> (r: u8)
        ensures
            r == self.rank(),
    {
        match self {
            Self::UnsupportedGeneration => 0,
            Self::Malformed => 1,
            Self::InstrumentFailure => 2,
            Self::Conflict => 3,
            Self::Stale => 4,
            Self::ProviderUnavailable => 5,
            Self::Incomplete => 6,
            Self::CompleteWithResidualAuthorityRisk => 7,
            Self::Complete => 8,
        }
    }
}

/// Continues the fail-closed aggregate of `prefix` over `findings`.
fn aggregate_more(
    acc: FinalRegistryPreflightResultV1,
    findings: &Vec<FinalRegistryPreflightFindingV1>,
    Ghost(prefix): Ghost<Seq<PreflightFindingView>>,
) -> (r: FinalRegistryPreflightResultV1)
    requires
        acc == aggregate(prefix),
    ensures
        r == aggregate(prefix + findings_view(findings@)),
{
    let mut result = acc;
    let mut i: usize = 0;
    assert(prefix + findings_view(findings@.take(0)) =~= prefix);
    while i < findings.len()
        invariant
            i <= findings.len(),
            result == aggregate(prefix + findings_view(findings@.take(i as int))),
        decreases findings.len() - i,
    {
        proof {
            let t = prefix + findings_view(findings@.take(i + 1));
            assert(t.drop_last() =~= prefix + findings_view(findings@.take(i as int)));
        }
        let candidate = findings[i].result;
        if candidate.rank_of() < result.rank_of() {
            result = candidate;
        }
        i = i + 1;
    }
    assert(findings@.take(findings@.len() as int) =~= findings@);
    result
}

fn copy_opt_string(o: &Option<String>) -> (r: Option<String>)
    ensures
        r == *o,
{
    match o {
        Some(s) => Some(s.clone()),
        None => None,
    }
}

fn copy_context(c: &FinalRegistryContextV1) -> (r: FinalRegistryContextV1)
    ensures
        r == *c,
{
    FinalRegistryContextV1 {
        candidate_digest: c.candidate_digest.clone(),
        denominator_digest: c.denominator_digest.clone(),
        workflow_digest: c.workflow_digest.clone(),
        principal: c.principal.clone(),
        environment: c.environment.clone(),
        owner_team_digest: c.owner_team_digest.clone(),
        release_controls_digest: c.release_controls_digest.clone(),
        provider_state_digest: c.provider_state_digest.clone(),
    }
}

fn copy_provenance(p: &Option<FinalRegistryProvenanceV1>) -> (r: Option<FinalRegistryProvenanceV1>)
    ensures
        r == *p,
{
    match p {
        Some(p) => Some(
            FinalRegistryProvenanceV1 {
                origin: p.origin,
                provider: p.provider.clone(),
                source: p.source.clone(),
                evidence_digest: p.evidence_digest.clone(),
                observed_at_unix_seconds: p.observed_at_unix_seconds,
            },
        ),
        None => None,
    }
}

fn copy_response(v: &FinalRegistryVersionResponseV1) -> (r: FinalRegistryVersionResponseV1)
    ensures
        r == *v,
{
    match v {
        FinalRegistryVersionResponseV1::Found { checksum, yanked } => {
            FinalRegistryVersionResponseV1::Found { checksum: checksum.clone(), yanked: *yanked }
        },
        FinalRegistryVersionResponseV1::Missing {  } => FinalRegistryVersionResponseV1::Missing {  },
        FinalRegistryVersionResponseV1::NameUnavailable {  } => {
            FinalRegistryVersionResponseV1::NameUnavailable {  }
        },
        FinalRegistryVersionResponseV1::VisibilityPending {  } => {
            FinalRegistryVersionResponseV1::VisibilityPending {  }
        },
        FinalRegistryVersionResponseV1::Timeout {  } => FinalRegistryVersionResponseV1::Timeout {  },
        FinalRegistryVersionResponseV1::RateLimited {  } => FinalRegistryVersionResponseV1::RateLimited {  },
        FinalRegistryVersionResponseV1::ProviderUnavailable {  } => {
            FinalRegistryVersionResponseV1::ProviderUnavailable {  }
        },
        FinalRegistryVersionResponseV1::MalformedResponse {  } => {
            FinalRegistryVersionResponseV1::MalformedResponse {  }
        },
    }
}

fn copy_observation(o: &FinalRegistryObservationV1) -> (r: FinalRegistryObservationV1)
    ensures
        r == *o,
{
    FinalRegistryObservationV1 {
        package_name: o.package_name.clone(),
        package_version: o.package_version.clone(),
        version: copy_response(&o.version),
        version_provenance: copy_provenance(&o.version_provenance),
        owner: o.owner,
        owner_provenance: copy_provenance(&o.owner_provenance),
        publish_authority: o.publish_authority,
        authority_provenance: copy_provenance(&o.authority_provenance),
    }
}

fn render_shared_authority(a: &FinalRegistrySharedAuthorityV1) -> (s: String)
    ensures
        s@ == json_shared_authority(*a),
{
    let mut l = JsonList::new();
    l.push_str_member("package_name", a.package_name.as_str());
    l.push_str_member("package_version", a.package_version.as_str());
    l.push_str_member("expected_checksum", a.expected_checksum.as_str());
    l.push_str_member("authority_digest", a.authority_digest.as_str());
    l.finish_object()
}

fn render_shared_authorities(v: &[FinalRegistrySharedAuthorityV1]) -> (s: String)
    ensures
        s@ == json_shared_authorities(v@),
{
    let mut l = JsonList::new();
    let mut i: usize = 0;
    assert(v@.take(0).map_values(|a: FinalRegistrySharedAuthorityV1| json_shared_authority(a))
        =~= Seq::<Seq<char>>::empty());
    while i < v.len()
        invariant
            i <= v.len(),
            l.wf(),
            l.count == i,
            l.items@ == v@.take(i as int).map_values(
                |a: FinalRegistrySharedAuthorityV1| json_shared_authority(a),
            ),
        decreases v.len() - i,
    {
        let piece = render_shared_authority(&v[i]);
        l.push_raw(piece.as_str());
        assert(v@.take(i + 1).map_values(|a: FinalRegistrySharedAuthorityV1| json_shared_authority(a))
            =~= v@.take(i as int).map_values(
            |a: FinalRegistrySharedAuthorityV1| json_shared_authority(a),
        ).push(piece@));
        i = i + 1;
    }
    assert(v@.take(v@.len() as int) =~= v@);
    l.finish_array()
}

/// Bindings computed from the actual candidate and retained shared
/// authorities: the digest of the candidate's canonical JSON, and the digest
/// of the JSON pair (candidate rows, shared authorities). These bind inputs,
/// not their authenticity; validation still belongs to the evaluator.
pub fn final_registry_bindings_v1(
    candidate: &PackageCandidatePayloadV2,
    shared: &[FinalRegistrySharedAuthorityV1],
) -> (r: (String, String))
    ensures
        r.0@ == candidate_binding(*candidate),
        r.1@ == denominator_binding(*candidate, shared@),
        is_lower_sha256_digest(r.0@),
        is_lower_sha256_digest(r.1@),
{
    let payload = render_payload_json(candidate);
    let rows = render_candidate_rows(&candidate.rows);
    let authorities = render_shared_authorities(shared);
    let mut pair = JsonList::new();
    pair.push_raw(rows.as_str());
    pair.push_raw(authorities.as_str());
    let denominator = pair.finish_array();
    assert(Seq::empty().push(rows@).push(authorities@) =~= Seq::empty().push(
        json_candidate_rows(candidate.rows@),
    ).push(json_shared_authorities(shared@)));
    (digest_text(payload.as_str()), digest_text(denominator.as_str()))
}

fn context_name_of(k: usize) -> (r: &'static str)
    requires
        k < 8,
    ensures
        r@ == context_name(k as int),
{
    if k == 0 {
        "candidate_digest"
    } else if k == 1 {
        "denominator_digest"
    } else if k == 2 {
        "workflow_digest"
    } else if k == 3 {
        "principal"
    } else if k == 4 {
        "environment"
    } else if k == 5 {
        "owner_team_digest"
    } else if k == 6 {
        "release_controls_digest"
    } else {
        "provider_state_digest"
    }
}

fn context_value_of(c: &FinalRegistryContextV1, k: usize) -> (r: &String)
    requires
        k < 8,
    ensures
        r@ == context_value(*c, k as int),
{
    if k == 0 {
        &c.candidate_digest
    } else if k == 1 {
        &c.denominator_digest
    } else if k == 2 {
        &c.workflow_digest
    } else if k == 3 {
        &c.principal
    } else if k == 4 {
        &c.environment
    } else if k == 5 {
        &c.owner_team_digest
    } else if k == 6 {
        &c.release_controls_digest
    } else {
        &c.provider_state_digest
    }
}

fn check_context(
    observed: &FinalRegistryContextV1,
    current: &FinalRegistryContextV1,
    findings: &mut Vec<FinalRegistryPreflightFindingV1>,
)
    ensures
        findings_view(final(findings)@) == findings_view(old(findings)@) + seg_context_upto(
            *observed,
            *current,
            8,
        ),
{
    let mut k: usize = 0;
    assert(findings_view(findings@) =~= findings_view(old(findings)@) + seg_context_upto(
        *observed,
        *current,
        0,
    ));
    while k < 8
        invariant
            k <= 8,
            findings_view(findings@) == findings_view(old(findings)@) + seg_context_upto(
                *observed,
                *current,
                k as nat,
            ),
        decreases 8 - k,
    {
        let ghost before = findings_view(findings@);
        let name = context_name_of(k);
        let o = context_value_of(observed, k);
        let c = context_value_of(current, k);
        let digest_field = k != 3 && k != 4;
        let invalid = is_blank(o.as_str()) || is_blank(c.as_str()) || (digest_field && (
        !is_sha256_digest_str(o.as_str()) || !is_sha256_digest_str(c.as_str())));
        finding_if_string(
            findings,
            invalid,
            FinalRegistryPreflightResultV1::Malformed,
            cat("invalid context ", name),
        );
        finding_if_string(
            findings,
            !str_eq(o.as_str(), c.as_str()),
            FinalRegistryPreflightResultV1::Stale,
            cat("context moved: ", name),
        );
        proof {
            lemma_concat_assoc(
                findings_view(old(findings)@),
                seg_context_upto(*observed, *current, k as nat),
                seg_context_field(*observed, *current, k as int),
            );
            lemma_concat_assoc(
                before,
                flag(
                    invalid,
                    FinalRegistryPreflightResultV1::Malformed,
                    "invalid context "@ + context_name(k as int),
                ),
                flag(
                    o@ != c@,
                    FinalRegistryPreflightResultV1::Stale,
                    "context moved: "@ + context_name(k as int),
                ),
            );
        }
        k = k + 1;
    }
}

fn check_candidate(
    candidate: &PackageCandidatePayloadV2,
    findings: &mut Vec<FinalRegistryPreflightFindingV1>,
)
    ensures
        findings_view(final(findings)@) == findings_view(old(findings)@) + seg_candidate(*candidate),
{
    let validation = validate_package_candidate_v2(candidate);
    let state = if validation.result == PackageCandidateResultV2::UnsupportedGeneration {
        FinalRegistryPreflightResultV1::UnsupportedGeneration
    } else {
        FinalRegistryPreflightResultV1::Malformed
    };
    let ghost gaps = candidate_gaps(*candidate);
    let mut i: usize = 0;
    assert(findings_view(findings@) =~= findings_view(old(findings)@) + gaps.take(0).map_values(
        |g: Seq<char>| (state, "candidate: "@ + g),
    ));
    while i < validation.gaps.len()
        invariant
            i <= validation.gaps.len(),
            views(validation.gaps@) == gaps,
            findings_view(findings@) == findings_view(old(findings)@) + gaps.take(i as int).map_values(
                |g: Seq<char>| (state, "candidate: "@ + g),
            ),
        decreases validation.gaps.len() - i,
    {
        let reason = cat("candidate: ", validation.gaps[i].as_str());
        push_finding(findings, state, reason);
        proof {
            assert(gaps[i as int] == validation.gaps@[i as int]@);
            assert(gaps.take(i + 1).map_values(|g: Seq<char>| (state, "candidate: "@ + g))
                =~= gaps.take(i as int).map_values(|g: Seq<char>| (state, "candidate: "@ + g)).push(
                (state, "candidate: "@ + gaps[i as int]),
            ));
        }
        i = i + 1;
    }
    assert(gaps.take(gaps.len() as int) =~= gaps);
}

fn selected_version_of<'a>(rows: &'a Vec<PackageCandidateRowV2>, name: &str) -> (r: Option<&'a String>)
    ensures
        match r {
            None => selected_version(rows@, name@) is None,
            Some(v) => selected_version(rows@, name@) == Some(v@),
        },
{
    let mut k: usize = 0;
    assert(rows@.skip(0) =~= rows@);
    while k < rows.len()
        invariant
            k <= rows.len(),
            selected_version(rows@, name@) == selected_version(rows@.skip(k as int), name@),
        decreases rows.len() - k,
    {
        assert(rows@.skip(k as int)[0] == rows@[k as int]);
        assert(rows@.skip(k as int).drop_first() =~= rows@.skip(k + 1));
        if str_eq(rows[k].cargo_package_name.as_str(), name) {
            return Some(&rows[k].cargo_package_version);
        }
        k = k + 1;
    }
    None
}

fn check_dependency_versions(
    rows: &Vec<PackageCandidateRowV2>,
    findings: &mut Vec<FinalRegistryPreflightFindingV1>,
)
    ensures
        findings_view(final(findings)@) == findings_view(old(findings)@) + seg_dependency_versions(
            rows@,
            rows@.len(),
        ),
{
    let mut i: usize = 0;
    while i < rows.len()
        invariant
            i <= rows.len(),
            findings_view(findings@) == findings_view(old(findings)@) + seg_dependency_versions(
                rows@,
                i as nat,
            ),
        decreases rows.len() - i,
    {
        let ghost before = findings_view(findings@);
        let owner = &rows[i].cargo_package_name;
        let deps = &rows[i].expected_dependency_rows;
        let mut j: usize = 0;
        assert(deps@.take(0) =~= Seq::<PackageCandidateDependencyRowV2>::empty());
        assert(before + Seq::<PreflightFindingView>::empty() =~= before);
        while j < deps.len()
            invariant
                j <= deps.len(),
                findings_view(findings@) == before + row_dependency_findings(
                    rows@,
                    owner@,
                    deps@.take(j as int),
                ),
            decreases deps.len() - j,
        {
            let d = &deps[j];
            let bad = match d.dependency_kind {
                PackageCandidateDependencyKindV2::Internal => match selected_version_of(
                    rows,
                    d.package_name.as_str(),
                ) {
                    Some(v) => !str_eq(v.as_str(), d.package_version.as_str()),
                    None => false,
                },
                _ => false,
            };
            let mut msg = cat3("internal dependency ", d.package_name.as_str(), " of ");
            crate::text::push_str(&mut msg, owner.as_str());
            crate::text::push_str(&mut msg, " does not name the selected exact version");
            finding_if_string(findings, bad, FinalRegistryPreflightResultV1::Malformed, msg);
            proof {
                assert(deps@.take(j + 1).drop_last() =~= deps@.take(j as int));
                lemma_concat_assoc(
                    before,
                    row_dependency_findings(rows@, owner@, deps@.take(j as int)),
                    dependency_version_finding(rows@, owner@, deps@[j as int]),
                );
            }
            j = j + 1;
        }
        assert(deps@.take(j as int) =~= deps@);
        proof {
            lemma_concat_assoc(
                findings_view(old(findings)@),
                seg_dependency_versions(rows@, i as nat),
                row_dependency_findings(rows@, owner@, deps@),
            );
        }
        i = i + 1;
    }
}

fn check_bindings(
    input: &FinalRegistryPreflightInputV1,
    findings: &mut Vec<FinalRegistryPreflightFindingV1>,
)
    ensures
        findings_view(final(findings)@) == findings_view(old(findings)@) + seg_bindings(*input),
{
    let (candidate, denominator) = final_registry_bindings_v1(
        &input.candidate,
        input.shared_authorities.as_slice(),
    );
    finding_if(
        findings,
        !str_eq(candidate.as_str(), input.current_context.candidate_digest.as_str()),
        FinalRegistryPreflightResultV1::Stale,
        "candidate content does not match current binding",
    );
    finding_if(
        findings,
        !str_eq(denominator.as_str(), input.current_context.denominator_digest.as_str()),
        FinalRegistryPreflightResultV1::Stale,
        "selected denominator/authorities do not match current binding",
    );
    proof {
        broadcast use lemma_concat_assoc;
    }
}

fn global_checks(input: &FinalRegistryPreflightInputV1) -> (r: Vec<FinalRegistryPreflightFindingV1>)
    ensures
        findings_view(r@) == global_findings(*input),
{
    let mut findings: Vec<FinalRegistryPreflightFindingV1> = Vec::new();
    finding_if(
        &mut findings,
        !str_eq(input.schema_id.as_str(), FINAL_REGISTRY_PREFLIGHT_SCHEMA_ID)
            || input.schema_version != FINAL_REGISTRY_PREFLIGHT_SCHEMA_VERSION,
        FinalRegistryPreflightResultV1::UnsupportedGeneration,
        "non-current preflight generation",
    );
    let ghost g0 = findings_view(findings@);
    check_candidate(&input.candidate, &mut findings);
    check_dependency_versions(&input.candidate.rows, &mut findings);
    let ghost g1 = findings_view(findings@);
    let c = &input.candidate;
    finding_if(
        &mut findings,
        !str_eq(c.topology_id.as_str(), "CARGO-ALLOW-PKG-TOPOLOGY-V2-0001") || !str_eq(
            c.candidate_product_id.as_str(),
            "cargo-allow-0.2",
        ) || !str_eq(c.root_logical_id.as_str(), "cargo-allow") || !str_eq(
            c.root_package_name.as_str(),
            "cargo-allow",
        ) || !str_eq(c.root_package_version.as_str(), "0.2.0"),
        FinalRegistryPreflightResultV1::Malformed,
        "candidate topology/product/root is not the selected final cargo-allow 0.2.0 generation",
    );
    let ghost g2 = findings_view(findings@);
    finding_if(
        &mut findings,
        c.rows.len() != 13 || input.observations.len() != 13 || input.shared_authorities.len() != 3,
        FinalRegistryPreflightResultV1::Malformed,
        "expected exactly 13 candidate/observation rows and 3 shared authorities",
    );
    let ghost g3 = findings_view(findings@);
    check_context(&input.observed_context, &input.current_context, &mut findings);
    let ghost g4 = findings_view(findings@);
    check_bindings(input, &mut findings);
    let ghost g5 = findings_view(findings@);
    finding_if(
        &mut findings,
        input.maximum_age_seconds == 0,
        FinalRegistryPreflightResultV1::Malformed,
        "freshness window must be positive",
    );
    assert(g0 =~= seg_generation(*input));
    findings
}

fn provenance_valid(
    provenance: &Option<FinalRegistryProvenanceV1>,
    dimension: &str,
    input: &FinalRegistryPreflightInputV1,
    findings: &mut Vec<FinalRegistryPreflightFindingV1>,
) -> (r: bool)
    ensures
        r == provenance_ok(*provenance, *input),
        findings_view(final(findings)@) == findings_view(old(findings)@) + provenance_findings(
            *provenance,
            dimension@,
            *input,
        ),
{
    match provenance {
        None => {
            finding_if_string(
                findings,
                true,
                FinalRegistryPreflightResultV1::Malformed,
                cat3("missing ", dimension, " provenance"),
            );
            false
        },
        Some(p) => {
            let shape_valid = !is_blank(p.provider.as_str()) && !is_blank(p.source.as_str())
                && is_sha256_digest_str(p.evidence_digest.as_str());
            finding_if_string(
                findings,
                !shape_valid,
                FinalRegistryPreflightResultV1::Malformed,
                cat3("malformed ", dimension, " provenance"),
            );
            let fresh_now = p.observed_at_unix_seconds <= input.evaluated_at_unix_seconds
                && input.maximum_age_seconds > 0 && input.evaluated_at_unix_seconds
                - p.observed_at_unix_seconds <= input.maximum_age_seconds;
            finding_if_string(
                findings,
                !fresh_now,
                FinalRegistryPreflightResultV1::Stale,
                cat(dimension, " observation is future-dated or expired"),
            );
            proof {
                broadcast use lemma_concat_assoc;
            }
            shape_valid && fresh_now
        },
    }
}

fn reconcile_version(
    response: &FinalRegistryVersionResponseV1,
    expected: &FinalRegistryExpectedRowV1,
    findings: &mut Vec<FinalRegistryPreflightFindingV1>,
) -> (r: FinalRegistryVersionStateV1)
    ensures
        r == version_base(*response, expected_view(*expected)),
        findings_view(final(findings)@) == findings_view(old(findings)@) + version_findings(
            *response,
            expected_view(*expected),
        ),
{
    match response {
        FinalRegistryVersionResponseV1::Found { checksum, yanked } => {
            finding_if(
                findings,
                *yanked,
                FinalRegistryPreflightResultV1::Conflict,
                "selected registry version is yanked",
            );
            if !is_sha256_digest_str(checksum.as_str()) {
                finding_if(
                    findings,
                    true,
                    FinalRegistryPreflightResultV1::Malformed,
                    "malformed observed checksum",
                );
                proof {
                    broadcast use lemma_concat_assoc;
                }
                FinalRegistryVersionStateV1::Unknown
            } else {
                let exact = str_eq(checksum.as_str(), expected.expected_checksum.as_str());
                finding_if(
                    findings,
                    !exact,
                    FinalRegistryPreflightResultV1::Conflict,
                    "immutable registry checksum conflict",
                );
                proof {
                    broadcast use lemma_concat_assoc;
                }
                if *yanked {
                    FinalRegistryVersionStateV1::Yanked
                } else if exact {
                    FinalRegistryVersionStateV1::AlreadyPublishedExact
                } else {
                    FinalRegistryVersionStateV1::AlreadyPublishedConflict
                }
            }
        },
        FinalRegistryVersionResponseV1::Missing {  } => {
            finding_if(
                findings,
                expected.role == FinalRegistryRowRoleV1::SharedPrerequisite,
                FinalRegistryPreflightResultV1::Incomplete,
                "shared prerequisite is absent",
            );
            FinalRegistryVersionStateV1::Missing
        },
        FinalRegistryVersionResponseV1::NameUnavailable {  } => {
            finding_if(
                findings,
                true,
                FinalRegistryPreflightResultV1::Incomplete,
                "name unavailable does not establish exact-version absence",
            );
            FinalRegistryVersionStateV1::NameUnavailable
        },
        FinalRegistryVersionResponseV1::VisibilityPending {  } => {
            finding_if(
                findings,
                true,
                FinalRegistryPreflightResultV1::Incomplete,
                "exact-version visibility pending",
            );
            FinalRegistryVersionStateV1::Unknown
        },
        FinalRegistryVersionResponseV1::MalformedResponse {  } => {
            finding_if(
                findings,
                true,
                FinalRegistryPreflightResultV1::InstrumentFailure,
                "malformed provider response",
            );
            FinalRegistryVersionStateV1::Unknown
        },
        _ => {
            finding_if(
                findings,
                true,
                FinalRegistryPreflightResultV1::ProviderUnavailable,
                "version provider unavailable",
            );
            FinalRegistryVersionStateV1::Unknown
        },
    }
}

fn check_owner(
    owner: FinalRegistryOwnerStateV1,
    findings: &mut Vec<FinalRegistryPreflightFindingV1>,
)
    ensures
        findings_view(final(findings)@) == findings_view(old(findings)@) + owner_findings(owner),
{
    match owner {
        FinalRegistryOwnerStateV1::UnexpectedOwner => finding_if(
            findings,
            true,
            FinalRegistryPreflightResultV1::Conflict,
            "unexpected package owner",
        ),
        FinalRegistryOwnerStateV1::ProviderUnavailable => finding_if(
            findings,
            true,
            FinalRegistryPreflightResultV1::ProviderUnavailable,
            "owner endpoint unavailable",
        ),
        FinalRegistryOwnerStateV1::PermissionNotProven => finding_if(
            findings,
            true,
            FinalRegistryPreflightResultV1::CompleteWithResidualAuthorityRisk,
            "owner permission remains unproven",
        ),
        FinalRegistryOwnerStateV1::OwnedByExpectedPrincipal => {
            assert(findings_view(findings@) =~= findings_view(findings@) + owner_findings(owner));
        },
    }
}

fn check_publish_authority(
    authority: FinalRegistryPublishAuthorityV1,
    findings: &mut Vec<FinalRegistryPreflightFindingV1>,
)
    ensures
        findings_view(final(findings)@) == findings_view(old(findings)@) + authority_findings(
            authority,
        ),
{
    match authority {
        FinalRegistryPublishAuthorityV1::Proven => {
            assert(findings_view(findings@) =~= findings_view(findings@) + authority_findings(
                authority,
            ));
        },
        FinalRegistryPublishAuthorityV1::SupportingEvidenceOnly
        | FinalRegistryPublishAuthorityV1::NotProven => finding_if(
            findings,
            true,
            FinalRegistryPreflightResultV1::CompleteWithResidualAuthorityRisk,
            "publication authority remains unproven",
        ),
        FinalRegistryPublishAuthorityV1::Conflict => finding_if(
            findings,
            true,
            FinalRegistryPreflightResultV1::Conflict,
            "publication authority conflict",
        ),
        FinalRegistryPublishAuthorityV1::ProviderUnavailable => finding_if(
            findings,
            true,
            FinalRegistryPreflightResultV1::ProviderUnavailable,
            "authority provider unavailable",
        ),
        FinalRegistryPublishAuthorityV1::InstrumentFailure => finding_if(
            findings,
            true,
            FinalRegistryPreflightResultV1::InstrumentFailure,
            "authority instrument failure",
        ),
    }
}

fn reconcile_observation(
    expected: &FinalRegistryExpectedRowV1,
    observation: &FinalRegistryObservationV1,
    input: &FinalRegistryPreflightInputV1,
    findings: &mut Vec<FinalRegistryPreflightFindingV1>,
) -> (r: FinalRegistryVersionStateV1)
    ensures
        r == observation_version(*observation, expected_view(*expected), *input),
        findings_view(final(findings)@) == findings_view(old(findings)@) + observation_findings(
            *observation,
            expected_view(*expected),
            *input,
        ),
{
    let identity = str_eq(observation.package_name.as_str(), expected.package_name.as_str())
        && str_eq(observation.package_version.as_str(), expected.package_version.as_str());
    finding_if(
        findings,
        !identity,
        FinalRegistryPreflightResultV1::Malformed,
        "observation requested identity differs from selected exact version",
    );
    let ghost g0 = findings_view(findings@);
    let version_proven = provenance_valid(
        &observation.version_provenance,
        "version",
        input,
        findings,
    );
    let ghost g1 = findings_view(findings@);
    let mut version = reconcile_version(&observation.version, expected, findings);
    let ghost g2 = findings_view(findings@);
    if !identity || !version_proven {
        version = FinalRegistryVersionStateV1::Unknown;
    }
    provenance_valid(&observation.owner_provenance, "owner", input, findings);
    let ghost g3 = findings_view(findings@);
    check_owner(observation.owner, findings);
    let ghost g4 = findings_view(findings@);
    // Even exact prior publication or membership does not prove current permission.
    provenance_valid(&observation.authority_provenance, "authority", input, findings);
    let ghost g5 = findings_view(findings@);
    check_publish_authority(observation.publish_authority, findings);
    proof {
        broadcast use lemma_concat_assoc;
        assert(findings_view(findings@) =~= findings_view(old(findings)@) + observation_findings(
            *observation,
            expected_view(*expected),
            *input,
        ));
    }
    version
}

fn next_action(
    result: FinalRegistryPreflightResultV1,
    version: FinalRegistryVersionStateV1,
    shared: bool,
) -> (r: FinalRegistryNextActionV1)
    ensures
        r == next_action_spec(result, version, shared),
{
    match result {
        FinalRegistryPreflightResultV1::UnsupportedGeneration
        | FinalRegistryPreflightResultV1::Malformed
        | FinalRegistryPreflightResultV1::InstrumentFailure => FinalRegistryNextActionV1::RepairInput,
        FinalRegistryPreflightResultV1::Conflict => FinalRegistryNextActionV1::ResolveConflict,
        FinalRegistryPreflightResultV1::Stale => FinalRegistryNextActionV1::RefreshObservation,
        FinalRegistryPreflightResultV1::ProviderUnavailable => FinalRegistryNextActionV1::RestoreProvider,
        FinalRegistryPreflightResultV1::Incomplete => {
            if shared && version == FinalRegistryVersionStateV1::Missing {
                FinalRegistryNextActionV1::ObtainPrerequisite
            } else {
                FinalRegistryNextActionV1::AwaitVisibility
            }
        },
        FinalRegistryPreflightResultV1::CompleteWithResidualAuthorityRisk => {
            FinalRegistryNextActionV1::ObtainAuthorityEvidence
        },
        FinalRegistryPreflightResultV1::Complete => {
            if shared {
                FinalRegistryNextActionV1::RetainExactPrerequisite
            } else {
                FinalRegistryNextActionV1::AwaitSeparateAuthorization
            }
        },
    }
}

fn selection_entry(k: usize) -> (r: (&'static str, &'static str, u32))
    requires
        k < 13,
    ensures
        r.0@ == selection(k as int).0,
        r.1@ == selection(k as int).1,
        r.2 == selection(k as int).2,
{
    if k == 0 {
        ("allow-core", "allow-core", 10)
    } else if k == 1 {
        ("allow-policy", "allow-policy", 20)
    } else if k == 2 {
        ("allow-inventory", "allow-inventory", 30)
    } else if k == 3 {
        ("allow-files", "allow-files", 40)
    } else if k == 4 {
        ("allow-rust", "allow-rust", 50)
    } else if k == 5 {
        ("allow-match", "allow-match", 60)
    } else if k == 6 {
        ("allow-report", "allow-report", 70)
    } else if k == 7 {
        ("allow-policy-legacy", "allow-policy-legacy", 75)
    } else if k == 8 {
        ("repo-protocol", "effortless-repo-protocol", 80)
    } else if k == 9 {
        ("repo-snapshot", "effortless-repo-snapshot", 85)
    } else if k == 10 {
        ("repo-edit", "effortless-repo-edit", 90)
    } else if k == 11 {
        ("allow-diff", "allow-diff", 95)
    } else {
        ("cargo-allow", "cargo-allow", 100)
    }
}

fn off_selection(r: &PackageCandidateRowV2, k: usize) -> (b: bool)
    ensures
        b == row_off_selection(*r, k as int),
{
    let shared = r.product_family == PackageCandidateFamilyV2::Shared01;
    let mut off = k >= 13;
    if !off {
        let (logical, package, order) = selection_entry(k);
        off = !str_eq(r.logical_id.as_str(), logical) || !str_eq(
            r.cargo_package_name.as_str(),
            package,
        ) || r.release_order != order;
    }
    let version = if shared {
        "0.1.0"
    } else {
        "0.2.0"
    };
    off || !str_eq(r.cargo_package_version.as_str(), version) || shared != starts_with_str(
        r.cargo_package_name.as_str(),
        "effortless-repo-",
    ) || !r.publish
}

proof fn lemma_shared_before_bound(rows: Seq<PackageCandidateRowV2>, n: int)
    requires
        0 <= n,
    ensures
        shared_before(rows, n) <= n,
    decreases n,
{
    if n > 0 {
        lemma_shared_before_bound(rows, n - 1);
    }
}

fn build_expected(
    input: &FinalRegistryPreflightInputV1,
    k: usize,
    slot: usize,
    findings: &mut Vec<FinalRegistryPreflightFindingV1>,
) -> (r: FinalRegistryExpectedRowV1)
    requires
        k < input.candidate.rows@.len(),
        slot == shared_before(input.candidate.rows@, k as int),
    ensures
        expected_view(r) == expected_spec(*input, k as int),
        findings_view(final(findings)@) == findings_view(old(findings)@) + expected_findings(
            *input,
            k as int,
        ),
{
    let candidate = &input.candidate.rows[k];
    let shared = candidate.product_family == PackageCandidateFamilyV2::Shared01;
    finding_if(
        findings,
        off_selection(candidate, k),
        FinalRegistryPreflightResultV1::Malformed,
        "row differs from final generation selection/order",
    );
    let ghost g0 = findings_view(findings@);
    let local = copy_opt_string(&candidate.crate_digest);
    let mut authority_ok = false;
    if shared && slot < input.shared_authorities.len() {
        let a = &input.shared_authorities[slot];
        authority_ok = str_eq(a.package_name.as_str(), candidate.cargo_package_name.as_str())
            && str_eq(a.package_version.as_str(), candidate.cargo_package_version.as_str());
    }
    finding_if(
        findings,
        shared && !authority_ok,
        FinalRegistryPreflightResultV1::Malformed,
        "missing/reordered shared checksum authority",
    );
    let ghost g1 = findings_view(findings@);
    let (expected_checksum, checksum_authority_digest) = if shared {
        if authority_ok {
            (
                input.shared_authorities[slot].expected_checksum.clone(),
                input.shared_authorities[slot].authority_digest.clone(),
            )
        } else {
            (String::new(), String::new())
        }
    } else {
        (
            match &candidate.crate_digest {
                Some(d) => d.clone(),
                None => String::new(),
            },
            input.current_context.candidate_digest.clone(),
        )
    };
    finding_if(
        findings,
        !is_sha256_digest_str(expected_checksum.as_str()) || !is_sha256_digest_str(
            checksum_authority_digest.as_str(),
        ),
        FinalRegistryPreflightResultV1::Malformed,
        "expected checksum or its authority is malformed/missing",
    );
    let expected = FinalRegistryExpectedRowV1 {
        logical_id: candidate.logical_id.clone(),
        package_name: candidate.cargo_package_name.clone(),
        package_version: candidate.cargo_package_version.clone(),
        release_order: candidate.release_order,
        role: if shared {
            FinalRegistryRowRoleV1::SharedPrerequisite
        } else {
            FinalRegistryRowRoleV1::FinalUploadCandidate
        },
        expected_checksum,
        checksum_authority_digest,
        diagnostic_local_checksum: if shared {
            local
        } else {
            None
        },
    };
    proof {
        broadcast use lemma_concat_assoc;
        assert(authority_ok == (shared && authority_matches(*input, k as int)));
        assert(expected_view(expected) == expected_spec(*input, k as int));
    }
    expected
}

/// Evaluates candidate row `k` against its observation and the input-wide findings.
fn evaluate_row(
    input: &FinalRegistryPreflightInputV1,
    k: usize,
    slot: usize,
    global: &Vec<FinalRegistryPreflightFindingV1>,
) -> (r: FinalRegistryPreflightRowV1)
    requires
        k < input.candidate.rows@.len(),
        slot == shared_before(input.candidate.rows@, k as int),
        findings_view(global@) == global_findings(*input),
    ensures
        row_view(r) == row_spec(*input, k as int),
        (r.expected.role == FinalRegistryRowRoleV1::SharedPrerequisite) == is_shared_row(
            input.candidate.rows@[k as int],
        ),
{
    reveal(row_spec);
    let shared = input.candidate.rows[k].product_family == PackageCandidateFamilyV2::Shared01;
    let mut row_findings: Vec<FinalRegistryPreflightFindingV1> = Vec::new();
    let expected = build_expected(input, k, slot, &mut row_findings);
    let ghost g0 = findings_view(row_findings@);
    let mut observation: Option<FinalRegistryObservationV1> = None;
    let version_state = if k < input.observations.len() {
        let copied = copy_observation(&input.observations[k]);
        let v = reconcile_observation(&expected, &copied, input, &mut row_findings);
        observation = Some(copied);
        v
    } else {
        finding_if(
            &mut row_findings,
            true,
            FinalRegistryPreflightResultV1::Malformed,
            "missing observation",
        );
        FinalRegistryVersionStateV1::Unknown
    };
    let ghost rf = findings_view(row_findings@);
    let own = aggregate_more(
        FinalRegistryPreflightResultV1::Complete,
        &row_findings,
        Ghost(Seq::empty()),
    );
    assert(Seq::<PreflightFindingView>::empty() + rf =~= rf);
    let result = aggregate_more(own, global, Ghost(rf));
    let action = next_action(result, version_state, shared);
    assert(rf =~= row_findings_spec(*input, k as int));
    FinalRegistryPreflightRowV1 {
        expected,
        observation,
        version_state,
        findings: row_findings,
        next_action: action,
    }
}

/// Continues the aggregate over every finding of every row.
fn aggregate_rows(
    acc: FinalRegistryPreflightResultV1,
    rows: &Vec<FinalRegistryPreflightRowV1>,
    Ghost(prefix): Ghost<Seq<PreflightFindingView>>,
) -> (r: FinalRegistryPreflightResultV1)
    requires
        acc == aggregate(prefix),
    ensures
        r == aggregate(prefix + row_findings_flat(rows_view(rows@))),
{
    let mut result = acc;
    let mut j: usize = 0;
    assert(rows_view(rows@).take(0) =~= Seq::<RowView>::empty());
    assert(prefix + row_findings_flat(rows_view(rows@).take(0)) =~= prefix);
    while j < rows.len()
        invariant
            j <= rows.len(),
            result == aggregate(prefix + row_findings_flat(rows_view(rows@).take(j as int))),
        decreases rows.len() - j,
    {
        let ghost before = prefix + row_findings_flat(rows_view(rows@).take(j as int));
        result = aggregate_more(result, &rows[j].findings, Ghost(before));
        proof {
            let t = rows_view(rows@);
            assert(t.take(j + 1).drop_last() =~= t.take(j as int));
            assert(row_findings_flat(t.take(j + 1)) == row_findings_flat(t.take(j as int))
                + findings_view(rows@[j as int].findings@));
            lemma_concat_assoc(
                prefix,
                row_findings_flat(t.take(j as int)),
                findings_view(rows@[j as int].findings@),
            );
        }
        j = j + 1;
    }
    assert(rows_view(rows@).take(rows@.len() as int) =~= rows_view(rows@));
    result
}

proof fn lemma_rows_of_role_step(all: Seq<RowView>, k: int, role: FinalRegistryRowRoleV1)
    requires
        0 <= k < all.len(),
    ensures
        rows_of_role(all.take(k + 1), role) == if all[k].0.4 == role {
            rows_of_role(all.take(k), role).push(all[k])
        } else {
            rows_of_role(all.take(k), role)
        },
{
    assert(all.take(k + 1).drop_last() =~= all.take(k));
    assert(all.take(k + 1).last() == all[k]);
}

/// Evaluates every candidate row, splitting final upload rows from shared
/// prerequisites in input order.
fn evaluate_rows(
    input: &FinalRegistryPreflightInputV1,
    findings: &Vec<FinalRegistryPreflightFindingV1>,
) -> (r: (Vec<FinalRegistryPreflightRowV1>, Vec<FinalRegistryPreflightRowV1>))
    requires
        findings_view(findings@) == global_findings(*input),
    ensures
        rows_view(r.0@) == upload_rows_spec(*input),
        rows_view(r.1@) == shared_rows_spec(*input),
{
    let mut upload_rows: Vec<FinalRegistryPreflightRowV1> = Vec::new();
    let mut shared_prerequisites: Vec<FinalRegistryPreflightRowV1> = Vec::new();
    let mut slot: usize = 0;
    let mut k: usize = 0;
    let n = input.candidate.rows.len();
    let ghost all = all_rows(*input);
    assert(all.take(0) =~= Seq::<RowView>::empty());
    while k < n
        invariant
            n == input.candidate.rows@.len(),
            all == all_rows(*input),
            k <= n,
            slot == shared_before(input.candidate.rows@, k as int),
            findings_view(findings@) == global_findings(*input),
            rows_view(upload_rows@) == rows_of_role(
                all.take(k as int),
                FinalRegistryRowRoleV1::FinalUploadCandidate,
            ),
            rows_view(shared_prerequisites@) == rows_of_role(
                all.take(k as int),
                FinalRegistryRowRoleV1::SharedPrerequisite,
            ),
        decreases n - k,
    {
        proof {
            lemma_shared_before_bound(input.candidate.rows@, k as int);
        }
        let row = evaluate_row(input, k, slot, findings);
        proof {
            assert(all[k as int] == row_view(row));
            lemma_rows_of_role_step(all, k as int, FinalRegistryRowRoleV1::FinalUploadCandidate);
            lemma_rows_of_role_step(all, k as int, FinalRegistryRowRoleV1::SharedPrerequisite);
        }
        if row.expected.role == FinalRegistryRowRoleV1::SharedPrerequisite {
            let ghost before = shared_prerequisites@;
            shared_prerequisites.push(row);
            assert(rows_view(shared_prerequisites@) =~= rows_view(before).push(all[k as int]));
            slot = slot + 1;
        } else {
            let ghost before = upload_rows@;
            upload_rows.push(row);
            assert(rows_view(upload_rows@) =~= rows_view(before).push(all[k as int]));
        }
        k = k + 1;
    }
    assert(all.take(n as int) =~= all);
    (upload_rows, shared_prerequisites)
}

/// The observations beyond the candidate rows, in input order.
pub open spec fn surplus_spec(i: FinalRegistryPreflightInputV1) -> Seq<FinalRegistryObservationV1> {
    if i.candidate.rows@.len() < i.observations@.len() {
        i.observations@.skip(i.candidate.rows@.len() as int)
    } else {
        Seq::empty()
    }
}

fn surplus_observations(input: &FinalRegistryPreflightInputV1) -> (r: Vec<
    FinalRegistryObservationV1,
>)
    ensures
        r@ == surplus_spec(*input),
{
    let n = input.candidate.rows.len();
    let mut surplus: Vec<FinalRegistryObservationV1> = Vec::new();
    if n >= input.observations.len() {
        return surplus;
    }
    let mut j: usize = n;
    while j < input.observations.len()
        invariant
            n == input.candidate.rows@.len(),
            n <= j <= input.observations@.len(),
            surplus@ == input.observations@.subrange(n as int, j as int),
        decreases input.observations.len() - j,
    {
        let copied = copy_observation(&input.observations[j]);
        surplus.push(copied);
        assert(surplus@ =~= input.observations@.subrange(n as int, j + 1));
        j = j + 1;
    }
    assert(surplus@ =~= input.observations@.skip(n as int));
    surplus
}

/// Pure reconciliation of retained expectations against supplied provider
/// observations. No adapter is invoked and no supplied evidence is
/// authenticated; every finding is retained and the receipt result is the
/// fail-closed aggregate. Observations beyond the candidate rows are kept,
/// unpaired, as surplus.
pub fn evaluate_final_registry_preflight_v1(input: &FinalRegistryPreflightInputV1) -> (r:
    CargoAllowFinalRegistryPreflightV1)
    ensures
        r.schema_id@ == FINAL_REGISTRY_PREFLIGHT_SCHEMA_ID@,
        r.schema_version == FINAL_REGISTRY_PREFLIGHT_SCHEMA_VERSION,
        r.observed_context == input.observed_context,
        r.current_context == input.current_context,
        r.evaluated_at_unix_seconds == input.evaluated_at_unix_seconds,
        r.maximum_age_seconds == input.maximum_age_seconds,
        findings_view(r.findings@) == global_findings(*input),
        rows_view(r.upload_rows@) == upload_rows_spec(*input),
        rows_view(r.shared_prerequisites@) == shared_rows_spec(*input),
        r.surplus_observations@ == surplus_spec(*input),
        r.result == preflight_result(*input),
{
    let findings = global_checks(input);
    let (upload_rows, shared_prerequisites) = evaluate_rows(input, &findings);
    let surplus = surplus_observations(input);
    let ghost g = findings_view(findings@);
    let base = aggregate_more(
        FinalRegistryPreflightResultV1::Complete,
        &findings,
        Ghost(Seq::empty()),
    );
    assert(Seq::<PreflightFindingView>::empty() + g =~= g);
    let with_uploads = aggregate_rows(base, &upload_rows, Ghost(g));
    let result = aggregate_rows(
        with_uploads,
        &shared_prerequisites,
        Ghost(g + row_findings_flat(rows_view(upload_rows@))),
    );
    CargoAllowFinalRegistryPreflightV1 {
        schema_id: FINAL_REGISTRY_PREFLIGHT_SCHEMA_ID.to_string(),
        schema_version: FINAL_REGISTRY_PREFLIGHT_SCHEMA_VERSION,
        observed_context: copy_context(&input.observed_context),
        current_context: copy_context(&input.current_context),
        evaluated_at_unix_seconds: input.evaluated_at_unix_seconds,
        maximum_age_seconds: input.maximum_age_seconds,
        result,
        findings,
        upload_rows,
        shared_prerequisites,
        surplus_observations: surplus,
    }
}

// ---------------------------------------------------------------------------
// Laws.
// ---------------------------------------------------------------------------

proof fn lemma_aggregate_concat(a: Seq<PreflightFindingView>, b: Seq<PreflightFindingView>)
    ensures
        aggregate(a + b).rank() == if aggregate(a).rank() <= aggregate(b).rank() {
            aggregate(a).rank()
        } else {
            aggregate(b).rank()
        },
    decreases b.len(),
{
    if b.len() == 0 {
        assert(a + b =~= a);
    } else {
        assert((a + b).drop_last() =~= a + b.drop_last());
        assert((a + b).last() == b.last());
        lemma_aggregate_concat(a, b.drop_last());
    }
}

/// The receipt is never better than any single finding: the aggregate is
/// fail-closed under the fixed precedence.
pub proof fn lemma_aggregate_is_worst_finding(s: Seq<PreflightFindingView>, k: int)
    requires
        0 <= k < s.len(),
    ensures
        aggregate(s).rank() <= s[k].0.rank(),
    decreases s.len(),
{
    if k < s.len() - 1 {
        lemma_aggregate_is_worst_finding(s.drop_last(), k);
    }
}

proof fn lemma_context_upto_le(
    observed: FinalRegistryContextV1,
    current: FinalRegistryContextV1,
    n: nat,
    k: int,
)
    requires
        0 <= k < n,
    ensures
        aggregate(seg_context_upto(observed, current, n)).rank() <= aggregate(
            seg_context_field(observed, current, k),
        ).rank(),
    decreases n,
{
    lemma_aggregate_concat(
        seg_context_upto(observed, current, (n - 1) as nat),
        seg_context_field(observed, current, n - 1),
    );
    if k < n - 1 {
        lemma_context_upto_le(observed, current, (n - 1) as nat, k);
    }
}

proof fn lemma_moved_field_is_stale(o: FinalRegistryContextV1, c: FinalRegistryContextV1, k: int)
    requires
        context_value(o, k) != context_value(c, k),
    ensures
        aggregate(seg_context_field(o, c, k)).rank() <= FinalRegistryPreflightResultV1::Stale.rank(),
{
    reveal(flag);
    let malformed = flag(
        blank(context_value(o, k)) || blank(context_value(c, k)) || (context_is_digest(k) && (!digest_ok(
            context_value(o, k),
        ) || !digest_ok(context_value(c, k)))),
        FinalRegistryPreflightResultV1::Malformed,
        "invalid context "@ + context_name(k),
    );
    let moved = flag(true, FinalRegistryPreflightResultV1::Stale, "context moved: "@ + context_name(k));
    lemma_aggregate_concat(malformed, moved);
    assert(moved.len() == 1);
    assert(moved.drop_last() =~= Seq::<PreflightFindingView>::empty());
    assert(aggregate(Seq::<PreflightFindingView>::empty()) == FinalRegistryPreflightResultV1::Complete);
    assert(moved.last().0 == FinalRegistryPreflightResultV1::Stale);
    assert(aggregate(moved) == FinalRegistryPreflightResultV1::Stale);
}

/// A moved context is never fresh: when any bound context field differs
/// between the observed and the current context, the receipt is `Stale`
/// or worse.
pub proof fn lemma_moved_context_is_stale(i: FinalRegistryPreflightInputV1, k: int)
    requires
        0 <= k < 8,
        context_value(i.observed_context, k) != context_value(i.current_context, k),
    ensures
        preflight_result(i).rank() <= FinalRegistryPreflightResultV1::Stale.rank(),
{
    lemma_moved_field_is_stale(i.observed_context, i.current_context, k);
    lemma_context_upto_le(i.observed_context, i.current_context, 8, k);
    let a = seg_generation(i) + seg_candidate(i.candidate) + seg_dependency_versions(
        i.candidate.rows@,
        i.candidate.rows@.len(),
    ) + seg_topology(i.candidate) + seg_counts(i);
    let c = seg_context_upto(i.observed_context, i.current_context, 8);
    let b = seg_bindings(i);
    let f = flag(
        i.maximum_age_seconds == 0,
        FinalRegistryPreflightResultV1::Malformed,
        "freshness window must be positive"@,
    );
    lemma_aggregate_concat(a, c);
    lemma_aggregate_concat(a + c, b);
    lemma_aggregate_concat(a + c + b, f);
    let g = global_findings(i);
    assert(g == a + c + b + f);
    let r1 = row_findings_flat(upload_rows_spec(i));
    let r2 = row_findings_flat(shared_rows_spec(i));
    lemma_aggregate_concat(g, r1);
    lemma_aggregate_concat(g + r1, r2);
}

/// `Complete` means no finding at all was raised.
pub proof fn lemma_complete_has_no_findings(s: Seq<PreflightFindingView>)
    requires
        aggregate(s) == FinalRegistryPreflightResultV1::Complete,
    ensures
        forall|k: int| 0 <= k < s.len() ==> (#[trigger] s[k]).0 == FinalRegistryPreflightResultV1::Complete,
{
    assert forall|k: int| 0 <= k < s.len() implies (#[trigger] s[k]).0 == FinalRegistryPreflightResultV1::Complete by {
        lemma_aggregate_is_worst_finding(s, k);
    }
}

} // verus!
