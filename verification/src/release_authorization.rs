//! Production one-operation release authorization contract.
//!
//! The compiler validates an exact authorization document against the frozen
//! candidate facts it names. It performs no network access, reads no
//! credentials, creates no tags, uploads nothing, and mutates no live state:
//! modeling authority is not granting it. A document whose digest appears in
//! the frozen file inventory is rejected.

use vstd::prelude::*;
use vstd::utf8::encode_utf8;
use crate::digest::{digest_text, text_digest};
use crate::final_registry_preflight::FinalRegistryPreflightResultV1;
use crate::json::{
    json_arr, json_bool, json_obj, json_str, json_str_array, kv, string_views, json_string_array,
    JsonList,
};
use crate::release_identity::{valid_identity, ReleaseIdentityV1};
use crate::text::{
    is_lower_sha256_digest,
    lemma_concat_assoc,
    blank, cat, cat3, decimal, decimal_string, eq_ignore_ascii_case, is_blank, is_git_sha,
    is_git_sha_str, is_sha256_digest, is_sha256_digest_str, str_eq, str_eq_ignore_ascii_case,
};

verus! {

pub const RELEASE_AUTHORIZATION_SCHEMA_ID: &'static str = "cargo-allow.release-authorization.v1";

pub const RELEASE_AUTHORIZATION_SCHEMA_VERSION: u32 = 1;

/// The single clean final operation this generation may authorize.
pub const RELEASE_AUTHORIZATION_FINAL_OPERATION: &'static str = "publish_cargo_allow_final_0_2_0";

/// The single recovery operation this generation may authorize.
pub const RELEASE_AUTHORIZATION_RECOVERY_OPERATION: &'static str = "publish_cargo_allow_recovery_0_2_0";

pub const RELEASE_AUTHORIZATION_FINAL_VERSION: &'static str = "0.2.0";

pub const RELEASE_AUTHORIZATION_FINAL_TAG: &'static str = "v0.2.0";

pub const RELEASE_AUTHORIZATION_STABLE_CHANNEL: &'static str = "stable";

/// Only this authentication class may carry the clean final operation.
pub const RELEASE_AUTHORIZATION_AUTH_CLASS: &'static str = "crates_io_api_token";

/// Structured maintainer statements longer than this (in UTF-8 bytes) are
/// unbounded prose.
pub const RELEASE_AUTHORIZATION_MAX_STATEMENT_LEN: usize = 2000;

/// The frozen topology generation the final denominator belongs to.
pub const RELEASE_AUTHORIZATION_TOPOLOGY_ID: &'static str = "CARGO-ALLOW-PKG-TOPOLOGY-V2-0001";

/// Exact final denominator in release order: (logical_id, package, version, shared).
pub const RELEASE_AUTHORIZATION_SELECTION: [(&'static str, &'static str, &'static str, bool); 13] = [
    ("allow-core", "allow-core", "0.2.0", false),
    ("allow-policy", "allow-policy", "0.2.0", false),
    ("allow-inventory", "allow-inventory", "0.2.0", false),
    ("allow-files", "allow-files", "0.2.0", false),
    ("allow-rust", "allow-rust", "0.2.0", false),
    ("allow-match", "allow-match", "0.2.0", false),
    ("allow-report", "allow-report", "0.2.0", false),
    ("allow-policy-legacy", "allow-policy-legacy", "0.2.0", false),
    ("repo-protocol", "effortless-repo-protocol", "0.1.0", true),
    ("repo-snapshot", "effortless-repo-snapshot", "0.1.0", true),
    ("repo-edit", "effortless-repo-edit", "0.1.0", true),
    ("allow-diff", "allow-diff", "0.2.0", false),
    ("cargo-allow", "cargo-allow", "0.2.0", false),
];

#[derive(Debug, Clone, Copy, PartialEq, Eq, Structural)]
pub enum ReleaseAuthorizationAuthorityKindV1 {
    Clean,
    Recovery,
}

#[derive(Debug, Clone, PartialEq, Eq)]
pub struct ReleaseAuthorizationOperationV1 {
    pub name: String,
    pub version: String,
    pub tag: String,
    pub channel: String,
    pub github_prerelease: bool,
    pub authority_kind: ReleaseAuthorizationAuthorityKindV1,
}

#[derive(Debug, Clone, PartialEq, Eq)]
pub struct ReleaseAuthorizationPackageRowV1 {
    pub logical_id: String,
    pub package_name: String,
    pub package_version: String,
    pub package_digest: String,
    pub package_size_bytes: u64,
}

#[derive(Debug, Clone, PartialEq, Eq)]
pub struct ReleaseAuthorizationSharedRowV1 {
    pub logical_id: String,
    pub package_name: String,
    pub package_version: String,
    pub expected_checksum: String,
    pub authority_digest: String,
}

#[derive(Debug, Clone, PartialEq, Eq)]
pub struct ReleaseAuthorizationFreezeV1 {
    pub receipt_digest: String,
    pub candidate_digest: String,
    pub denominator_digest: String,
    pub commit: String,
    pub tree: String,
    pub lock_digest: String,
    pub topology_id: String,
    pub packages: Vec<ReleaseAuthorizationPackageRowV1>,
    pub shared_prerequisites: Vec<ReleaseAuthorizationSharedRowV1>,
}

#[derive(Debug, Clone, PartialEq, Eq)]
pub struct ReleaseAuthorizationEvidenceV1 {
    pub package_docs_digest: String,
    pub preflight_result: FinalRegistryPreflightResultV1,
    pub preflight_evaluated_at_unix_seconds: u64,
    pub preflight_maximum_age_seconds: u64,
    pub support_digest: String,
    pub manifest_digest: String,
    /// The zero-upload rehearsal is complete in every phase except the
    /// deliberate authorization hold; anything else cannot be authorized.
    pub rehearsal_complete_except_authorization: bool,
    pub rehearsal_digest: String,
    pub source_controls_digest: String,
    pub live_controls_digest: String,
    pub workflow_digest: String,
    pub action_inventory_digest: String,
    pub observed_context_digest: String,
    pub current_context_digest: String,
}

#[derive(Debug, Clone, Copy, PartialEq, Eq, Structural)]
pub enum ReleaseAuthorizationSecretStateV1 {
    Available,
    Unknown,
}

#[derive(Debug, Clone, PartialEq, Eq)]
pub struct ReleaseAuthorizationSecretAvailabilityV1 {
    /// Always true: secret values never travel in authorization documents.
    pub redacted: bool,
    pub state: ReleaseAuthorizationSecretStateV1,
}

#[derive(Debug, Clone, Copy, PartialEq, Eq, Structural)]
pub enum ReleaseAuthorizationSourceKindV1 {
    IssueComment,
    WorkflowDispatch,
}

#[derive(Debug, Clone, PartialEq, Eq)]
pub struct ReleaseAuthorizationSourceV1 {
    pub kind: ReleaseAuthorizationSourceKindV1,
    pub repository: String,
    pub reference: String,
    pub author: String,
    pub body_digest: String,
    pub statement: String,
}

/// One-use lifecycle. Only `Available` may be selected for a run; every other
/// state is terminal for selection and maps to a receipt result.
#[derive(Debug, Clone, Copy, PartialEq, Eq, Structural)]
pub enum ReleaseAuthorizationConsumptionV1 {
    Available,
    SelectedForRun,
    IrreversibleOperationStarted,
    ConsumedComplete,
    ConsumedIncident,
    Expired,
    Revoked,
}

#[derive(Debug, Clone, PartialEq, Eq)]
pub struct ReleaseAuthorizationAuthorityV1 {
    pub selected_auth_class: String,
    pub secret_availability: ReleaseAuthorizationSecretAvailabilityV1,
    pub maintainer_actor: String,
    pub maintainer_role: String,
    pub source: ReleaseAuthorizationSourceV1,
    pub created_at_unix_seconds: u64,
    pub expires_at_unix_seconds: u64,
    pub one_run_scope: bool,
    pub nonce: String,
    pub prior_consumptions: Vec<String>,
    pub consumption: ReleaseAuthorizationConsumptionV1,
}

#[derive(Debug, Clone, PartialEq, Eq)]
pub struct ReleaseAuthorizationInputV1 {
    pub schema_id: String,
    pub schema_version: u32,
    pub operation: ReleaseAuthorizationOperationV1,
    pub freeze: ReleaseAuthorizationFreezeV1,
    pub evidence: ReleaseAuthorizationEvidenceV1,
    pub authority: ReleaseAuthorizationAuthorityV1,
    /// Digest inventory of the frozen tree. A document whose digest appears
    /// here authorized itself and is rejected.
    pub frozen_file_digests: Vec<String>,
    pub evaluated_at_unix_seconds: u64,
}

/// Ordered by fail-closed aggregate precedence.
#[derive(Debug, Clone, Copy, PartialEq, Eq, Structural)]
pub enum ReleaseAuthorizationResultV1 {
    Unsupported,
    Malformed,
    InstrumentFailure,
    Unauthorized,
    Mismatch,
    Expired,
    Reused,
    Stale,
    Complete,
}

#[derive(Debug, Clone, PartialEq, Eq)]
pub struct ReleaseAuthorizationFindingV1 {
    pub result: ReleaseAuthorizationResultV1,
    pub reason: String,
}

#[derive(Debug, Clone, PartialEq, Eq)]
pub struct CargoAllowReleaseAuthorizationV1 {
    pub schema_id: String,
    pub schema_version: u32,
    pub result: ReleaseAuthorizationResultV1,
    pub findings: Vec<ReleaseAuthorizationFindingV1>,
    /// Non-blocking residual risks (e.g. unproven registry permission).
    /// A Complete receipt with caveats is authority with eyes open.
    pub caveats: Vec<String>,
    /// Canonical digest of the compiled authorization document.
    pub authorization_digest: String,
    pub evaluated_at_unix_seconds: u64,
}

impl ReleaseAuthorizationAuthorityKindV1 {
    pub open spec fn wire(self) -> Seq<char> {
        match self {
            Self::Clean => "clean"@,
            Self::Recovery => "recovery"@,
        }
    }

    pub fn wire_label(self) -> (r: &'static str)
        ensures
            r@ == self.wire(),
    {
        match self {
            Self::Clean => "clean",
            Self::Recovery => "recovery",
        }
    }
}

impl ReleaseAuthorizationSecretStateV1 {
    pub open spec fn wire(self) -> Seq<char> {
        match self {
            Self::Available => "available"@,
            Self::Unknown => "unknown"@,
        }
    }

    pub fn wire_label(self) -> (r: &'static str)
        ensures
            r@ == self.wire(),
    {
        match self {
            Self::Available => "available",
            Self::Unknown => "unknown",
        }
    }
}

impl ReleaseAuthorizationSourceKindV1 {
    pub open spec fn wire(self) -> Seq<char> {
        match self {
            Self::IssueComment => "issue_comment"@,
            Self::WorkflowDispatch => "workflow_dispatch"@,
        }
    }

    pub fn wire_label(self) -> (r: &'static str)
        ensures
            r@ == self.wire(),
    {
        match self {
            Self::IssueComment => "issue_comment",
            Self::WorkflowDispatch => "workflow_dispatch",
        }
    }
}

impl ReleaseAuthorizationConsumptionV1 {
    pub open spec fn wire(self) -> Seq<char> {
        match self {
            Self::Available => "available"@,
            Self::SelectedForRun => "selected_for_run"@,
            Self::IrreversibleOperationStarted => "irreversible_operation_started"@,
            Self::ConsumedComplete => "consumed_complete"@,
            Self::ConsumedIncident => "consumed_incident"@,
            Self::Expired => "expired"@,
            Self::Revoked => "revoked"@,
        }
    }

    pub fn wire_label(self) -> (r: &'static str)
        ensures
            r@ == self.wire(),
    {
        match self {
            Self::Available => "available",
            Self::SelectedForRun => "selected_for_run",
            Self::IrreversibleOperationStarted => "irreversible_operation_started",
            Self::ConsumedComplete => "consumed_complete",
            Self::ConsumedIncident => "consumed_incident",
            Self::Expired => "expired",
            Self::Revoked => "revoked",
        }
    }
}

impl ReleaseAuthorizationResultV1 {
    /// Position in the fail-closed precedence; the smallest present wins.
    pub open spec fn rank(self) -> nat {
        match self {
            Self::Unsupported => 0,
            Self::Malformed => 1,
            Self::InstrumentFailure => 2,
            Self::Unauthorized => 3,
            Self::Mismatch => 4,
            Self::Expired => 5,
            Self::Reused => 6,
            Self::Stale => 7,
            Self::Complete => 8,
        }
    }

    pub fn rank_of(self) -> (r: u8)
        ensures
            r as nat == self.rank(),
    {
        match self {
            Self::Unsupported => 0,
            Self::Malformed => 1,
            Self::InstrumentFailure => 2,
            Self::Unauthorized => 3,
            Self::Mismatch => 4,
            Self::Expired => 5,
            Self::Reused => 6,
            Self::Stale => 7,
            Self::Complete => 8,
        }
    }
}

// ---------------------------------------------------------------------------
// Canonical JSON of the document parts that digests bind.
// ---------------------------------------------------------------------------

pub open spec fn json_package_row(r: ReleaseAuthorizationPackageRowV1) -> Seq<char> {
    json_obj(
        Seq::empty()
            .push(kv("logical_id"@, json_str(r.logical_id@)))
            .push(kv("package_name"@, json_str(r.package_name@)))
            .push(kv("package_version"@, json_str(r.package_version@)))
            .push(kv("package_digest"@, json_str(r.package_digest@)))
            .push(kv("package_size_bytes"@, decimal(r.package_size_bytes as nat))),
    )
}

pub open spec fn json_shared_row(r: ReleaseAuthorizationSharedRowV1) -> Seq<char> {
    json_obj(
        Seq::empty()
            .push(kv("logical_id"@, json_str(r.logical_id@)))
            .push(kv("package_name"@, json_str(r.package_name@)))
            .push(kv("package_version"@, json_str(r.package_version@)))
            .push(kv("expected_checksum"@, json_str(r.expected_checksum@)))
            .push(kv("authority_digest"@, json_str(r.authority_digest@))),
    )
}

pub open spec fn json_package_rows(v: Seq<ReleaseAuthorizationPackageRowV1>) -> Seq<char> {
    json_arr(v.map_values(|r: ReleaseAuthorizationPackageRowV1| json_package_row(r)))
}

pub open spec fn json_shared_rows(v: Seq<ReleaseAuthorizationSharedRowV1>) -> Seq<char> {
    json_arr(v.map_values(|r: ReleaseAuthorizationSharedRowV1| json_shared_row(r)))
}

/// The tuple `(topology, commit, tree, lock, packages, shared)` as JSON.
pub open spec fn json_denominator(f: ReleaseAuthorizationFreezeV1) -> Seq<char> {
    json_arr(
        Seq::empty()
            .push(json_str(f.topology_id@))
            .push(json_str(f.commit@))
            .push(json_str(f.tree@))
            .push(json_str(f.lock_digest@))
            .push(json_package_rows(f.packages@))
            .push(json_shared_rows(f.shared_prerequisites@)),
    )
}

/// Canonical binding over the full frozen denominator.
#[verifier::opaque]
pub open spec fn denominator_binding(f: ReleaseAuthorizationFreezeV1) -> Seq<char> {
    text_digest(json_denominator(f))
}

pub open spec fn json_operation(o: ReleaseAuthorizationOperationV1) -> Seq<char> {
    json_obj(
        Seq::empty()
            .push(kv("name"@, json_str(o.name@)))
            .push(kv("version"@, json_str(o.version@)))
            .push(kv("tag"@, json_str(o.tag@)))
            .push(kv("channel"@, json_str(o.channel@)))
            .push(kv("github_prerelease"@, json_bool(o.github_prerelease)))
            .push(kv("authority_kind"@, json_str(o.authority_kind.wire()))),
    )
}

pub open spec fn json_freeze(f: ReleaseAuthorizationFreezeV1) -> Seq<char> {
    json_obj(
        Seq::empty()
            .push(kv("receipt_digest"@, json_str(f.receipt_digest@)))
            .push(kv("candidate_digest"@, json_str(f.candidate_digest@)))
            .push(kv("denominator_digest"@, json_str(f.denominator_digest@)))
            .push(kv("commit"@, json_str(f.commit@)))
            .push(kv("tree"@, json_str(f.tree@)))
            .push(kv("lock_digest"@, json_str(f.lock_digest@)))
            .push(kv("topology_id"@, json_str(f.topology_id@)))
            .push(kv("packages"@, json_package_rows(f.packages@)))
            .push(kv("shared_prerequisites"@, json_shared_rows(f.shared_prerequisites@))),
    )
}

pub open spec fn json_evidence(e: ReleaseAuthorizationEvidenceV1) -> Seq<char> {
    json_obj(
        Seq::empty()
            .push(kv("package_docs_digest"@, json_str(e.package_docs_digest@)))
            .push(kv("preflight_result"@, json_str(e.preflight_result.wire())))
            .push(kv(
                "preflight_evaluated_at_unix_seconds"@,
                decimal(e.preflight_evaluated_at_unix_seconds as nat),
            )).push(kv("preflight_maximum_age_seconds"@, decimal(e.preflight_maximum_age_seconds as nat))).push(kv("support_digest"@, json_str(e.support_digest@))).push(kv("manifest_digest"@, json_str(e.manifest_digest@))).push(kv(
                "rehearsal_complete_except_authorization"@,
                json_bool(e.rehearsal_complete_except_authorization),
            )).push(kv("rehearsal_digest"@, json_str(e.rehearsal_digest@))).push(kv("source_controls_digest"@, json_str(e.source_controls_digest@))).push(kv("live_controls_digest"@, json_str(e.live_controls_digest@))).push(kv("workflow_digest"@, json_str(e.workflow_digest@))).push(kv("action_inventory_digest"@, json_str(e.action_inventory_digest@))).push(kv("observed_context_digest"@, json_str(e.observed_context_digest@))).push(kv("current_context_digest"@, json_str(e.current_context_digest@))),
    )
}

pub open spec fn json_source(s: ReleaseAuthorizationSourceV1) -> Seq<char> {
    json_obj(
        Seq::empty()
            .push(kv("kind"@, json_str(s.kind.wire())))
            .push(kv("repository"@, json_str(s.repository@)))
            .push(kv("reference"@, json_str(s.reference@)))
            .push(kv("author"@, json_str(s.author@)))
            .push(kv("body_digest"@, json_str(s.body_digest@)))
            .push(kv("statement"@, json_str(s.statement@))),
    )
}

pub open spec fn json_authority(a: ReleaseAuthorizationAuthorityV1) -> Seq<char> {
    json_obj(
        Seq::empty().push(kv("selected_auth_class"@, json_str(a.selected_auth_class@))).push(kv(
                "secret_availability"@,
                json_obj(
                    Seq::empty()
                        .push(kv("redacted"@, json_bool(a.secret_availability.redacted)))
                        .push(kv("state"@, json_str(a.secret_availability.state.wire()))),
                ),
            )).push(kv("maintainer_actor"@, json_str(a.maintainer_actor@))).push(kv("maintainer_role"@, json_str(a.maintainer_role@))).push(kv("source"@, json_source(a.source))).push(kv("created_at_unix_seconds"@, decimal(a.created_at_unix_seconds as nat))).push(kv("expires_at_unix_seconds"@, decimal(a.expires_at_unix_seconds as nat))).push(kv("one_run_scope"@, json_bool(a.one_run_scope))).push(kv("nonce"@, json_str(a.nonce@))).push(kv("prior_consumptions"@, json_str_array(string_views(a.prior_consumptions@)))).push(kv("consumption"@, json_str(a.consumption.wire()))),
    )
}

/// The statement tuple: every document part except the frozen file inventory.
pub open spec fn json_statement(i: ReleaseAuthorizationInputV1) -> Seq<char> {
    json_arr(
        Seq::empty()
            .push(json_str(i.schema_id@))
            .push(decimal(i.schema_version as nat))
            .push(json_operation(i.operation))
            .push(json_freeze(i.freeze))
            .push(json_evidence(i.evidence))
            .push(json_authority(i.authority))
            .push(decimal(i.evaluated_at_unix_seconds as nat)),
    )
}

/// Canonical digest of the authorization statement.
#[verifier::opaque]
pub open spec fn statement_digest(i: ReleaseAuthorizationInputV1) -> Seq<char> {
    text_digest(json_statement(i))
}

fn render_package_row(r: &ReleaseAuthorizationPackageRowV1) -> (s: String)
    ensures
        s@ == json_package_row(*r),
{
    let mut l = JsonList::new();
    l.push_str_member("logical_id", r.logical_id.as_str());
    l.push_str_member("package_name", r.package_name.as_str());
    l.push_str_member("package_version", r.package_version.as_str());
    l.push_str_member("package_digest", r.package_digest.as_str());
    l.push_u64_member("package_size_bytes", r.package_size_bytes);
    assert(l.items@ == Seq::empty()
        .push(kv("logical_id"@, json_str(r.logical_id@)))
        .push(kv("package_name"@, json_str(r.package_name@)))
        .push(kv("package_version"@, json_str(r.package_version@)))
        .push(kv("package_digest"@, json_str(r.package_digest@)))
        .push(kv("package_size_bytes"@, decimal(r.package_size_bytes as nat))));
    l.finish_object()
}

fn render_shared_row(r: &ReleaseAuthorizationSharedRowV1) -> (s: String)
    ensures
        s@ == json_shared_row(*r),
{
    let mut l = JsonList::new();
    l.push_str_member("logical_id", r.logical_id.as_str());
    l.push_str_member("package_name", r.package_name.as_str());
    l.push_str_member("package_version", r.package_version.as_str());
    l.push_str_member("expected_checksum", r.expected_checksum.as_str());
    l.push_str_member("authority_digest", r.authority_digest.as_str());
    assert(l.items@ == Seq::empty()
        .push(kv("logical_id"@, json_str(r.logical_id@)))
        .push(kv("package_name"@, json_str(r.package_name@)))
        .push(kv("package_version"@, json_str(r.package_version@)))
        .push(kv("expected_checksum"@, json_str(r.expected_checksum@)))
        .push(kv("authority_digest"@, json_str(r.authority_digest@))));
    l.finish_object()
}

fn render_package_rows(v: &Vec<ReleaseAuthorizationPackageRowV1>) -> (s: String)
    ensures
        s@ == json_package_rows(v@),
{
    let mut l = JsonList::new();
    let mut i: usize = 0;
    assert(v@.take(0).map_values(|r: ReleaseAuthorizationPackageRowV1| json_package_row(r))
        =~= Seq::<Seq<char>>::empty());
    while i < v.len()
        invariant
            i <= v.len(),
            l.wf(),
            l.count == i,
            l.items@ == v@.take(i as int).map_values(
                |r: ReleaseAuthorizationPackageRowV1| json_package_row(r),
            ),
        decreases v.len() - i,
    {
        let piece = render_package_row(&v[i]);
        l.push_raw(piece.as_str());
        assert(v@.take(i + 1).map_values(|r: ReleaseAuthorizationPackageRowV1| json_package_row(r))
            =~= v@.take(i as int).map_values(
            |r: ReleaseAuthorizationPackageRowV1| json_package_row(r),
        ).push(piece@));
        i = i + 1;
    }
    assert(v@.take(v@.len() as int) =~= v@);
    l.finish_array()
}

fn render_shared_rows(v: &Vec<ReleaseAuthorizationSharedRowV1>) -> (s: String)
    ensures
        s@ == json_shared_rows(v@),
{
    let mut l = JsonList::new();
    let mut i: usize = 0;
    assert(v@.take(0).map_values(|r: ReleaseAuthorizationSharedRowV1| json_shared_row(r))
        =~= Seq::<Seq<char>>::empty());
    while i < v.len()
        invariant
            i <= v.len(),
            l.wf(),
            l.count == i,
            l.items@ == v@.take(i as int).map_values(
                |r: ReleaseAuthorizationSharedRowV1| json_shared_row(r),
            ),
        decreases v.len() - i,
    {
        let piece = render_shared_row(&v[i]);
        l.push_raw(piece.as_str());
        assert(v@.take(i + 1).map_values(|r: ReleaseAuthorizationSharedRowV1| json_shared_row(r))
            =~= v@.take(i as int).map_values(
            |r: ReleaseAuthorizationSharedRowV1| json_shared_row(r),
        ).push(piece@));
        i = i + 1;
    }
    assert(v@.take(v@.len() as int) =~= v@);
    l.finish_array()
}

fn render_json_str(s: &str) -> (r: String)
    ensures
        r@ == json_str(s@),
{
    let mut out = String::new();
    crate::json::push_json_str(&mut out, s);
    out
}

fn render_denominator(f: &ReleaseAuthorizationFreezeV1) -> (s: String)
    ensures
        s@ == json_denominator(*f),
{
    let mut l = JsonList::new();
    let a = render_json_str(f.topology_id.as_str());
    l.push_raw(a.as_str());
    let b = render_json_str(f.commit.as_str());
    l.push_raw(b.as_str());
    let c = render_json_str(f.tree.as_str());
    l.push_raw(c.as_str());
    let d = render_json_str(f.lock_digest.as_str());
    l.push_raw(d.as_str());
    let e = render_package_rows(&f.packages);
    l.push_raw(e.as_str());
    let g = render_shared_rows(&f.shared_prerequisites);
    l.push_raw(g.as_str());
    assert(l.items@ == Seq::empty()
        .push(json_str(f.topology_id@))
        .push(json_str(f.commit@))
        .push(json_str(f.tree@))
        .push(json_str(f.lock_digest@))
        .push(json_package_rows(f.packages@))
        .push(json_shared_rows(f.shared_prerequisites@)));
    l.finish_array()
}

/// Canonical binding over the full frozen denominator. Any moved commit,
/// tree, lockfile, topology, package, or shared row changes the binding.
pub fn release_authorization_denominator_binding_v1(freeze: &ReleaseAuthorizationFreezeV1) -> (r:
    String)
    ensures
        r@ == denominator_binding(*freeze),
        is_sha256_digest(r@),
{
    let body = render_denominator(freeze);
    proof {
        reveal(denominator_binding);
    }
    digest_text(body.as_str())
}

pub(crate) fn render_operation(o: &ReleaseAuthorizationOperationV1) -> (s: String)
    ensures
        s@ == json_operation(*o),
{
    let mut l = JsonList::new();
    l.push_str_member("name", o.name.as_str());
    l.push_str_member("version", o.version.as_str());
    l.push_str_member("tag", o.tag.as_str());
    l.push_str_member("channel", o.channel.as_str());
    l.push_bool_member("github_prerelease", o.github_prerelease);
    l.push_str_member("authority_kind", o.authority_kind.wire_label());
    assert(l.items@ == Seq::empty()
        .push(kv("name"@, json_str(o.name@)))
        .push(kv("version"@, json_str(o.version@)))
        .push(kv("tag"@, json_str(o.tag@)))
        .push(kv("channel"@, json_str(o.channel@)))
        .push(kv("github_prerelease"@, json_bool(o.github_prerelease)))
        .push(kv("authority_kind"@, json_str(o.authority_kind.wire()))));
    l.finish_object()
}

pub(crate) fn render_freeze(f: &ReleaseAuthorizationFreezeV1) -> (s: String)
    ensures
        s@ == json_freeze(*f),
{
    let mut l = JsonList::new();
    l.push_str_member("receipt_digest", f.receipt_digest.as_str());
    l.push_str_member("candidate_digest", f.candidate_digest.as_str());
    l.push_str_member("denominator_digest", f.denominator_digest.as_str());
    l.push_str_member("commit", f.commit.as_str());
    l.push_str_member("tree", f.tree.as_str());
    l.push_str_member("lock_digest", f.lock_digest.as_str());
    l.push_str_member("topology_id", f.topology_id.as_str());
    let p = render_package_rows(&f.packages);
    l.push_member("packages", p.as_str());
    let q = render_shared_rows(&f.shared_prerequisites);
    l.push_member("shared_prerequisites", q.as_str());
    assert(l.items@ == Seq::empty()
        .push(kv("receipt_digest"@, json_str(f.receipt_digest@)))
        .push(kv("candidate_digest"@, json_str(f.candidate_digest@)))
        .push(kv("denominator_digest"@, json_str(f.denominator_digest@)))
        .push(kv("commit"@, json_str(f.commit@)))
        .push(kv("tree"@, json_str(f.tree@)))
        .push(kv("lock_digest"@, json_str(f.lock_digest@)))
        .push(kv("topology_id"@, json_str(f.topology_id@)))
        .push(kv("packages"@, json_package_rows(f.packages@)))
        .push(kv("shared_prerequisites"@, json_shared_rows(f.shared_prerequisites@))));
    l.finish_object()
}

pub(crate) fn render_evidence(e: &ReleaseAuthorizationEvidenceV1) -> (s: String)
    ensures
        s@ == json_evidence(*e),
{
    let mut l = JsonList::new();
    l.push_str_member("package_docs_digest", e.package_docs_digest.as_str());
    l.push_str_member("preflight_result", e.preflight_result.wire_label());
    l.push_u64_member("preflight_evaluated_at_unix_seconds", e.preflight_evaluated_at_unix_seconds);
    l.push_u64_member("preflight_maximum_age_seconds", e.preflight_maximum_age_seconds);
    l.push_str_member("support_digest", e.support_digest.as_str());
    l.push_str_member("manifest_digest", e.manifest_digest.as_str());
    l.push_bool_member(
        "rehearsal_complete_except_authorization",
        e.rehearsal_complete_except_authorization,
    );
    l.push_str_member("rehearsal_digest", e.rehearsal_digest.as_str());
    l.push_str_member("source_controls_digest", e.source_controls_digest.as_str());
    l.push_str_member("live_controls_digest", e.live_controls_digest.as_str());
    l.push_str_member("workflow_digest", e.workflow_digest.as_str());
    l.push_str_member("action_inventory_digest", e.action_inventory_digest.as_str());
    l.push_str_member("observed_context_digest", e.observed_context_digest.as_str());
    l.push_str_member("current_context_digest", e.current_context_digest.as_str());
    assert(l.items@ == Seq::empty()
        .push(kv("package_docs_digest"@, json_str(e.package_docs_digest@)))
        .push(kv("preflight_result"@, json_str(e.preflight_result.wire())))
        .push(kv(
            "preflight_evaluated_at_unix_seconds"@,
            decimal(e.preflight_evaluated_at_unix_seconds as nat),
        )).push(kv("preflight_maximum_age_seconds"@, decimal(e.preflight_maximum_age_seconds as nat))).push(kv("support_digest"@, json_str(e.support_digest@))).push(kv("manifest_digest"@, json_str(e.manifest_digest@))).push(kv(
            "rehearsal_complete_except_authorization"@,
            json_bool(e.rehearsal_complete_except_authorization),
        )).push(kv("rehearsal_digest"@, json_str(e.rehearsal_digest@))).push(kv("source_controls_digest"@, json_str(e.source_controls_digest@))).push(kv("live_controls_digest"@, json_str(e.live_controls_digest@))).push(kv("workflow_digest"@, json_str(e.workflow_digest@))).push(kv("action_inventory_digest"@, json_str(e.action_inventory_digest@))).push(kv("observed_context_digest"@, json_str(e.observed_context_digest@))).push(kv("current_context_digest"@, json_str(e.current_context_digest@))));
    l.finish_object()
}

fn render_source(s: &ReleaseAuthorizationSourceV1) -> (r: String)
    ensures
        r@ == json_source(*s),
{
    let mut l = JsonList::new();
    l.push_str_member("kind", s.kind.wire_label());
    l.push_str_member("repository", s.repository.as_str());
    l.push_str_member("reference", s.reference.as_str());
    l.push_str_member("author", s.author.as_str());
    l.push_str_member("body_digest", s.body_digest.as_str());
    l.push_str_member("statement", s.statement.as_str());
    assert(l.items@ == Seq::empty()
        .push(kv("kind"@, json_str(s.kind.wire())))
        .push(kv("repository"@, json_str(s.repository@)))
        .push(kv("reference"@, json_str(s.reference@)))
        .push(kv("author"@, json_str(s.author@)))
        .push(kv("body_digest"@, json_str(s.body_digest@)))
        .push(kv("statement"@, json_str(s.statement@))));
    l.finish_object()
}

fn render_authority(a: &ReleaseAuthorizationAuthorityV1) -> (s: String)
    ensures
        s@ == json_authority(*a),
{
    let mut sa = JsonList::new();
    sa.push_bool_member("redacted", a.secret_availability.redacted);
    sa.push_str_member("state", a.secret_availability.state.wire_label());
    assert(sa.items@ == Seq::empty()
        .push(kv("redacted"@, json_bool(a.secret_availability.redacted)))
        .push(kv("state"@, json_str(a.secret_availability.state.wire()))));
    let secret = sa.finish_object();
    let mut l = JsonList::new();
    l.push_str_member("selected_auth_class", a.selected_auth_class.as_str());
    l.push_member("secret_availability", secret.as_str());
    l.push_str_member("maintainer_actor", a.maintainer_actor.as_str());
    l.push_str_member("maintainer_role", a.maintainer_role.as_str());
    let source = render_source(&a.source);
    l.push_member("source", source.as_str());
    l.push_u64_member("created_at_unix_seconds", a.created_at_unix_seconds);
    l.push_u64_member("expires_at_unix_seconds", a.expires_at_unix_seconds);
    l.push_bool_member("one_run_scope", a.one_run_scope);
    l.push_str_member("nonce", a.nonce.as_str());
    let prior = json_string_array(&a.prior_consumptions);
    l.push_member("prior_consumptions", prior.as_str());
    l.push_str_member("consumption", a.consumption.wire_label());
    assert(l.items@ == Seq::empty()
        .push(kv("selected_auth_class"@, json_str(a.selected_auth_class@)))
        .push(kv(
            "secret_availability"@,
            json_obj(
                Seq::empty()
                    .push(kv("redacted"@, json_bool(a.secret_availability.redacted)))
                    .push(kv("state"@, json_str(a.secret_availability.state.wire()))),
            ),
        )).push(kv("maintainer_actor"@, json_str(a.maintainer_actor@))).push(kv("maintainer_role"@, json_str(a.maintainer_role@))).push(kv("source"@, json_source(a.source))).push(kv("created_at_unix_seconds"@, decimal(a.created_at_unix_seconds as nat))).push(kv("expires_at_unix_seconds"@, decimal(a.expires_at_unix_seconds as nat))).push(kv("one_run_scope"@, json_bool(a.one_run_scope))).push(kv("nonce"@, json_str(a.nonce@))).push(kv("prior_consumptions"@, json_str_array(string_views(a.prior_consumptions@)))).push(kv("consumption"@, json_str(a.consumption.wire()))));
    l.finish_object()
}

fn render_statement(i: &ReleaseAuthorizationInputV1) -> (s: String)
    ensures
        s@ == json_statement(*i),
{
    let mut l = JsonList::new();
    let a = render_json_str(i.schema_id.as_str());
    l.push_raw(a.as_str());
    let b = decimal_string(i.schema_version as u64);
    l.push_raw(b.as_str());
    let c = render_operation(&i.operation);
    l.push_raw(c.as_str());
    let d = render_freeze(&i.freeze);
    l.push_raw(d.as_str());
    let e = render_evidence(&i.evidence);
    l.push_raw(e.as_str());
    let f = render_authority(&i.authority);
    l.push_raw(f.as_str());
    let g = decimal_string(i.evaluated_at_unix_seconds);
    l.push_raw(g.as_str());
    assert(l.items@ == Seq::empty()
        .push(json_str(i.schema_id@))
        .push(decimal(i.schema_version as nat))
        .push(json_operation(i.operation))
        .push(json_freeze(i.freeze))
        .push(json_evidence(i.evidence))
        .push(json_authority(i.authority))
        .push(decimal(i.evaluated_at_unix_seconds as nat)));
    l.finish_array()
}

/// Canonical digest of the authorization statement. The frozen file
/// inventory is filing metadata, not statement identity: excluding it keeps
/// the digest stable so the inside-the-tree check cannot defeat itself.
pub fn authorization_statement_digest(input: &ReleaseAuthorizationInputV1) -> (r: String)
    ensures
        r@ == statement_digest(*input),
        is_sha256_digest(r@),
        is_lower_sha256_digest(r@),
{
    let body = render_statement(input);
    proof {
        reveal(statement_digest);
    }
    digest_text(body.as_str())
}

// ---------------------------------------------------------------------------
// Findings.
// ---------------------------------------------------------------------------

pub type FindingView = (ReleaseAuthorizationResultV1, Seq<char>);

pub open spec fn finding_view(f: ReleaseAuthorizationFindingV1) -> FindingView {
    (f.result, f.reason@)
}

pub open spec fn findings_view(v: Seq<ReleaseAuthorizationFindingV1>) -> Seq<FindingView> {
    v.map_values(|f: ReleaseAuthorizationFindingV1| finding_view(f))
}

/// One finding when `cond` holds, none otherwise.
#[verifier::opaque]
pub open spec fn flag(cond: bool, result: ReleaseAuthorizationResultV1, reason: Seq<char>) -> Seq<
    FindingView,
> {
    if cond {
        Seq::empty().push((result, reason))
    } else {
        Seq::empty()
    }
}

/// The fail-closed aggregate: the finding result of smallest rank, or
/// `Complete` when there is none.
pub open spec fn aggregate(s: Seq<FindingView>) -> ReleaseAuthorizationResultV1
    decreases s.len(),
{
    if s.len() == 0 {
        ReleaseAuthorizationResultV1::Complete
    } else {
        let rest = aggregate(s.drop_last());
        if s.last().0.rank() < rest.rank() {
            s.last().0
        } else {
            rest
        }
    }
}

pub open spec fn seg_generation(i: ReleaseAuthorizationInputV1) -> Seq<FindingView> {
    flag(
        i.schema_id@ != RELEASE_AUTHORIZATION_SCHEMA_ID@ || i.schema_version
            != RELEASE_AUTHORIZATION_SCHEMA_VERSION,
        ReleaseAuthorizationResultV1::Unsupported,
        "non-current authorization generation"@,
    )
}

pub open spec fn seg_operation(o: ReleaseAuthorizationOperationV1) -> Seq<FindingView> {
    let is_final = o.name@ == RELEASE_AUTHORIZATION_FINAL_OPERATION@;
    let is_recovery = o.name@ == RELEASE_AUTHORIZATION_RECOVERY_OPERATION@;
    let clean = o.authority_kind == ReleaseAuthorizationAuthorityKindV1::Clean;
    flag(
        !(is_final || is_recovery),
        ReleaseAuthorizationResultV1::Mismatch,
        "operation is not the selected final or recovery operation"@,
    ) + (if valid_identity(o.version@, o.tag@, o.github_prerelease) {
        flag(
            is_final && (o.version@ != RELEASE_AUTHORIZATION_FINAL_VERSION@ || o.tag@
                != RELEASE_AUTHORIZATION_FINAL_TAG@ || o.channel@
                != RELEASE_AUTHORIZATION_STABLE_CHANNEL@ || o.github_prerelease),
            ReleaseAuthorizationResultV1::Mismatch,
            "final operation must bind exact 0.2.0 stable identity"@,
        ) + flag(
            blank(o.channel@),
            ReleaseAuthorizationResultV1::Malformed,
            "release channel must be non-blank"@,
        )
    } else {
        flag(
            true,
            ReleaseAuthorizationResultV1::Malformed,
            "operation version/tag/prerelease identity is malformed"@,
        )
    }) + flag(
        is_final && !clean,
        ReleaseAuthorizationResultV1::Mismatch,
        "final operation requires clean publication authority"@,
    ) + flag(
        is_recovery && clean,
        ReleaseAuthorizationResultV1::Mismatch,
        "recovery operation requires recovery authority"@,
    )
}

pub open spec fn seg_freeze_shape(f: ReleaseAuthorizationFreezeV1) -> Seq<FindingView> {
    flag(
        !is_sha256_digest(f.receipt_digest@),
        ReleaseAuthorizationResultV1::Malformed,
        "freeze receipt_digest is malformed/missing"@,
    ) + flag(
        !is_sha256_digest(f.candidate_digest@),
        ReleaseAuthorizationResultV1::Malformed,
        "freeze candidate_digest is malformed/missing"@,
    ) + flag(
        !is_sha256_digest(f.denominator_digest@),
        ReleaseAuthorizationResultV1::Malformed,
        "freeze denominator_digest is malformed/missing"@,
    ) + flag(
        !is_sha256_digest(f.lock_digest@),
        ReleaseAuthorizationResultV1::Malformed,
        "freeze lock_digest is malformed/missing"@,
    ) + flag(
        !is_git_sha(f.commit@),
        ReleaseAuthorizationResultV1::Malformed,
        "freeze commit is not a canonical commit SHA"@,
    ) + flag(
        !is_git_sha(f.tree@),
        ReleaseAuthorizationResultV1::Malformed,
        "freeze tree is not a canonical tree SHA"@,
    ) + flag(
        f.topology_id@ != RELEASE_AUTHORIZATION_TOPOLOGY_ID@,
        ReleaseAuthorizationResultV1::Malformed,
        "freeze topology is not the selected final generation"@,
    ) + flag(
        f.packages@.len() != 10 || f.shared_prerequisites@.len() != 3,
        ReleaseAuthorizationResultV1::Malformed,
        "freeze must carry exactly ten final and three shared rows"@,
    )
}

/// Entry `i` of `RELEASE_AUTHORIZATION_SELECTION`.
pub open spec fn selection(i: int) -> (Seq<char>, Seq<char>, Seq<char>, bool) {
    if i == 0 {
        ("allow-core"@, "allow-core"@, "0.2.0"@, false)
    } else if i == 1 {
        ("allow-policy"@, "allow-policy"@, "0.2.0"@, false)
    } else if i == 2 {
        ("allow-inventory"@, "allow-inventory"@, "0.2.0"@, false)
    } else if i == 3 {
        ("allow-files"@, "allow-files"@, "0.2.0"@, false)
    } else if i == 4 {
        ("allow-rust"@, "allow-rust"@, "0.2.0"@, false)
    } else if i == 5 {
        ("allow-match"@, "allow-match"@, "0.2.0"@, false)
    } else if i == 6 {
        ("allow-report"@, "allow-report"@, "0.2.0"@, false)
    } else if i == 7 {
        ("allow-policy-legacy"@, "allow-policy-legacy"@, "0.2.0"@, false)
    } else if i == 8 {
        ("repo-protocol"@, "effortless-repo-protocol"@, "0.1.0"@, true)
    } else if i == 9 {
        ("repo-snapshot"@, "effortless-repo-snapshot"@, "0.1.0"@, true)
    } else if i == 10 {
        ("repo-edit"@, "effortless-repo-edit"@, "0.1.0"@, true)
    } else if i == 11 {
        ("allow-diff"@, "allow-diff"@, "0.2.0"@, false)
    } else {
        ("cargo-allow"@, "cargo-allow"@, "0.2.0"@, false)
    }
}

/// Number of shared entries before selection entry `i`.
pub open spec fn shared_before(i: int) -> int {
    if i <= 8 {
        0
    } else if i <= 10 {
        i - 8
    } else {
        3
    }
}

pub open spec fn seg_selection_entry(f: ReleaseAuthorizationFreezeV1, i: int) -> Seq<FindingView> {
    let (logical, package, version) = (selection(i).0, selection(i).1, selection(i).2);
    if selection(i).3 {
        let k = shared_before(i);
        if k < f.shared_prerequisites@.len() {
            let row = f.shared_prerequisites@[k];
            flag(
                row.logical_id@ != logical || row.package_name@ != package || row.package_version@
                    != version,
                ReleaseAuthorizationResultV1::Mismatch,
                "shared row "@ + decimal(i as nat) + " differs from the frozen denominator"@,
            ) + flag(
                !is_sha256_digest(row.expected_checksum@) || !is_sha256_digest(
                    row.authority_digest@,
                ),
                ReleaseAuthorizationResultV1::Malformed,
                "shared row "@ + package + " checksum authority is malformed"@,
            )
        } else {
            flag(
                true,
                ReleaseAuthorizationResultV1::Malformed,
                "shared prerequisite row is missing"@,
            )
        }
    } else {
        let k = i - shared_before(i);
        if k < f.packages@.len() {
            let row = f.packages@[k];
            flag(
                row.logical_id@ != logical || row.package_name@ != package || row.package_version@
                    != version,
                ReleaseAuthorizationResultV1::Mismatch,
                "final row "@ + decimal(i as nat) + " differs from the frozen denominator"@,
            ) + flag(
                !is_sha256_digest(row.package_digest@),
                ReleaseAuthorizationResultV1::Malformed,
                "final row "@ + package + " digest is malformed"@,
            )
        } else {
            flag(true, ReleaseAuthorizationResultV1::Malformed, "final package row is missing"@)
        }
    }
}

/// Findings of the first `n` selection entries, in release order.
pub open spec fn seg_selection_upto(f: ReleaseAuthorizationFreezeV1, n: nat) -> Seq<FindingView>
    decreases n,
{
    if n == 0 {
        Seq::empty()
    } else {
        seg_selection_upto(f, (n - 1) as nat) + seg_selection_entry(f, n - 1)
    }
}

pub open spec fn seg_binding(f: ReleaseAuthorizationFreezeV1) -> Seq<FindingView> {
    flag(
        !eq_ignore_ascii_case(denominator_binding(f), f.denominator_digest@),
        ReleaseAuthorizationResultV1::Mismatch,
        "frozen denominator rows do not match the denominator binding"@,
    )
}

pub open spec fn seg_preflight(r: FinalRegistryPreflightResultV1) -> Seq<FindingView> {
    match r {
        FinalRegistryPreflightResultV1::Complete
        | FinalRegistryPreflightResultV1::CompleteWithResidualAuthorityRisk => Seq::empty(),
        FinalRegistryPreflightResultV1::Conflict => flag(
            true,
            ReleaseAuthorizationResultV1::Unauthorized,
            "immutable registry checksum conflict cannot be authorized"@,
        ),
        FinalRegistryPreflightResultV1::Stale
        | FinalRegistryPreflightResultV1::Incomplete
        | FinalRegistryPreflightResultV1::ProviderUnavailable => flag(
            true,
            ReleaseAuthorizationResultV1::Stale,
            "registry preflight is not current; refresh observation before authorization"@,
        ),
        _ => flag(
            true,
            ReleaseAuthorizationResultV1::Malformed,
            "registry preflight evidence is malformed"@,
        ),
    }
}

/// The registry preflight is fresh: not future-dated, positive window, and
/// no older than the window.
pub open spec fn preflight_fresh(i: ReleaseAuthorizationInputV1) -> bool {
    &&& i.evaluated_at_unix_seconds >= i.evidence.preflight_evaluated_at_unix_seconds
    &&& i.evidence.preflight_maximum_age_seconds > 0
    &&& i.evaluated_at_unix_seconds - i.evidence.preflight_evaluated_at_unix_seconds
        <= i.evidence.preflight_maximum_age_seconds
}

pub open spec fn seg_context(e: ReleaseAuthorizationEvidenceV1) -> Seq<FindingView> {
    if blank(e.observed_context_digest@) || blank(e.current_context_digest@) {
        flag(
            true,
            ReleaseAuthorizationResultV1::Malformed,
            "evidence context digests must be non-blank"@,
        )
    } else {
        flag(
            !eq_ignore_ascii_case(e.observed_context_digest@, e.current_context_digest@),
            ReleaseAuthorizationResultV1::Stale,
            "workflow/principal/environment/control movement invalidates evidence"@,
        )
    }
}

pub open spec fn seg_evidence(i: ReleaseAuthorizationInputV1) -> Seq<FindingView> {
    let e = i.evidence;
    flag(
        !is_sha256_digest(e.package_docs_digest@),
        ReleaseAuthorizationResultV1::Malformed,
        "package_docs_digest is malformed/missing"@,
    ) + flag(
        !is_sha256_digest(e.support_digest@),
        ReleaseAuthorizationResultV1::Malformed,
        "support_digest is malformed/missing"@,
    ) + flag(
        !is_sha256_digest(e.manifest_digest@),
        ReleaseAuthorizationResultV1::Malformed,
        "manifest_digest is malformed/missing"@,
    ) + flag(
        !is_sha256_digest(e.rehearsal_digest@),
        ReleaseAuthorizationResultV1::Malformed,
        "rehearsal_digest is malformed/missing"@,
    ) + flag(
        !is_sha256_digest(e.source_controls_digest@),
        ReleaseAuthorizationResultV1::Malformed,
        "source_controls_digest is malformed/missing"@,
    ) + flag(
        !is_sha256_digest(e.live_controls_digest@),
        ReleaseAuthorizationResultV1::Malformed,
        "live_controls_digest is malformed/missing"@,
    ) + flag(
        !is_sha256_digest(e.workflow_digest@),
        ReleaseAuthorizationResultV1::Malformed,
        "workflow_digest is malformed/missing"@,
    ) + flag(
        !is_sha256_digest(e.action_inventory_digest@),
        ReleaseAuthorizationResultV1::Malformed,
        "action_inventory_digest is malformed/missing"@,
    ) + flag(
        !e.rehearsal_complete_except_authorization,
        ReleaseAuthorizationResultV1::Mismatch,
        "zero-upload rehearsal must be complete except the authorization hold"@,
    ) + flag(
        e.preflight_maximum_age_seconds == 0,
        ReleaseAuthorizationResultV1::Malformed,
        "preflight freshness window must be positive"@,
    ) + flag(
        !preflight_fresh(i),
        ReleaseAuthorizationResultV1::Stale,
        "registry preflight observation is future-dated or expired"@,
    ) + seg_preflight(e.preflight_result) + seg_context(e)
}

pub open spec fn seg_consumption(c: ReleaseAuthorizationConsumptionV1) -> Seq<FindingView> {
    match c {
        ReleaseAuthorizationConsumptionV1::Available => Seq::empty(),
        ReleaseAuthorizationConsumptionV1::Expired => flag(
            true,
            ReleaseAuthorizationResultV1::Expired,
            "authorization is expired"@,
        ),
        ReleaseAuthorizationConsumptionV1::Revoked => flag(
            true,
            ReleaseAuthorizationResultV1::Unauthorized,
            "authorization was revoked"@,
        ),
        _ => flag(
            true,
            ReleaseAuthorizationResultV1::Reused,
            "authorization was already selected or consumed"@,
        ),
    }
}

pub open spec fn nonce_consumed(a: ReleaseAuthorizationAuthorityV1) -> bool {
    exists|j: int| 0 <= j < a.prior_consumptions@.len() && #[trigger] a.prior_consumptions@[j]@
        == a.nonce@
}

pub open spec fn seg_expiry(i: ReleaseAuthorizationInputV1) -> Seq<FindingView> {
    let a = i.authority;
    if a.expires_at_unix_seconds <= a.created_at_unix_seconds {
        flag(
            true,
            ReleaseAuthorizationResultV1::Malformed,
            "authorization expiry must follow creation"@,
        )
    } else {
        flag(
            i.evaluated_at_unix_seconds > a.expires_at_unix_seconds,
            ReleaseAuthorizationResultV1::Expired,
            "authorization expired before evaluation"@,
        )
    }
}

pub open spec fn seg_nonce(a: ReleaseAuthorizationAuthorityV1) -> Seq<FindingView> {
    if blank(a.nonce@) {
        flag(true, ReleaseAuthorizationResultV1::Malformed, "one-use nonce is required"@)
    } else {
        flag(
            nonce_consumed(a),
            ReleaseAuthorizationResultV1::Reused,
            "authorization nonce was already consumed"@,
        )
    }
}

pub open spec fn seg_authority(i: ReleaseAuthorizationInputV1) -> Seq<FindingView> {
    let a = i.authority;
    let s = a.source;
    flag(
        a.selected_auth_class@ != RELEASE_AUTHORIZATION_AUTH_CLASS@,
        ReleaseAuthorizationResultV1::Unauthorized,
        "selected auth class cannot carry the clean final operation"@,
    ) + flag(
        !a.secret_availability.redacted,
        ReleaseAuthorizationResultV1::Malformed,
        "secret values must never travel in authorization documents"@,
    ) + flag(
        blank(a.maintainer_actor@) || blank(a.maintainer_role@),
        ReleaseAuthorizationResultV1::Unauthorized,
        "maintainer actor and role are required"@,
    ) + flag(
        blank(s.repository@) || blank(s.reference@) || blank(s.author@) || !is_sha256_digest(
            s.body_digest@,
        ),
        ReleaseAuthorizationResultV1::Malformed,
        "structured source reference is malformed"@,
    ) + flag(
        blank(s.statement@) || (encode_utf8(s.statement@).len() as usize)
            > RELEASE_AUTHORIZATION_MAX_STATEMENT_LEN,
        ReleaseAuthorizationResultV1::Malformed,
        "maintainer statement must be bounded prose"@,
    ) + flag(
        a.created_at_unix_seconds > i.evaluated_at_unix_seconds,
        ReleaseAuthorizationResultV1::Malformed,
        "authorization creation is future-dated"@,
    ) + seg_expiry(i) + seg_nonce(a) + seg_consumption(a.consumption)
}

/// The document's own statement digest appears in the frozen file inventory.
pub open spec fn inside_frozen_tree(i: ReleaseAuthorizationInputV1) -> bool {
    exists|j: int|
        0 <= j < i.frozen_file_digests@.len() && eq_ignore_ascii_case(
            #[trigger] i.frozen_file_digests@[j]@,
            statement_digest(i),
        )
}

/// Every finding of the compiled receipt, in evaluation order.
pub open spec fn authorization_findings(i: ReleaseAuthorizationInputV1) -> Seq<FindingView> {
    seg_generation(i) + seg_operation(i.operation) + seg_freeze_shape(i.freeze)
        + seg_selection_upto(i.freeze, 13) + seg_binding(i.freeze) + seg_evidence(i)
        + seg_authority(i) + flag(
        inside_frozen_tree(i),
        ReleaseAuthorizationResultV1::Malformed,
        "authorization artifact lives inside the frozen tree"@,
    )
}

pub open spec fn residual_authority_caveat() -> Seq<char> {
    "registry permission remains unproven; residual authority risk travels with this authorization"@
}

pub open spec fn secret_caveat() -> Seq<char> {
    "repository-secret availability is unproven; the token boundary rechecks it"@
}

/// Non-blocking caveats, in evaluation order.
pub open spec fn authorization_caveats(i: ReleaseAuthorizationInputV1) -> Seq<Seq<char>> {
    (if i.evidence.preflight_result
        == FinalRegistryPreflightResultV1::CompleteWithResidualAuthorityRisk {
        Seq::empty().push(residual_authority_caveat())
    } else {
        Seq::empty()
    }) + (if i.authority.secret_availability.state == ReleaseAuthorizationSecretStateV1::Unknown {
        Seq::empty().push(secret_caveat())
    } else {
        Seq::empty()
    })
}

fn finding(
    findings: &mut Vec<ReleaseAuthorizationFindingV1>,
    result: ReleaseAuthorizationResultV1,
    reason: String,
)
    ensures
        findings_view(final(findings)@) == findings_view(old(findings)@).push((result, reason@)),
{
    reveal(flag);
    let ghost before = findings@;
    findings.push(ReleaseAuthorizationFindingV1 { result, reason });
    assert(findings_view(findings@) =~= findings_view(before).push((result, reason@)));
}

fn finding_if(
    findings: &mut Vec<ReleaseAuthorizationFindingV1>,
    cond: bool,
    result: ReleaseAuthorizationResultV1,
    reason: &str,
)
    ensures
        findings_view(final(findings)@) == findings_view(old(findings)@) + flag(
            cond,
            result,
            reason@,
        ),
{
    reveal(flag);
    if cond {
        finding(findings, result, reason.to_string());
    } else {
        assert(findings_view(findings@) =~= findings_view(findings@) + flag(cond, result, reason@));
    }
}

fn check_operation(
    operation: &ReleaseAuthorizationOperationV1,
    findings: &mut Vec<ReleaseAuthorizationFindingV1>,
)
    ensures
        findings_view(final(findings)@) == findings_view(old(findings)@) + seg_operation(
            *operation,
        ),
{
    let ghost start = findings_view(findings@);
    let is_final = str_eq(operation.name.as_str(), RELEASE_AUTHORIZATION_FINAL_OPERATION);
    let is_recovery = str_eq(operation.name.as_str(), RELEASE_AUTHORIZATION_RECOVERY_OPERATION);
    let clean = operation.authority_kind == ReleaseAuthorizationAuthorityKindV1::Clean;
    finding_if(
        findings,
        !(is_final || is_recovery),
        ReleaseAuthorizationResultV1::Mismatch,
        "operation is not the selected final or recovery operation",
    );
    let ghost after_known = findings_view(findings@);
    match ReleaseIdentityV1::parse(
        operation.version.as_str(),
        operation.tag.as_str(),
        operation.github_prerelease,
    ) {
        Ok(identity) => {
            let exact = str_eq(identity.version.as_str(), RELEASE_AUTHORIZATION_FINAL_VERSION)
                && str_eq(operation.tag.as_str(), RELEASE_AUTHORIZATION_FINAL_TAG) && str_eq(
                operation.channel.as_str(),
                RELEASE_AUTHORIZATION_STABLE_CHANNEL,
            ) && !operation.github_prerelease;
            finding_if(
                findings,
                is_final && !exact,
                ReleaseAuthorizationResultV1::Mismatch,
                "final operation must bind exact 0.2.0 stable identity",
            );
            finding_if(
                findings,
                is_blank(operation.channel.as_str()),
                ReleaseAuthorizationResultV1::Malformed,
                "release channel must be non-blank",
            );
        },
        Err(_) => {
            finding_if(
                findings,
                true,
                ReleaseAuthorizationResultV1::Malformed,
                "operation version/tag/prerelease identity is malformed",
            );
        },
    }
    let ghost after_identity = findings_view(findings@);
    finding_if(
        findings,
        is_final && !clean,
        ReleaseAuthorizationResultV1::Mismatch,
        "final operation requires clean publication authority",
    );
    finding_if(
        findings,
        is_recovery && clean,
        ReleaseAuthorizationResultV1::Mismatch,
        "recovery operation requires recovery authority",
    );
    assert(findings_view(findings@) == start + seg_operation(*operation)) by {
        broadcast use lemma_concat_assoc;
    }
}

fn check_freeze_shape(
    freeze: &ReleaseAuthorizationFreezeV1,
    findings: &mut Vec<ReleaseAuthorizationFindingV1>,
)
    ensures
        findings_view(final(findings)@) == findings_view(old(findings)@) + seg_freeze_shape(
            *freeze,
        ),
{
    let ghost start = findings_view(findings@);
    finding_if(
        findings,
        !is_sha256_digest_str(freeze.receipt_digest.as_str()),
        ReleaseAuthorizationResultV1::Malformed,
        "freeze receipt_digest is malformed/missing",
    );
    finding_if(
        findings,
        !is_sha256_digest_str(freeze.candidate_digest.as_str()),
        ReleaseAuthorizationResultV1::Malformed,
        "freeze candidate_digest is malformed/missing",
    );
    finding_if(
        findings,
        !is_sha256_digest_str(freeze.denominator_digest.as_str()),
        ReleaseAuthorizationResultV1::Malformed,
        "freeze denominator_digest is malformed/missing",
    );
    finding_if(
        findings,
        !is_sha256_digest_str(freeze.lock_digest.as_str()),
        ReleaseAuthorizationResultV1::Malformed,
        "freeze lock_digest is malformed/missing",
    );
    finding_if(
        findings,
        !is_git_sha_str(freeze.commit.as_str()),
        ReleaseAuthorizationResultV1::Malformed,
        "freeze commit is not a canonical commit SHA",
    );
    finding_if(
        findings,
        !is_git_sha_str(freeze.tree.as_str()),
        ReleaseAuthorizationResultV1::Malformed,
        "freeze tree is not a canonical tree SHA",
    );
    finding_if(
        findings,
        !str_eq(freeze.topology_id.as_str(), RELEASE_AUTHORIZATION_TOPOLOGY_ID),
        ReleaseAuthorizationResultV1::Malformed,
        "freeze topology is not the selected final generation",
    );
    finding_if(
        findings,
        freeze.packages.len() != 10 || freeze.shared_prerequisites.len() != 3,
        ReleaseAuthorizationResultV1::Malformed,
        "freeze must carry exactly ten final and three shared rows",
    );
    assert(findings_view(findings@) == start + seg_freeze_shape(*freeze)) by {
        broadcast use lemma_concat_assoc;
    }
}

fn selection_entry(i: usize) -> (r: (&'static str, &'static str, &'static str, bool))
    requires
        i < 13,
    ensures
        r.0@ == selection(i as int).0,
        r.1@ == selection(i as int).1,
        r.2@ == selection(i as int).2,
        r.3 == selection(i as int).3,
{
    if i == 0 {
        ("allow-core", "allow-core", "0.2.0", false)
    } else if i == 1 {
        ("allow-policy", "allow-policy", "0.2.0", false)
    } else if i == 2 {
        ("allow-inventory", "allow-inventory", "0.2.0", false)
    } else if i == 3 {
        ("allow-files", "allow-files", "0.2.0", false)
    } else if i == 4 {
        ("allow-rust", "allow-rust", "0.2.0", false)
    } else if i == 5 {
        ("allow-match", "allow-match", "0.2.0", false)
    } else if i == 6 {
        ("allow-report", "allow-report", "0.2.0", false)
    } else if i == 7 {
        ("allow-policy-legacy", "allow-policy-legacy", "0.2.0", false)
    } else if i == 8 {
        ("repo-protocol", "effortless-repo-protocol", "0.1.0", true)
    } else if i == 9 {
        ("repo-snapshot", "effortless-repo-snapshot", "0.1.0", true)
    } else if i == 10 {
        ("repo-edit", "effortless-repo-edit", "0.1.0", true)
    } else if i == 11 {
        ("allow-diff", "allow-diff", "0.2.0", false)
    } else {
        ("cargo-allow", "cargo-allow", "0.2.0", false)
    }
}

fn check_selection_entry(
    freeze: &ReleaseAuthorizationFreezeV1,
    index: usize,
    findings: &mut Vec<ReleaseAuthorizationFindingV1>,
)
    requires
        index < 13,
    ensures
        findings_view(final(findings)@) == findings_view(old(findings)@) + seg_selection_entry(
            *freeze,
            index as int,
        ),
{
    reveal(flag);
    let ghost start = findings_view(findings@);
    let (logical, package, version, shared) = selection_entry(index);
    let shared_index: usize = if index <= 8 {
        0
    } else if index <= 10 {
        index - 8
    } else {
        3
    };
    if shared {
        if shared_index < freeze.shared_prerequisites.len() {
            let row = &freeze.shared_prerequisites[shared_index];
            let differs = !str_eq(row.logical_id.as_str(), logical) || !str_eq(
                row.package_name.as_str(),
                package,
            ) || !str_eq(row.package_version.as_str(), version);
            if differs {
                let n = decimal_string(index as u64);
                finding(
                    findings,
                    ReleaseAuthorizationResultV1::Mismatch,
                    cat3("shared row ", n.as_str(), " differs from the frozen denominator"),
                );
            }
            let ghost mid = findings_view(findings@);
            if !is_sha256_digest_str(row.expected_checksum.as_str()) || !is_sha256_digest_str(
                row.authority_digest.as_str(),
            ) {
                finding(
                    findings,
                    ReleaseAuthorizationResultV1::Malformed,
                    cat3("shared row ", package, " checksum authority is malformed"),
                );
            }
        } else {
            finding_if(
                findings,
                true,
                ReleaseAuthorizationResultV1::Malformed,
                "shared prerequisite row is missing",
            );
        }
    } else {
        let position = index - shared_index;
        if position < freeze.packages.len() {
            let row = &freeze.packages[position];
            let differs = !str_eq(row.logical_id.as_str(), logical) || !str_eq(
                row.package_name.as_str(),
                package,
            ) || !str_eq(row.package_version.as_str(), version);
            if differs {
                let n = decimal_string(index as u64);
                finding(
                    findings,
                    ReleaseAuthorizationResultV1::Mismatch,
                    cat3("final row ", n.as_str(), " differs from the frozen denominator"),
                );
            }
            let ghost mid = findings_view(findings@);
            if !is_sha256_digest_str(row.package_digest.as_str()) {
                finding(
                    findings,
                    ReleaseAuthorizationResultV1::Malformed,
                    cat3("final row ", package, " digest is malformed"),
                );
            }
        } else {
            finding_if(
                findings,
                true,
                ReleaseAuthorizationResultV1::Malformed,
                "final package row is missing",
            );
        }
    }
    assert(findings_view(findings@) == start + seg_selection_entry(*freeze, index as int)) by {
        broadcast use lemma_concat_assoc;
    }
}

fn check_selection(
    freeze: &ReleaseAuthorizationFreezeV1,
    findings: &mut Vec<ReleaseAuthorizationFindingV1>,
)
    ensures
        findings_view(final(findings)@) == findings_view(old(findings)@) + seg_selection_upto(
            *freeze,
            13,
        ),
{
    let ghost start = findings_view(findings@);
    let mut index: usize = 0;
    assert(start + seg_selection_upto(*freeze, 0) =~= start);
    while index < 13
        invariant
            index <= 13,
            findings_view(findings@) == start + seg_selection_upto(*freeze, index as nat),
        decreases 13 - index,
    {
        check_selection_entry(freeze, index, findings);
        assert(findings_view(findings@) =~= start + seg_selection_upto(*freeze, (index + 1) as nat));
        index = index + 1;
    }
}

fn check_preflight(
    preflight: FinalRegistryPreflightResultV1,
    findings: &mut Vec<ReleaseAuthorizationFindingV1>,
)
    ensures
        findings_view(final(findings)@) == findings_view(old(findings)@) + seg_preflight(
            preflight,
        ),
{
    reveal(flag);
    let ghost start = findings_view(findings@);
    match preflight {
        FinalRegistryPreflightResultV1::Complete
        | FinalRegistryPreflightResultV1::CompleteWithResidualAuthorityRisk => {
            assert(findings_view(findings@) =~= start + seg_preflight(preflight));
        },
        FinalRegistryPreflightResultV1::Conflict => {
            finding_if(
                findings,
                true,
                ReleaseAuthorizationResultV1::Unauthorized,
                "immutable registry checksum conflict cannot be authorized",
            );
        },
        FinalRegistryPreflightResultV1::Stale
        | FinalRegistryPreflightResultV1::Incomplete
        | FinalRegistryPreflightResultV1::ProviderUnavailable => {
            finding_if(
                findings,
                true,
                ReleaseAuthorizationResultV1::Stale,
                "registry preflight is not current; refresh observation before authorization",
            );
        },
        _ => {
            finding_if(
                findings,
                true,
                ReleaseAuthorizationResultV1::Malformed,
                "registry preflight evidence is malformed",
            );
        },
    }
}

fn check_context(
    evidence: &ReleaseAuthorizationEvidenceV1,
    findings: &mut Vec<ReleaseAuthorizationFindingV1>,
)
    ensures
        findings_view(final(findings)@) == findings_view(old(findings)@) + seg_context(*evidence),
{
    if is_blank(evidence.observed_context_digest.as_str()) || is_blank(
        evidence.current_context_digest.as_str(),
    ) {
        finding_if(
            findings,
            true,
            ReleaseAuthorizationResultV1::Malformed,
            "evidence context digests must be non-blank",
        );
    } else {
        finding_if(
            findings,
            !str_eq_ignore_ascii_case(
                evidence.observed_context_digest.as_str(),
                evidence.current_context_digest.as_str(),
            ),
            ReleaseAuthorizationResultV1::Stale,
            "workflow/principal/environment/control movement invalidates evidence",
        );
    }
}

fn check_expiry(
    input: &ReleaseAuthorizationInputV1,
    findings: &mut Vec<ReleaseAuthorizationFindingV1>,
)
    ensures
        findings_view(final(findings)@) == findings_view(old(findings)@) + seg_expiry(*input),
{
    let authority = &input.authority;
    if authority.expires_at_unix_seconds <= authority.created_at_unix_seconds {
        finding_if(
            findings,
            true,
            ReleaseAuthorizationResultV1::Malformed,
            "authorization expiry must follow creation",
        );
    } else {
        finding_if(
            findings,
            input.evaluated_at_unix_seconds > authority.expires_at_unix_seconds,
            ReleaseAuthorizationResultV1::Expired,
            "authorization expired before evaluation",
        );
    }
}

fn check_nonce(
    authority: &ReleaseAuthorizationAuthorityV1,
    findings: &mut Vec<ReleaseAuthorizationFindingV1>,
)
    ensures
        findings_view(final(findings)@) == findings_view(old(findings)@) + seg_nonce(*authority),
{
    if is_blank(authority.nonce.as_str()) {
        finding_if(findings, true, ReleaseAuthorizationResultV1::Malformed, "one-use nonce is required");
    } else {
        finding_if(
            findings,
            nonce_seen(authority),
            ReleaseAuthorizationResultV1::Reused,
            "authorization nonce was already consumed",
        );
    }
}

fn check_consumption(
    consumption: ReleaseAuthorizationConsumptionV1,
    findings: &mut Vec<ReleaseAuthorizationFindingV1>,
)
    ensures
        findings_view(final(findings)@) == findings_view(old(findings)@) + seg_consumption(
            consumption,
        ),
{
    reveal(flag);
    let ghost start = findings_view(findings@);
    match consumption {
        ReleaseAuthorizationConsumptionV1::Available => {
            assert(findings_view(findings@) =~= start + seg_consumption(consumption));
        },
        ReleaseAuthorizationConsumptionV1::Expired => {
            finding_if(findings, true, ReleaseAuthorizationResultV1::Expired, "authorization is expired");
        },
        ReleaseAuthorizationConsumptionV1::Revoked => {
            finding_if(
                findings,
                true,
                ReleaseAuthorizationResultV1::Unauthorized,
                "authorization was revoked",
            );
        },
        _ => {
            finding_if(
                findings,
                true,
                ReleaseAuthorizationResultV1::Reused,
                "authorization was already selected or consumed",
            );
        },
    }
}

#[verifier::rlimit(80)]
#[verifier::spinoff_prover]
fn check_evidence(
    input: &ReleaseAuthorizationInputV1,
    findings: &mut Vec<ReleaseAuthorizationFindingV1>,
)
    ensures
        findings_view(final(findings)@) == findings_view(old(findings)@) + seg_evidence(*input),
{
    let ghost start = findings_view(findings@);
    let evidence = &input.evidence;
    finding_if(
        findings,
        !is_sha256_digest_str(evidence.package_docs_digest.as_str()),
        ReleaseAuthorizationResultV1::Malformed,
        "package_docs_digest is malformed/missing",
    );
    finding_if(
        findings,
        !is_sha256_digest_str(evidence.support_digest.as_str()),
        ReleaseAuthorizationResultV1::Malformed,
        "support_digest is malformed/missing",
    );
    finding_if(
        findings,
        !is_sha256_digest_str(evidence.manifest_digest.as_str()),
        ReleaseAuthorizationResultV1::Malformed,
        "manifest_digest is malformed/missing",
    );
    finding_if(
        findings,
        !is_sha256_digest_str(evidence.rehearsal_digest.as_str()),
        ReleaseAuthorizationResultV1::Malformed,
        "rehearsal_digest is malformed/missing",
    );
    finding_if(
        findings,
        !is_sha256_digest_str(evidence.source_controls_digest.as_str()),
        ReleaseAuthorizationResultV1::Malformed,
        "source_controls_digest is malformed/missing",
    );
    finding_if(
        findings,
        !is_sha256_digest_str(evidence.live_controls_digest.as_str()),
        ReleaseAuthorizationResultV1::Malformed,
        "live_controls_digest is malformed/missing",
    );
    finding_if(
        findings,
        !is_sha256_digest_str(evidence.workflow_digest.as_str()),
        ReleaseAuthorizationResultV1::Malformed,
        "workflow_digest is malformed/missing",
    );
    finding_if(
        findings,
        !is_sha256_digest_str(evidence.action_inventory_digest.as_str()),
        ReleaseAuthorizationResultV1::Malformed,
        "action_inventory_digest is malformed/missing",
    );
    finding_if(
        findings,
        !evidence.rehearsal_complete_except_authorization,
        ReleaseAuthorizationResultV1::Mismatch,
        "zero-upload rehearsal must be complete except the authorization hold",
    );
    finding_if(
        findings,
        evidence.preflight_maximum_age_seconds == 0,
        ReleaseAuthorizationResultV1::Malformed,
        "preflight freshness window must be positive",
    );
    let fresh = match input.evaluated_at_unix_seconds.checked_sub(
        evidence.preflight_evaluated_at_unix_seconds,
    ) {
        Some(age) => evidence.preflight_maximum_age_seconds > 0 && age
            <= evidence.preflight_maximum_age_seconds,
        None => false,
    };
    finding_if(
        findings,
        !fresh,
        ReleaseAuthorizationResultV1::Stale,
        "registry preflight observation is future-dated or expired",
    );
    check_preflight(evidence.preflight_result, findings);
    check_context(evidence, findings);
    assert(findings_view(findings@) == start + seg_evidence(*input)) by {
        broadcast use lemma_concat_assoc;
    }
}

fn nonce_seen(authority: &ReleaseAuthorizationAuthorityV1) -> (r: bool)
    ensures
        r == nonce_consumed(*authority),
{
    let mut j: usize = 0;
    while j < authority.prior_consumptions.len()
        invariant
            j <= authority.prior_consumptions@.len(),
            forall|k: int| 0 <= k < j ==> #[trigger] authority.prior_consumptions@[k]@
                != authority.nonce@,
        decreases authority.prior_consumptions.len() - j,
    {
        if authority.prior_consumptions[j].eq(&authority.nonce) {
            return true;
        }
        j = j + 1;
    }
    false
}

fn check_authority(
    input: &ReleaseAuthorizationInputV1,
    findings: &mut Vec<ReleaseAuthorizationFindingV1>,
)
    ensures
        findings_view(final(findings)@) == findings_view(old(findings)@) + seg_authority(*input),
{
    let ghost start = findings_view(findings@);
    let authority = &input.authority;
    let source = &authority.source;
    finding_if(
        findings,
        !str_eq(authority.selected_auth_class.as_str(), RELEASE_AUTHORIZATION_AUTH_CLASS),
        ReleaseAuthorizationResultV1::Unauthorized,
        "selected auth class cannot carry the clean final operation",
    );
    finding_if(
        findings,
        !authority.secret_availability.redacted,
        ReleaseAuthorizationResultV1::Malformed,
        "secret values must never travel in authorization documents",
    );
    finding_if(
        findings,
        is_blank(authority.maintainer_actor.as_str()) || is_blank(
            authority.maintainer_role.as_str(),
        ),
        ReleaseAuthorizationResultV1::Unauthorized,
        "maintainer actor and role are required",
    );
    finding_if(
        findings,
        is_blank(source.repository.as_str()) || is_blank(source.reference.as_str()) || is_blank(
            source.author.as_str(),
        ) || !is_sha256_digest_str(source.body_digest.as_str()),
        ReleaseAuthorizationResultV1::Malformed,
        "structured source reference is malformed",
    );
    finding_if(
        findings,
        is_blank(source.statement.as_str()) || source.statement.as_str().len()
            > RELEASE_AUTHORIZATION_MAX_STATEMENT_LEN,
        ReleaseAuthorizationResultV1::Malformed,
        "maintainer statement must be bounded prose",
    );
    finding_if(
        findings,
        authority.created_at_unix_seconds > input.evaluated_at_unix_seconds,
        ReleaseAuthorizationResultV1::Malformed,
        "authorization creation is future-dated",
    );
    check_expiry(input, findings);
    check_nonce(authority, findings);
    check_consumption(authority.consumption, findings);
    assert(findings_view(findings@) == start + seg_authority(*input)) by {
        broadcast use lemma_concat_assoc;
    }
}

fn digest_inside_tree(input: &ReleaseAuthorizationInputV1, digest: &String) -> (r: bool)
    requires
        digest@ == statement_digest(*input),
    ensures
        r == inside_frozen_tree(*input),
{
    let mut j: usize = 0;
    while j < input.frozen_file_digests.len()
        invariant
            j <= input.frozen_file_digests@.len(),
            digest@ == statement_digest(*input),
            forall|k: int| 0 <= k < j ==> !eq_ignore_ascii_case(
                #[trigger] input.frozen_file_digests@[k]@,
                statement_digest(*input),
            ),
        decreases input.frozen_file_digests.len() - j,
    {
        if str_eq_ignore_ascii_case(input.frozen_file_digests[j].as_str(), digest.as_str()) {
            return true;
        }
        j = j + 1;
    }
    false
}

fn aggregate_result(findings: &Vec<ReleaseAuthorizationFindingV1>) -> (r:
    ReleaseAuthorizationResultV1)
    ensures
        r == aggregate(findings_view(findings@)),
{
    let mut result = ReleaseAuthorizationResultV1::Complete;
    let mut i: usize = 0;
    while i < findings.len()
        invariant
            i <= findings.len(),
            result == aggregate(findings_view(findings@.take(i as int))),
        decreases findings.len() - i,
    {
        proof {
            let t = findings_view(findings@.take(i + 1));
            assert(t.drop_last() =~= findings_view(findings@.take(i as int)));
        }
        let candidate = findings[i].result;
        if candidate.rank_of() < result.rank_of() {
            result = candidate;
        }
        i = i + 1;
    }
    assert(findings@.take(findings@.len() as int) =~= findings@);
    result
}

/// Pure compilation. No adapter is invoked, no credential is read, no tag is
/// created, and no supplied evidence is authenticated.
pub fn compile_release_authorization_v1(input: &ReleaseAuthorizationInputV1) -> (r:
    CargoAllowReleaseAuthorizationV1)
    ensures
        r.schema_id@ == RELEASE_AUTHORIZATION_SCHEMA_ID@,
        r.schema_version == RELEASE_AUTHORIZATION_SCHEMA_VERSION,
        findings_view(r.findings@) == authorization_findings(*input),
        r.result == aggregate(authorization_findings(*input)),
        string_views(r.caveats@) == authorization_caveats(*input),
        r.authorization_digest@ == statement_digest(*input),
        is_lower_sha256_digest(r.authorization_digest@),
        r.evaluated_at_unix_seconds == input.evaluated_at_unix_seconds,
{
    let mut findings: Vec<ReleaseAuthorizationFindingV1> = Vec::new();
    let mut caveats: Vec<String> = Vec::new();
    finding_if(
        &mut findings,
        !str_eq(input.schema_id.as_str(), RELEASE_AUTHORIZATION_SCHEMA_ID) || input.schema_version
            != RELEASE_AUTHORIZATION_SCHEMA_VERSION,
        ReleaseAuthorizationResultV1::Unsupported,
        "non-current authorization generation",
    );
    let ghost g0 = findings_view(findings@);
    check_operation(&input.operation, &mut findings);
    let ghost g1 = findings_view(findings@);
    check_freeze_shape(&input.freeze, &mut findings);
    let ghost g2 = findings_view(findings@);
    check_selection(&input.freeze, &mut findings);
    let ghost g3 = findings_view(findings@);
    let binding = release_authorization_denominator_binding_v1(&input.freeze);
    finding_if(
        &mut findings,
        !str_eq_ignore_ascii_case(binding.as_str(), input.freeze.denominator_digest.as_str()),
        ReleaseAuthorizationResultV1::Mismatch,
        "frozen denominator rows do not match the denominator binding",
    );
    let ghost g4 = findings_view(findings@);
    check_evidence(input, &mut findings);
    if input.evidence.preflight_result
        == FinalRegistryPreflightResultV1::CompleteWithResidualAuthorityRisk {
        caveats.push(
            "registry permission remains unproven; residual authority risk travels with this authorization".to_string(),
        );
    }
    let ghost g5 = findings_view(findings@);
    check_authority(input, &mut findings);
    if input.authority.secret_availability.state == ReleaseAuthorizationSecretStateV1::Unknown {
        caveats.push(
            "repository-secret availability is unproven; the token boundary rechecks it".to_string(),
        );
    }
    let authorization_digest = authorization_statement_digest(input);
    let inside = digest_inside_tree(input, &authorization_digest);
    finding_if(
        &mut findings,
        inside,
        ReleaseAuthorizationResultV1::Malformed,
        "authorization artifact lives inside the frozen tree",
    );
    assert(findings_view(findings@) =~= authorization_findings(*input));
    assert(string_views(caveats@) =~= authorization_caveats(*input));
    let result = aggregate_result(&findings);
    CargoAllowReleaseAuthorizationV1 {
        schema_id: RELEASE_AUTHORIZATION_SCHEMA_ID.to_string(),
        schema_version: RELEASE_AUTHORIZATION_SCHEMA_VERSION,
        result,
        findings,
        caveats,
        authorization_digest,
        evaluated_at_unix_seconds: input.evaluated_at_unix_seconds,
    }
}

/// The permitted one-use lifecycle steps: selection from available, start
/// after selection, completion or incident after start, expiry before start,
/// and revocation from any state.
pub open spec fn consumption_step_allowed(
    current: ReleaseAuthorizationConsumptionV1,
    next: ReleaseAuthorizationConsumptionV1,
) -> bool {
    ||| current == ReleaseAuthorizationConsumptionV1::Available && next
        == ReleaseAuthorizationConsumptionV1::SelectedForRun
    ||| current == ReleaseAuthorizationConsumptionV1::SelectedForRun && next
        == ReleaseAuthorizationConsumptionV1::IrreversibleOperationStarted
    ||| current == ReleaseAuthorizationConsumptionV1::IrreversibleOperationStarted && next
        == ReleaseAuthorizationConsumptionV1::ConsumedComplete
    ||| current == ReleaseAuthorizationConsumptionV1::IrreversibleOperationStarted && next
        == ReleaseAuthorizationConsumptionV1::ConsumedIncident
    ||| next == ReleaseAuthorizationConsumptionV1::Revoked
    ||| current == ReleaseAuthorizationConsumptionV1::Available && next
        == ReleaseAuthorizationConsumptionV1::Expired
    ||| current == ReleaseAuthorizationConsumptionV1::SelectedForRun && next
        == ReleaseAuthorizationConsumptionV1::Expired
}

/// Checked one-use transition for the authorization lifecycle.
pub fn transition_authorization_consumption(
    current: ReleaseAuthorizationConsumptionV1,
    next: ReleaseAuthorizationConsumptionV1,
) -> (r: Result<ReleaseAuthorizationConsumptionV1, &'static str>)
    ensures
        consumption_step_allowed(current, next) ==> r == Ok::<
            ReleaseAuthorizationConsumptionV1,
            &'static str,
        >(next),
        !consumption_step_allowed(current, next) ==> r is Err && r->Err_0@
            == "invalid authorization consumption transition"@,
{
    match (current, next) {
        (ReleaseAuthorizationConsumptionV1::Available, ReleaseAuthorizationConsumptionV1::SelectedForRun)
        | (
            ReleaseAuthorizationConsumptionV1::SelectedForRun,
            ReleaseAuthorizationConsumptionV1::IrreversibleOperationStarted,
        )
        | (
            ReleaseAuthorizationConsumptionV1::IrreversibleOperationStarted,
            ReleaseAuthorizationConsumptionV1::ConsumedComplete,
        )
        | (
            ReleaseAuthorizationConsumptionV1::IrreversibleOperationStarted,
            ReleaseAuthorizationConsumptionV1::ConsumedIncident,
        )
        | (_, ReleaseAuthorizationConsumptionV1::Revoked) => Ok(next),
        (ReleaseAuthorizationConsumptionV1::Available, ReleaseAuthorizationConsumptionV1::Expired)
        | (ReleaseAuthorizationConsumptionV1::SelectedForRun, ReleaseAuthorizationConsumptionV1::Expired) => Ok(next),
        _ => Err("invalid authorization consumption transition"),
    }
}

// ---------------------------------------------------------------------------
// Laws.
// ---------------------------------------------------------------------------

proof fn lemma_aggregate_concat(a: Seq<FindingView>, b: Seq<FindingView>)
    ensures
        aggregate(a + b).rank() == if aggregate(a).rank() <= aggregate(b).rank() {
            aggregate(a).rank()
        } else {
            aggregate(b).rank()
        },
    decreases b.len(),
{
    if b.len() == 0 {
        assert(a + b =~= a);
    } else {
        assert((a + b).drop_last() =~= a + b.drop_last());
        assert((a + b).last() == b.last());
        lemma_aggregate_concat(a, b.drop_last());
    }
}

proof fn lemma_single_flag(result: ReleaseAuthorizationResultV1, reason: Seq<char>)
    ensures
        aggregate(flag(true, result, reason)) == result,
{
    reveal(flag);
    let s = flag(true, result, reason);
    assert(s.drop_last() =~= Seq::<FindingView>::empty());
    assert(aggregate(Seq::<FindingView>::empty()) == ReleaseAuthorizationResultV1::Complete);
}

/// The receipt is never better than any single finding.
pub proof fn lemma_aggregate_is_worst_finding(s: Seq<FindingView>, k: int)
    requires
        0 <= k < s.len(),
    ensures
        aggregate(s).rank() <= s[k].0.rank(),
    decreases s.len(),
{
    if k < s.len() - 1 {
        lemma_aggregate_is_worst_finding(s.drop_last(), k);
    }
}

/// A document filed inside the frozen tree authorizes nothing: its receipt
/// is `Malformed` or worse.
pub proof fn lemma_inside_frozen_tree_is_rejected(i: ReleaseAuthorizationInputV1)
    requires
        inside_frozen_tree(i),
    ensures
        aggregate(authorization_findings(i)).rank() <= ReleaseAuthorizationResultV1::Malformed.rank(),
{
    let head = seg_generation(i) + seg_operation(i.operation) + seg_freeze_shape(i.freeze)
        + seg_selection_upto(i.freeze, 13) + seg_binding(i.freeze) + seg_evidence(i) + seg_authority(i);
    let last = flag(
        inside_frozen_tree(i),
        ReleaseAuthorizationResultV1::Malformed,
        "authorization artifact lives inside the frozen tree"@,
    );
    lemma_single_flag(ReleaseAuthorizationResultV1::Malformed, "authorization artifact lives inside the frozen tree"@);
    lemma_aggregate_concat(head, last);
}

/// The frozen file inventory is not statement identity: two inputs that
/// differ only in their frozen file digests have the same authorization
/// digest.
pub proof fn lemma_statement_ignores_frozen_inventory(i: ReleaseAuthorizationInputV1, i2: ReleaseAuthorizationInputV1)
    requires
        i2 == (ReleaseAuthorizationInputV1 { frozen_file_digests: i2.frozen_file_digests, ..i }),
    ensures
        statement_digest(i2) == statement_digest(i),
{
    reveal(statement_digest);
    assert(json_statement(i2) == json_statement(i));
}

/// The denominator binding covers exactly the topology, commit, tree, lock
/// digest, package rows and shared rows: the freeze's receipt, candidate and
/// denominator digests do not enter it.
pub proof fn lemma_denominator_binding_ignores_freeze_digests(
    f: ReleaseAuthorizationFreezeV1,
    f2: ReleaseAuthorizationFreezeV1,
)
    requires
        f2 == (ReleaseAuthorizationFreezeV1 {
            receipt_digest: f2.receipt_digest,
            candidate_digest: f2.candidate_digest,
            denominator_digest: f2.denominator_digest,
            ..f
        }),
    ensures
        denominator_binding(f2) == denominator_binding(f),
{
    reveal(denominator_binding);
    assert(json_denominator(f2) == json_denominator(f));
}

proof fn lemma_contains_in_concat(a: Seq<FindingView>, b: Seq<FindingView>, f: FindingView)
    ensures
        a.contains(f) ==> (a + b).contains(f),
        b.contains(f) ==> (a + b).contains(f),
{
    if a.contains(f) {
        let k = choose|k: int| 0 <= k < a.len() && a[k] == f;
        assert((a + b)[k] == f);
    }
    if b.contains(f) {
        let k = choose|k: int| 0 <= k < b.len() && b[k] == f;
        assert((a + b)[a.len() + k] == f);
    }
}

/// An authorization is compiled only after the zero-upload rehearsal
/// completed in every phase but the authorization hold: when the evidence
/// says it did not, the receipt carries the rehearsal finding as a
/// `Mismatch` and its result is `Mismatch` or worse, never `Complete`.
pub proof fn lemma_incomplete_rehearsal_is_never_authorized(i: ReleaseAuthorizationInputV1)
    requires
        !i.evidence.rehearsal_complete_except_authorization,
    ensures
        authorization_findings(i).contains(
            (
                ReleaseAuthorizationResultV1::Mismatch,
                "zero-upload rehearsal must be complete except the authorization hold"@,
            ),
        ),
        aggregate(authorization_findings(i)).rank() <= ReleaseAuthorizationResultV1::Mismatch.rank(),
        aggregate(authorization_findings(i)) != ReleaseAuthorizationResultV1::Complete,
{
    reveal(flag);
    let e = i.evidence;
    let f = (
        ReleaseAuthorizationResultV1::Mismatch,
        "zero-upload rehearsal must be complete except the authorization hold"@,
    );
    let digests = flag(
        !is_sha256_digest(e.package_docs_digest@),
        ReleaseAuthorizationResultV1::Malformed,
        "package_docs_digest is malformed/missing"@,
    ) + flag(
        !is_sha256_digest(e.support_digest@),
        ReleaseAuthorizationResultV1::Malformed,
        "support_digest is malformed/missing"@,
    ) + flag(
        !is_sha256_digest(e.manifest_digest@),
        ReleaseAuthorizationResultV1::Malformed,
        "manifest_digest is malformed/missing"@,
    ) + flag(
        !is_sha256_digest(e.rehearsal_digest@),
        ReleaseAuthorizationResultV1::Malformed,
        "rehearsal_digest is malformed/missing"@,
    ) + flag(
        !is_sha256_digest(e.source_controls_digest@),
        ReleaseAuthorizationResultV1::Malformed,
        "source_controls_digest is malformed/missing"@,
    ) + flag(
        !is_sha256_digest(e.live_controls_digest@),
        ReleaseAuthorizationResultV1::Malformed,
        "live_controls_digest is malformed/missing"@,
    ) + flag(
        !is_sha256_digest(e.workflow_digest@),
        ReleaseAuthorizationResultV1::Malformed,
        "workflow_digest is malformed/missing"@,
    ) + flag(
        !is_sha256_digest(e.action_inventory_digest@),
        ReleaseAuthorizationResultV1::Malformed,
        "action_inventory_digest is malformed/missing"@,
    );
    let rehearsal = flag(
        !e.rehearsal_complete_except_authorization,
        ReleaseAuthorizationResultV1::Mismatch,
        "zero-upload rehearsal must be complete except the authorization hold"@,
    );
    let window = flag(
        e.preflight_maximum_age_seconds == 0,
        ReleaseAuthorizationResultV1::Malformed,
        "preflight freshness window must be positive"@,
    );
    let fresh = flag(
        !preflight_fresh(i),
        ReleaseAuthorizationResultV1::Stale,
        "registry preflight observation is future-dated or expired"@,
    );
    assert(rehearsal[0] == f);
    lemma_contains_in_concat(digests, rehearsal, f);
    let s1 = digests + rehearsal;
    lemma_contains_in_concat(s1, window, f);
    let s2 = s1 + window;
    lemma_contains_in_concat(s2, fresh, f);
    let s3 = s2 + fresh;
    lemma_contains_in_concat(s3, seg_preflight(e.preflight_result), f);
    let s4 = s3 + seg_preflight(e.preflight_result);
    lemma_contains_in_concat(s4, seg_context(e), f);
    assert(seg_evidence(i) == s4 + seg_context(e));
    let pre = seg_generation(i) + seg_operation(i.operation) + seg_freeze_shape(i.freeze)
        + seg_selection_upto(i.freeze, 13) + seg_binding(i.freeze);
    lemma_contains_in_concat(pre, seg_evidence(i), f);
    let t1 = pre + seg_evidence(i);
    lemma_contains_in_concat(t1, seg_authority(i), f);
    let t2 = t1 + seg_authority(i);
    let last = flag(
        inside_frozen_tree(i),
        ReleaseAuthorizationResultV1::Malformed,
        "authorization artifact lives inside the frozen tree"@,
    );
    lemma_contains_in_concat(t2, last, f);
    assert(authorization_findings(i) == t2 + last);
    let all = authorization_findings(i);
    let k = choose|k: int| 0 <= k < all.len() && all[k] == f;
    lemma_aggregate_is_worst_finding(all, k);
}

/// Authorization is one-use: a document whose authority is anything but
/// `Available` never compiles to `Complete`.
pub proof fn lemma_used_authority_is_never_complete(i: ReleaseAuthorizationInputV1)
    requires
        i.authority.consumption != ReleaseAuthorizationConsumptionV1::Available,
    ensures
        aggregate(authorization_findings(i)) != ReleaseAuthorizationResultV1::Complete,
{
    let a = i.authority;
    let s = a.source;
    let c = seg_consumption(a.consumption);
    match a.consumption {
        ReleaseAuthorizationConsumptionV1::Expired => {
            lemma_single_flag(ReleaseAuthorizationResultV1::Expired, "authorization is expired"@);
        },
        ReleaseAuthorizationConsumptionV1::Revoked => {
            lemma_single_flag(ReleaseAuthorizationResultV1::Unauthorized, "authorization was revoked"@);
        },
        _ => {
            lemma_single_flag(
                ReleaseAuthorizationResultV1::Reused,
                "authorization was already selected or consumed"@,
            );
        },
    }
    assert(aggregate(c).rank() < 8);
    let auth_head = flag(
        a.selected_auth_class@ != RELEASE_AUTHORIZATION_AUTH_CLASS@,
        ReleaseAuthorizationResultV1::Unauthorized,
        "selected auth class cannot carry the clean final operation"@,
    ) + flag(
        !a.secret_availability.redacted,
        ReleaseAuthorizationResultV1::Malformed,
        "secret values must never travel in authorization documents"@,
    ) + flag(
        blank(a.maintainer_actor@) || blank(a.maintainer_role@),
        ReleaseAuthorizationResultV1::Unauthorized,
        "maintainer actor and role are required"@,
    ) + flag(
        blank(s.repository@) || blank(s.reference@) || blank(s.author@) || !is_sha256_digest(
            s.body_digest@,
        ),
        ReleaseAuthorizationResultV1::Malformed,
        "structured source reference is malformed"@,
    ) + flag(
        blank(s.statement@) || (encode_utf8(s.statement@).len() as usize)
            > RELEASE_AUTHORIZATION_MAX_STATEMENT_LEN,
        ReleaseAuthorizationResultV1::Malformed,
        "maintainer statement must be bounded prose"@,
    ) + flag(
        a.created_at_unix_seconds > i.evaluated_at_unix_seconds,
        ReleaseAuthorizationResultV1::Malformed,
        "authorization creation is future-dated"@,
    ) + seg_expiry(i) + seg_nonce(a);
    assert(seg_authority(i) == auth_head + c);
    lemma_aggregate_concat(auth_head, c);
    let head = seg_generation(i) + seg_operation(i.operation) + seg_freeze_shape(i.freeze)
        + seg_selection_upto(i.freeze, 13) + seg_binding(i.freeze) + seg_evidence(i);
    let last = flag(
        inside_frozen_tree(i),
        ReleaseAuthorizationResultV1::Malformed,
        "authorization artifact lives inside the frozen tree"@,
    );
    lemma_aggregate_concat(head, seg_authority(i));
    lemma_aggregate_concat(head + seg_authority(i), last);
}

/// Selection is the only way into use and starts only from `Available`;
/// completed or incident history admits no step but revocation.
pub proof fn lemma_consumption_lifecycle(
    current: ReleaseAuthorizationConsumptionV1,
    next: ReleaseAuthorizationConsumptionV1,
)
    ensures
        consumption_step_allowed(current, next) && next == ReleaseAuthorizationConsumptionV1::SelectedForRun
            ==> current == ReleaseAuthorizationConsumptionV1::Available,
        (current == ReleaseAuthorizationConsumptionV1::ConsumedComplete || current
            == ReleaseAuthorizationConsumptionV1::ConsumedIncident) && consumption_step_allowed(current, next)
            ==> next == ReleaseAuthorizationConsumptionV1::Revoked,
{
}

} // verus!
