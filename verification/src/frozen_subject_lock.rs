//! Machine-visible frozen-subject lock.
//!
//! After the final freeze identifies exact bytes and claims, ordinary work on
//! load-bearing release surfaces must not silently move the subject while the
//! freeze receipt remains current. This module classifies the paths that
//! moved since the frozen commit against a typed load-bearing denominator,
//! evaluates the lock state and verdict, and honours explicit invalidations.
//!
//! Lock law: load-bearing movement requires explicit freeze invalidation
//! before merge; a change outside the denominator may be allowed only
//! through the typed classification; invalidation stales the freeze
//! consumers; author assertions are never sufficient by themselves.

use vstd::prelude::*;
use crate::text::{
    debug_str, debug_string, join_sep, join_strings, starts_with, starts_with_str, str_eq, views,
};

verus! {

pub const FROZEN_SUBJECT_LOCK_SCHEMA_ID: &'static str = "cargo-allow.frozen-subject-lock.v1";

pub const FROZEN_SUBJECT_LOCK_SCHEMA_VERSION: u32 = 1;

pub const FROZEN_SUBJECT_CLAIM_BOUNDARY: &'static str = "A machine-visible repository guard preserving the exact final release subject between freeze, authorization, execution, and reconciliation. It requires explicit invalidation for load-bearing changes while allowing proven unrelated work through a typed classification; it does not authorize or execute release operations, does not replace branch protection, does not freeze the whole repository, and never creates tags, tokens, uploads, or publications.";

/// The eight lock states. Only `FreezeCompleteAwaitingAuthorization`,
/// `InvalidatedForRefreeze`, and `Inactive` are reachable from repository
/// state; the execution-side states keep the same contract through
/// publication and reconciliation.
#[derive(Debug, Clone, Copy, PartialEq, Eq, Structural)]
pub enum FrozenSubjectStateV1 {
    Inactive,
    FreezeCompleteAwaitingAuthorization,
    AuthorizationAvailable,
    OperationInProgress,
    PublishedAwaitingReconciliation,
    InvalidatedForRefreeze,
    ConsumedComplete,
    ConsumedIncident,
}

/// Closed verdict vocabulary for one evaluation.
#[derive(Debug, Clone, Copy, PartialEq, Eq, Structural)]
pub enum FrozenSubjectVerdictV1 {
    Complete,
    AllowedNonLoadBearing,
    RequiresInvalidation,
    Conflict,
    Stale,
    InstrumentFailure,
}

impl FrozenSubjectVerdictV1 {
    pub open spec fn label_spec(self) -> Seq<char> {
        match self {
            Self::Complete => "complete"@,
            Self::AllowedNonLoadBearing => "allowed_non_load_bearing"@,
            Self::RequiresInvalidation => "requires_invalidation"@,
            Self::Conflict => "conflict"@,
            Self::Stale => "stale"@,
            Self::InstrumentFailure => "instrument_failure"@,
        }
    }

    pub fn label(self) -> (r: &'static str)
        ensures
            r@ == self.label_spec(),
    {
        match self {
            Self::Complete => "complete",
            Self::AllowedNonLoadBearing => "allowed_non_load_bearing",
            Self::RequiresInvalidation => "requires_invalidation",
            Self::Conflict => "conflict",
            Self::Stale => "stale",
            Self::InstrumentFailure => "instrument_failure",
        }
    }
}

/// Semantic owner of one load-bearing path class; movement in any of them
/// changes the frozen release subject.
#[derive(Debug, Clone, Copy, PartialEq, Eq, Structural)]
pub enum LoadBearingOwnerV1 {
    FrozenLockRecords,
    ShippedSource,
    ManifestsLockfile,
    Toolchain,
    Policy,
    PackageDocsAssets,
    Schemas,
    SupportChannelTruth,
    ReleaseRecords,
    WorkflowsActions,
    ReleaseEvidenceProducers,
}

/// Semantic owner of one provably non-load-bearing path class. Membership is
/// the typed evidence that the class cannot change candidate bytes, claims,
/// controls, or evidence currentness.
#[derive(Debug, Clone, Copy, PartialEq, Eq, Structural)]
pub enum NonLoadBearingOwnerV1 {
    /// The lock's own CI machinery: minimal-permission enforcement only.
    FrozenSubjectLockMachinery,
    /// Unselected sibling products outside the frozen closure.
    SiblingProducts,
    /// Retained records of other lanes (the final-freeze records are
    /// load-bearing and match first).
    CampaignRecords,
    /// Repository prose outside package, support, release, and policy meaning.
    RepositoryProse,
}

pub open spec fn strs_view(v: Seq<&str>) -> Seq<Seq<char>> {
    v.map_values(|s: &str| s@)
}

impl LoadBearingOwnerV1 {
    pub open spec fn label_spec(self) -> Seq<char> {
        match self {
            Self::FrozenLockRecords => "frozen_lock_records"@,
            Self::ShippedSource => "shipped_source"@,
            Self::ManifestsLockfile => "manifests_lockfile"@,
            Self::Toolchain => "toolchain"@,
            Self::Policy => "policy"@,
            Self::PackageDocsAssets => "package_docs_assets"@,
            Self::Schemas => "schemas"@,
            Self::SupportChannelTruth => "support_channel_truth"@,
            Self::ReleaseRecords => "release_records"@,
            Self::WorkflowsActions => "workflows_actions"@,
            Self::ReleaseEvidenceProducers => "release_evidence_producers"@,
        }
    }

    pub fn label(self) -> (r: &'static str)
        ensures
            r@ == self.label_spec(),
    {
        match self {
            Self::FrozenLockRecords => "frozen_lock_records",
            Self::ShippedSource => "shipped_source",
            Self::ManifestsLockfile => "manifests_lockfile",
            Self::Toolchain => "toolchain",
            Self::Policy => "policy",
            Self::PackageDocsAssets => "package_docs_assets",
            Self::Schemas => "schemas",
            Self::SupportChannelTruth => "support_channel_truth",
            Self::ReleaseRecords => "release_records",
            Self::WorkflowsActions => "workflows_actions",
            Self::ReleaseEvidenceProducers => "release_evidence_producers",
        }
    }

    /// The ordered patterns of this owner: an exact path or directory prefix
    /// (matching the path or anything below it), or a name prefix ending in
    /// `-` or `*`.
    pub closed spec fn patterns_spec(self) -> Seq<Seq<char>> {
        match self {
            Self::FrozenLockRecords => Seq::empty().push("docs/dogfood/receipts/final-freeze"@),
            Self::ShippedSource => Seq::empty().push("crates/allow-core"@).push(
                "crates/allow-policy-legacy"@,
            ).push("crates/allow-policy"@).push("crates/allow-inventory"@).push(
                "crates/allow-files"@,
            ).push("crates/allow-rust"@).push("crates/allow-match"@).push(
                "crates/allow-report"@,
            ).push("crates/allow-diff"@).push("crates/cargo-allow"@).push(
                "crates/effortless-repo-edit"@,
            ).push("crates/effortless-repo-protocol"@).push("crates/effortless-repo-snapshot"@),
            Self::ManifestsLockfile => Seq::empty().push("Cargo.toml"@).push("Cargo.lock"@).push(
                ".cargo"@,
            ),
            Self::Toolchain => Seq::empty().push("rust-toolchain.toml"@),
            Self::Policy => Seq::empty().push("policy"@),
            Self::PackageDocsAssets => Seq::empty().push("README.md"@).push("SUPPORT.md"@).push(
                "SECURITY.md"@,
            ).push("LICENSE-MIT"@).push("LICENSE-APACHE"@).push(".pre-commit-hooks.yaml"@).push(
                "docs/getting-started.md"@,
            ).push("docs/how-to"@).push("docs/dogfood/fixtures"@),
            Self::Schemas => Seq::empty().push("docs/schemas"@),
            Self::SupportChannelTruth => Seq::empty().push("docs/support-matrix.toml"@).push(
                "docs/support"@,
            ),
            Self::ReleaseRecords => Seq::empty().push("docs/release"@).push("docs/github"@).push(
                ".changes"@,
            ).push(".changie.yaml"@),
            Self::WorkflowsActions => Seq::empty().push(".github"@),
            Self::ReleaseEvidenceProducers => Seq::empty().push("scripts/release-"@).push(
                "scripts/generate-release-manifest.sh"@,
            ).push("scripts/observe-live-release-controls.sh"@).push(
                "scripts/final-package-docs"@,
            ).push("scripts/exact-candidate-"@).push(
                "scripts/exact-upgrade-rollback-journey.sh"@,
            ).push("scripts/validate-upgrade-rollback-journey.py"@).push(
                "scripts/source-candidate-smoke.sh"@,
            ).push("scripts/package-candidate-smoke.sh"@).push(
                "scripts/candidate-harness-owned-dir.py"@,
            ).push("scripts/check-msrv-"@).push("scripts/verify-crate-registry-version.sh"@).push(
                "scripts/test-exact-candidate-"@,
            ).push("scripts/test-release-"@).push("scripts/test-package-candidate-smoke.sh"@).push(
                "scripts/test-verify-crate-registry-version.sh"@,
            ).push("scripts/exact_candidate_package_identity.py"@),
        }
    }

    /// The ordered patterns of this owner.
    pub fn patterns(self) -> (r: Vec<&'static str>)
        ensures
            strs_view(r@) == self.patterns_spec(),
    {
        let mut v: Vec<&'static str> = Vec::new();
        match self {
            Self::FrozenLockRecords => {
                v.push("docs/dogfood/receipts/final-freeze");
            },
            Self::ShippedSource => {
                v.push("crates/allow-core");
                v.push("crates/allow-policy-legacy");
                v.push("crates/allow-policy");
                v.push("crates/allow-inventory");
                v.push("crates/allow-files");
                v.push("crates/allow-rust");
                v.push("crates/allow-match");
                v.push("crates/allow-report");
                v.push("crates/allow-diff");
                v.push("crates/cargo-allow");
                v.push("crates/effortless-repo-edit");
                v.push("crates/effortless-repo-protocol");
                v.push("crates/effortless-repo-snapshot");
            },
            Self::ManifestsLockfile => {
                v.push("Cargo.toml");
                v.push("Cargo.lock");
                v.push(".cargo");
            },
            Self::Toolchain => {
                v.push("rust-toolchain.toml");
            },
            Self::Policy => {
                v.push("policy");
            },
            Self::PackageDocsAssets => {
                v.push("README.md");
                v.push("SUPPORT.md");
                v.push("SECURITY.md");
                v.push("LICENSE-MIT");
                v.push("LICENSE-APACHE");
                v.push(".pre-commit-hooks.yaml");
                v.push("docs/getting-started.md");
                v.push("docs/how-to");
                v.push("docs/dogfood/fixtures");
            },
            Self::Schemas => {
                v.push("docs/schemas");
            },
            Self::SupportChannelTruth => {
                v.push("docs/support-matrix.toml");
                v.push("docs/support");
            },
            Self::ReleaseRecords => {
                v.push("docs/release");
                v.push("docs/github");
                v.push(".changes");
                v.push(".changie.yaml");
            },
            Self::WorkflowsActions => {
                v.push(".github");
            },
            Self::ReleaseEvidenceProducers => {
                v.push("scripts/release-");
                v.push("scripts/generate-release-manifest.sh");
                v.push("scripts/observe-live-release-controls.sh");
                v.push("scripts/final-package-docs");
                v.push("scripts/exact-candidate-");
                v.push("scripts/exact-upgrade-rollback-journey.sh");
                v.push("scripts/validate-upgrade-rollback-journey.py");
                v.push("scripts/source-candidate-smoke.sh");
                v.push("scripts/package-candidate-smoke.sh");
                v.push("scripts/candidate-harness-owned-dir.py");
                v.push("scripts/check-msrv-");
                v.push("scripts/verify-crate-registry-version.sh");
                v.push("scripts/test-exact-candidate-");
                v.push("scripts/test-release-");
                v.push("scripts/test-package-candidate-smoke.sh");
                v.push("scripts/test-verify-crate-registry-version.sh");
                v.push("scripts/exact_candidate_package_identity.py");
            },
        }
        assert(strs_view(v@) =~= self.patterns_spec());
        v
    }

    /// Every load-bearing owner, in classification order (schemas before
    /// package docs).
    pub open spec fn owned_spec() -> Seq<LoadBearingOwnerV1> {
        Seq::empty().push(Self::FrozenLockRecords).push(Self::ShippedSource).push(
            Self::ManifestsLockfile,
        ).push(Self::Toolchain).push(Self::Policy).push(Self::Schemas).push(
            Self::PackageDocsAssets,
        ).push(Self::SupportChannelTruth).push(Self::ReleaseRecords).push(
            Self::WorkflowsActions,
        ).push(Self::ReleaseEvidenceProducers)
    }

    /// Every load-bearing owner, in classification order.
    pub fn patterns_owned() -> (r: Vec<LoadBearingOwnerV1>)
        ensures
            r@ == Self::owned_spec(),
    {
        let mut v: Vec<LoadBearingOwnerV1> = Vec::new();
        v.push(Self::FrozenLockRecords);
        v.push(Self::ShippedSource);
        v.push(Self::ManifestsLockfile);
        v.push(Self::Toolchain);
        v.push(Self::Policy);
        v.push(Self::Schemas);
        v.push(Self::PackageDocsAssets);
        v.push(Self::SupportChannelTruth);
        v.push(Self::ReleaseRecords);
        v.push(Self::WorkflowsActions);
        v.push(Self::ReleaseEvidenceProducers);
        assert(v@ =~= Self::owned_spec());
        v
    }
}

impl NonLoadBearingOwnerV1 {
    pub open spec fn label_spec(self) -> Seq<char> {
        match self {
            Self::FrozenSubjectLockMachinery => "frozen_subject_lock_machinery"@,
            Self::SiblingProducts => "sibling_products"@,
            Self::CampaignRecords => "campaign_records"@,
            Self::RepositoryProse => "repository_prose"@,
        }
    }

    pub fn label(self) -> (r: &'static str)
        ensures
            r@ == self.label_spec(),
    {
        match self {
            Self::FrozenSubjectLockMachinery => "frozen_subject_lock_machinery",
            Self::SiblingProducts => "sibling_products",
            Self::CampaignRecords => "campaign_records",
            Self::RepositoryProse => "repository_prose",
        }
    }

    pub closed spec fn patterns_spec(self) -> Seq<Seq<char>> {
        match self {
            Self::FrozenSubjectLockMachinery => Seq::empty().push(
                ".github/workflows/frozen-subject-lock.yml"@,
            ),
            Self::SiblingProducts => Seq::empty().push("crates/cargo-intent"@).push(
                "crates/cargo-proof"@,
            ).push("crates/effortless-rust-source-index"@).push("crates/intent-"@).push(
                "crates/proof-"@,
            ),
            Self::CampaignRecords => Seq::empty().push("docs/dogfood/receipts"@),
            Self::RepositoryProse => Seq::empty().push("docs/source-of-truth"@).push(
                "docs/adr"@,
            ).push("docs/incidents"@).push("docs/incident-recovery.md"@).push("AGENTS.md"@).push(
                ".agents"@,
            ),
        }
    }

    /// The ordered patterns of this owner.
    pub fn patterns(self) -> (r: Vec<&'static str>)
        ensures
            strs_view(r@) == self.patterns_spec(),
    {
        let mut v: Vec<&'static str> = Vec::new();
        match self {
            Self::FrozenSubjectLockMachinery => {
                v.push(".github/workflows/frozen-subject-lock.yml");
            },
            Self::SiblingProducts => {
                v.push("crates/cargo-intent");
                v.push("crates/cargo-proof");
                v.push("crates/effortless-rust-source-index");
                v.push("crates/intent-");
                v.push("crates/proof-");
            },
            Self::CampaignRecords => {
                v.push("docs/dogfood/receipts");
            },
            Self::RepositoryProse => {
                v.push("docs/source-of-truth");
                v.push("docs/adr");
                v.push("docs/incidents");
                v.push("docs/incident-recovery.md");
                v.push("AGENTS.md");
                v.push(".agents");
            },
        }
        assert(strs_view(v@) =~= self.patterns_spec());
        v
    }

    pub open spec fn owned_spec() -> Seq<NonLoadBearingOwnerV1> {
        Seq::empty().push(Self::FrozenSubjectLockMachinery).push(Self::SiblingProducts).push(
            Self::CampaignRecords,
        ).push(Self::RepositoryProse)
    }

    /// Every non-load-bearing owner, in classification order.
    pub fn patterns_owned() -> (r: Vec<NonLoadBearingOwnerV1>)
        ensures
            r@ == Self::owned_spec(),
    {
        let mut v: Vec<NonLoadBearingOwnerV1> = Vec::new();
        v.push(Self::FrozenSubjectLockMachinery);
        v.push(Self::SiblingProducts);
        v.push(Self::CampaignRecords);
        v.push(Self::RepositoryProse);
        assert(v@ =~= Self::owned_spec());
        v
    }
}

#[derive(Debug, Clone, Copy, PartialEq, Eq, Structural)]
pub enum FrozenSubjectPathKindV1 {
    LoadBearing,
    NonLoadBearing,
}

/// One changed path with its classification and owner.
#[derive(Debug, Clone, PartialEq, Eq)]
pub struct FrozenSubjectPathClassV1 {
    pub path: String,
    pub status: String,
    pub kind: FrozenSubjectPathKindV1,
    pub owner: String,
}

/// One changed path with its git diff status (A/M/D/R...).
#[derive(Debug, Clone, PartialEq, Eq)]
pub struct FrozenSubjectChangeV1 {
    pub status: String,
    pub path: String,
    /// Typed evidence that the diff is purely additive, proven from the diff
    /// content by the caller.
    pub append_only: bool,
}

/// An invalidation record. Any record naming the frozen commit moves the
/// lock to `InvalidatedForRefreeze` and stales the freeze consumers.
#[derive(Debug, Clone, PartialEq, Eq)]
pub struct FrozenSubjectInvalidationV1 {
    pub reason: String,
    pub recorded_by: String,
    pub recorded_at_utc: String,
    /// The frozen commit the invalidation applies to.
    pub frozen_commit: String,
}

/// The retained freeze identity consumed from the retained receipt.
#[derive(Debug, Clone, PartialEq, Eq)]
pub struct FrozenSubjectReceiptIdentityV1 {
    pub commit: String,
    pub tree: String,
    pub version: String,
    pub tag: String,
    /// The receipt's own freeze-state string (Complete).
    pub freeze_state: String,
    /// The receipt file's sha256 in the typed form.
    pub receipt_digest: String,
}

/// Evaluation input: retained identity, the current head, the changed paths,
/// and any invalidation records.
#[derive(Debug, Clone, PartialEq, Eq)]
pub struct FrozenSubjectLockInputV1 {
    pub receipt: Option<FrozenSubjectReceiptIdentityV1>,
    pub current_head: String,
    pub changed_paths: Vec<FrozenSubjectChangeV1>,
    pub invalidations: Vec<FrozenSubjectInvalidationV1>,
}

/// The evaluated lock.
#[derive(Debug, Clone, PartialEq, Eq)]
pub struct CargoAllowFrozenSubjectLockV1 {
    pub schema_id: String,
    pub schema_version: u32,
    pub state: FrozenSubjectStateV1,
    pub verdict: FrozenSubjectVerdictV1,
    pub frozen_commit: Option<String>,
    pub current_head: Option<String>,
    pub classified_paths: Vec<FrozenSubjectPathClassV1>,
    pub load_bearing_moved: Vec<String>,
    pub invalidation_count: usize,
    pub blocking_rows: Vec<String>,
    pub claim_boundary: &'static str,
}

// ---------------------------------------------------------------------------
// Classification.
// ---------------------------------------------------------------------------

/// Whether `pattern` claims `path`: a pattern ending in `*` or `-` is a name
/// prefix; any other pattern claims the path itself and everything below it.
pub open spec fn pattern_matches(pattern: Seq<char>, path: Seq<char>) -> bool {
    if pattern.len() > 0 && pattern.last() == '*' {
        starts_with(path, pattern.drop_last())
    } else if pattern.len() > 0 && pattern.last() == '-' {
        starts_with(path, pattern)
    } else {
        path == pattern || starts_with(path, pattern.push('/'))
    }
}

pub open spec fn any_pattern(patterns: Seq<Seq<char>>, path: Seq<char>) -> bool {
    exists|k: int| 0 <= k < patterns.len() && pattern_matches(#[trigger] patterns[k], path)
}

/// The first non-load-bearing owner (in order) claiming `path`, if any.
pub open spec fn first_non_load_bearing(owners: Seq<NonLoadBearingOwnerV1>, path: Seq<char>) -> Option<
    NonLoadBearingOwnerV1,
>
    decreases owners.len(),
{
    if owners.len() == 0 {
        None
    } else if any_pattern(owners[0].patterns_spec(), path) {
        Some(owners[0])
    } else {
        first_non_load_bearing(owners.drop_first(), path)
    }
}

/// The first load-bearing owner (in order) claiming `path`, if any.
pub open spec fn first_load_bearing(owners: Seq<LoadBearingOwnerV1>, path: Seq<char>) -> Option<
    LoadBearingOwnerV1,
>
    decreases owners.len(),
{
    if owners.len() == 0 {
        None
    } else if any_pattern(owners[0].patterns_spec(), path) {
        Some(owners[0])
    } else {
        first_load_bearing(owners.drop_first(), path)
    }
}

/// The classification of one path: the policy ledger is non-load-bearing
/// only with an append-only proof; the final-freeze records match first;
/// then the non-load-bearing owners; then the remaining load-bearing owners;
/// anything unclaimed is recorded as `unclassified`.
pub open spec fn classify_spec(path: Seq<char>, append_only: bool) -> (FrozenSubjectPathKindV1, Seq<
    char,
>) {
    if path == "policy/allow.toml"@ {
        if append_only {
            (FrozenSubjectPathKindV1::NonLoadBearing, "ledger_append_only"@)
        } else {
            (FrozenSubjectPathKindV1::LoadBearing, "policy"@)
        }
    } else if any_pattern(LoadBearingOwnerV1::FrozenLockRecords.patterns_spec(), path) {
        (FrozenSubjectPathKindV1::LoadBearing, LoadBearingOwnerV1::FrozenLockRecords.label_spec())
    } else {
        match first_non_load_bearing(NonLoadBearingOwnerV1::owned_spec(), path) {
            Some(o) => (FrozenSubjectPathKindV1::NonLoadBearing, o.label_spec()),
            None => match first_load_bearing(LoadBearingOwnerV1::owned_spec().drop_first(), path) {
                Some(o) => (FrozenSubjectPathKindV1::LoadBearing, o.label_spec()),
                None => (FrozenSubjectPathKindV1::NonLoadBearing, "unclassified"@),
            },
        }
    }
}

/// (path, status, kind, owner)
pub type PathClassView = (Seq<char>, Seq<char>, FrozenSubjectPathKindV1, Seq<char>);

pub open spec fn path_class_view(c: FrozenSubjectPathClassV1) -> PathClassView {
    (c.path@, c.status@, c.kind, c.owner@)
}

pub open spec fn classify_view(path: Seq<char>, status: Seq<char>, append_only: bool) -> PathClassView {
    (path, status, classify_spec(path, append_only).0, classify_spec(path, append_only).1)
}

fn pattern_matches_str(pattern: &str, path: &str) -> (r: bool)
    ensures
        r == pattern_matches(pattern@, path@),
{
    let n = pattern.unicode_len();
    if n > 0 && pattern.get_char(n - 1) == '*' {
        let prefix = pattern.substring_char(0, n - 1);
        assert(prefix@ =~= pattern@.drop_last());
        starts_with_str(path, prefix)
    } else if n > 0 && pattern.get_char(n - 1) == '-' {
        starts_with_str(path, pattern)
    } else {
        let mut below = pattern.to_string();
        crate::text::push_str(&mut below, "/");
        proof {
            reveal_strlit("/");
        }
        assert(below@ =~= pattern@.push('/'));
        str_eq(path, pattern) || starts_with_str(path, below.as_str())
    }
}

fn any_pattern_str(patterns: &Vec<&'static str>, path: &str) -> (r: bool)
    ensures
        r == any_pattern(strs_view(patterns@), path@),
{
    let ghost pats = strs_view(patterns@);
    let mut k: usize = 0;
    while k < patterns.len()
        invariant
            k <= patterns.len(),
            pats == strs_view(patterns@),
            forall|j: int| 0 <= j < k ==> !pattern_matches(#[trigger] pats[j], path@),
        decreases patterns.len() - k,
    {
        if pattern_matches_str(patterns[k], path) {
            assert(pattern_matches(pats[k as int], path@));
            return true;
        }
        k = k + 1;
    }
    false
}

fn class_of(path: &str, status: &str, kind: FrozenSubjectPathKindV1, owner: &str) -> (r:
    FrozenSubjectPathClassV1)
    ensures
        path_class_view(r) == (path@, status@, kind, owner@),
{
    FrozenSubjectPathClassV1 {
        path: path.to_string(),
        status: status.to_string(),
        kind,
        owner: owner.to_string(),
    }
}

/// Classifies one path: first match wins across the ordered pattern tables
/// (the lock's own machinery and the final-freeze records are matched before
/// the broad `.github` and receipts patterns).
pub fn classify_frozen_subject_path(path: &str, status: &str, append_only: bool) -> (r:
    FrozenSubjectPathClassV1)
    ensures
        path_class_view(r) == classify_view(path@, status@, append_only),
{
    // Without the append-only proof the ledger stays load-bearing policy.
    if str_eq(path, "policy/allow.toml") {
        if append_only {
            return class_of(path, status, FrozenSubjectPathKindV1::NonLoadBearing, "ledger_append_only");
        }
        return class_of(path, status, FrozenSubjectPathKindV1::LoadBearing, "policy");
    }
    let lock_records = LoadBearingOwnerV1::FrozenLockRecords;
    if any_pattern_str(&lock_records.patterns(), path) {
        return class_of(path, status, FrozenSubjectPathKindV1::LoadBearing, lock_records.label());
    }
    let non_load = NonLoadBearingOwnerV1::patterns_owned();
    let mut k: usize = 0;
    assert(non_load@.skip(0) =~= non_load@);
    while k < non_load.len()
        invariant
            k <= non_load.len(),
            non_load@ == NonLoadBearingOwnerV1::owned_spec(),
            path@ != "policy/allow.toml"@,
            !any_pattern(LoadBearingOwnerV1::FrozenLockRecords.patterns_spec(), path@),
            first_non_load_bearing(NonLoadBearingOwnerV1::owned_spec(), path@)
                == first_non_load_bearing(non_load@.skip(k as int), path@),
        decreases non_load.len() - k,
    {
        let owner = non_load[k];
        assert(non_load@.skip(k as int)[0] == owner);
        assert(non_load@.skip(k as int).drop_first() =~= non_load@.skip(k + 1));
        let pats = owner.patterns();
        if any_pattern_str(&pats, path) {
            assert(first_non_load_bearing(non_load@.skip(k as int), path@) == Some(owner));
            return class_of(path, status, FrozenSubjectPathKindV1::NonLoadBearing, owner.label());
        }
        k = k + 1;
    }
    let load = LoadBearingOwnerV1::patterns_owned();
    let mut j: usize = 1;
    assert(load@.skip(1) =~= LoadBearingOwnerV1::owned_spec().drop_first());
    while j < load.len()
        invariant
            1 <= j <= load.len(),
            load@ == LoadBearingOwnerV1::owned_spec(),
            path@ != "policy/allow.toml"@,
            !any_pattern(LoadBearingOwnerV1::FrozenLockRecords.patterns_spec(), path@),
            first_non_load_bearing(NonLoadBearingOwnerV1::owned_spec(), path@) is None,
            first_load_bearing(LoadBearingOwnerV1::owned_spec().drop_first(), path@)
                == first_load_bearing(load@.skip(j as int), path@),
        decreases load.len() - j,
    {
        let owner = load[j];
        assert(load@.skip(j as int)[0] == owner);
        assert(load@.skip(j as int).drop_first() =~= load@.skip(j + 1));
        let pats = owner.patterns();
        if any_pattern_str(&pats, path) {
            assert(first_load_bearing(load@.skip(j as int), path@) == Some(owner));
            return class_of(path, status, FrozenSubjectPathKindV1::LoadBearing, owner.label());
        }
        j = j + 1;
    }
    class_of(path, status, FrozenSubjectPathKindV1::NonLoadBearing, "unclassified")
}

// ---------------------------------------------------------------------------
// Evaluation.
// ---------------------------------------------------------------------------

pub open spec fn classified_spec(i: FrozenSubjectLockInputV1) -> Seq<PathClassView> {
    i.changed_paths@.map_values(
        |c: FrozenSubjectChangeV1| classify_view(c.path@, c.status@, c.append_only),
    )
}

pub open spec fn class_views(v: Seq<FrozenSubjectPathClassV1>) -> Seq<PathClassView> {
    v.map_values(|c: FrozenSubjectPathClassV1| path_class_view(c))
}

/// The load-bearing paths, in input order.
pub open spec fn load_bearing_paths(cs: Seq<PathClassView>) -> Seq<Seq<char>>
    decreases cs.len(),
{
    if cs.len() == 0 {
        Seq::empty()
    } else {
        let rest = load_bearing_paths(cs.drop_last());
        if cs.last().2 == FrozenSubjectPathKindV1::LoadBearing {
            rest.push(cs.last().0)
        } else {
            rest
        }
    }
}

pub open spec fn is_lock_record(c: PathClassView) -> bool {
    c.3 == LoadBearingOwnerV1::FrozenLockRecords.label_spec()
}

/// The retained final-freeze records were modified or removed.
pub open spec fn tampered(cs: Seq<PathClassView>) -> bool {
    exists|j: int|
        0 <= j < cs.len() && is_lock_record(#[trigger] cs[j]) && (starts_with(cs[j].1, "M"@)
            || starts_with(cs[j].1, "D"@))
}

/// `p` is the creation of a retained final-freeze record: its own admission.
pub open spec fn admitted(cs: Seq<PathClassView>, p: Seq<char>) -> bool {
    exists|j: int|
        0 <= j < cs.len() && is_lock_record(#[trigger] cs[j]) && cs[j].1 == "A"@ && cs[j].0 == p
}

/// Load-bearing movement other than the admission of final-freeze records.
pub open spec fn effective_paths(cs: Seq<PathClassView>, ps: Seq<Seq<char>>) -> Seq<Seq<char>>
    decreases ps.len(),
{
    if ps.len() == 0 {
        Seq::empty()
    } else {
        let rest = effective_paths(cs, ps.drop_last());
        if admitted(cs, ps.last()) {
            rest
        } else {
            rest.push(ps.last())
        }
    }
}

/// How many invalidations name `commit`.
pub open spec fn applicable_count(invs: Seq<FrozenSubjectInvalidationV1>, commit: Seq<char>) -> nat
    decreases invs.len(),
{
    if invs.len() == 0 {
        0
    } else {
        applicable_count(invs.drop_last(), commit) + if invs.last().frozen_commit@ == commit {
            1nat
        } else {
            0nat
        }
    }
}

pub open spec fn not_complete_row(freeze_state: Seq<char>) -> Seq<char> {
    "the retained freeze receipt is not Complete (state "@ + debug_str(freeze_state) + ")"@
}

/// State, verdict and blocking rows of a lock whose freeze receipt is retained.
pub open spec fn lock_outcome(i: FrozenSubjectLockInputV1, r: FrozenSubjectReceiptIdentityV1) -> (
    FrozenSubjectStateV1,
    FrozenSubjectVerdictV1,
    Seq<Seq<char>>,
) {
    let cs = classified_spec(i);
    let base: Seq<Seq<char>> = if r.freeze_state@ != "Complete"@ {
        Seq::empty().push(not_complete_row(r.freeze_state@))
    } else {
        Seq::empty()
    };
    let invalidated = applicable_count(i.invalidations@, r.commit@) > 0;
    let state = if invalidated {
        FrozenSubjectStateV1::InvalidatedForRefreeze
    } else {
        FrozenSubjectStateV1::FreezeCompleteAwaitingAuthorization
    };
    let effective = effective_paths(cs, load_bearing_paths(cs));
    if tampered(cs) {
        (
            FrozenSubjectStateV1::InvalidatedForRefreeze,
            FrozenSubjectVerdictV1::Conflict,
            base.push(
                "the retained final-freeze records moved; this is lock tampering until a refreeze"@,
            ),
        )
    } else if effective.len() == 0 {
        (
            state,
            if invalidated {
                FrozenSubjectVerdictV1::Stale
            } else if cs.len() == 0 {
                FrozenSubjectVerdictV1::Complete
            } else {
                FrozenSubjectVerdictV1::AllowedNonLoadBearing
            },
            base,
        )
    } else if invalidated {
        (
            state,
            FrozenSubjectVerdictV1::Stale,
            Seq::empty().push(
                "load-bearing movement under an explicit invalidation: the freeze is stale and must be redone"@,
            ),
        )
    } else {
        (
            FrozenSubjectStateV1::FreezeCompleteAwaitingAuthorization,
            FrozenSubjectVerdictV1::RequiresInvalidation,
            base.push("load-bearing movement without invalidation: "@ + join_sep(effective, ", "@)),
        )
    }
}

fn classify_all(input: &FrozenSubjectLockInputV1) -> (r: Vec<FrozenSubjectPathClassV1>)
    ensures
        class_views(r@) == classified_spec(*input),
{
    let mut out: Vec<FrozenSubjectPathClassV1> = Vec::new();
    let mut k: usize = 0;
    while k < input.changed_paths.len()
        invariant
            k <= input.changed_paths.len(),
            class_views(out@) == classified_spec(*input).take(k as int),
        decreases input.changed_paths.len() - k,
    {
        let change = &input.changed_paths[k];
        let c = classify_frozen_subject_path(
            change.path.as_str(),
            change.status.as_str(),
            change.append_only,
        );
        let ghost before = out@;
        out.push(c);
        assert(class_views(out@) =~= class_views(before).push(path_class_view(c)));
        assert(classified_spec(*input).take(k + 1) =~= classified_spec(*input).take(k as int).push(
            path_class_view(c),
        ));
        k = k + 1;
    }
    assert(classified_spec(*input).take(k as int) =~= classified_spec(*input));
    out
}

fn collect_load_bearing(cs: &Vec<FrozenSubjectPathClassV1>) -> (r: Vec<String>)
    ensures
        views(r@) == load_bearing_paths(class_views(cs@)),
{
    let mut out: Vec<String> = Vec::new();
    let mut k: usize = 0;
    while k < cs.len()
        invariant
            k <= cs.len(),
            views(out@) == load_bearing_paths(class_views(cs@).take(k as int)),
        decreases cs.len() - k,
    {
        let ghost t = class_views(cs@).take(k + 1);
        assert(t.drop_last() =~= class_views(cs@).take(k as int));
        if cs[k].kind == FrozenSubjectPathKindV1::LoadBearing {
            let ghost before = out@;
            out.push(cs[k].path.clone());
            assert(views(out@) =~= views(before).push(cs@[k as int].path@));
        }
        k = k + 1;
    }
    assert(class_views(cs@).take(k as int) =~= class_views(cs@));
    out
}

fn is_tampered(cs: &Vec<FrozenSubjectPathClassV1>) -> (r: bool)
    ensures
        r == tampered(class_views(cs@)),
{
    let ghost v = class_views(cs@);
    let mut k: usize = 0;
    while k < cs.len()
        invariant
            k <= cs.len(),
            v == class_views(cs@),
            forall|j: int|
                0 <= j < k ==> !(is_lock_record(#[trigger] v[j]) && (starts_with(v[j].1, "M"@)
                    || starts_with(v[j].1, "D"@))),
        decreases cs.len() - k,
    {
        let c = &cs[k];
        if str_eq(c.owner.as_str(), "frozen_lock_records") && (starts_with_str(
            c.status.as_str(),
            "M",
        ) || starts_with_str(c.status.as_str(), "D")) {
            assert(is_lock_record(v[k as int]));
            return true;
        }
        k = k + 1;
    }
    false
}

fn is_admitted(cs: &Vec<FrozenSubjectPathClassV1>, p: &str) -> (r: bool)
    ensures
        r == admitted(class_views(cs@), p@),
{
    let ghost v = class_views(cs@);
    let mut k: usize = 0;
    while k < cs.len()
        invariant
            k <= cs.len(),
            v == class_views(cs@),
            forall|j: int|
                0 <= j < k ==> !(is_lock_record(#[trigger] v[j]) && v[j].1 == "A"@ && v[j].0
                    == p@),
        decreases cs.len() - k,
    {
        let c = &cs[k];
        if str_eq(c.owner.as_str(), "frozen_lock_records") && str_eq(c.status.as_str(), "A")
            && str_eq(c.path.as_str(), p) {
            assert(is_lock_record(v[k as int]));
            return true;
        }
        k = k + 1;
    }
    false
}

fn collect_effective(cs: &Vec<FrozenSubjectPathClassV1>, moved: &Vec<String>) -> (r: Vec<String>)
    ensures
        views(r@) == effective_paths(class_views(cs@), views(moved@)),
{
    let mut out: Vec<String> = Vec::new();
    let mut k: usize = 0;
    while k < moved.len()
        invariant
            k <= moved.len(),
            views(out@) == effective_paths(class_views(cs@), views(moved@).take(k as int)),
        decreases moved.len() - k,
    {
        let ghost t = views(moved@).take(k + 1);
        assert(t.drop_last() =~= views(moved@).take(k as int));
        if !is_admitted(cs, moved[k].as_str()) {
            let ghost before = out@;
            out.push(moved[k].clone());
            assert(views(out@) =~= views(before).push(moved@[k as int]@));
        }
        k = k + 1;
    }
    assert(views(moved@).take(k as int) =~= views(moved@));
    out
}

fn count_applicable(invs: &Vec<FrozenSubjectInvalidationV1>, commit: &str) -> (r: usize)
    ensures
        r == applicable_count(invs@, commit@),
{
    let mut count: usize = 0;
    let mut k: usize = 0;
    while k < invs.len()
        invariant
            k <= invs.len(),
            count == applicable_count(invs@.take(k as int), commit@),
            count <= k,
        decreases invs.len() - k,
    {
        assert(invs@.take(k + 1).drop_last() =~= invs@.take(k as int));
        if str_eq(invs[k].frozen_commit.as_str(), commit) {
            count = count + 1;
        }
        k = k + 1;
    }
    assert(invs@.take(k as int) =~= invs@);
    count
}

pub open spec fn opt_string_view(o: Option<String>) -> Option<Seq<char>> {
    match o {
        Some(s) => Some(s@),
        None => None,
    }
}

/// Evaluates the lock. Pure and timestamp-free: without a retained receipt
/// the lock is inactive and stale; modified or removed final-freeze records
/// are a conflict; load-bearing movement requires an invalidation naming the
/// frozen commit, and with one the freeze is stale and must be redone.
pub fn evaluate_frozen_subject_lock(input: &FrozenSubjectLockInputV1) -> (r:
    CargoAllowFrozenSubjectLockV1)
    ensures
        r.schema_id@ == FROZEN_SUBJECT_LOCK_SCHEMA_ID@,
        r.schema_version == FROZEN_SUBJECT_LOCK_SCHEMA_VERSION,
        r.claim_boundary@ == FROZEN_SUBJECT_CLAIM_BOUNDARY@,
        class_views(r.classified_paths@) == classified_spec(*input),
        views(r.load_bearing_moved@) == load_bearing_paths(classified_spec(*input)),
        opt_string_view(r.current_head) == Some(input.current_head@),
        match input.receipt {
            None => {
                &&& r.state == FrozenSubjectStateV1::Inactive
                &&& r.verdict == FrozenSubjectVerdictV1::Stale
                &&& r.frozen_commit is None
                &&& r.invalidation_count == input.invalidations@.len()
                &&& views(r.blocking_rows@) == seq!["no retained freeze receipt is available"@]
            },
            Some(receipt) => {
                &&& r.state == lock_outcome(*input, receipt).0
                &&& r.verdict == lock_outcome(*input, receipt).1
                &&& views(r.blocking_rows@) == lock_outcome(*input, receipt).2
                &&& opt_string_view(r.frozen_commit) == Some(receipt.commit@)
                &&& r.invalidation_count == applicable_count(input.invalidations@, receipt.commit@)
            },
        },
{
    let mut blocking_rows: Vec<String> = Vec::new();
    let classified = classify_all(input);
    let load_bearing_moved = collect_load_bearing(&classified);
    let receipt = match &input.receipt {
        None => {
            blocking_rows.push("no retained freeze receipt is available".to_string());
            assert(views(blocking_rows@) =~= seq!["no retained freeze receipt is available"@]);
            return CargoAllowFrozenSubjectLockV1 {
                schema_id: FROZEN_SUBJECT_LOCK_SCHEMA_ID.to_string(),
                schema_version: FROZEN_SUBJECT_LOCK_SCHEMA_VERSION,
                state: FrozenSubjectStateV1::Inactive,
                verdict: FrozenSubjectVerdictV1::Stale,
                frozen_commit: None,
                current_head: Some(input.current_head.clone()),
                classified_paths: classified,
                load_bearing_moved,
                invalidation_count: input.invalidations.len(),
                blocking_rows,
                claim_boundary: FROZEN_SUBJECT_CLAIM_BOUNDARY,
            };
        },
        Some(receipt) => receipt,
    };
    if !str_eq(receipt.freeze_state.as_str(), "Complete") {
        let shown = debug_string(receipt.freeze_state.as_str());
        let mut row = "the retained freeze receipt is not Complete (state ".to_string();
        crate::text::push_str(&mut row, shown.as_str());
        crate::text::push_str(&mut row, ")");
        blocking_rows.push(row);
    }
    let ghost base = views(blocking_rows@);
    assert(base =~= (if receipt.freeze_state@ != "Complete"@ {
        Seq::empty().push(not_complete_row(receipt.freeze_state@))
    } else {
        Seq::<Seq<char>>::empty()
    }));
    let applicable = count_applicable(&input.invalidations, receipt.commit.as_str());
    let state = if applicable > 0 {
        FrozenSubjectStateV1::InvalidatedForRefreeze
    } else {
        FrozenSubjectStateV1::FreezeCompleteAwaitingAuthorization
    };
    // Tamper check: the frozen lock records must not be modified or removed
    // after creation; additions are the records' own creation.
    if is_tampered(&classified) {
        blocking_rows.push(
            "the retained final-freeze records moved; this is lock tampering until a refreeze".to_string(),
        );
        assert(views(blocking_rows@) =~= base.push(
            "the retained final-freeze records moved; this is lock tampering until a refreeze"@,
        ));
        return CargoAllowFrozenSubjectLockV1 {
            schema_id: FROZEN_SUBJECT_LOCK_SCHEMA_ID.to_string(),
            schema_version: FROZEN_SUBJECT_LOCK_SCHEMA_VERSION,
            state: FrozenSubjectStateV1::InvalidatedForRefreeze,
            verdict: FrozenSubjectVerdictV1::Conflict,
            frozen_commit: Some(receipt.commit.clone()),
            current_head: Some(input.current_head.clone()),
            classified_paths: classified,
            load_bearing_moved,
            invalidation_count: applicable,
            blocking_rows,
            claim_boundary: FROZEN_SUBJECT_CLAIM_BOUNDARY,
        };
    }
    let effective = collect_effective(&classified, &load_bearing_moved);
    if effective.len() == 0 {
        let verdict = if state == FrozenSubjectStateV1::InvalidatedForRefreeze {
            FrozenSubjectVerdictV1::Stale
        } else if classified.len() == 0 {
            FrozenSubjectVerdictV1::Complete
        } else {
            FrozenSubjectVerdictV1::AllowedNonLoadBearing
        };
        return CargoAllowFrozenSubjectLockV1 {
            schema_id: FROZEN_SUBJECT_LOCK_SCHEMA_ID.to_string(),
            schema_version: FROZEN_SUBJECT_LOCK_SCHEMA_VERSION,
            state,
            verdict,
            frozen_commit: Some(receipt.commit.clone()),
            current_head: Some(input.current_head.clone()),
            classified_paths: classified,
            load_bearing_moved,
            invalidation_count: applicable,
            blocking_rows,
            claim_boundary: FROZEN_SUBJECT_CLAIM_BOUNDARY,
        };
    }
    if state == FrozenSubjectStateV1::InvalidatedForRefreeze {
        let mut rows: Vec<String> = Vec::new();
        rows.push(
            "load-bearing movement under an explicit invalidation: the freeze is stale and must be redone".to_string(),
        );
        assert(views(rows@) =~= Seq::empty().push(
            "load-bearing movement under an explicit invalidation: the freeze is stale and must be redone"@,
        ));
        return CargoAllowFrozenSubjectLockV1 {
            schema_id: FROZEN_SUBJECT_LOCK_SCHEMA_ID.to_string(),
            schema_version: FROZEN_SUBJECT_LOCK_SCHEMA_VERSION,
            state,
            verdict: FrozenSubjectVerdictV1::Stale,
            frozen_commit: Some(receipt.commit.clone()),
            current_head: Some(input.current_head.clone()),
            classified_paths: classified,
            load_bearing_moved,
            invalidation_count: applicable,
            blocking_rows: rows,
            claim_boundary: FROZEN_SUBJECT_CLAIM_BOUNDARY,
        };
    }
    let joined = join_strings(&effective, ", ");
    let mut row = "load-bearing movement without invalidation: ".to_string();
    crate::text::push_str(&mut row, joined.as_str());
    blocking_rows.push(row);
    assert(views(blocking_rows@) =~= base.push(
        "load-bearing movement without invalidation: "@ + join_sep(views(effective@), ", "@),
    ));
    CargoAllowFrozenSubjectLockV1 {
        schema_id: FROZEN_SUBJECT_LOCK_SCHEMA_ID.to_string(),
        schema_version: FROZEN_SUBJECT_LOCK_SCHEMA_VERSION,
        state: FrozenSubjectStateV1::FreezeCompleteAwaitingAuthorization,
        verdict: FrozenSubjectVerdictV1::RequiresInvalidation,
        frozen_commit: Some(receipt.commit.clone()),
        current_head: Some(input.current_head.clone()),
        classified_paths: classified,
        load_bearing_moved,
        invalidation_count: applicable,
        blocking_rows,
        claim_boundary: FROZEN_SUBJECT_CLAIM_BOUNDARY,
    }
}


/// With a retained receipt, any invalidation naming the frozen commit stales
/// the freeze: the lock moves to `InvalidatedForRefreeze` and its verdict is
/// `Stale` (or `Conflict` when the lock records themselves were tampered
/// with); it never reads as complete or allowed.
pub proof fn lemma_invalidation_stales_the_freeze(i: FrozenSubjectLockInputV1, r: FrozenSubjectReceiptIdentityV1)
    requires
        applicable_count(i.invalidations@, r.commit@) > 0,
    ensures
        lock_outcome(i, r).0 == FrozenSubjectStateV1::InvalidatedForRefreeze,
        lock_outcome(i, r).1 == FrozenSubjectVerdictV1::Stale || lock_outcome(i, r).1
            == FrozenSubjectVerdictV1::Conflict,
{
}

/// Load-bearing movement requires explicit invalidation: a lock reads
/// `Complete` or `AllowedNonLoadBearing` only when nothing load-bearing
/// moved (the admission of final-freeze records aside), the lock records
/// were not tampered with, and no invalidation names the frozen commit;
/// and effective load-bearing movement without invalidation or tampering
/// is `RequiresInvalidation`.
pub proof fn lemma_load_bearing_movement_requires_invalidation(
    i: FrozenSubjectLockInputV1,
    r: FrozenSubjectReceiptIdentityV1,
)
    ensures
        lock_outcome(i, r).1 == FrozenSubjectVerdictV1::Complete || lock_outcome(i, r).1
            == FrozenSubjectVerdictV1::AllowedNonLoadBearing ==> {
            &&& effective_paths(classified_spec(i), load_bearing_paths(classified_spec(i))).len() == 0
            &&& !tampered(classified_spec(i))
            &&& applicable_count(i.invalidations@, r.commit@) == 0
        },
        effective_paths(classified_spec(i), load_bearing_paths(classified_spec(i))).len() > 0
            && !tampered(classified_spec(i)) && applicable_count(i.invalidations@, r.commit@) == 0
            ==> lock_outcome(i, r).1 == FrozenSubjectVerdictV1::RequiresInvalidation,
{
}

proof fn lemma_no_load_bearing_entry(cs: Seq<PathClassView>)
    requires
        forall|k: int| 0 <= k < cs.len() ==> (#[trigger] cs[k]).2 != FrozenSubjectPathKindV1::LoadBearing,
    ensures
        load_bearing_paths(cs).len() == 0,
    decreases cs.len(),
{
    if cs.len() > 0 {
        assert forall|k: int| 0 <= k < cs.drop_last().len() implies (#[trigger] cs.drop_last()[k]).2
            != FrozenSubjectPathKindV1::LoadBearing by {
            assert(cs.drop_last()[k] == cs[k]);
        }
        lemma_no_load_bearing_entry(cs.drop_last());
        assert(cs.last() == cs[cs.len() - 1]);
    }
}

/// The append-only proof frees exactly the policy ledger: for every path
/// and status, classifying with and without the proof differs only for
/// `policy/allow.toml`, which with the proof is non-load-bearing under
/// `ledger_append_only` and without it load-bearing `policy`. So a change
/// list made only of proven append-only ledger edits moves nothing
/// load-bearing.
pub proof fn lemma_append_only_proof_frees_only_the_ledger(
    path: Seq<char>,
    status: Seq<char>,
    i: FrozenSubjectLockInputV1,
)
    ensures
        (classify_view(path, status, true) != classify_view(path, status, false)) <==> path
            == "policy/allow.toml"@,
        path == "policy/allow.toml"@ ==> classify_view(path, status, true) == (
            path,
            status,
            FrozenSubjectPathKindV1::NonLoadBearing,
            "ledger_append_only"@,
        ) && classify_view(path, status, false) == (
            path,
            status,
            FrozenSubjectPathKindV1::LoadBearing,
            "policy"@,
        ),
        (forall|k: int|
            0 <= k < i.changed_paths@.len() ==> (#[trigger] i.changed_paths@[k]).path@ == "policy/allow.toml"@
                && i.changed_paths@[k].append_only) ==> load_bearing_paths(classified_spec(i)).len() == 0,
{
    reveal_strlit("ledger_append_only");
    reveal_strlit("policy");
    if forall|k: int|
        0 <= k < i.changed_paths@.len() ==> (#[trigger] i.changed_paths@[k]).path@ == "policy/allow.toml"@
            && i.changed_paths@[k].append_only {
        let cs = classified_spec(i);
        assert forall|k: int| 0 <= k < cs.len() implies (#[trigger] cs[k]).2 != FrozenSubjectPathKindV1::LoadBearing by {
            assert(i.changed_paths@[k].path@ == "policy/allow.toml"@);
        }
        lemma_no_load_bearing_entry(cs);
    }
}

/// Modifying or removing the retained final-freeze records is lock
/// tampering: the verdict is `Conflict` whatever else moved.
pub proof fn lemma_tampering_is_conflict(i: FrozenSubjectLockInputV1, r: FrozenSubjectReceiptIdentityV1)
    requires
        tampered(classified_spec(i)),
    ensures
        lock_outcome(i, r).0 == FrozenSubjectStateV1::InvalidatedForRefreeze,
        lock_outcome(i, r).1 == FrozenSubjectVerdictV1::Conflict,
{
}

/// An invalidation applies only to the frozen commit it names: recording an
/// invalidation of another commit changes neither the lock's state, verdict
/// and blocking rows nor its count of applicable invalidations.
pub proof fn lemma_foreign_invalidation_is_history(
    i1: FrozenSubjectLockInputV1,
    i2: FrozenSubjectLockInputV1,
    r: FrozenSubjectReceiptIdentityV1,
    x: FrozenSubjectInvalidationV1,
)
    requires
        i2.changed_paths@ == i1.changed_paths@,
        i2.invalidations@ == i1.invalidations@.push(x),
        x.frozen_commit@ != r.commit@,
    ensures
        applicable_count(i2.invalidations@, r.commit@) == applicable_count(i1.invalidations@, r.commit@),
        lock_outcome(i2, r) == lock_outcome(i1, r),
{
    assert(i2.invalidations@.drop_last() =~= i1.invalidations@);
    assert(classified_spec(i2) =~= classified_spec(i1));
}

/// A retained receipt whose freeze state is not `Complete` always leaves a
/// blocking row, whatever verdict the movement yields.
pub proof fn lemma_incomplete_receipt_always_blocks(i: FrozenSubjectLockInputV1, r: FrozenSubjectReceiptIdentityV1)
    requires
        r.freeze_state@ != "Complete"@,
    ensures
        lock_outcome(i, r).2.len() > 0,
{
}

} // verus!
