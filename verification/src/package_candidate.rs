//! Typed topology-selected package candidate for the cargo-allow 0.2
//! mixed-version candidate.
//!
//! The validator enforces the candidate's structural law without reading
//! policy files, spawning Cargo, or touching a registry. It packages and
//! inspects nothing itself: `.crate` bytes and packaged-manifest facts stay
//! producer-owned.

use vstd::prelude::*;
use crate::json::{
    json_arr, json_bool, json_obj, json_str, json_str_array, json_string_array, kv, opt_decimal,
    opt_json_str, opt_member, string_views, JsonList,
};
use crate::text::{
    any_contains, any_contains_str, blank, cat, cat3, decimal, decimal_string, debug_str,
    debug_string, is_blank, is_sha256_digest, is_sha256_digest_str, join_sep, lemma_concat_assoc,
    note, note_if, push_str, seq_lt, str_eq, str_lt, views,
};

verus! {

pub const PACKAGE_CANDIDATE_V2_SCHEMA_VERSION: u32 = 2;

pub const PACKAGE_CANDIDATE_V2_SCHEMA_ID: &'static str = "cargo-allow.package-candidate.v2";

/// Version-line families a candidate row may belong to. Anything else —
/// including the cargo-intent and cargo-proof families — must never enter
/// the cargo-allow candidate.
#[derive(Debug, Clone, Copy, PartialEq, Eq, Structural)]
pub enum PackageCandidateFamilyV2 {
    CargoAllow02,
    Shared01,
}

impl PackageCandidateFamilyV2 {
    pub open spec fn name(self) -> Seq<char> {
        match self {
            Self::CargoAllow02 => "cargo-allow-0.2"@,
            Self::Shared01 => "shared-0.1"@,
        }
    }

    pub fn as_str(self) -> (r: &'static str)
        ensures
            r@ == self.name(),
    {
        match self {
            Self::CargoAllow02 => "cargo-allow-0.2",
            Self::Shared01 => "shared-0.1",
        }
    }
}

#[derive(Debug, Clone, Copy, PartialEq, Eq, Structural)]
pub enum PackageCandidateDependencyKindV2 {
    /// A selected candidate row: registry-resolvable by real name/version.
    Internal,
    /// An outside dependency carried by name and version requirement.
    External,
}

impl PackageCandidateDependencyKindV2 {
    pub open spec fn wire(self) -> Seq<char> {
        match self {
            Self::Internal => "internal"@,
            Self::External => "external"@,
        }
    }

    pub fn wire_label(self) -> (r: &'static str)
        ensures
            r@ == self.wire(),
    {
        match self {
            Self::Internal => "internal",
            Self::External => "external",
        }
    }
}

/// One expected dependency row of a candidate package.
#[derive(Debug, Clone, PartialEq, Eq)]
pub struct PackageCandidateDependencyRowV2 {
    pub package_name: String,
    pub package_version: String,
    pub dependency_kind: PackageCandidateDependencyKindV2,
}

/// One selected package row in dependency-derived release order.
#[derive(Debug, Clone, PartialEq, Eq)]
pub struct PackageCandidateRowV2 {
    pub logical_id: String,
    pub cargo_package_name: String,
    pub cargo_package_version: String,
    pub rust_library_name: String,
    pub workspace_source_path: String,
    pub product_family: PackageCandidateFamilyV2,
    pub publication_state: String,
    pub publish: bool,
    pub support_tier: String,
    pub release_order: u32,
    pub selected_features: Vec<String>,
    /// Canonical `name:version` identity the packaged manifest must carry.
    pub expected_manifest_identity: String,
    pub expected_dependency_rows: Vec<PackageCandidateDependencyRowV2>,
    pub required_assets: Vec<String>,
    pub crate_digest: Option<String>,
    pub crate_size_bytes: Option<u64>,
}

/// Canonical semantic identity of the candidate.
#[derive(Debug, Clone, PartialEq, Eq)]
pub struct PackageCandidatePayloadV2 {
    pub schema_id: String,
    pub schema_version: u32,
    pub topology_id: String,
    pub topology_digest: Option<String>,
    pub repository_commit: String,
    pub repository_tree: String,
    pub cargo_lock_digest: String,
    pub candidate_product_id: String,
    pub root_logical_id: String,
    pub root_package_name: String,
    pub root_package_version: String,
    pub target_class: String,
    pub feature_set_id: String,
    pub rows: Vec<PackageCandidateRowV2>,
    /// Logical ids the topology deliberately excludes from this candidate,
    /// with the reason.
    pub known_exclusions: Vec<String>,
    pub limitations: Vec<String>,
    pub claim_boundary: String,
}

/// Closed validation vocabulary for the candidate contract.
#[derive(Debug, Clone, Copy, PartialEq, Eq, Structural)]
pub enum PackageCandidateResultV2 {
    Complete,
    StaleInput,
    IdentityConflict,
    DependencyConflict,
    MissingAsset,
    MalformedArtifact,
    UnsupportedGeneration,
}

#[derive(Debug, Clone, PartialEq, Eq)]
pub struct PackageCandidateV2Validation {
    pub result: PackageCandidateResultV2,
    pub gaps: Vec<String>,
}

// ---------------------------------------------------------------------------
// The structural law, stated over the payload.
// ---------------------------------------------------------------------------

pub open spec fn generation_current(p: PackageCandidatePayloadV2) -> bool {
    p.schema_id@ == PACKAGE_CANDIDATE_V2_SCHEMA_ID@ && p.schema_version
        == PACKAGE_CANDIDATE_V2_SCHEMA_VERSION
}

pub open spec fn scalar_gaps(p: PackageCandidatePayloadV2) -> Seq<Seq<char>> {
    note(blank(p.topology_id@), "topology_id is missing"@) + note(
        blank(p.repository_commit@),
        "repository_commit is missing"@,
    ) + note(blank(p.repository_tree@), "repository_tree is missing"@) + note(
        blank(p.candidate_product_id@),
        "candidate_product_id is missing"@,
    ) + note(blank(p.root_logical_id@), "root_logical_id is missing"@) + note(
        blank(p.root_package_name@),
        "root_package_name is missing"@,
    ) + note(blank(p.root_package_version@), "root_package_version is missing"@) + note(
        blank(p.target_class@),
        "target_class is missing"@,
    ) + note(blank(p.feature_set_id@), "feature_set_id is missing"@) + note(
        blank(p.claim_boundary@),
        "claim_boundary is missing"@,
    )
}

pub open spec fn digest_gaps(p: PackageCandidatePayloadV2) -> Seq<Seq<char>> {
    note(!is_sha256_digest(p.cargo_lock_digest@), "cargo_lock_digest is not a sha256 digest"@)
        + match p.topology_digest {
        Some(d) => note(!is_sha256_digest(d@), "topology_digest is not a sha256 digest"@),
        None => Seq::empty(),
    }
}

pub open spec fn count_logical(rows: Seq<PackageCandidateRowV2>, x: Seq<char>) -> nat
    decreases rows.len(),
{
    if rows.len() == 0 {
        0
    } else {
        count_logical(rows.drop_last(), x) + if rows.last().logical_id@ == x {
            1nat
        } else {
            0nat
        }
    }
}

pub open spec fn count_name(rows: Seq<PackageCandidateRowV2>, x: Seq<char>) -> nat
    decreases rows.len(),
{
    if rows.len() == 0 {
        0
    } else {
        count_name(rows.drop_last(), x) + if rows.last().cargo_package_name@ == x {
            1nat
        } else {
            0nat
        }
    }
}

/// Some candidate row carries the package name.
pub open spec fn has_name(rows: Seq<PackageCandidateRowV2>, x: Seq<char>) -> bool {
    exists|j: int| 0 <= j < rows.len() && #[trigger] rows[j].cargo_package_name@ == x
}

pub open spec fn row_label(i: int) -> Seq<char> {
    "rows["@ + decimal(i as nat) + "]"@
}

pub open spec fn asset_gaps(assets: Seq<String>, label: Seq<char>) -> Seq<Seq<char>>
    decreases assets.len(),
{
    if assets.len() == 0 {
        Seq::empty()
    } else {
        asset_gaps(assets.drop_last(), label) + note(
            blank(assets.last()@),
            label + " carries a blank required asset"@,
        )
    }
}

pub open spec fn dependency_gap(
    rows: Seq<PackageCandidateRowV2>,
    d: PackageCandidateDependencyRowV2,
    label: Seq<char>,
) -> Seq<Seq<char>> {
    note(
        blank(d.package_name@) || blank(d.package_version@),
        label + " carries a dependency row without name or version"@,
    ) + note(
        d.dependency_kind == PackageCandidateDependencyKindV2::Internal && !has_name(
            rows,
            d.package_name@,
        ),
        label + " internal dependency "@ + d.package_name@ + " is absent from the candidate"@,
    )
}

pub open spec fn dependency_gaps(
    rows: Seq<PackageCandidateRowV2>,
    deps: Seq<PackageCandidateDependencyRowV2>,
    label: Seq<char>,
) -> Seq<Seq<char>>
    decreases deps.len(),
{
    if deps.len() == 0 {
        Seq::empty()
    } else {
        dependency_gaps(rows, deps.drop_last(), label) + dependency_gap(rows, deps.last(), label)
    }
}

pub open spec fn is_root_row(p: PackageCandidatePayloadV2, r: PackageCandidateRowV2) -> bool {
    r.product_family == PackageCandidateFamilyV2::CargoAllow02 && r.cargo_package_name@
        == p.root_package_name@
}

pub open spec fn root_gaps(p: PackageCandidatePayloadV2, r: PackageCandidateRowV2) -> Seq<
    Seq<char>,
> {
    if is_root_row(p, r) {
        note(r.logical_id@ != p.root_logical_id@, "root logical_id disagrees with the root row"@)
            + note(
            r.cargo_package_version@ != p.root_package_version@,
            "root package_version disagrees with the root row"@,
        )
    } else {
        Seq::empty()
    }
}

/// The gaps one row contributes, in the order they are checked.
#[verifier::opaque]
pub open spec fn row_gaps(p: PackageCandidatePayloadV2, i: int) -> Seq<Seq<char>> {
    let r = p.rows@[i];
    let l = row_label(i);
    note(blank(r.logical_id@), l + " logical_id is empty or duplicated"@) + note(
        blank(r.cargo_package_name@),
        l + " package name is empty or duplicated"@,
    ) + note(count_logical(p.rows@, r.logical_id@) > 1, l + " logical_id is duplicated"@) + note(
        count_name(p.rows@, r.cargo_package_name@) > 1,
        l + " package name is duplicated"@,
    ) + note(blank(r.rust_library_name@), l + " rust_library_name is missing"@) + note(
        blank(r.workspace_source_path@),
        l + " workspace_source_path is missing"@,
    ) + note(blank(r.publication_state@), l + " publication_state is missing"@) + note(
        blank(r.support_tier@),
        l + " support_tier is missing"@,
    ) + note(r.release_order == 0, l + " release_order must be positive"@) + note(
        r.expected_manifest_identity@ != r.cargo_package_name@ + ":"@ + r.cargo_package_version@,
        l + " expected_manifest_identity disagrees with its name/version"@,
    ) + asset_gaps(r.required_assets@, l) + dependency_gaps(
        p.rows@,
        r.expected_dependency_rows@,
        l,
    ) + root_gaps(p, r)
}

pub open spec fn rows_gaps(p: PackageCandidatePayloadV2, n: nat) -> Seq<Seq<char>>
    decreases n,
{
    if n == 0 {
        Seq::empty()
    } else {
        rows_gaps(p, (n - 1) as nat) + row_gaps(p, n - 1)
    }
}

pub open spec fn root_seen(p: PackageCandidatePayloadV2) -> bool {
    exists|j: int| 0 <= j < p.rows@.len() && is_root_row(p, #[trigger] p.rows@[j])
}

/// Position at which `x` belongs in a sorted list: before the first item not
/// smaller than it.
pub open spec fn insert_pos(s: Seq<Seq<char>>, x: Seq<char>) -> nat
    decreases s.len(),
{
    if s.len() == 0 {
        0
    } else if !seq_lt(s[0], x) {
        0
    } else {
        1 + insert_pos(s.drop_first(), x)
    }
}

/// Sorted-set insertion.
pub open spec fn insert_sorted(s: Seq<Seq<char>>, x: Seq<char>) -> Seq<Seq<char>> {
    let k = insert_pos(s, x);
    if k < s.len() && s[k as int] == x {
        s
    } else {
        s.insert(k as int, x)
    }
}

/// The distinct versions one family's rows carry, in ascending order.
pub open spec fn family_versions(rows: Seq<PackageCandidateRowV2>, f: PackageCandidateFamilyV2) -> Seq<
    Seq<char>,
>
    decreases rows.len(),
{
    if rows.len() == 0 {
        Seq::empty()
    } else {
        let prev = family_versions(rows.drop_last(), f);
        if rows.last().product_family == f {
            insert_sorted(prev, rows.last().cargo_package_version@)
        } else {
            prev
        }
    }
}

pub open spec fn family_gap(rows: Seq<PackageCandidateRowV2>, f: PackageCandidateFamilyV2) -> Seq<
    Seq<char>,
> {
    let vs = family_versions(rows, f);
    note(
        vs.len() > 1,
        "family "@ + f.name() + " carries mixed versions {"@ + join_sep(
            vs.map_values(|v: Seq<char>| debug_str(v)),
            ", "@,
        ) + "}"@,
    )
}

/// Release order of the last row carrying the package name.
pub open spec fn order_of(rows: Seq<PackageCandidateRowV2>, name: Seq<char>) -> Option<u32>
    decreases rows.len(),
{
    if rows.len() == 0 {
        None
    } else if rows.last().cargo_package_name@ == name {
        Some(rows.last().release_order)
    } else {
        order_of(rows.drop_last(), name)
    }
}

pub open spec fn dependency_after(
    rows: Seq<PackageCandidateRowV2>,
    r: PackageCandidateRowV2,
    d: PackageCandidateDependencyRowV2,
) -> bool {
    d.dependency_kind == PackageCandidateDependencyKindV2::Internal && match order_of(
        rows,
        d.package_name@,
    ) {
        Some(o) => o >= r.release_order,
        None => false,
    }
}

pub open spec fn order_dependency_gaps(
    rows: Seq<PackageCandidateRowV2>,
    r: PackageCandidateRowV2,
    deps: Seq<PackageCandidateDependencyRowV2>,
) -> Seq<Seq<char>>
    decreases deps.len(),
{
    if deps.len() == 0 {
        Seq::empty()
    } else {
        order_dependency_gaps(rows, r, deps.drop_last()) + note(
            dependency_after(rows, r, deps.last()),
            "row "@ + r.logical_id@ + " orders its internal dependency "@
                + deps.last().package_name@ + " after itself"@,
        )
    }
}

pub open spec fn previous_order(rows: Seq<PackageCandidateRowV2>, k: int) -> u32 {
    if k == 0 {
        0
    } else {
        rows[k - 1].release_order
    }
}

#[verifier::opaque]
pub open spec fn order_row_gaps(rows: Seq<PackageCandidateRowV2>, k: int) -> Seq<Seq<char>> {
    note(
        rows[k].release_order <= previous_order(rows, k),
        "row "@ + rows[k].logical_id@ + " is not in strictly increasing release order"@,
    ) + order_dependency_gaps(rows, rows[k], rows[k].expected_dependency_rows@)
}

pub open spec fn order_gaps(rows: Seq<PackageCandidateRowV2>, n: nat) -> Seq<Seq<char>>
    decreases n,
{
    if n == 0 {
        Seq::empty()
    } else {
        order_gaps(rows, (n - 1) as nat) + order_row_gaps(rows, n - 1)
    }
}

/// Every gap of the candidate, in the order the law checks them.
pub open spec fn candidate_gaps(p: PackageCandidatePayloadV2) -> Seq<Seq<char>> {
    note(!generation_current(p), "payload uses a non-current package-candidate generation"@)
        + scalar_gaps(p) + digest_gaps(p) + note(p.rows@.len() == 0, "candidate rows are empty"@)
        + rows_gaps(p, p.rows@.len()) + note(
        blank(p.root_package_name@) || !root_seen(p),
        "root package row is absent from the candidate"@,
    ) + family_gap(p.rows@, PackageCandidateFamilyV2::CargoAllow02) + family_gap(
        p.rows@,
        PackageCandidateFamilyV2::Shared01,
    ) + order_gaps(p.rows@, p.rows@.len())
}

/// The result class the gaps' wording selects.
pub open spec fn candidate_class(p: PackageCandidatePayloadV2, gaps: Seq<Seq<char>>) -> PackageCandidateResultV2 {
    if !generation_current(p) {
        PackageCandidateResultV2::UnsupportedGeneration
    } else if any_contains(gaps, "missing"@) || any_contains(gaps, "not a sha256 digest"@)
        || any_contains(gaps, "stale"@) {
        PackageCandidateResultV2::StaleInput
    } else if any_contains(gaps, "dependency"@) || any_contains(gaps, "release order"@) {
        PackageCandidateResultV2::DependencyConflict
    } else if any_contains(gaps, "root package row"@) {
        PackageCandidateResultV2::IdentityConflict
    } else if any_contains(gaps, "asset"@) {
        PackageCandidateResultV2::MissingAsset
    } else if gaps.len() == 0 {
        PackageCandidateResultV2::Complete
    } else {
        PackageCandidateResultV2::IdentityConflict
    }
}

// ---------------------------------------------------------------------------
// Executable validation.
// ---------------------------------------------------------------------------

fn push_scalar_gaps(p: &PackageCandidatePayloadV2, gaps: &mut Vec<String>)
    ensures
        views(final(gaps)@) == views(old(gaps)@) + scalar_gaps(*p),
{
    let ghost start = views(gaps@);
    note_if(gaps, is_blank(p.topology_id.as_str()), "topology_id is missing".to_string());
    note_if(gaps, is_blank(p.repository_commit.as_str()), "repository_commit is missing".to_string());
    note_if(gaps, is_blank(p.repository_tree.as_str()), "repository_tree is missing".to_string());
    note_if(
        gaps,
        is_blank(p.candidate_product_id.as_str()),
        "candidate_product_id is missing".to_string(),
    );
    note_if(gaps, is_blank(p.root_logical_id.as_str()), "root_logical_id is missing".to_string());
    note_if(
        gaps,
        is_blank(p.root_package_name.as_str()),
        "root_package_name is missing".to_string(),
    );
    note_if(
        gaps,
        is_blank(p.root_package_version.as_str()),
        "root_package_version is missing".to_string(),
    );
    note_if(gaps, is_blank(p.target_class.as_str()), "target_class is missing".to_string());
    note_if(gaps, is_blank(p.feature_set_id.as_str()), "feature_set_id is missing".to_string());
    note_if(gaps, is_blank(p.claim_boundary.as_str()), "claim_boundary is missing".to_string());
    assert(views(gaps@) == start + scalar_gaps(*p)) by {
        broadcast use lemma_concat_assoc;
    }
}

fn push_digest_gaps(p: &PackageCandidatePayloadV2, gaps: &mut Vec<String>)
    ensures
        views(final(gaps)@) == views(old(gaps)@) + digest_gaps(*p),
{
    let ghost start = views(gaps@);
    note_if(
        gaps,
        !is_sha256_digest_str(p.cargo_lock_digest.as_str()),
        "cargo_lock_digest is not a sha256 digest".to_string(),
    );
    let ghost mid = views(gaps@);
    match &p.topology_digest {
        Some(d) => {
            note_if(
                gaps,
                !is_sha256_digest_str(d.as_str()),
                "topology_digest is not a sha256 digest".to_string(),
            );
        },
        None => {
            assert(views(gaps@) =~= mid + Seq::<Seq<char>>::empty());
        },
    }
    assert(views(gaps@) == start + digest_gaps(*p)) by {
        broadcast use lemma_concat_assoc;
    }
}

fn count_logical_exec(rows: &Vec<PackageCandidateRowV2>, x: &String) -> (r: usize)
    ensures
        r as nat == count_logical(rows@, x@),
{
    let mut n: usize = 0;
    let mut j: usize = 0;
    while j < rows.len()
        invariant
            j <= rows.len(),
            n as nat == count_logical(rows@.take(j as int), x@),
            n <= j,
        decreases rows.len() - j,
    {
        assert(rows@.take(j + 1).drop_last() =~= rows@.take(j as int));
        if rows[j].logical_id.eq(x) {
            n = n + 1;
        }
        j = j + 1;
    }
    assert(rows@.take(rows@.len() as int) =~= rows@);
    n
}

fn count_name_exec(rows: &Vec<PackageCandidateRowV2>, x: &String) -> (r: usize)
    ensures
        r as nat == count_name(rows@, x@),
{
    let mut n: usize = 0;
    let mut j: usize = 0;
    while j < rows.len()
        invariant
            j <= rows.len(),
            n as nat == count_name(rows@.take(j as int), x@),
            n <= j,
        decreases rows.len() - j,
    {
        assert(rows@.take(j + 1).drop_last() =~= rows@.take(j as int));
        if rows[j].cargo_package_name.eq(x) {
            n = n + 1;
        }
        j = j + 1;
    }
    assert(rows@.take(rows@.len() as int) =~= rows@);
    n
}

fn has_name_exec(rows: &Vec<PackageCandidateRowV2>, x: &String) -> (r: bool)
    ensures
        r == has_name(rows@, x@),
{
    let mut j: usize = 0;
    while j < rows.len()
        invariant
            j <= rows.len(),
            forall|k: int| 0 <= k < j ==> #[trigger] rows@[k].cargo_package_name@ != x@,
        decreases rows.len() - j,
    {
        if rows[j].cargo_package_name.eq(x) {
            return true;
        }
        j = j + 1;
    }
    false
}

fn push_asset_gaps(assets: &Vec<String>, label: &String, gaps: &mut Vec<String>)
    ensures
        views(final(gaps)@) == views(old(gaps)@) + asset_gaps(assets@, label@),
{
    let ghost start = views(gaps@);
    let mut j: usize = 0;
    assert(asset_gaps(assets@.take(0), label@) =~= Seq::<Seq<char>>::empty());
    while j < assets.len()
        invariant
            j <= assets.len(),
            views(gaps@) == start + asset_gaps(assets@.take(j as int), label@),
        decreases assets.len() - j,
    {
        assert(assets@.take(j + 1).drop_last() =~= assets@.take(j as int));
        note_if(
            gaps,
            is_blank(assets[j].as_str()),
            cat(label.as_str(), " carries a blank required asset"),
        );
        assert(views(gaps@) == start + asset_gaps(assets@.take(j + 1), label@)) by {
            broadcast use lemma_concat_assoc;
        }
        j = j + 1;
    }
    assert(assets@.take(assets@.len() as int) =~= assets@);
}

fn push_dependency_gaps(
    rows: &Vec<PackageCandidateRowV2>,
    deps: &Vec<PackageCandidateDependencyRowV2>,
    label: &String,
    gaps: &mut Vec<String>,
)
    ensures
        views(final(gaps)@) == views(old(gaps)@) + dependency_gaps(rows@, deps@, label@),
{
    let ghost start = views(gaps@);
    let mut j: usize = 0;
    assert(dependency_gaps(rows@, deps@.take(0), label@) =~= Seq::<Seq<char>>::empty());
    while j < deps.len()
        invariant
            j <= deps.len(),
            views(gaps@) == start + dependency_gaps(rows@, deps@.take(j as int), label@),
        decreases deps.len() - j,
    {
        assert(deps@.take(j + 1).drop_last() =~= deps@.take(j as int));
        let d = &deps[j];
        let ghost before = views(gaps@);
        note_if(
            gaps,
            is_blank(d.package_name.as_str()) || is_blank(d.package_version.as_str()),
            cat(label.as_str(), " carries a dependency row without name or version"),
        );
        let absent = d.dependency_kind == PackageCandidateDependencyKindV2::Internal
            && !has_name_exec(rows, &d.package_name);
        let mut msg = cat3(label.as_str(), " internal dependency ", d.package_name.as_str());
        push_str(&mut msg, " is absent from the candidate");
        note_if(gaps, absent, msg);
        assert(views(gaps@) == before + dependency_gap(rows@, deps@[j as int], label@)) by {
            broadcast use lemma_concat_assoc;
        }
        assert(views(gaps@) == start + dependency_gaps(rows@, deps@.take(j + 1), label@)) by {
            broadcast use lemma_concat_assoc;
        }
        j = j + 1;
    }
    assert(deps@.take(deps@.len() as int) =~= deps@);
}

fn push_root_gaps(p: &PackageCandidatePayloadV2, r: &PackageCandidateRowV2, gaps: &mut Vec<String>)
    ensures
        views(final(gaps)@) == views(old(gaps)@) + root_gaps(*p, *r),
{
    let ghost start = views(gaps@);
    if r.product_family == PackageCandidateFamilyV2::CargoAllow02 && r.cargo_package_name.eq(
        &p.root_package_name,
    ) {
        note_if(
            gaps,
            !r.logical_id.eq(&p.root_logical_id),
            "root logical_id disagrees with the root row".to_string(),
        );
        note_if(
            gaps,
            !r.cargo_package_version.eq(&p.root_package_version),
            "root package_version disagrees with the root row".to_string(),
        );
        assert(views(gaps@) == start + root_gaps(*p, *r)) by {
            broadcast use lemma_concat_assoc;
        }
    } else {
        assert(views(gaps@) =~= start + root_gaps(*p, *r));
    }
}

fn manifest_identity_matches(r: &PackageCandidateRowV2) -> (b: bool)
    ensures
        b == (r.expected_manifest_identity@ == r.cargo_package_name@ + ":"@
            + r.cargo_package_version@),
{
    let expected = cat3(r.cargo_package_name.as_str(), ":", r.cargo_package_version.as_str());
    r.expected_manifest_identity.eq(&expected)
}

#[verifier::rlimit(30)]
fn push_row_gaps(p: &PackageCandidatePayloadV2, i: usize, gaps: &mut Vec<String>)
    requires
        i < p.rows@.len(),
    ensures
        views(final(gaps)@) == views(old(gaps)@) + row_gaps(*p, i as int),
{
    let ghost start = views(gaps@);
    let r = &p.rows[i];
    let idx = decimal_string(i as u64);
    let label = cat3("rows[", idx.as_str(), "]");
    note_if(
        gaps,
        is_blank(r.logical_id.as_str()),
        cat(label.as_str(), " logical_id is empty or duplicated"),
    );
    note_if(
        gaps,
        is_blank(r.cargo_package_name.as_str()),
        cat(label.as_str(), " package name is empty or duplicated"),
    );
    note_if(
        gaps,
        count_logical_exec(&p.rows, &r.logical_id) > 1,
        cat(label.as_str(), " logical_id is duplicated"),
    );
    note_if(
        gaps,
        count_name_exec(&p.rows, &r.cargo_package_name) > 1,
        cat(label.as_str(), " package name is duplicated"),
    );
    note_if(
        gaps,
        is_blank(r.rust_library_name.as_str()),
        cat(label.as_str(), " rust_library_name is missing"),
    );
    note_if(
        gaps,
        is_blank(r.workspace_source_path.as_str()),
        cat(label.as_str(), " workspace_source_path is missing"),
    );
    note_if(
        gaps,
        is_blank(r.publication_state.as_str()),
        cat(label.as_str(), " publication_state is missing"),
    );
    note_if(
        gaps,
        is_blank(r.support_tier.as_str()),
        cat(label.as_str(), " support_tier is missing"),
    );
    note_if(
        gaps,
        r.release_order == 0,
        cat(label.as_str(), " release_order must be positive"),
    );
    note_if(
        gaps,
        !manifest_identity_matches(r),
        cat(label.as_str(), " expected_manifest_identity disagrees with its name/version"),
    );
    push_asset_gaps(&r.required_assets, &label, gaps);
    push_dependency_gaps(&p.rows, &r.expected_dependency_rows, &label, gaps);
    push_root_gaps(p, r, gaps);
    assert(views(gaps@) == start + row_gaps(*p, i as int)) by {
        reveal(row_gaps);
        broadcast use lemma_concat_assoc;
    }
}

fn root_seen_exec(p: &PackageCandidatePayloadV2) -> (r: bool)
    ensures
        r == root_seen(*p),
{
    let mut j: usize = 0;
    while j < p.rows.len()
        invariant
            j <= p.rows.len(),
            forall|k: int| 0 <= k < j ==> !is_root_row(*p, #[trigger] p.rows@[k]),
        decreases p.rows.len() - j,
    {
        if p.rows[j].product_family == PackageCandidateFamilyV2::CargoAllow02
            && p.rows[j].cargo_package_name.eq(&p.root_package_name) {
            return true;
        }
        j = j + 1;
    }
    false
}

fn insert_sorted_exec(s: &mut Vec<String>, x: &String)
    ensures
        views(final(s)@) == insert_sorted(views(old(s)@), x@),
{
    let ghost sv = views(s@);
    let mut k: usize = 0;
    assert(sv.skip(0) =~= sv);
    while k < s.len() && str_lt(s[k].as_str(), x.as_str())
        invariant
            k <= s.len(),
            sv == views(s@),
            insert_pos(sv, x@) == k + insert_pos(sv.skip(k as int), x@),
        decreases s.len() - k,
    {
        proof {
            let t = sv.skip(k as int);
            assert(t[0] == s@[k as int]@);
            assert(t.drop_first() =~= sv.skip(k + 1));
        }
        k = k + 1;
    }
    proof {
        let t = sv.skip(k as int);
        if k < s.len() {
            assert(t[0] == s@[k as int]@);
        }
        assert(insert_pos(t, x@) == 0);
    }
    if k < s.len() && s[k].eq(x) {
        return;
    }
    s.insert(k, x.clone());
    assert(views(s@) =~= sv.insert(k as int, x@));
}

fn family_versions_exec(rows: &Vec<PackageCandidateRowV2>, f: PackageCandidateFamilyV2) -> (r: Vec<
    String,
>)
    ensures
        views(r@) == family_versions(rows@, f),
{
    let mut out: Vec<String> = Vec::new();
    let mut j: usize = 0;
    assert(views(out@) =~= family_versions(rows@.take(0), f));
    while j < rows.len()
        invariant
            j <= rows.len(),
            views(out@) == family_versions(rows@.take(j as int), f),
        decreases rows.len() - j,
    {
        assert(rows@.take(j + 1).drop_last() =~= rows@.take(j as int));
        if rows[j].product_family == f {
            insert_sorted_exec(&mut out, &rows[j].cargo_package_version);
        }
        j = j + 1;
    }
    assert(rows@.take(rows@.len() as int) =~= rows@);
    out
}

fn push_family_gap(
    rows: &Vec<PackageCandidateRowV2>,
    f: PackageCandidateFamilyV2,
    gaps: &mut Vec<String>,
)
    ensures
        views(final(gaps)@) == views(old(gaps)@) + family_gap(rows@, f),
{
    let versions = family_versions_exec(rows, f);
    let ghost vs = views(versions@);
    let mut joined = String::new();
    let mut j: usize = 0;
    assert(vs.take(0).map_values(|v: Seq<char>| debug_str(v)) =~= Seq::<Seq<char>>::empty());
    while j < versions.len()
        invariant
            j <= versions.len(),
            vs == views(versions@),
            joined@ == join_sep(vs.take(j as int).map_values(|v: Seq<char>| debug_str(v)), ", "@),
        decreases versions.len() - j,
    {
        let ghost prev = vs.take(j as int).map_values(|v: Seq<char>| debug_str(v));
        let ghost next = vs.take(j + 1).map_values(|v: Seq<char>| debug_str(v));
        assert(next.drop_last() =~= prev);
        let d = debug_string(versions[j].as_str());
        assert(next.last() == d@);
        if j > 0 {
            push_str(&mut joined, ", ");
        } else {
            assert(prev.len() == 0);
        }
        push_str(&mut joined, d.as_str());
        j = j + 1;
    }
    assert(vs.take(vs.len() as int) =~= vs);
    let mut msg = cat3("family ", f.as_str(), " carries mixed versions {");
    push_str(&mut msg, joined.as_str());
    push_str(&mut msg, "}");
    note_if(gaps, versions.len() > 1, msg);
}

fn order_of_exec(rows: &Vec<PackageCandidateRowV2>, name: &String) -> (r: Option<u32>)
    ensures
        r == order_of(rows@, name@),
{
    let mut j: usize = rows.len();
    assert(rows@.take(rows@.len() as int) =~= rows@);
    while j > 0
        invariant
            j <= rows.len(),
            order_of(rows@, name@) == order_of(rows@.take(j as int), name@),
        decreases j,
    {
        assert(rows@.take(j as int).drop_last() =~= rows@.take(j - 1));
        if rows[j - 1].cargo_package_name.eq(name) {
            return Some(rows[j - 1].release_order);
        }
        j = j - 1;
    }
    None
}

fn push_order_row_gaps(rows: &Vec<PackageCandidateRowV2>, k: usize, gaps: &mut Vec<String>)
    requires
        k < rows@.len(),
    ensures
        views(final(gaps)@) == views(old(gaps)@) + order_row_gaps(rows@, k as int),
{
    let ghost start = views(gaps@);
    let r = &rows[k];
    let previous: u32 = if k == 0 {
        0
    } else {
        rows[k - 1].release_order
    };
    note_if(
        gaps,
        r.release_order <= previous,
        cat3("row ", r.logical_id.as_str(), " is not in strictly increasing release order"),
    );
    let ghost mid = views(gaps@);
    let deps = &r.expected_dependency_rows;
    let mut j: usize = 0;
    assert(order_dependency_gaps(rows@, *r, deps@.take(0)) =~= Seq::<Seq<char>>::empty());
    while j < deps.len()
        invariant
            j <= deps.len(),
            k < rows@.len(),
            *r == rows@[k as int],
            *deps == r.expected_dependency_rows,
            views(gaps@) == mid + order_dependency_gaps(rows@, *r, deps@.take(j as int)),
        decreases deps.len() - j,
    {
        assert(deps@.take(j + 1).drop_last() =~= deps@.take(j as int));
        let d = &deps[j];
        let after = d.dependency_kind == PackageCandidateDependencyKindV2::Internal && match order_of_exec(
            rows,
            &d.package_name,
        ) {
            Some(o) => o >= r.release_order,
            None => false,
        };
        let mut msg = cat3("row ", r.logical_id.as_str(), " orders its internal dependency ");
        push_str(&mut msg, d.package_name.as_str());
        push_str(&mut msg, " after itself");
        note_if(gaps, after, msg);
        assert(views(gaps@) == mid + order_dependency_gaps(rows@, *r, deps@.take(j + 1))) by {
            broadcast use lemma_concat_assoc;
        }
        j = j + 1;
    }
    assert(deps@.take(deps@.len() as int) =~= deps@);
    reveal(order_row_gaps);
    assert(views(gaps@) == start + order_row_gaps(rows@, k as int)) by {
        broadcast use lemma_concat_assoc;
    }
}

fn collect_candidate_gaps(payload: &PackageCandidatePayloadV2) -> (gaps: Vec<String>)
    ensures
        views(gaps@) == candidate_gaps(*payload),
{
    let mut gaps: Vec<String> = Vec::new();
    let current = str_eq(payload.schema_id.as_str(), PACKAGE_CANDIDATE_V2_SCHEMA_ID)
        && payload.schema_version == PACKAGE_CANDIDATE_V2_SCHEMA_VERSION;
    note_if(
        &mut gaps,
        !current,
        "payload uses a non-current package-candidate generation".to_string(),
    );
    let ghost g0 = views(gaps@);
    assert(g0 =~= note(
        !generation_current(*payload),
        "payload uses a non-current package-candidate generation"@,
    ));
    push_scalar_gaps(payload, &mut gaps);
    push_digest_gaps(payload, &mut gaps);
    note_if(&mut gaps, payload.rows.len() == 0, "candidate rows are empty".to_string());
    let ghost before_rows = views(gaps@);
    let mut i: usize = 0;
    while i < payload.rows.len()
        invariant
            i <= payload.rows.len(),
            views(gaps@) == before_rows + rows_gaps(*payload, i as nat),
        decreases payload.rows.len() - i,
    {
        push_row_gaps(payload, i, &mut gaps);
        proof {
            lemma_concat_assoc(before_rows, rows_gaps(*payload, i as nat), row_gaps(*payload, i as int));
        }
        i = i + 1;
    }
    note_if(
        &mut gaps,
        is_blank(payload.root_package_name.as_str()) || !root_seen_exec(payload),
        "root package row is absent from the candidate".to_string(),
    );
    push_family_gap(&payload.rows, PackageCandidateFamilyV2::CargoAllow02, &mut gaps);
    push_family_gap(&payload.rows, PackageCandidateFamilyV2::Shared01, &mut gaps);
    let ghost before_order = views(gaps@);
    let mut k: usize = 0;
    while k < payload.rows.len()
        invariant
            k <= payload.rows.len(),
            views(gaps@) == before_order + order_gaps(payload.rows@, k as nat),
        decreases payload.rows.len() - k,
    {
        push_order_row_gaps(&payload.rows, k, &mut gaps);
        proof {
            lemma_concat_assoc(before_order, order_gaps(payload.rows@, k as nat), order_row_gaps(payload.rows@, k as int));
        }
        k = k + 1;
    }
    gaps
}

/// Validate the candidate's structural law: current generation, present
/// repository/lock identity, no sibling-product rows, one version per family
/// without substitution, manifest identities that match their rows, internal
/// dependencies that resolve inside the candidate, an order that agrees with
/// the internal dependency graph, and named assets.
pub fn validate_package_candidate_v2(payload: &PackageCandidatePayloadV2) -> (r:
    PackageCandidateV2Validation)
    ensures
        views(r.gaps@) == candidate_gaps(*payload),
        r.result == candidate_class(*payload, candidate_gaps(*payload)),
{
    let gaps = collect_candidate_gaps(payload);
    let current = str_eq(payload.schema_id.as_str(), PACKAGE_CANDIDATE_V2_SCHEMA_ID)
        && payload.schema_version == PACKAGE_CANDIDATE_V2_SCHEMA_VERSION;
    let result = if !current {
        PackageCandidateResultV2::UnsupportedGeneration
    } else if any_contains_str(&gaps, "missing") || any_contains_str(&gaps, "not a sha256 digest")
        || any_contains_str(&gaps, "stale") {
        PackageCandidateResultV2::StaleInput
    } else if any_contains_str(&gaps, "dependency") || any_contains_str(&gaps, "release order") {
        PackageCandidateResultV2::DependencyConflict
    } else if any_contains_str(&gaps, "root package row") {
        PackageCandidateResultV2::IdentityConflict
    } else if any_contains_str(&gaps, "asset") {
        PackageCandidateResultV2::MissingAsset
    } else if gaps.len() == 0 {
        PackageCandidateResultV2::Complete
    } else {
        PackageCandidateResultV2::IdentityConflict
    };
    PackageCandidateV2Validation { result, gaps }
}

// ---------------------------------------------------------------------------
// Canonical JSON of the payload.
// ---------------------------------------------------------------------------

pub open spec fn json_dependency(d: PackageCandidateDependencyRowV2) -> Seq<char> {
    json_obj(
        Seq::empty()
            .push(kv("package_name"@, json_str(d.package_name@)))
            .push(kv("package_version"@, json_str(d.package_version@)))
            .push(kv("dependency_kind"@, json_str(d.dependency_kind.wire()))),
    )
}

pub open spec fn json_dependencies(v: Seq<PackageCandidateDependencyRowV2>) -> Seq<char> {
    json_arr(v.map_values(|d: PackageCandidateDependencyRowV2| json_dependency(d)))
}

pub open spec fn json_candidate_row(r: PackageCandidateRowV2) -> Seq<char> {
    json_obj(
        Seq::empty()
            .push(kv("logical_id"@, json_str(r.logical_id@)))
            .push(kv("cargo_package_name"@, json_str(r.cargo_package_name@)))
            .push(kv("cargo_package_version"@, json_str(r.cargo_package_version@)))
            .push(kv("rust_library_name"@, json_str(r.rust_library_name@)))
            .push(kv("workspace_source_path"@, json_str(r.workspace_source_path@)))
            .push(kv("product_family"@, json_str(r.product_family.name())))
            .push(kv("publication_state"@, json_str(r.publication_state@)))
            .push(kv("publish"@, json_bool(r.publish)))
            .push(kv("support_tier"@, json_str(r.support_tier@)))
            .push(kv("release_order"@, decimal(r.release_order as nat)))
            .push(kv("selected_features"@, json_str_array(string_views(r.selected_features@))))
            .push(kv("expected_manifest_identity"@, json_str(r.expected_manifest_identity@)))
            .push(kv("expected_dependency_rows"@, json_dependencies(r.expected_dependency_rows@)))
            .push(kv("required_assets"@, json_str_array(string_views(r.required_assets@))))
            + opt_member("crate_digest"@, opt_json_str(r.crate_digest)) + opt_member(
            "crate_size_bytes"@,
            opt_decimal(r.crate_size_bytes),
        ),
    )
}

pub open spec fn json_candidate_rows(v: Seq<PackageCandidateRowV2>) -> Seq<char> {
    json_arr(v.map_values(|r: PackageCandidateRowV2| json_candidate_row(r)))
}

pub open spec fn json_payload(p: PackageCandidatePayloadV2) -> Seq<char> {
    json_obj(
        Seq::empty()
            .push(kv("schema_id"@, json_str(p.schema_id@)))
            .push(kv("schema_version"@, decimal(p.schema_version as nat)))
            .push(kv("topology_id"@, json_str(p.topology_id@)))
            + opt_member("topology_digest"@, opt_json_str(p.topology_digest)) + Seq::empty()
            .push(kv("repository_commit"@, json_str(p.repository_commit@)))
            .push(kv("repository_tree"@, json_str(p.repository_tree@)))
            .push(kv("cargo_lock_digest"@, json_str(p.cargo_lock_digest@)))
            .push(kv("candidate_product_id"@, json_str(p.candidate_product_id@)))
            .push(kv("root_logical_id"@, json_str(p.root_logical_id@)))
            .push(kv("root_package_name"@, json_str(p.root_package_name@)))
            .push(kv("root_package_version"@, json_str(p.root_package_version@)))
            .push(kv("target_class"@, json_str(p.target_class@)))
            .push(kv("feature_set_id"@, json_str(p.feature_set_id@)))
            .push(kv("rows"@, json_candidate_rows(p.rows@)))
            .push(kv("known_exclusions"@, json_str_array(string_views(p.known_exclusions@))))
            .push(kv("limitations"@, json_str_array(string_views(p.limitations@))))
            .push(kv("claim_boundary"@, json_str(p.claim_boundary@))),
    )
}

fn render_dependency(d: &PackageCandidateDependencyRowV2) -> (s: String)
    ensures
        s@ == json_dependency(*d),
{
    let mut l = JsonList::new();
    l.push_str_member("package_name", d.package_name.as_str());
    l.push_str_member("package_version", d.package_version.as_str());
    l.push_str_member("dependency_kind", d.dependency_kind.wire_label());
    l.finish_object()
}

fn render_dependencies(v: &Vec<PackageCandidateDependencyRowV2>) -> (s: String)
    ensures
        s@ == json_dependencies(v@),
{
    let mut l = JsonList::new();
    let mut i: usize = 0;
    assert(v@.take(0).map_values(|d: PackageCandidateDependencyRowV2| json_dependency(d))
        =~= Seq::<Seq<char>>::empty());
    while i < v.len()
        invariant
            i <= v.len(),
            l.wf(),
            l.count == i,
            l.items@ == v@.take(i as int).map_values(
                |d: PackageCandidateDependencyRowV2| json_dependency(d),
            ),
        decreases v.len() - i,
    {
        let piece = render_dependency(&v[i]);
        l.push_raw(piece.as_str());
        assert(v@.take(i + 1).map_values(|d: PackageCandidateDependencyRowV2| json_dependency(d))
            =~= v@.take(i as int).map_values(
            |d: PackageCandidateDependencyRowV2| json_dependency(d),
        ).push(piece@));
        i = i + 1;
    }
    assert(v@.take(v@.len() as int) =~= v@);
    l.finish_array()
}

fn render_candidate_row(r: &PackageCandidateRowV2) -> (s: String)
    ensures
        s@ == json_candidate_row(*r),
{
    let mut l = JsonList::new();
    l.push_str_member("logical_id", r.logical_id.as_str());
    l.push_str_member("cargo_package_name", r.cargo_package_name.as_str());
    l.push_str_member("cargo_package_version", r.cargo_package_version.as_str());
    l.push_str_member("rust_library_name", r.rust_library_name.as_str());
    l.push_str_member("workspace_source_path", r.workspace_source_path.as_str());
    l.push_str_member("product_family", r.product_family.as_str());
    l.push_str_member("publication_state", r.publication_state.as_str());
    l.push_bool_member("publish", r.publish);
    l.push_str_member("support_tier", r.support_tier.as_str());
    l.push_u64_member("release_order", r.release_order as u64);
    let features = json_string_array(&r.selected_features);
    l.push_member("selected_features", features.as_str());
    l.push_str_member("expected_manifest_identity", r.expected_manifest_identity.as_str());
    let deps = render_dependencies(&r.expected_dependency_rows);
    l.push_member("expected_dependency_rows", deps.as_str());
    let assets = json_string_array(&r.required_assets);
    l.push_member("required_assets", assets.as_str());
    l.push_opt_str_member("crate_digest", &r.crate_digest);
    l.push_opt_u64_member("crate_size_bytes", r.crate_size_bytes);
    l.finish_object()
}

pub fn render_candidate_rows(v: &Vec<PackageCandidateRowV2>) -> (s: String)
    ensures
        s@ == json_candidate_rows(v@),
{
    let mut l = JsonList::new();
    let mut i: usize = 0;
    assert(v@.take(0).map_values(|r: PackageCandidateRowV2| json_candidate_row(r))
        =~= Seq::<Seq<char>>::empty());
    while i < v.len()
        invariant
            i <= v.len(),
            l.wf(),
            l.count == i,
            l.items@ == v@.take(i as int).map_values(|r: PackageCandidateRowV2| json_candidate_row(r)),
        decreases v.len() - i,
    {
        let piece = render_candidate_row(&v[i]);
        l.push_raw(piece.as_str());
        assert(v@.take(i + 1).map_values(|r: PackageCandidateRowV2| json_candidate_row(r))
            =~= v@.take(i as int).map_values(|r: PackageCandidateRowV2| json_candidate_row(r)).push(
            piece@,
        ));
        i = i + 1;
    }
    assert(v@.take(v@.len() as int) =~= v@);
    l.finish_array()
}

/// The compact canonical JSON text of the payload (serde declaration order,
/// absent optional fields omitted).
pub fn render_payload_json(p: &PackageCandidatePayloadV2) -> (s: String)
    ensures
        s@ == json_payload(*p),
{
    let mut l = JsonList::new();
    l.push_str_member("schema_id", p.schema_id.as_str());
    l.push_u64_member("schema_version", p.schema_version as u64);
    l.push_str_member("topology_id", p.topology_id.as_str());
    l.push_opt_str_member("topology_digest", &p.topology_digest);
    l.push_str_member("repository_commit", p.repository_commit.as_str());
    l.push_str_member("repository_tree", p.repository_tree.as_str());
    l.push_str_member("cargo_lock_digest", p.cargo_lock_digest.as_str());
    l.push_str_member("candidate_product_id", p.candidate_product_id.as_str());
    l.push_str_member("root_logical_id", p.root_logical_id.as_str());
    l.push_str_member("root_package_name", p.root_package_name.as_str());
    l.push_str_member("root_package_version", p.root_package_version.as_str());
    l.push_str_member("target_class", p.target_class.as_str());
    l.push_str_member("feature_set_id", p.feature_set_id.as_str());
    let rows = render_candidate_rows(&p.rows);
    l.push_member("rows", rows.as_str());
    let exclusions = json_string_array(&p.known_exclusions);
    l.push_member("known_exclusions", exclusions.as_str());
    let limitations = json_string_array(&p.limitations);
    l.push_member("limitations", limitations.as_str());
    l.push_str_member("claim_boundary", p.claim_boundary.as_str());
    proof {
        broadcast use lemma_concat_assoc;
        assert(l.items@ =~= Seq::empty()
            .push(kv("schema_id"@, json_str(p.schema_id@)))
            .push(kv("schema_version"@, decimal(p.schema_version as nat)))
            .push(kv("topology_id"@, json_str(p.topology_id@)))
            + opt_member("topology_digest"@, opt_json_str(p.topology_digest)) + Seq::empty()
            .push(kv("repository_commit"@, json_str(p.repository_commit@)))
            .push(kv("repository_tree"@, json_str(p.repository_tree@)))
            .push(kv("cargo_lock_digest"@, json_str(p.cargo_lock_digest@)))
            .push(kv("candidate_product_id"@, json_str(p.candidate_product_id@)))
            .push(kv("root_logical_id"@, json_str(p.root_logical_id@)))
            .push(kv("root_package_name"@, json_str(p.root_package_name@)))
            .push(kv("root_package_version"@, json_str(p.root_package_version@)))
            .push(kv("target_class"@, json_str(p.target_class@)))
            .push(kv("feature_set_id"@, json_str(p.feature_set_id@)))
            .push(kv("rows"@, json_candidate_rows(p.rows@)))
            .push(kv("known_exclusions"@, json_str_array(string_views(p.known_exclusions@))))
            .push(kv("limitations"@, json_str_array(string_views(p.limitations@))))
            .push(kv("claim_boundary"@, json_str(p.claim_boundary@))));
    }
    l.finish_object()
}

/// The candidate's structural law: a candidate is `Complete` exactly when
/// validation finds no gap at all.
pub proof fn lemma_complete_iff_gap_free(p: PackageCandidatePayloadV2)
    ensures
        candidate_class(p, candidate_gaps(p)) == PackageCandidateResultV2::Complete
            <==> candidate_gaps(p).len() == 0,
{
    let gaps = candidate_gaps(p);
    let head = note(!generation_current(p), "payload uses a non-current package-candidate generation"@);
    let tail = scalar_gaps(p) + digest_gaps(p) + note(p.rows@.len() == 0, "candidate rows are empty"@)
        + rows_gaps(p, p.rows@.len()) + note(
        blank(p.root_package_name@) || !root_seen(p),
        "root package row is absent from the candidate"@,
    ) + family_gap(p.rows@, PackageCandidateFamilyV2::CargoAllow02) + family_gap(
        p.rows@,
        PackageCandidateFamilyV2::Shared01,
    ) + order_gaps(p.rows@, p.rows@.len());
    assert(gaps.len() == head.len() + tail.len());
    if gaps.len() == 0 {
        assert(head.len() == 0);
        reveal(note);
        assert(generation_current(p));
        assert(!any_contains(gaps, "missing"@));
        assert(!any_contains(gaps, "not a sha256 digest"@));
        assert(!any_contains(gaps, "stale"@));
        assert(!any_contains(gaps, "dependency"@));
        assert(!any_contains(gaps, "release order"@));
        assert(!any_contains(gaps, "root package row"@));
        assert(!any_contains(gaps, "asset"@));
    }
}

} // verus!
