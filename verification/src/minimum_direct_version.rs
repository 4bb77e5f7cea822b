//! Direct minimum dependency version contract: the inventory of direct
//! requirements by product/package set, the proof request binding
//! roots/features/target/MSRV to selected floors, and the receipt carrying
//! per-row dispositions. Report-only: no dependency requirement is changed.
//!
//! The evaluation law: the current lock is never proof of a declared floor
//! (the receipt names the tested floor and the resolved version
//! separately); a compatible newer version does not substitute for the
//! floor; a toolchain newer than the claimed MSRV does not satisfy a row
//! silently; manifest or lock movement stales the receipt; zero selected rows
//! is never proven; report-only products keep their own verdict.

use vstd::prelude::*;
use crate::text::{cat, join_sep, join_strings, note, note_if, starts_with, starts_with_str, str_eq, views};

verus! {

pub const MINIMUM_DIRECT_VERSION_SCHEMA_ID: &'static str = "cargo-allow.minimum-direct-version.v1";

pub const MINIMUM_DIRECT_VERSION_SCHEMA_VERSION: u32 = 1;

pub const MINIMUM_DIRECT_VERSION_CLAIM_BOUNDARY: &'static str = "Exact selected proof of declared direct dependency floors for identified package sets, features, targets, and MSRVs. It determines whether those manifest claims are currently supported; it does not certify arbitrary transitive minimal-version combinations, does not replace Dependabot, cargo-deny, or normal locked CI, and upgrades, downgrades, publishes, or support-promotes nothing.";

/// The dependency class a direct requirement appears under.
#[derive(Debug, Clone, Copy, PartialEq, Eq, Structural)]
pub enum DirectDependencyClassV1 {
    Normal,
    Dev,
    Build,
}

impl DirectDependencyClassV1 {
    pub open spec fn label_spec(self) -> Seq<char> {
        match self {
            Self::Normal => "normal"@,
            Self::Dev => "dev"@,
            Self::Build => "build"@,
        }
    }

    pub fn label(self) -> (r: &'static str)
        ensures
            r@ == self.label_spec(),
    {
        match self {
            Self::Normal => "normal",
            Self::Dev => "dev",
            Self::Build => "build",
        }
    }
}

/// One direct dependency requirement row from a selected manifest.
#[derive(Debug, Clone, PartialEq, Eq)]
pub struct DirectRequirementRowV1 {
    pub package: String,
    /// The declared requirement string verbatim (e.g. `1.0`, `0.8`).
    pub requirement: String,
    pub class: DirectDependencyClassV1,
    /// Target-specific requirement's triple predicate, when declared.
    pub target: Option<String>,
    /// Feature-activated dependencies name the activating feature.
    pub activated_by_feature: Option<String>,
}

/// The direct-requirement inventory for one product/package set.
#[derive(Debug, Clone, PartialEq, Eq)]
pub struct ProductDependencySetV1 {
    /// The product family: `cargo-allow` (release set), `shared`,
    /// `cargo-intent`, or `cargo-proof`.
    pub product: String,
    pub packages: Vec<String>,
    pub rows: Vec<DirectRequirementRowV1>,
    /// Digests binding the manifest set and the current lock identity.
    pub manifest_set_digest: String,
    pub lock_digest: String,
    /// The product's claimed MSRV.
    pub msrv: String,
}

/// The typed denominator over the product sets.
#[derive(Debug, Clone, PartialEq, Eq)]
pub struct DirectMinimumVersionSetV1 {
    pub schema_id: String,
    pub schema_version: u32,
    pub product_sets: Vec<ProductDependencySetV1>,
    pub claim_boundary: String,
}

/// The proof request: what is being proven, under which configuration.
#[derive(Debug, Clone, PartialEq, Eq)]
pub struct MinimumVersionProofRequestV1 {
    pub product: String,
    /// The package root(s) the proof compiles and tests.
    pub package_roots: Vec<String>,
    pub features: Vec<String>,
    pub target: String,
    /// The claimed MSRV the proof must run under — a newer toolchain
    /// does not satisfy the row (negative control 7).
    pub msrv: String,
    /// The selected floors: each declared direct requirement's minimum
    /// version to pin for the proof.
    pub floors: Vec<MinimumFloorRowV1>,
    /// The proof classes executed: `check`, `test`, `package`.
    pub proof_classes: Vec<String>,
    /// Digests of the manifest set and lock the request was derived
    /// from; movement stales the receipt.
    pub manifest_set_digest: String,
    pub lock_digest: String,
}

/// One selected floor row.
#[derive(Debug, Clone, PartialEq, Eq)]
pub struct MinimumFloorRowV1 {
    pub package: String,
    /// The declared requirement's minimum version (e.g. requirement
    /// `0.8` selects floor `0.8.0`).
    pub declared_requirement: String,
    pub selected_floor: String,
    pub class: DirectDependencyClassV1,
}

/// Per-row proof result vocabulary.
#[derive(Debug, Clone, Copy, PartialEq, Eq, Structural)]
pub enum MinimumFloorResultV1 {
    Proven,
    FloorTooLow,
    UnsupportedCombination,
    ResolverFailure,
    PackageMetadataMismatch,
    InstrumentFailure,
    NotClaimed,
}

impl MinimumFloorResultV1 {
    pub open spec fn label_spec(self) -> Seq<char> {
        match self {
            Self::Proven => "proven"@,
            Self::FloorTooLow => "floor_too_low"@,
            Self::UnsupportedCombination => "unsupported_combination"@,
            Self::ResolverFailure => "resolver_failure"@,
            Self::PackageMetadataMismatch => "package_metadata_mismatch"@,
            Self::InstrumentFailure => "instrument_failure"@,
            Self::NotClaimed => "not_claimed"@,
        }
    }

    pub fn label(self) -> (r: &'static str)
        ensures
            r@ == self.label_spec(),
    {
        match self {
            Self::Proven => "proven",
            Self::FloorTooLow => "floor_too_low",
            Self::UnsupportedCombination => "unsupported_combination",
            Self::ResolverFailure => "resolver_failure",
            Self::PackageMetadataMismatch => "package_metadata_mismatch",
            Self::InstrumentFailure => "instrument_failure",
            Self::NotClaimed => "not_claimed",
        }
    }

    /// `Proven` is the only clean disposition; everything else is an
    /// honest non-clean result.
    pub fn is_clean(self) -> (r: bool)
        ensures
            r == (self == Self::Proven),
    {
        match self {
            Self::Proven => true,
            _ => false,
        }
    }
}

/// Per-row receipt result.
#[derive(Debug, Clone, PartialEq, Eq)]
pub struct MinimumVersionRowResultV1 {
    pub package: String,
    /// The declared requirement verbatim.
    pub declared_requirement: String,
    /// The floor version actually pinned and tested.
    pub tested_floor: String,
    /// The exact version resolved at the tested floor.
    pub resolved_version: String,
    /// Registry or source identity of the resolved version.
    pub source_identity: String,
    pub result: MinimumFloorResultV1,
    /// The exact limitation (yanked, compile-incompatible, resolver
    /// failure detail); required for every non-clean result.
    pub limitation: Option<String>,
}

/// The proof receipt over one request.
#[derive(Debug, Clone, PartialEq, Eq)]
pub struct MinimumVersionProofReceiptV1 {
    pub schema_id: String,
    pub schema_version: u32,
    pub product: String,
    pub msrv: String,
    /// The package roots the proof compiled and tested; empty on receipts
    /// that predate root recording.
    pub package_roots: Vec<String>,
    /// The toolchain the proof actually ran under.
    pub toolchain: String,
    pub target: String,
    /// Manifest-set and lock digests the proof ran against (must match
    /// the request or the receipt is stale).
    pub manifest_set_digest: String,
    pub lock_digest: String,
    pub rows: Vec<MinimumVersionRowResultV1>,
    /// The exact commands executed, with proof classes.
    pub commands: Vec<String>,
    /// Digest of the changed lock/override artifact the proof produced.
    pub floor_lock_digest: String,
    pub limitations: Vec<String>,
    pub claim_boundary: String,
}

/// The evaluated verdict over one receipt.
#[derive(Debug, Clone, Copy, PartialEq, Eq, Structural)]
pub enum MinimumProofVerdictV1 {
    Complete,
    Stale,
    Incomplete,
    InstrumentFailure,
}

impl MinimumProofVerdictV1 {
    pub open spec fn label_spec(self) -> Seq<char> {
        match self {
            Self::Complete => "complete"@,
            Self::Stale => "stale"@,
            Self::Incomplete => "incomplete"@,
            Self::InstrumentFailure => "instrument_failure"@,
        }
    }

    pub fn label(self) -> (r: &'static str)
        ensures
            r@ == self.label_spec(),
    {
        match self {
            Self::Complete => "complete",
            Self::Stale => "stale",
            Self::Incomplete => "incomplete",
            Self::InstrumentFailure => "instrument_failure",
        }
    }
}

#[derive(Debug, Clone, PartialEq, Eq)]
pub struct MinimumProofEvaluationV1 {
    pub schema_id: String,
    pub schema_version: u32,
    pub verdict: MinimumProofVerdictV1,
    pub reasons: Vec<String>,
    pub claim_boundary: String,
}


// ---------------------------------------------------------------------------
// Evaluation.
// ---------------------------------------------------------------------------

/// The first receipt row for `package`, if any.
pub open spec fn row_for(rows: Seq<MinimumVersionRowResultV1>, package: Seq<char>) -> Option<
    MinimumVersionRowResultV1,
>
    decreases rows.len(),
{
    if rows.len() == 0 {
        None
    } else if rows[0].package@ == package {
        Some(rows[0])
    } else {
        row_for(rows.drop_first(), package)
    }
}

/// A non-clean row must carry a non-empty limitation.
pub open spec fn lacks_limitation(r: MinimumVersionRowResultV1) -> bool {
    r.result != MinimumFloorResultV1::Proven && match r.limitation {
        None => true,
        Some(l) => l@.len() == 0,
    }
}

pub open spec fn floor_reasons(f: MinimumFloorRowV1, rows: Seq<MinimumVersionRowResultV1>) -> Seq<
    Seq<char>,
> {
    match row_for(rows, f.package@) {
        None => Seq::empty().push("missing receipt row: "@ + f.package@),
        Some(r) => note(
            r.tested_floor@ != f.selected_floor@,
            "floor substitution: "@ + f.package@ + " was tested at "@ + r.tested_floor@
                + " but the declared floor selects "@ + f.selected_floor@,
        ) + note(lacks_limitation(r), "non-clean row without limitation: "@ + f.package@),
    }
}

pub open spec fn floors_reasons(
    floors: Seq<MinimumFloorRowV1>,
    rows: Seq<MinimumVersionRowResultV1>,
) -> Seq<Seq<char>>
    decreases floors.len(),
{
    if floors.len() == 0 {
        Seq::empty()
    } else {
        floors_reasons(floors.drop_last(), rows) + floor_reasons(floors.last(), rows)
    }
}

/// `package` is a selected floor that found its receipt row.
pub open spec fn covered(
    floors: Seq<MinimumFloorRowV1>,
    rows: Seq<MinimumVersionRowResultV1>,
    package: Seq<char>,
) -> bool {
    exists|j: int|
        0 <= j < floors.len() && #[trigger] floors[j].package@ == package && row_for(
            rows,
            package,
        ) is Some
}

pub open spec fn surplus_reasons(
    floors: Seq<MinimumFloorRowV1>,
    rows: Seq<MinimumVersionRowResultV1>,
    n: nat,
) -> Seq<Seq<char>>
    decreases n,
{
    if n == 0 {
        Seq::empty()
    } else {
        surplus_reasons(floors, rows, (n - 1) as nat) + note(
            !covered(floors, rows, rows[n - 1].package@),
            "receipt row "@ + rows[n - 1].package@ + " is not in the request's selected floors"@,
        )
    }
}

/// Packages of the non-clean receipt rows, in receipt order.
pub open spec fn unclean_packages(rows: Seq<MinimumVersionRowResultV1>) -> Seq<Seq<char>>
    decreases rows.len(),
{
    if rows.len() == 0 {
        Seq::empty()
    } else {
        let rest = unclean_packages(rows.drop_last());
        if rows.last().result != MinimumFloorResultV1::Proven {
            rest.push(rows.last().package@)
        } else {
            rest
        }
    }
}

pub open spec fn identity_reasons(
    q: MinimumVersionProofRequestV1,
    r: MinimumVersionProofReceiptV1,
) -> Seq<Seq<char>> {
    note(r.schema_id@ != MINIMUM_DIRECT_VERSION_SCHEMA_ID@, "schema_mismatch"@) + note(
        r.product@ != q.product@,
        "product_mismatch: receipt "@ + r.product@ + " vs request "@ + q.product@,
    ) + note(r.msrv@ != q.msrv@, "msrv_mismatch: receipt "@ + r.msrv@ + " vs request "@ + q.msrv@)
}

pub open spec fn toolchain_too_new(q: MinimumVersionProofRequestV1, r: MinimumVersionProofReceiptV1) -> bool {
    r.toolchain@ != q.msrv@ && !starts_with(r.toolchain@, q.msrv@)
}

/// The verdict and reasons of the evaluation, in the order they are found.
pub open spec fn proof_outcome(q: MinimumVersionProofRequestV1, r: MinimumVersionProofReceiptV1) -> (
    MinimumProofVerdictV1,
    Seq<Seq<char>>,
) {
    let head = identity_reasons(q, r);
    if r.manifest_set_digest@ != q.manifest_set_digest@ || r.lock_digest@ != q.lock_digest@ {
        (
            MinimumProofVerdictV1::Stale,
            head.push("stale: the request digests moved since the receipt"@),
        )
    } else if q.floors@.len() == 0 {
        (
            MinimumProofVerdictV1::InstrumentFailure,
            head.push("empty denominator: no floor rows were selected"@),
        )
    } else {
        let rows = head + floors_reasons(q.floors@, r.rows@) + surplus_reasons(
            q.floors@,
            r.rows@,
            r.rows@.len(),
        );
        if toolchain_too_new(q, r) {
            (
                MinimumProofVerdictV1::InstrumentFailure,
                rows.push(
                    "toolchain "@ + r.toolchain@ + " is newer than the claimed MSRV "@ + q.msrv@
                        + "; the rows cannot silently pass"@,
                ),
            )
        } else {
            let unclean = unclean_packages(r.rows@);
            let all = rows + note(
                unclean.len() > 0,
                "non-clean dispositions: "@ + join_sep(unclean, ", "@),
            );
            (
                if all.len() > 0 {
                    MinimumProofVerdictV1::Incomplete
                } else {
                    MinimumProofVerdictV1::Complete
                },
                all,
            )
        }
    }
}

fn finish(verdict: MinimumProofVerdictV1, reasons: Vec<String>) -> (r: MinimumProofEvaluationV1)
    ensures
        r.schema_id@ == MINIMUM_DIRECT_VERSION_SCHEMA_ID@,
        r.schema_version == MINIMUM_DIRECT_VERSION_SCHEMA_VERSION,
        r.verdict == verdict,
        r.reasons@ == reasons@,
        r.claim_boundary@ == MINIMUM_DIRECT_VERSION_CLAIM_BOUNDARY@,
{
    MinimumProofEvaluationV1 {
        schema_id: MINIMUM_DIRECT_VERSION_SCHEMA_ID.to_string(),
        schema_version: MINIMUM_DIRECT_VERSION_SCHEMA_VERSION,
        verdict,
        reasons,
        claim_boundary: MINIMUM_DIRECT_VERSION_CLAIM_BOUNDARY.to_string(),
    }
}

/// Finds the first receipt row for `package`.
fn find_row<'a>(rows: &'a Vec<MinimumVersionRowResultV1>, package: &str) -> (r: Option<
    &'a MinimumVersionRowResultV1,
>)
    ensures
        match r {
            None => row_for(rows@, package@) is None,
            Some(row) => row_for(rows@, package@) == Some(*row),
        },
{
    let mut k: usize = 0;
    assert(rows@.skip(0) =~= rows@);
    while k < rows.len()
        invariant
            k <= rows.len(),
            row_for(rows@, package@) == row_for(rows@.skip(k as int), package@),
        decreases rows.len() - k,
    {
        assert(rows@.skip(k as int)[0] == rows@[k as int]);
        assert(rows@.skip(k as int).drop_first() =~= rows@.skip(k + 1));
        if str_eq(rows[k].package.as_str(), package) {
            return Some(&rows[k]);
        }
        k = k + 1;
    }
    None
}

fn check_floors(
    request: &MinimumVersionProofRequestV1,
    receipt: &MinimumVersionProofReceiptV1,
    reasons: &mut Vec<String>,
) -> (covered_packages: Vec<String>)
    ensures
        views(final(reasons)@) == views(old(reasons)@) + floors_reasons(
            request.floors@,
            receipt.rows@,
        ),
        forall|p: Seq<char>|
            views(covered_packages@).contains(p) <==> covered(request.floors@, receipt.rows@, p),
{
    let mut covered_packages: Vec<String> = Vec::new();
    let mut k: usize = 0;
    proof {
        assert(request.floors@.take(0) =~= Seq::<MinimumFloorRowV1>::empty());
    }
    while k < request.floors.len()
        invariant
            k <= request.floors.len(),
            views(reasons@) == views(old(reasons)@) + floors_reasons(
                request.floors@.take(k as int),
                receipt.rows@,
            ),
            forall|p: Seq<char>|
                views(covered_packages@).contains(p) <==> covered(
                    request.floors@.take(k as int),
                    receipt.rows@,
                    p,
                ),
        decreases request.floors.len() - k,
    {
        let floor = &request.floors[k];
        let ghost before = views(reasons@);
        let ghost cov_before = views(covered_packages@);
        proof {
            assert(request.floors@.take(k + 1).drop_last() =~= request.floors@.take(k as int));
        }
        match find_row(&receipt.rows, floor.package.as_str()) {
            None => {
                reasons.push(cat("missing receipt row: ", floor.package.as_str()));
                assert(views(reasons@) =~= before + floor_reasons(*floor, receipt.rows@));
            },
            Some(row) => {
                let mut sub = cat("floor substitution: ", floor.package.as_str());
                crate::text::push_str(&mut sub, " was tested at ");
                crate::text::push_str(&mut sub, row.tested_floor.as_str());
                crate::text::push_str(&mut sub, " but the declared floor selects ");
                crate::text::push_str(&mut sub, floor.selected_floor.as_str());
                note_if(
                    reasons,
                    !str_eq(row.tested_floor.as_str(), floor.selected_floor.as_str()),
                    sub,
                );
                let lacks = !row.result.is_clean() && match &row.limitation {
                    None => true,
                    Some(l) => l.as_str().unicode_len() == 0,
                };
                note_if(
                    reasons,
                    lacks,
                    cat("non-clean row without limitation: ", floor.package.as_str()),
                );
                proof {
                    crate::text::lemma_concat_assoc(
                        before,
                        note(
                            row.tested_floor@ != floor.selected_floor@,
                            "floor substitution: "@ + floor.package@ + " was tested at "@
                                + row.tested_floor@ + " but the declared floor selects "@
                                + floor.selected_floor@,
                        ),
                        note(lacks, "non-clean row without limitation: "@ + floor.package@),
                    );
                }
                covered_packages.push(floor.package.clone());
            },
        }
        proof {
            crate::text::lemma_concat_assoc(
                views(old(reasons)@),
                floors_reasons(request.floors@.take(k as int), receipt.rows@),
                floor_reasons(*floor, receipt.rows@),
            );
            let t = request.floors@.take(k + 1);
            assert forall|p: Seq<char>|
                views(covered_packages@).contains(p) <==> covered(t, receipt.rows@, p) by {
                if views(covered_packages@).contains(p) {
                    let i = choose|i: int|
                        0 <= i < views(covered_packages@).len() && views(covered_packages@)[i]
                            == p;
                    if i < cov_before.len() {
                        assert(cov_before[i] == p);
                        assert(cov_before.contains(p));
                        let j = choose|j: int|
                            0 <= j < k && #[trigger] request.floors@.take(k as int)[j].package@
                                == p && row_for(receipt.rows@, p) is Some;
                        assert(t[j].package@ == p);
                    } else {
                        assert(t[k as int].package@ == p);
                    }
                }
                if covered(t, receipt.rows@, p) {
                    let j = choose|j: int|
                        0 <= j < t.len() && #[trigger] t[j].package@ == p && row_for(
                            receipt.rows@,
                            p,
                        ) is Some;
                    if j < k {
                        assert(request.floors@.take(k as int)[j].package@ == p);
                        assert(covered(request.floors@.take(k as int), receipt.rows@, p));
                        assert(cov_before.contains(p));
                        let i = choose|i: int| 0 <= i < cov_before.len() && cov_before[i] == p;
                        assert(views(covered_packages@)[i] == p);
                    } else {
                        assert(views(covered_packages@)[views(covered_packages@).len() - 1] == p);
                    }
                }
            }
        }
        k = k + 1;
    }
    assert(request.floors@.take(k as int) =~= request.floors@);
    covered_packages
}

fn contains_string(v: &Vec<String>, s: &str) -> (r: bool)
    ensures
        r == views(v@).contains(s@),
{
    let mut k: usize = 0;
    while k < v.len()
        invariant
            k <= v.len(),
            forall|j: int| 0 <= j < k ==> views(v@)[j] != s@,
        decreases v.len() - k,
    {
        if str_eq(v[k].as_str(), s) {
            assert(views(v@)[k as int] == s@);
            return true;
        }
        k = k + 1;
    }
    false
}

fn check_surplus(
    request: &MinimumVersionProofRequestV1,
    receipt: &MinimumVersionProofReceiptV1,
    covered_packages: &Vec<String>,
    reasons: &mut Vec<String>,
)
    requires
        forall|p: Seq<char>|
            views(covered_packages@).contains(p) <==> covered(request.floors@, receipt.rows@, p),
    ensures
        views(final(reasons)@) == views(old(reasons)@) + surplus_reasons(
            request.floors@,
            receipt.rows@,
            receipt.rows@.len(),
        ),
{
    let mut k: usize = 0;
    while k < receipt.rows.len()
        invariant
            k <= receipt.rows.len(),
            forall|p: Seq<char>|
                views(covered_packages@).contains(p) <==> covered(request.floors@, receipt.rows@, p),
            views(reasons@) == views(old(reasons)@) + surplus_reasons(
                request.floors@,
                receipt.rows@,
                k as nat,
            ),
        decreases receipt.rows.len() - k,
    {
        let row = &receipt.rows[k];
        let mut msg = cat("receipt row ", row.package.as_str());
        crate::text::push_str(&mut msg, " is not in the request's selected floors");
        let inside = contains_string(covered_packages, row.package.as_str());
        let ghost before = views(reasons@);
        note_if(reasons, !inside, msg);
        proof {
            crate::text::lemma_concat_assoc(
                views(old(reasons)@),
                surplus_reasons(request.floors@, receipt.rows@, k as nat),
                note(!inside, msg@),
            );
        }
        k = k + 1;
    }
}

fn unclean_rows(rows: &Vec<MinimumVersionRowResultV1>) -> (r: Vec<String>)
    ensures
        views(r@) == unclean_packages(rows@),
{
    let mut out: Vec<String> = Vec::new();
    let mut k: usize = 0;
    while k < rows.len()
        invariant
            k <= rows.len(),
            views(out@) == unclean_packages(rows@.take(k as int)),
        decreases rows.len() - k,
    {
        assert(rows@.take(k + 1).drop_last() =~= rows@.take(k as int));
        if !rows[k].result.is_clean() {
            let ghost before = out@;
            out.push(rows[k].package.clone());
            assert(views(out@) =~= views(before).push(rows@[k as int].package@));
        }
        k = k + 1;
    }
    assert(rows@.take(k as int) =~= rows@);
    out
}

/// Evaluates the receipt against the request, ordered by the request's
/// floor rows. Movement of the manifest set or lock stales the receipt; an
/// empty denominator and a toolchain newer than the claimed MSRV are
/// instrument failures; any other reason leaves the proof incomplete.
pub fn evaluate_minimum_version_proof(
    request: &MinimumVersionProofRequestV1,
    receipt: &MinimumVersionProofReceiptV1,
) -> (r: MinimumProofEvaluationV1)
    ensures
        r.schema_id@ == MINIMUM_DIRECT_VERSION_SCHEMA_ID@,
        r.schema_version == MINIMUM_DIRECT_VERSION_SCHEMA_VERSION,
        r.claim_boundary@ == MINIMUM_DIRECT_VERSION_CLAIM_BOUNDARY@,
        r.verdict == proof_outcome(*request, *receipt).0,
        views(r.reasons@) == proof_outcome(*request, *receipt).1,
{
    let mut reasons: Vec<String> = Vec::new();
    note_if(
        &mut reasons,
        !str_eq(receipt.schema_id.as_str(), MINIMUM_DIRECT_VERSION_SCHEMA_ID),
        "schema_mismatch".to_string(),
    );
    let mut product = cat("product_mismatch: receipt ", receipt.product.as_str());
    crate::text::push_str(&mut product, " vs request ");
    crate::text::push_str(&mut product, request.product.as_str());
    note_if(&mut reasons, !str_eq(receipt.product.as_str(), request.product.as_str()), product);
    let mut msrv = cat("msrv_mismatch: receipt ", receipt.msrv.as_str());
    crate::text::push_str(&mut msrv, " vs request ");
    crate::text::push_str(&mut msrv, request.msrv.as_str());
    note_if(&mut reasons, !str_eq(receipt.msrv.as_str(), request.msrv.as_str()), msrv);
    let ghost head = views(reasons@);
    assert(head =~= identity_reasons(*request, *receipt));
    if !str_eq(receipt.manifest_set_digest.as_str(), request.manifest_set_digest.as_str())
        || !str_eq(receipt.lock_digest.as_str(), request.lock_digest.as_str()) {
        reasons.push("stale: the request digests moved since the receipt".to_string());
        assert(views(reasons@) =~= head.push("stale: the request digests moved since the receipt"@));
        return finish(MinimumProofVerdictV1::Stale, reasons);
    }
    if request.floors.len() == 0 {
        reasons.push("empty denominator: no floor rows were selected".to_string());
        assert(views(reasons@) =~= head.push("empty denominator: no floor rows were selected"@));
        return finish(MinimumProofVerdictV1::InstrumentFailure, reasons);
    }
    let covered_packages = check_floors(request, receipt, &mut reasons);
    check_surplus(request, receipt, &covered_packages, &mut reasons);
    let ghost rows = views(reasons@);
    if !str_eq(receipt.toolchain.as_str(), request.msrv.as_str()) && !starts_with_str(
        receipt.toolchain.as_str(),
        request.msrv.as_str(),
    ) {
        let mut msg = cat("toolchain ", receipt.toolchain.as_str());
        crate::text::push_str(&mut msg, " is newer than the claimed MSRV ");
        crate::text::push_str(&mut msg, request.msrv.as_str());
        crate::text::push_str(&mut msg, "; the rows cannot silently pass");
        reasons.push(msg);
        assert(views(reasons@) =~= rows.push(msg@));
        return finish(MinimumProofVerdictV1::InstrumentFailure, reasons);
    }
    let unclean = unclean_rows(&receipt.rows);
    let joined = join_strings(&unclean, ", ");
    note_if(&mut reasons, unclean.len() > 0, cat("non-clean dispositions: ", joined.as_str()));
    if reasons.len() > 0 {
        finish(MinimumProofVerdictV1::Incomplete, reasons)
    } else {
        finish(MinimumProofVerdictV1::Complete, reasons)
    }
}

pub open spec fn human_lines(e: MinimumProofEvaluationV1) -> Seq<Seq<char>> {
    Seq::empty().push("minimum-direct-version: verdict="@ + e.verdict.label_spec()) + views(
        e.reasons@,
    ).map_values(|r: Seq<char>| "  reason: "@ + r).push("  claim boundary: "@ + e.claim_boundary@)
}

/// Human view of the evaluation: a verdict line, one line per reason, and
/// the claim boundary, joined by newlines.
pub fn render_minimum_proof_human(evaluation: &MinimumProofEvaluationV1) -> (r: String)
    ensures
        r@ == join_sep(human_lines(*evaluation), "\n"@),
{
    let mut lines: Vec<String> = Vec::new();
    lines.push(cat("minimum-direct-version: verdict=", evaluation.verdict.label()));
    let mut k: usize = 0;
    let ghost reasons = views(evaluation.reasons@);
    while k < evaluation.reasons.len()
        invariant
            k <= evaluation.reasons.len(),
            reasons == views(evaluation.reasons@),
            views(lines@) == Seq::empty().push(
                "minimum-direct-version: verdict="@ + evaluation.verdict.label_spec(),
            ) + reasons.take(k as int).map_values(|r: Seq<char>| "  reason: "@ + r),
        decreases evaluation.reasons.len() - k,
    {
        let ghost before = views(lines@);
        lines.push(cat("  reason: ", evaluation.reasons[k].as_str()));
        assert(reasons.take(k + 1).map_values(|r: Seq<char>| "  reason: "@ + r) =~= reasons.take(
            k as int,
        ).map_values(|r: Seq<char>| "  reason: "@ + r).push("  reason: "@ + reasons[k as int]));
        assert(views(lines@) =~= before.push("  reason: "@ + reasons[k as int]));
        k = k + 1;
    }
    assert(reasons.take(k as int) =~= reasons);
    let ghost mid = views(lines@);
    lines.push(cat("  claim boundary: ", evaluation.claim_boundary.as_str()));
    proof {
        let a = Seq::<Seq<char>>::empty().push(
            "minimum-direct-version: verdict="@ + evaluation.verdict.label_spec(),
        );
        let b = reasons.map_values(|r: Seq<char>| "  reason: "@ + r);
        let c = "  claim boundary: "@ + evaluation.claim_boundary@;
        assert(mid == a + b);
        assert(views(lines@) =~= mid.push(c));
        assert((a + b).push(c) =~= a + b.push(c));
    }
    join_strings(&lines, "\n")
}

proof fn lemma_no_floor_reasons(fs: Seq<MinimumFloorRowV1>, rows: Seq<MinimumVersionRowResultV1>)
    requires
        floors_reasons(fs, rows).len() == 0,
    ensures
        forall|j: int| 0 <= j < fs.len() ==> (#[trigger] floor_reasons(fs[j], rows)).len() == 0,
    decreases fs.len(),
{
    if fs.len() > 0 {
        lemma_no_floor_reasons(fs.drop_last(), rows);
        assert forall|j: int| 0 <= j < fs.len() implies (#[trigger] floor_reasons(fs[j], rows)).len()
            == 0 by {
            if j < fs.len() - 1 {
                assert(fs.drop_last()[j] == fs[j]);
            }
        }
    }
}

proof fn lemma_no_unclean_rows(rows: Seq<MinimumVersionRowResultV1>)
    requires
        unclean_packages(rows).len() == 0,
    ensures
        forall|j: int| 0 <= j < rows.len() ==> (#[trigger] rows[j]).result == MinimumFloorResultV1::Proven,
    decreases rows.len(),
{
    if rows.len() > 0 {
        lemma_no_unclean_rows(rows.drop_last());
        assert forall|j: int| 0 <= j < rows.len() implies (#[trigger] rows[j]).result
            == MinimumFloorResultV1::Proven by {
            if j < rows.len() - 1 {
                assert(rows.drop_last()[j] == rows[j]);
            }
        }
    }
}

/// The negative controls a `Complete` proof passes: the receipt is for the
/// requested product and MSRV, the manifest set and lock did not move, at
/// least one floor was selected, the toolchain is the claimed MSRV, every
/// selected floor has a receipt row tested at exactly the declared floor,
/// and every receipt row is `Proven`. A `Complete` evaluation carries no
/// reason at all.
pub proof fn lemma_complete_proof_passes_every_control(
    q: MinimumVersionProofRequestV1,
    r: MinimumVersionProofReceiptV1,
)
    requires
        proof_outcome(q, r).0 == MinimumProofVerdictV1::Complete,
    ensures
        proof_outcome(q, r).1.len() == 0,
        r.schema_id@ == MINIMUM_DIRECT_VERSION_SCHEMA_ID@,
        r.product@ == q.product@,
        r.msrv@ == q.msrv@,
        r.manifest_set_digest@ == q.manifest_set_digest@,
        r.lock_digest@ == q.lock_digest@,
        q.floors@.len() > 0,
        !toolchain_too_new(q, r),
        forall|j: int|
            0 <= j < q.floors@.len() ==> {
                let f = #[trigger] q.floors@[j];
                &&& row_for(r.rows@, f.package@) is Some
                &&& row_for(r.rows@, f.package@)->Some_0.tested_floor@ == f.selected_floor@
            },
        forall|j: int| 0 <= j < r.rows@.len() ==> (#[trigger] r.rows@[j]).result == MinimumFloorResultV1::Proven,
{
    reveal(note);
    let head = identity_reasons(q, r);
    let fr = floors_reasons(q.floors@, r.rows@);
    let sr = surplus_reasons(q.floors@, r.rows@, r.rows@.len());
    let unclean = unclean_packages(r.rows@);
    let tail = note(unclean.len() > 0, "non-clean dispositions: "@ + join_sep(unclean, ", "@));
    assert((head + fr + sr + tail).len() == head.len() + fr.len() + sr.len() + tail.len());
    lemma_no_floor_reasons(q.floors@, r.rows@);
    lemma_no_unclean_rows(r.rows@);
    assert forall|j: int| 0 <= j < q.floors@.len() implies {
        let f = #[trigger] q.floors@[j];
        &&& row_for(r.rows@, f.package@) is Some
        &&& row_for(r.rows@, f.package@)->Some_0.tested_floor@ == f.selected_floor@
    } by {
        assert(floor_reasons(q.floors@[j], r.rows@).len() == 0);
    }
}

/// Zero selected floor rows is never `Complete`, and movement of the
/// manifest set or lock always stales the receipt.
pub proof fn lemma_empty_or_moved_is_never_complete(
    q: MinimumVersionProofRequestV1,
    r: MinimumVersionProofReceiptV1,
)
    ensures
        q.floors@.len() == 0 ==> proof_outcome(q, r).0 != MinimumProofVerdictV1::Complete,
        r.manifest_set_digest@ != q.manifest_set_digest@ || r.lock_digest@ != q.lock_digest@
            ==> proof_outcome(q, r).0 == MinimumProofVerdictV1::Stale,
{
}

} // verus!
