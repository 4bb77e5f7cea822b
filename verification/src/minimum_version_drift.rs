//! Drift guard over the retained direct minimum version proofs: a live-tree
//! observation of one product's selection is graded against the retained
//! receipt so dependency, feature, target, MSRV, package-set, or manifest
//! movement reruns or stales the affected request instead of silently
//! passing on old evidence.
//!
//! A missing or wrong-product receipt is `unproven`, never current; MSRV,
//! manifest-set, lock, or package-roots movement is `stale` with the exact
//! movement named; coverage is graded only against an identity-current
//! receipt; non-clean rows stay visible as `incomplete`; only the cargo-allow
//! release set blocks.

use vstd::prelude::*;
use crate::minimum_direct_version::{
    MinimumFloorResultV1, MinimumVersionProofReceiptV1, MinimumVersionRowResultV1,
    MINIMUM_DIRECT_VERSION_SCHEMA_ID, MINIMUM_DIRECT_VERSION_SCHEMA_VERSION,
};
use crate::text::{
    before_char, before_char_str, bool_str, bool_text, cat, debug_str_list, debug_string_list,
    decimal, decimal_string, join_sep, join_strings, lemma_concat_assoc, note, note_if,
    starts_with, starts_with_str, str_eq, views,
};

verus! {

pub const MINIMUM_DIRECT_VERSION_DRIFT_SCHEMA_ID: &'static str = "cargo-allow.minimum-direct-version-drift.v1";

pub const MINIMUM_DIRECT_VERSION_DRIFT_SCHEMA_VERSION: u32 = 1;

/// The one product whose stale or missing proof blocks; every other product
/// stays advisory regardless of its drift verdict.
pub const DRIFT_RELEASE_SET_PRODUCT: &'static str = "cargo-allow";

pub const DRIFT_CLAIM_BOUNDARY: &'static str = "Drift guard over retained direct-floor proofs: identity movement stales the affected request, coverage and non-clean rows stay visible, and only cargo-allow release-set drift blocks. Transitive minimal graphs are not evaluated.";

/// One declared external direct dependency floor of the live-tree selection.
#[derive(Debug, Clone, PartialEq, Eq)]
pub struct MinimumVersionDriftFloorRowV1 {
    pub package: String,
    pub declared_requirement: String,
    pub selected_floor: String,
}

/// The live-tree observation of one product's direct-floor selection.
#[derive(Debug, Clone, PartialEq, Eq)]
pub struct MinimumVersionDriftObservationV1 {
    pub product: String,
    pub package_roots: Vec<String>,
    pub msrv: String,
    pub target: String,
    pub manifest_set_digest: String,
    pub lock_digest: String,
    pub floors: Vec<MinimumVersionDriftFloorRowV1>,
}

#[derive(Debug, Clone, Copy, PartialEq, Eq, Structural)]
pub enum MinimumVersionDriftVerdictV1 {
    Current,
    Stale,
    Unproven,
    Incomplete,
}

impl MinimumVersionDriftVerdictV1 {
    pub open spec fn label_spec(self) -> Seq<char> {
        match self {
            Self::Current => "current"@,
            Self::Stale => "stale"@,
            Self::Unproven => "unproven"@,
            Self::Incomplete => "incomplete"@,
        }
    }

    pub fn label(self) -> (r: &'static str)
        ensures
            r@ == self.label_spec(),
    {
        match self {
            Self::Current => "current",
            Self::Stale => "stale",
            Self::Unproven => "unproven",
            Self::Incomplete => "incomplete",
        }
    }
}

/// The graded drift state of one product's retained proof.
#[derive(Debug, Clone, PartialEq, Eq)]
pub struct MinimumVersionDriftEvaluationV1 {
    pub schema_id: String,
    pub schema_version: u32,
    pub product: String,
    pub verdict: MinimumVersionDriftVerdictV1,
    pub reasons: Vec<String>,
    /// Only the release set's non-current drift blocks.
    pub blocking: bool,
    pub claim_boundary: String,
}

/// The first receipt row for `package`, if any.
pub open spec fn drift_row_for(rows: Seq<MinimumVersionRowResultV1>, package: Seq<char>) -> Option<
    MinimumVersionRowResultV1,
>
    decreases rows.len(),
{
    if rows.len() == 0 {
        None
    } else if rows[0].package@ == package {
        Some(rows[0])
    } else {
        drift_row_for(rows.drop_first(), package)
    }
}

pub open spec fn drift_floor_reasons(
    f: MinimumVersionDriftFloorRowV1,
    rows: Seq<MinimumVersionRowResultV1>,
) -> Seq<Seq<char>> {
    match drift_row_for(rows, f.package@) {
        None => Seq::empty().push("no receipt row for declared floor "@ + f.package@),
        Some(r) => note(
            r.declared_requirement@ != f.declared_requirement@,
            "declared requirement moved for "@ + f.package@ + ": receipt "@
                + r.declared_requirement@ + " vs current "@ + f.declared_requirement@,
        ) + note(
            r.tested_floor@ != f.selected_floor@,
            "tested floor moved for "@ + f.package@ + ": receipt "@ + r.tested_floor@
                + " vs current "@ + f.selected_floor@,
        ) + note(
            r.result == MinimumFloorResultV1::Proven && before_char(r.resolved_version@, '+')
                != r.tested_floor@,
            "resolved substitution for "@ + f.package@ + ": resolved "@ + r.resolved_version@
                + " but the tested floor is "@ + r.tested_floor@,
        ),
    }
}

pub open spec fn drift_floors_reasons(
    floors: Seq<MinimumVersionDriftFloorRowV1>,
    rows: Seq<MinimumVersionRowResultV1>,
) -> Seq<Seq<char>>
    decreases floors.len(),
{
    if floors.len() == 0 {
        Seq::empty()
    } else {
        drift_floors_reasons(floors.drop_last(), rows) + drift_floor_reasons(floors.last(), rows)
    }
}

pub open spec fn declared(floors: Seq<MinimumVersionDriftFloorRowV1>, package: Seq<char>) -> bool {
    exists|j: int| 0 <= j < floors.len() && #[trigger] floors[j].package@ == package
}

pub open spec fn undeclared_reasons(
    floors: Seq<MinimumVersionDriftFloorRowV1>,
    rows: Seq<MinimumVersionRowResultV1>,
) -> Seq<Seq<char>>
    decreases rows.len(),
{
    if rows.len() == 0 {
        Seq::empty()
    } else {
        undeclared_reasons(floors, rows.drop_last()) + note(
            !declared(floors, rows.last().package@),
            "receipt row "@ + rows.last().package@ + " is no longer a declared floor"@,
        )
    }
}

pub open spec fn drift_unclean(rows: Seq<MinimumVersionRowResultV1>) -> Seq<Seq<char>>
    decreases rows.len(),
{
    if rows.len() == 0 {
        Seq::empty()
    } else {
        let rest = drift_unclean(rows.drop_last());
        if rows.last().result != MinimumFloorResultV1::Proven {
            rest.push(rows.last().package@)
        } else {
            rest
        }
    }
}

/// Reasons against an identity-current receipt: the full proof contract.
pub open spec fn contract_reasons(
    o: MinimumVersionDriftObservationV1,
    r: MinimumVersionProofReceiptV1,
) -> Seq<Seq<char>> {
    note(o.floors@.len() == 0, "empty floor denominator: no floor rows were selected"@) + note(
        r.schema_id@ != MINIMUM_DIRECT_VERSION_SCHEMA_ID@,
        "receipt schema "@ + r.schema_id@ + " is not "@ + MINIMUM_DIRECT_VERSION_SCHEMA_ID@,
    ) + note(
        r.schema_version != MINIMUM_DIRECT_VERSION_SCHEMA_VERSION,
        "receipt schema version "@ + decimal(r.schema_version as nat) + " is not "@ + decimal(
            MINIMUM_DIRECT_VERSION_SCHEMA_VERSION as nat,
        ),
    ) + note(
        !starts_with(r.toolchain@, o.msrv@),
        "receipt toolchain "@ + r.toolchain@ + " does not match the claimed msrv "@ + o.msrv@,
    ) + note(
        r.target@ != o.target@,
        "target moved: receipt "@ + r.target@ + " vs current "@ + o.target@,
    ) + note(r.commands@.len() == 0, "receipt records no executed commands"@)
        + drift_floors_reasons(o.floors@, r.rows@) + undeclared_reasons(o.floors@, r.rows@)
        + note(
        drift_unclean(r.rows@).len() > 0,
        "non-clean dispositions: "@ + join_sep(drift_unclean(r.rows@), ", "@),
    )
}

/// The verdict and reasons of grading `o` against the retained receipt.
pub open spec fn drift_outcome(
    o: MinimumVersionDriftObservationV1,
    receipt: Option<MinimumVersionProofReceiptV1>,
) -> (MinimumVersionDriftVerdictV1, Seq<Seq<char>>) {
    match receipt {
        None => (
            MinimumVersionDriftVerdictV1::Unproven,
            Seq::empty().push("no retained receipt for product "@ + o.product@),
        ),
        Some(r) => if r.product@ != o.product@ {
            (
                MinimumVersionDriftVerdictV1::Unproven,
                Seq::empty().push("receipt names product "@ + r.product@ + ", not "@ + o.product@),
            )
        } else if r.msrv@ != o.msrv@ {
            (
                MinimumVersionDriftVerdictV1::Stale,
                Seq::empty().push("msrv moved: receipt "@ + r.msrv@ + " vs current "@ + o.msrv@),
            )
        } else if r.manifest_set_digest@ != o.manifest_set_digest@ {
            (
                MinimumVersionDriftVerdictV1::Stale,
                Seq::empty().push("the checked-in manifests moved since the receipt"@),
            )
        } else if r.lock_digest@ != o.lock_digest@ {
            (
                MinimumVersionDriftVerdictV1::Stale,
                Seq::empty().push("Cargo.lock moved since the receipt"@),
            )
        } else if r.package_roots@.len() > 0 && views(r.package_roots@) != views(o.package_roots@) {
            (
                MinimumVersionDriftVerdictV1::Stale,
                Seq::empty().push(
                    "package roots moved: receipt "@ + debug_str_list(views(r.package_roots@))
                        + " vs current "@ + debug_str_list(views(o.package_roots@)),
                ),
            )
        } else {
            let reasons = contract_reasons(o, r);
            (
                if reasons.len() == 0 {
                    MinimumVersionDriftVerdictV1::Current
                } else {
                    MinimumVersionDriftVerdictV1::Incomplete
                },
                reasons,
            )
        },
    }
}

fn finish_drift(
    observation: &MinimumVersionDriftObservationV1,
    verdict: MinimumVersionDriftVerdictV1,
    reasons: Vec<String>,
) -> (r: MinimumVersionDriftEvaluationV1)
    ensures
        r.schema_id@ == MINIMUM_DIRECT_VERSION_DRIFT_SCHEMA_ID@,
        r.schema_version == MINIMUM_DIRECT_VERSION_DRIFT_SCHEMA_VERSION,
        r.product@ == observation.product@,
        r.verdict == verdict,
        r.reasons@ == reasons@,
        r.blocking == (observation.product@ == DRIFT_RELEASE_SET_PRODUCT@ && verdict
            != MinimumVersionDriftVerdictV1::Current),
        r.claim_boundary@ == DRIFT_CLAIM_BOUNDARY@,
{
    MinimumVersionDriftEvaluationV1 {
        schema_id: MINIMUM_DIRECT_VERSION_DRIFT_SCHEMA_ID.to_string(),
        schema_version: MINIMUM_DIRECT_VERSION_DRIFT_SCHEMA_VERSION,
        product: observation.product.clone(),
        verdict,
        blocking: str_eq(observation.product.as_str(), DRIFT_RELEASE_SET_PRODUCT) && verdict
            != MinimumVersionDriftVerdictV1::Current,
        reasons,
        claim_boundary: DRIFT_CLAIM_BOUNDARY.to_string(),
    }
}

fn find_drift_row<'a>(rows: &'a Vec<MinimumVersionRowResultV1>, package: &str) -> (r: Option<
    &'a MinimumVersionRowResultV1,
>)
    ensures
        match r {
            None => drift_row_for(rows@, package@) is None,
            Some(row) => drift_row_for(rows@, package@) == Some(*row),
        },
{
    let mut k: usize = 0;
    assert(rows@.skip(0) =~= rows@);
    while k < rows.len()
        invariant
            k <= rows.len(),
            drift_row_for(rows@, package@) == drift_row_for(rows@.skip(k as int), package@),
        decreases rows.len() - k,
    {
        assert(rows@.skip(k as int)[0] == rows@[k as int]);
        assert(rows@.skip(k as int).drop_first() =~= rows@.skip(k + 1));
        if str_eq(rows[k].package.as_str(), package) {
            return Some(&rows[k]);
        }
        k = k + 1;
    }
    None
}

fn moved_text(label: &str, package: &str, receipt: &str, current: &str) -> (r: String)
    ensures
        r@ == label@ + package@ + ": receipt "@ + receipt@ + " vs current "@ + current@,
{
    let mut s = cat(label, package);
    crate::text::push_str(&mut s, ": receipt ");
    crate::text::push_str(&mut s, receipt);
    crate::text::push_str(&mut s, " vs current ");
    crate::text::push_str(&mut s, current);
    s
}

fn check_drift_floor(
    floor: &MinimumVersionDriftFloorRowV1,
    rows: &Vec<MinimumVersionRowResultV1>,
    reasons: &mut Vec<String>,
)
    ensures
        views(final(reasons)@) == views(old(reasons)@) + drift_floor_reasons(*floor, rows@),
{
    match find_drift_row(rows, floor.package.as_str()) {
        None => {
            let ghost before = views(reasons@);
            reasons.push(cat("no receipt row for declared floor ", floor.package.as_str()));
            assert(views(reasons@) =~= before + drift_floor_reasons(*floor, rows@));
        },
        Some(row) => {
            let ghost before = views(reasons@);
            note_if(
                reasons,
                !str_eq(row.declared_requirement.as_str(), floor.declared_requirement.as_str()),
                moved_text(
                    "declared requirement moved for ",
                    floor.package.as_str(),
                    row.declared_requirement.as_str(),
                    floor.declared_requirement.as_str(),
                ),
            );
            let ghost g1 = views(reasons@);
            note_if(
                reasons,
                !str_eq(row.tested_floor.as_str(), floor.selected_floor.as_str()),
                moved_text(
                    "tested floor moved for ",
                    floor.package.as_str(),
                    row.tested_floor.as_str(),
                    floor.selected_floor.as_str(),
                ),
            );
            let ghost g2 = views(reasons@);
            let base = before_char_str(row.resolved_version.as_str(), '+');
            let mut msg = cat("resolved substitution for ", floor.package.as_str());
            crate::text::push_str(&mut msg, ": resolved ");
            crate::text::push_str(&mut msg, row.resolved_version.as_str());
            crate::text::push_str(&mut msg, " but the tested floor is ");
            crate::text::push_str(&mut msg, row.tested_floor.as_str());
            note_if(
                reasons,
                row.result == MinimumFloorResultV1::Proven && !str_eq(
                    base.as_str(),
                    row.tested_floor.as_str(),
                ),
                msg,
            );
            proof {
                broadcast use lemma_concat_assoc;
            }
        },
    }
}

fn is_declared(floors: &Vec<MinimumVersionDriftFloorRowV1>, package: &str) -> (r: bool)
    ensures
        r == declared(floors@, package@),
{
    let mut k: usize = 0;
    while k < floors.len()
        invariant
            k <= floors.len(),
            forall|j: int| 0 <= j < k ==> #[trigger] floors@[j].package@ != package@,
        decreases floors.len() - k,
    {
        if str_eq(floors[k].package.as_str(), package) {
            return true;
        }
        k = k + 1;
    }
    false
}

fn check_contract(
    observation: &MinimumVersionDriftObservationV1,
    receipt: &MinimumVersionProofReceiptV1,
    reasons: &mut Vec<String>,
)
    ensures
        views(final(reasons)@) == views(old(reasons)@) + contract_reasons(*observation, *receipt),
{
    let ghost g0 = views(reasons@);
    note_if(
        reasons,
        observation.floors.len() == 0,
        "empty floor denominator: no floor rows were selected".to_string(),
    );
    let mut schema = cat("receipt schema ", receipt.schema_id.as_str());
    crate::text::push_str(&mut schema, " is not ");
    crate::text::push_str(&mut schema, MINIMUM_DIRECT_VERSION_SCHEMA_ID);
    note_if(
        reasons,
        !str_eq(receipt.schema_id.as_str(), MINIMUM_DIRECT_VERSION_SCHEMA_ID),
        schema,
    );
    let mut version = cat(
        "receipt schema version ",
        decimal_string(receipt.schema_version as u64).as_str(),
    );
    crate::text::push_str(&mut version, " is not ");
    crate::text::push_str(
        &mut version,
        decimal_string(MINIMUM_DIRECT_VERSION_SCHEMA_VERSION as u64).as_str(),
    );
    note_if(reasons, receipt.schema_version != MINIMUM_DIRECT_VERSION_SCHEMA_VERSION, version);
    let mut toolchain = cat("receipt toolchain ", receipt.toolchain.as_str());
    crate::text::push_str(&mut toolchain, " does not match the claimed msrv ");
    crate::text::push_str(&mut toolchain, observation.msrv.as_str());
    note_if(
        reasons,
        !starts_with_str(receipt.toolchain.as_str(), observation.msrv.as_str()),
        toolchain,
    );
    let mut target = cat("target moved: receipt ", receipt.target.as_str());
    crate::text::push_str(&mut target, " vs current ");
    crate::text::push_str(&mut target, observation.target.as_str());
    note_if(reasons, !str_eq(receipt.target.as_str(), observation.target.as_str()), target);
    note_if(
        reasons,
        receipt.commands.len() == 0,
        "receipt records no executed commands".to_string(),
    );
    let ghost g1 = views(reasons@);
    let mut k: usize = 0;
    assert(observation.floors@.take(0) =~= Seq::<MinimumVersionDriftFloorRowV1>::empty());
    while k < observation.floors.len()
        invariant
            k <= observation.floors.len(),
            views(reasons@) == g1 + drift_floors_reasons(
                observation.floors@.take(k as int),
                receipt.rows@,
            ),
        decreases observation.floors.len() - k,
    {
        assert(observation.floors@.take(k + 1).drop_last() =~= observation.floors@.take(k as int));
        check_drift_floor(&observation.floors[k], &receipt.rows, reasons);
        proof {
            lemma_concat_assoc(
                g1,
                drift_floors_reasons(observation.floors@.take(k as int), receipt.rows@),
                drift_floor_reasons(observation.floors@[k as int], receipt.rows@),
            );
        }
        k = k + 1;
    }
    assert(observation.floors@.take(k as int) =~= observation.floors@);
    let ghost g2 = views(reasons@);
    let mut j: usize = 0;
    assert(receipt.rows@.take(0) =~= Seq::<MinimumVersionRowResultV1>::empty());
    while j < receipt.rows.len()
        invariant
            j <= receipt.rows.len(),
            views(reasons@) == g2 + undeclared_reasons(
                observation.floors@,
                receipt.rows@.take(j as int),
            ),
        decreases receipt.rows.len() - j,
    {
        assert(receipt.rows@.take(j + 1).drop_last() =~= receipt.rows@.take(j as int));
        let row = &receipt.rows[j];
        let mut msg = cat("receipt row ", row.package.as_str());
        crate::text::push_str(&mut msg, " is no longer a declared floor");
        let inside = is_declared(&observation.floors, row.package.as_str());
        note_if(reasons, !inside, msg);
        proof {
            lemma_concat_assoc(
                g2,
                undeclared_reasons(observation.floors@, receipt.rows@.take(j as int)),
                note(!inside, msg@),
            );
        }
        j = j + 1;
    }
    assert(receipt.rows@.take(j as int) =~= receipt.rows@);
    let ghost g3 = views(reasons@);
    let mut unclean: Vec<String> = Vec::new();
    let mut m: usize = 0;
    while m < receipt.rows.len()
        invariant
            m <= receipt.rows.len(),
            views(unclean@) == drift_unclean(receipt.rows@.take(m as int)),
        decreases receipt.rows.len() - m,
    {
        assert(receipt.rows@.take(m + 1).drop_last() =~= receipt.rows@.take(m as int));
        if receipt.rows[m].result != MinimumFloorResultV1::Proven {
            let ghost before = unclean@;
            unclean.push(receipt.rows[m].package.clone());
            assert(views(unclean@) =~= views(before).push(receipt.rows@[m as int].package@));
        }
        m = m + 1;
    }
    assert(receipt.rows@.take(m as int) =~= receipt.rows@);
    let joined = join_strings(&unclean, ", ");
    note_if(reasons, unclean.len() > 0, cat("non-clean dispositions: ", joined.as_str()));
    proof {
        broadcast use lemma_concat_assoc;
        assert(views(reasons@) =~= g0 + contract_reasons(*observation, *receipt));
    }
}

/// Grades one product's live-tree observation against its retained receipt.
/// Pure and fail-closed: every movement is named, and only a fully aligned,
/// all-proven, fully covering receipt is `current`.
pub fn evaluate_minimum_version_drift(
    observation: &MinimumVersionDriftObservationV1,
    receipt: Option<&MinimumVersionProofReceiptV1>,
) -> (r: MinimumVersionDriftEvaluationV1)
    ensures
        r.schema_id@ == MINIMUM_DIRECT_VERSION_DRIFT_SCHEMA_ID@,
        r.schema_version == MINIMUM_DIRECT_VERSION_DRIFT_SCHEMA_VERSION,
        r.product@ == observation.product@,
        r.claim_boundary@ == DRIFT_CLAIM_BOUNDARY@,
        r.verdict == drift_outcome(
            *observation,
            match receipt {
                Some(x) => Some(*x),
                None => None,
            },
        ).0,
        views(r.reasons@) == drift_outcome(
            *observation,
            match receipt {
                Some(x) => Some(*x),
                None => None,
            },
        ).1,
        r.blocking == (observation.product@ == DRIFT_RELEASE_SET_PRODUCT@ && r.verdict
            != MinimumVersionDriftVerdictV1::Current),
{
    let mut reasons: Vec<String> = Vec::new();
    let receipt = match receipt {
        None => {
            reasons.push(cat("no retained receipt for product ", observation.product.as_str()));
            assert(views(reasons@) =~= Seq::empty().push(
                "no retained receipt for product "@ + observation.product@,
            ));
            return finish_drift(observation, MinimumVersionDriftVerdictV1::Unproven, reasons);
        },
        Some(r) => r,
    };
    if !str_eq(receipt.product.as_str(), observation.product.as_str()) {
        let mut msg = cat("receipt names product ", receipt.product.as_str());
        crate::text::push_str(&mut msg, ", not ");
        crate::text::push_str(&mut msg, observation.product.as_str());
        reasons.push(msg);
        assert(views(reasons@) =~= Seq::empty().push(msg@));
        return finish_drift(observation, MinimumVersionDriftVerdictV1::Unproven, reasons);
    }
    if !str_eq(receipt.msrv.as_str(), observation.msrv.as_str()) {
        let mut msg = cat("msrv moved: receipt ", receipt.msrv.as_str());
        crate::text::push_str(&mut msg, " vs current ");
        crate::text::push_str(&mut msg, observation.msrv.as_str());
        reasons.push(msg);
        assert(views(reasons@) =~= Seq::empty().push(msg@));
        return finish_drift(observation, MinimumVersionDriftVerdictV1::Stale, reasons);
    }
    if !str_eq(receipt.manifest_set_digest.as_str(), observation.manifest_set_digest.as_str()) {
        reasons.push("the checked-in manifests moved since the receipt".to_string());
        assert(views(reasons@) =~= Seq::empty().push(
            "the checked-in manifests moved since the receipt"@,
        ));
        return finish_drift(observation, MinimumVersionDriftVerdictV1::Stale, reasons);
    }
    if !str_eq(receipt.lock_digest.as_str(), observation.lock_digest.as_str()) {
        reasons.push("Cargo.lock moved since the receipt".to_string());
        assert(views(reasons@) =~= Seq::empty().push("Cargo.lock moved since the receipt"@));
        return finish_drift(observation, MinimumVersionDriftVerdictV1::Stale, reasons);
    }
    if receipt.package_roots.len() > 0 && !strings_equal(
        &receipt.package_roots,
        &observation.package_roots,
    ) {
        let mut msg = cat(
            "package roots moved: receipt ",
            debug_string_list(&receipt.package_roots).as_str(),
        );
        crate::text::push_str(&mut msg, " vs current ");
        crate::text::push_str(&mut msg, debug_string_list(&observation.package_roots).as_str());
        reasons.push(msg);
        assert(views(reasons@) =~= Seq::empty().push(msg@));
        return finish_drift(observation, MinimumVersionDriftVerdictV1::Stale, reasons);
    }
    check_contract(observation, receipt, &mut reasons);
    assert(views(reasons@) =~= contract_reasons(*observation, *receipt));
    if reasons.len() == 0 {
        finish_drift(observation, MinimumVersionDriftVerdictV1::Current, reasons)
    } else {
        finish_drift(observation, MinimumVersionDriftVerdictV1::Incomplete, reasons)
    }
}

/// Element-wise equality of two string lists.
fn strings_equal(a: &Vec<String>, b: &Vec<String>) -> (r: bool)
    ensures
        r == (views(a@) == views(b@)),
{
    if a.len() != b.len() {
        assert(views(a@).len() != views(b@).len());
        return false;
    }
    let mut k: usize = 0;
    while k < a.len()
        invariant
            k <= a.len(),
            a.len() == b.len(),
            forall|j: int| 0 <= j < k ==> #[trigger] views(a@)[j] == views(b@)[j],
        decreases a.len() - k,
    {
        if !str_eq(a[k].as_str(), b[k].as_str()) {
            assert(views(a@)[k as int] != views(b@)[k as int]);
            return false;
        }
        k = k + 1;
    }
    assert(views(a@) =~= views(b@));
    true
}

pub open spec fn drift_human_lines(e: MinimumVersionDriftEvaluationV1) -> Seq<Seq<char>> {
    Seq::empty().push(
        "minimum-version-drift: product="@ + e.product@ + " verdict="@ + e.verdict.label_spec()
            + " blocking="@ + bool_text(e.blocking),
    ) + views(e.reasons@).map_values(|r: Seq<char>| "  reason: "@ + r).push(
        "  claim boundary: "@ + e.claim_boundary@,
    )
}

/// Human view of one drift evaluation, joined by newlines.
pub fn render_minimum_version_drift_human(evaluation: &MinimumVersionDriftEvaluationV1) -> (r:
    String)
    ensures
        r@ == join_sep(drift_human_lines(*evaluation), "\n"@),
{
    let mut lines: Vec<String> = Vec::new();
    let mut head = cat("minimum-version-drift: product=", evaluation.product.as_str());
    crate::text::push_str(&mut head, " verdict=");
    crate::text::push_str(&mut head, evaluation.verdict.label());
    crate::text::push_str(&mut head, " blocking=");
    crate::text::push_str(&mut head, bool_str(evaluation.blocking));
    lines.push(head);
    let ghost first = views(lines@);
    let mut k: usize = 0;
    let ghost reasons = views(evaluation.reasons@);
    while k < evaluation.reasons.len()
        invariant
            k <= evaluation.reasons.len(),
            reasons == views(evaluation.reasons@),
            views(lines@) == first + reasons.take(k as int).map_values(
                |r: Seq<char>| "  reason: "@ + r,
            ),
        decreases evaluation.reasons.len() - k,
    {
        let ghost before = views(lines@);
        lines.push(cat("  reason: ", evaluation.reasons[k].as_str()));
        assert(reasons.take(k + 1).map_values(|r: Seq<char>| "  reason: "@ + r) =~= reasons.take(
            k as int,
        ).map_values(|r: Seq<char>| "  reason: "@ + r).push("  reason: "@ + reasons[k as int]));
        assert(views(lines@) =~= before.push("  reason: "@ + reasons[k as int]));
        k = k + 1;
    }
    assert(reasons.take(k as int) =~= reasons);
    let ghost mid = views(lines@);
    lines.push(cat("  claim boundary: ", evaluation.claim_boundary.as_str()));
    proof {
        let b = reasons.map_values(|r: Seq<char>| "  reason: "@ + r);
        let c = "  claim boundary: "@ + evaluation.claim_boundary@;
        assert(views(lines@) =~= mid.push(c));
        assert((first + b).push(c) =~= first + b.push(c));
        assert(first =~= Seq::empty().push(
            "minimum-version-drift: product="@ + evaluation.product@ + " verdict="@
                + evaluation.verdict.label_spec() + " blocking="@ + bool_text(evaluation.blocking),
        ));
    }
    join_strings(&lines, "\n")
}

proof fn lemma_no_drift_floor_reasons(fs: Seq<MinimumVersionDriftFloorRowV1>, rows: Seq<MinimumVersionRowResultV1>)
    requires
        drift_floors_reasons(fs, rows).len() == 0,
    ensures
        forall|j: int| 0 <= j < fs.len() ==> (#[trigger] drift_floor_reasons(fs[j], rows)).len() == 0,
    decreases fs.len(),
{
    if fs.len() > 0 {
        lemma_no_drift_floor_reasons(fs.drop_last(), rows);
        assert forall|j: int| 0 <= j < fs.len() implies (#[trigger] drift_floor_reasons(fs[j], rows)).len()
            == 0 by {
            if j < fs.len() - 1 {
                assert(fs.drop_last()[j] == fs[j]);
            }
        }
    }
}

proof fn lemma_no_undeclared_rows(fs: Seq<MinimumVersionDriftFloorRowV1>, rows: Seq<MinimumVersionRowResultV1>)
    requires
        undeclared_reasons(fs, rows).len() == 0,
    ensures
        forall|j: int| 0 <= j < rows.len() ==> declared(fs, (#[trigger] rows[j]).package@),
    decreases rows.len(),
{
    reveal(note);
    if rows.len() > 0 {
        lemma_no_undeclared_rows(fs, rows.drop_last());
        assert forall|j: int| 0 <= j < rows.len() implies declared(fs, (#[trigger] rows[j]).package@) by {
            if j < rows.len() - 1 {
                assert(rows.drop_last()[j] == rows[j]);
            }
        }
    }
}

proof fn lemma_no_drift_unclean(rows: Seq<MinimumVersionRowResultV1>)
    requires
        drift_unclean(rows).len() == 0,
    ensures
        forall|j: int| 0 <= j < rows.len() ==> (#[trigger] rows[j]).result == MinimumFloorResultV1::Proven,
    decreases rows.len(),
{
    if rows.len() > 0 {
        lemma_no_drift_unclean(rows.drop_last());
        assert forall|j: int| 0 <= j < rows.len() implies (#[trigger] rows[j]).result
            == MinimumFloorResultV1::Proven by {
            if j < rows.len() - 1 {
                assert(rows.drop_last()[j] == rows[j]);
            }
        }
    }
}

/// A missing or wrong-product receipt is `unproven`, never current; with
/// the right product, MSRV, manifest-set or lock movement is `stale`.
pub proof fn lemma_missing_or_moved_is_never_current(
    o: MinimumVersionDriftObservationV1,
    receipt: Option<MinimumVersionProofReceiptV1>,
)
    ensures
        receipt is None ==> drift_outcome(o, receipt).0 == MinimumVersionDriftVerdictV1::Unproven,
        receipt matches Some(r) && r.product@ != o.product@ ==> drift_outcome(o, receipt).0
            == MinimumVersionDriftVerdictV1::Unproven,
        receipt matches Some(r) && r.product@ == o.product@ && (r.msrv@ != o.msrv@
            || r.manifest_set_digest@ != o.manifest_set_digest@ || r.lock_digest@ != o.lock_digest@)
            ==> drift_outcome(o, receipt).0 == MinimumVersionDriftVerdictV1::Stale,
{
}

/// Only a fully aligned, all-`Proven`, fully covering receipt is current:
/// it is retained for the observed product with the same MSRV, manifest
/// set, lock and target; at least one floor is declared; every declared
/// floor has a receipt row tested at exactly the current floor; every
/// receipt row is still a declared floor and `Proven`; and no reason is
/// given.
pub proof fn lemma_current_receipt_is_fully_aligned(
    o: MinimumVersionDriftObservationV1,
    receipt: Option<MinimumVersionProofReceiptV1>,
)
    requires
        drift_outcome(o, receipt).0 == MinimumVersionDriftVerdictV1::Current,
    ensures
        drift_outcome(o, receipt).1.len() == 0,
        receipt is Some,
        receipt->Some_0.product@ == o.product@,
        receipt->Some_0.msrv@ == o.msrv@,
        receipt->Some_0.manifest_set_digest@ == o.manifest_set_digest@,
        receipt->Some_0.lock_digest@ == o.lock_digest@,
        receipt->Some_0.target@ == o.target@,
        o.floors@.len() > 0,
        forall|j: int|
            0 <= j < o.floors@.len() ==> {
                let f = #[trigger] o.floors@[j];
                &&& drift_row_for(receipt->Some_0.rows@, f.package@) is Some
                &&& drift_row_for(receipt->Some_0.rows@, f.package@)->Some_0.tested_floor@
                    == f.selected_floor@
            },
        forall|j: int|
            0 <= j < receipt->Some_0.rows@.len() ==> declared(
                o.floors@,
                (#[trigger] receipt->Some_0.rows@[j]).package@,
            ) && receipt->Some_0.rows@[j].result == MinimumFloorResultV1::Proven,
{
    reveal(note);
    let r = receipt->Some_0;
    let a = note(o.floors@.len() == 0, "empty floor denominator: no floor rows were selected"@);
    let b = note(
        r.schema_id@ != MINIMUM_DIRECT_VERSION_SCHEMA_ID@,
        "receipt schema "@ + r.schema_id@ + " is not "@ + MINIMUM_DIRECT_VERSION_SCHEMA_ID@,
    );
    let c = note(
        r.schema_version != MINIMUM_DIRECT_VERSION_SCHEMA_VERSION,
        "receipt schema version "@ + decimal(r.schema_version as nat) + " is not "@ + decimal(
            MINIMUM_DIRECT_VERSION_SCHEMA_VERSION as nat,
        ),
    );
    let d = note(
        !starts_with(r.toolchain@, o.msrv@),
        "receipt toolchain "@ + r.toolchain@ + " does not match the claimed msrv "@ + o.msrv@,
    );
    let e = note(r.target@ != o.target@, "target moved: receipt "@ + r.target@ + " vs current "@ + o.target@);
    let f = note(r.commands@.len() == 0, "receipt records no executed commands"@);
    let g = drift_floors_reasons(o.floors@, r.rows@);
    let h = undeclared_reasons(o.floors@, r.rows@);
    let k = note(
        drift_unclean(r.rows@).len() > 0,
        "non-clean dispositions: "@ + join_sep(drift_unclean(r.rows@), ", "@),
    );
    assert(contract_reasons(o, r).len() == a.len() + b.len() + c.len() + d.len() + e.len() + f.len()
        + g.len() + h.len() + k.len());
    lemma_no_drift_floor_reasons(o.floors@, r.rows@);
    lemma_no_undeclared_rows(o.floors@, r.rows@);
    lemma_no_drift_unclean(r.rows@);
    assert forall|j: int| 0 <= j < o.floors@.len() implies {
        let f = #[trigger] o.floors@[j];
        &&& drift_row_for(r.rows@, f.package@) is Some
        &&& drift_row_for(r.rows@, f.package@)->Some_0.tested_floor@ == f.selected_floor@
    } by {
        assert(drift_floor_reasons(o.floors@[j], r.rows@).len() == 0);
    }
}

} // verus!
