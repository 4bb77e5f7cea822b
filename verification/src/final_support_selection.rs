//! The structural law of the final support selection: which support,
//! platform, channel, asset and other claims the final release makes or
//! explicitly declines, row by row, with the evidence authority behind each.
//!
//! The binding of a selection to its typed release identity, and the
//! recomputation of its digests, rest on the release-identity projection,
//! which is not part of this library; what is checked here is everything
//! the selection states about itself.

use vstd::prelude::*;
use crate::text::{cat, debug_str, debug_string, decimal, decimal_string, is_blank, push_str, str_eq, trim};

verus! {

pub const FINAL_SUPPORT_SELECTION_SCHEMA_ID: &'static str = "cargo-allow.final-support-selection.v1";
pub const FINAL_SUPPORT_SELECTION_SCHEMA_VERSION: u32 = 1;

/// The digest role binding a selection to one release identity. Distinct
/// from the candidate-preparation `source`/`target` roles so a selection
/// digest can never be replayed as a transition-side identity digest.
pub const FINAL_SELECTION_IDENTITY_ROLE: &'static str = "final-selection";

pub const FINAL_SELECTION_CLAIM_BOUNDARY: &'static str = "The machine-readable final-selection freeze for the 0.2.0 release proof denominator. It records which support, platform, channel, asset, sibling-product, pilot, and upgrade claims the final release makes and explicitly declines, bound to one typed release identity by recomputed digests. It is not a support policy, a channel-truth projection, installed-experience proof, or a publication authorization; unselected and not-proven rows narrow the release claims and never inherit success.";

/// Closed disposition vocabulary for one final-selection row. `Selected`
/// means the release claim is made; `NotIncluded` and `NotProven`
/// explicitly decline or bound a claim; `NeedsDecision` records a missing
/// maintainer decision and blocks freeze consumption.
#[derive(Debug, Clone, Copy, PartialEq, Eq, Structural)]
pub enum FinalSelectionDispositionV1 {
    Selected,
    NotIncluded,
    NotProven,
    NeedsDecision,
}

impl FinalSelectionDispositionV1 {
    pub open spec fn label_spec(self) -> Seq<char> {
        match self {
            FinalSelectionDispositionV1::Selected => "selected"@,
            FinalSelectionDispositionV1::NotIncluded => "not_included"@,
            FinalSelectionDispositionV1::NotProven => "not_proven"@,
            FinalSelectionDispositionV1::NeedsDecision => "needs_decision"@,
        }
    }

    pub fn label(self) -> (r: &'static str)
        ensures
            r@ == self.label_spec(),
    {
        match self {
            FinalSelectionDispositionV1::Selected => "selected",
            FinalSelectionDispositionV1::NotIncluded => "not_included",
            FinalSelectionDispositionV1::NotProven => "not_proven",
            FinalSelectionDispositionV1::NeedsDecision => "needs_decision",
        }
    }
}

/// One final-selection row: a claim about one dimension/subject pair, the
/// disposition, and the evidence authority behind it.
#[derive(Debug, Clone, PartialEq, Eq)]
pub struct FinalSelectionRowV1 {
    pub dimension: String,
    pub subject: String,
    pub disposition: FinalSelectionDispositionV1,
    pub proof_owner: String,
    pub required_evidence: String,
    pub evidence_reference: String,
    pub claim_effect: String,
    pub staleness_inputs: Vec<String>,
}

/// The typed `[final_selection]` section.
#[derive(Debug, Clone, PartialEq, Eq)]
pub struct FinalSupportSelectionV1 {
    pub schema_id: String,
    pub schema_version: u32,
    pub controlling_issue: u32,
    pub release_version: String,
    pub release_tag: String,
    pub channel: String,
    pub github_prerelease: bool,
    pub identity_digest: String,
    pub selection_digest: String,
    pub claim_boundary: String,
    pub rows: Vec<FinalSelectionRowV1>,
}

/// Closed failure vocabulary for selection validation and digest binding.
#[derive(Debug, Clone, PartialEq, Eq)]
pub enum FinalSupportSelectionErrorV1 {
    SchemaId { found: String },
    SchemaVersion { found: u32 },
    EmptyRowSet,
    EmptyField { row: String, field: &'static str },
    DuplicateRow { dimension: String, subject: String },
    ReleaseIdentity { reason: String },
    IdentityDigestMismatch { expected: String, found: String },
    SelectionDigestMismatch { expected: String, found: String },
    ClaimBoundary,
}

/// The first blank field of a row, in the order they are checked.
pub open spec fn row_structural_error(r: FinalSelectionRowV1) -> Option<Seq<char>> {
    if trim(r.dimension@).len() == 0 {
        Some("dimension"@)
    } else if trim(r.subject@).len() == 0 {
        Some("subject"@)
    } else if trim(r.proof_owner@).len() == 0 {
        Some("proof_owner"@)
    } else if trim(r.required_evidence@).len() == 0 {
        Some("required_evidence"@)
    } else if trim(r.evidence_reference@).len() == 0 {
        Some("evidence_reference"@)
    } else if trim(r.claim_effect@).len() == 0 {
        Some("claim_effect"@)
    } else {
        None
    }
}

impl FinalSelectionRowV1 {
    fn structural_error(&self) -> (r: Option<&'static str>)
        ensures
            match r {
                Some(f) => row_structural_error(*self) == Some(f@),
                None => row_structural_error(*self) is None,
            },
    {
        proof {
            crate::text::lemma_trim_empty_iff_blank(self.dimension@);
            crate::text::lemma_trim_empty_iff_blank(self.subject@);
            crate::text::lemma_trim_empty_iff_blank(self.proof_owner@);
            crate::text::lemma_trim_empty_iff_blank(self.required_evidence@);
            crate::text::lemma_trim_empty_iff_blank(self.evidence_reference@);
            crate::text::lemma_trim_empty_iff_blank(self.claim_effect@);
        }
        if is_blank(self.dimension.as_str()) {
            return Some("dimension");
        }
        if is_blank(self.subject.as_str()) {
            return Some("subject");
        }
        if is_blank(self.proof_owner.as_str()) {
            return Some("proof_owner");
        }
        if is_blank(self.required_evidence.as_str()) {
            return Some("required_evidence");
        }
        if is_blank(self.evidence_reference.as_str()) {
            return Some("evidence_reference");
        }
        if is_blank(self.claim_effect.as_str()) {
            return Some("claim_effect");
        }
        None
    }
}

/// An error as plain values: its variant's fields by view.
pub enum SelectionErrorView {
    SchemaId(Seq<char>),
    SchemaVersion(u32),
    EmptyRowSet,
    EmptyField(Seq<char>, Seq<char>),
    DuplicateRow(Seq<char>, Seq<char>),
    ClaimBoundary,
}

/// Two rows claim the same `(dimension, subject)` pair.
pub open spec fn same_key(a: FinalSelectionRowV1, b: FinalSelectionRowV1) -> bool {
    a.dimension@ == b.dimension@ && a.subject@ == b.subject@
}

/// The first row error in order: a row repeating an earlier key, or one
/// leaving a field blank.
pub open spec fn rows_error(rows: Seq<FinalSelectionRowV1>, n: nat) -> Option<SelectionErrorView>
    decreases n,
{
    if n == 0 {
        None
    } else {
        match rows_error(rows, (n - 1) as nat) {
            Some(e) => Some(e),
            None => {
                let r = rows[n - 1];
                if exists|j: int| 0 <= j < n - 1 && same_key(#[trigger] rows[j], r) {
                    Some(SelectionErrorView::DuplicateRow(r.dimension@, r.subject@))
                } else {
                    match row_structural_error(r) {
                        Some(f) => Some(
                            SelectionErrorView::EmptyField(r.dimension@ + "/"@ + r.subject@, f),
                        ),
                        None => None,
                    }
                }
            },
        }
    }
}

/// The first violation of the selection's structural law, in the order it
/// is checked, or `None`.
pub open spec fn structure_error(s: FinalSupportSelectionV1) -> Option<SelectionErrorView> {
    if s.schema_id@ != FINAL_SUPPORT_SELECTION_SCHEMA_ID@ {
        Some(SelectionErrorView::SchemaId(s.schema_id@))
    } else if s.schema_version != FINAL_SUPPORT_SELECTION_SCHEMA_VERSION {
        Some(SelectionErrorView::SchemaVersion(s.schema_version))
    } else if s.rows@.len() == 0 {
        Some(SelectionErrorView::EmptyRowSet)
    } else if rows_error(s.rows@, s.rows@.len()) is Some {
        rows_error(s.rows@, s.rows@.len())
    } else if s.claim_boundary@ != FINAL_SELECTION_CLAIM_BOUNDARY@ {
        Some(SelectionErrorView::ClaimBoundary)
    } else {
        None
    }
}

pub open spec fn error_view(e: FinalSupportSelectionErrorV1) -> Option<SelectionErrorView> {
    match e {
        FinalSupportSelectionErrorV1::SchemaId { found } => Some(SelectionErrorView::SchemaId(found@)),
        FinalSupportSelectionErrorV1::SchemaVersion { found } => Some(SelectionErrorView::SchemaVersion(found)),
        FinalSupportSelectionErrorV1::EmptyRowSet => Some(SelectionErrorView::EmptyRowSet),
        FinalSupportSelectionErrorV1::EmptyField { row, field } => Some(
            SelectionErrorView::EmptyField(row@, field@),
        ),
        FinalSupportSelectionErrorV1::DuplicateRow { dimension, subject } => Some(
            SelectionErrorView::DuplicateRow(dimension@, subject@),
        ),
        FinalSupportSelectionErrorV1::ClaimBoundary => Some(SelectionErrorView::ClaimBoundary),
        _ => None,
    }
}

fn key_seen_before(rows: &Vec<FinalSelectionRowV1>, k: usize) -> (r: bool)
    requires
        k < rows@.len(),
    ensures
        r == exists|j: int| 0 <= j < k && same_key(#[trigger] rows@[j], rows@[k as int]),
{
    let mut j: usize = 0;
    while j < k
        invariant
            j <= k < rows@.len(),
            forall|x: int| 0 <= x < j ==> !same_key(#[trigger] rows@[x], rows@[k as int]),
        decreases k - j,
    {
        if str_eq(rows[j].dimension.as_str(), rows[k].dimension.as_str()) && str_eq(
            rows[j].subject.as_str(),
            rows[k].subject.as_str(),
        ) {
            assert(same_key(rows@[j as int], rows@[k as int]));
            return true;
        }
        j = j + 1;
    }
    false
}

impl FinalSupportSelectionV1 {
    /// The structural part of the fail-closed verification: schema id and
    /// version, a non-empty row set with one row per `(dimension, subject)`
    /// and no blank field, and the final-selection claim boundary. The
    /// identity binding and digest recomputation follow it.
    pub fn verify_structure(&self) -> (r: Result<(), FinalSupportSelectionErrorV1>)
        ensures
            match r {
                Ok(_) => structure_error(*self) is None,
                Err(e) => error_view(e) is Some && error_view(e) == structure_error(*self),
            },
    {
        if !str_eq(self.schema_id.as_str(), FINAL_SUPPORT_SELECTION_SCHEMA_ID) {
            return Err(FinalSupportSelectionErrorV1::SchemaId { found: self.schema_id.clone() });
        }
        if self.schema_version != FINAL_SUPPORT_SELECTION_SCHEMA_VERSION {
            return Err(FinalSupportSelectionErrorV1::SchemaVersion { found: self.schema_version });
        }
        if self.rows.len() == 0 {
            return Err(FinalSupportSelectionErrorV1::EmptyRowSet);
        }
        let mut k: usize = 0;
        while k < self.rows.len()
            invariant
                k <= self.rows@.len(),
                self.schema_id@ == FINAL_SUPPORT_SELECTION_SCHEMA_ID@,
                self.schema_version == FINAL_SUPPORT_SELECTION_SCHEMA_VERSION,
                self.rows@.len() > 0,
                rows_error(self.rows@, k as nat) is None,
            decreases self.rows@.len() - k,
        {
            let row = &self.rows[k];
            if key_seen_before(&self.rows, k) {
                proof {
                    lemma_rows_error_stable(self.rows@, (k + 1) as nat, self.rows@.len());
                }
                return Err(
                    FinalSupportSelectionErrorV1::DuplicateRow {
                        dimension: row.dimension.clone(),
                        subject: row.subject.clone(),
                    },
                );
            }
            match row.structural_error() {
                Some(field) => {
                    let mut name = cat(row.dimension.as_str(), "/");
                    push_str(&mut name, row.subject.as_str());
                    proof {
                        lemma_rows_error_stable(self.rows@, (k + 1) as nat, self.rows@.len());
                    }
                    return Err(FinalSupportSelectionErrorV1::EmptyField { row: name, field });
                },
                None => {},
            }
            k = k + 1;
        }
        if !str_eq(self.claim_boundary.as_str(), FINAL_SELECTION_CLAIM_BOUNDARY) {
            return Err(FinalSupportSelectionErrorV1::ClaimBoundary);
        }
        Ok(())
    }

    /// A selection is consumable by the final freeze only when every row
    /// carries an explicit disposition: these are the rows that do not.
    pub fn needs_decision_rows(&self) -> (r: Vec<&FinalSelectionRowV1>)
        ensures
            r@.len() == undecided_count(self.rows@),
            forall|i: int|
                0 <= i < r@.len() ==> (#[trigger] r@[i]).disposition
                    == FinalSelectionDispositionV1::NeedsDecision,
    {
        let mut out: Vec<&FinalSelectionRowV1> = Vec::new();
        let mut k: usize = 0;
        while k < self.rows.len()
            invariant
                k <= self.rows@.len(),
                out@.len() == undecided_count(self.rows@.take(k as int)),
                forall|i: int|
                    0 <= i < out@.len() ==> (#[trigger] out@[i]).disposition
                        == FinalSelectionDispositionV1::NeedsDecision,
            decreases self.rows@.len() - k,
        {
            proof {
                assert(self.rows@.take(k + 1).drop_last() =~= self.rows@.take(k as int));
            }
            if self.rows[k].disposition == FinalSelectionDispositionV1::NeedsDecision {
                out.push(&self.rows[k]);
            }
            k = k + 1;
        }
        assert(self.rows@.take(self.rows@.len() as int) =~= self.rows@);
        out
    }

    pub fn claim_boundary(&self) -> (r: &'static str)
        ensures
            r@ == FINAL_SELECTION_CLAIM_BOUNDARY@,
    {
        FINAL_SELECTION_CLAIM_BOUNDARY
    }
}

/// How many rows still need a maintainer decision.
pub open spec fn undecided_count(rows: Seq<FinalSelectionRowV1>) -> nat
    decreases rows.len(),
{
    if rows.len() == 0 {
        0
    } else {
        undecided_count(rows.drop_last()) + if rows.last().disposition
            == FinalSelectionDispositionV1::NeedsDecision {
            1nat
        } else {
            0nat
        }
    }
}

/// The human message of an error, as its `Display` form reads.
pub open spec fn error_message(e: FinalSupportSelectionErrorV1) -> Seq<char> {
    match e {
        FinalSupportSelectionErrorV1::SchemaId { found } => "selection schema id "@ + debug_str(found@)
            + " is not "@ + FINAL_SUPPORT_SELECTION_SCHEMA_ID@,
        FinalSupportSelectionErrorV1::SchemaVersion { found } => "selection schema version "@
            + decimal(found as nat) + " is not "@ + decimal(FINAL_SUPPORT_SELECTION_SCHEMA_VERSION as nat),
        FinalSupportSelectionErrorV1::EmptyRowSet => "the selection records no rows"@,
        FinalSupportSelectionErrorV1::EmptyField { row, field } => "selection row "@ + debug_str(row@)
            + " leaves "@ + field@ + " empty"@,
        FinalSupportSelectionErrorV1::DuplicateRow { dimension, subject } => "selection repeats dimension "@
            + debug_str(dimension@) + " subject "@ + debug_str(subject@),
        FinalSupportSelectionErrorV1::ReleaseIdentity { reason } =>
            "the selection release identity is not usable: "@ + reason@,
        FinalSupportSelectionErrorV1::IdentityDigestMismatch { expected, found } => "identity digest "@
            + found@ + " does not match the typed projection "@ + expected@,
        FinalSupportSelectionErrorV1::SelectionDigestMismatch { expected, found } => "selection digest "@
            + found@ + " does not match the recomputed row-set digest "@ + expected@,
        FinalSupportSelectionErrorV1::ClaimBoundary =>
            "the selection claim boundary is not the final-selection boundary"@,
    }
}

impl FinalSupportSelectionErrorV1 {
    /// The human message of this error.
    pub fn message(&self) -> (r: String)
        ensures
            r@ == error_message(*self),
    {
        match self {
            FinalSupportSelectionErrorV1::SchemaId { found } => {
                let mut m = cat("selection schema id ", debug_string(found.as_str()).as_str());
                push_str(&mut m, " is not ");
                push_str(&mut m, FINAL_SUPPORT_SELECTION_SCHEMA_ID);
                m
            },
            FinalSupportSelectionErrorV1::SchemaVersion { found } => {
                let mut m = cat("selection schema version ", decimal_string(*found as u64).as_str());
                push_str(&mut m, " is not ");
                push_str(&mut m, decimal_string(FINAL_SUPPORT_SELECTION_SCHEMA_VERSION as u64).as_str());
                m
            },
            FinalSupportSelectionErrorV1::EmptyRowSet => "the selection records no rows".to_string(),
            FinalSupportSelectionErrorV1::EmptyField { row, field } => {
                let mut m = cat("selection row ", debug_string(row.as_str()).as_str());
                push_str(&mut m, " leaves ");
                push_str(&mut m, field);
                push_str(&mut m, " empty");
                m
            },
            FinalSupportSelectionErrorV1::DuplicateRow { dimension, subject } => {
                let mut m = cat("selection repeats dimension ", debug_string(dimension.as_str()).as_str());
                push_str(&mut m, " subject ");
                push_str(&mut m, debug_string(subject.as_str()).as_str());
                m
            },
            FinalSupportSelectionErrorV1::ReleaseIdentity { reason } => cat(
                "the selection release identity is not usable: ",
                reason.as_str(),
            ),
            FinalSupportSelectionErrorV1::IdentityDigestMismatch { expected, found } => {
                let mut m = cat("identity digest ", found.as_str());
                push_str(&mut m, " does not match the typed projection ");
                push_str(&mut m, expected.as_str());
                m
            },
            FinalSupportSelectionErrorV1::SelectionDigestMismatch { expected, found } => {
                let mut m = cat("selection digest ", found.as_str());
                push_str(&mut m, " does not match the recomputed row-set digest ");
                push_str(&mut m, expected.as_str());
                m
            },
            FinalSupportSelectionErrorV1::ClaimBoundary => "the selection claim boundary is not the final-selection boundary".to_string(),
        }
    }
}

/// The structural law: a selection passes only with at least one row, no
/// two rows for the same `(dimension, subject)` pair, and no row leaving a
/// load-bearing field blank.
pub proof fn lemma_structured_selection_rows_are_distinct_and_filled(s: FinalSupportSelectionV1)
    requires
        structure_error(s) is None,
    ensures
        s.rows@.len() > 0,
        forall|a: int, b: int|
            0 <= a < b < s.rows@.len() ==> !same_key(#[trigger] s.rows@[a], #[trigger] s.rows@[b]),
        forall|k: int| 0 <= k < s.rows@.len() ==> row_structural_error(#[trigger] s.rows@[k]) is None,
{
    lemma_rows_error_prefix(s.rows@, s.rows@.len());
}

proof fn lemma_rows_error_prefix(rows: Seq<FinalSelectionRowV1>, n: nat)
    requires
        n <= rows.len(),
        rows_error(rows, n) is None,
    ensures
        forall|a: int, b: int| 0 <= a < b < n ==> !same_key(#[trigger] rows[a], #[trigger] rows[b]),
        forall|k: int| 0 <= k < n ==> row_structural_error(#[trigger] rows[k]) is None,
    decreases n,
{
    if n > 0 {
        lemma_rows_error_prefix(rows, (n - 1) as nat);
        let r = rows[n - 1];
        assert(!exists|j: int| 0 <= j < n - 1 && same_key(#[trigger] rows[j], r));
        assert forall|a: int, b: int| 0 <= a < b < n implies !same_key(#[trigger] rows[a], #[trigger] rows[b]) by {
            if b == n - 1 {
                assert(!same_key(rows[a], r));
            }
        }
    }
}

proof fn lemma_rows_error_stable(rows: Seq<FinalSelectionRowV1>, m: nat, n: nat)
    requires
        m <= n,
        rows_error(rows, m) is Some,
    ensures
        rows_error(rows, n) == rows_error(rows, m),
    decreases n - m,
{
    if m < n {
        lemma_rows_error_stable(rows, m, (n - 1) as nat);
    }
}

} // verus!
