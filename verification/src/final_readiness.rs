//! The decision side of the final pre-freeze readiness aggregate: the
//! closed verdict and row vocabularies, the rows that explicit campaign,
//! support, post-merge and custody decisions contribute, and the verdict
//! that a set of rows forces.
//!
//! Every emitted row names one exact owner and next action; a row whose
//! owner cannot be resolved becomes a blocking `MissingEvidence` row, so
//! `ReadyForFreeze` can never carry an unnamed row. `ReadyForFreeze` is
//! reached only when no blocking row remains.

use vstd::prelude::*;
use crate::text::{cat3, is_blank, trim, trim_string};

verus! {

pub const FINAL_READINESS_SCHEMA_ID: &'static str = "cargo-allow.final-readiness.v1";
pub const FINAL_READINESS_SCHEMA_VERSION: u32 = 1;

/// Closed readiness verdict vocabulary for the pre-freeze decision surface.
/// `ReadyForFreeze` requires that no blocking row remains.
#[derive(Debug, Clone, Copy, PartialEq, Eq, Structural)]
pub enum FinalReadinessVerdictV1 {
    ReadyForFreeze,
    Incomplete,
    Stale,
    Mismatch,
    NeedsDecision,
    ProviderUnavailable,
    Unsupported,
    InstrumentFailure,
    NotProven,
}

impl FinalReadinessVerdictV1 {
    pub open spec fn label_spec(self) -> Seq<char> {
        match self {
            FinalReadinessVerdictV1::ReadyForFreeze => "ready_for_freeze"@,
            FinalReadinessVerdictV1::Incomplete => "incomplete"@,
            FinalReadinessVerdictV1::Stale => "stale"@,
            FinalReadinessVerdictV1::Mismatch => "mismatch"@,
            FinalReadinessVerdictV1::NeedsDecision => "needs_decision"@,
            FinalReadinessVerdictV1::ProviderUnavailable => "provider_unavailable"@,
            FinalReadinessVerdictV1::Unsupported => "unsupported"@,
            FinalReadinessVerdictV1::InstrumentFailure => "instrument_failure"@,
            FinalReadinessVerdictV1::NotProven => "not_proven"@,
        }
    }

    pub fn label(self) -> (r: &'static str)
        ensures
            r@ == self.label_spec(),
    {
        match self {
            FinalReadinessVerdictV1::ReadyForFreeze => "ready_for_freeze",
            FinalReadinessVerdictV1::Incomplete => "incomplete",
            FinalReadinessVerdictV1::Stale => "stale",
            FinalReadinessVerdictV1::Mismatch => "mismatch",
            FinalReadinessVerdictV1::NeedsDecision => "needs_decision",
            FinalReadinessVerdictV1::ProviderUnavailable => "provider_unavailable",
            FinalReadinessVerdictV1::Unsupported => "unsupported",
            FinalReadinessVerdictV1::InstrumentFailure => "instrument_failure",
            FinalReadinessVerdictV1::NotProven => "not_proven",
        }
    }
}

/// How severe a verdict is; a lower number is more severe.
pub open spec fn verdict_rank_spec(v: FinalReadinessVerdictV1) -> nat {
    match v {
        FinalReadinessVerdictV1::Mismatch => 0,
        FinalReadinessVerdictV1::ProviderUnavailable => 1,
        FinalReadinessVerdictV1::InstrumentFailure => 2,
        FinalReadinessVerdictV1::Stale => 3,
        FinalReadinessVerdictV1::Unsupported => 4,
        FinalReadinessVerdictV1::NeedsDecision => 5,
        FinalReadinessVerdictV1::Incomplete => 6,
        FinalReadinessVerdictV1::NotProven => 7,
        FinalReadinessVerdictV1::ReadyForFreeze => 8,
    }
}

fn verdict_rank(v: FinalReadinessVerdictV1) -> (r: u8)
    ensures
        r == verdict_rank_spec(v),
{
    match v {
        FinalReadinessVerdictV1::Mismatch => 0,
        FinalReadinessVerdictV1::ProviderUnavailable => 1,
        FinalReadinessVerdictV1::InstrumentFailure => 2,
        FinalReadinessVerdictV1::Stale => 3,
        FinalReadinessVerdictV1::Unsupported => 4,
        FinalReadinessVerdictV1::NeedsDecision => 5,
        FinalReadinessVerdictV1::Incomplete => 6,
        FinalReadinessVerdictV1::NotProven => 7,
        FinalReadinessVerdictV1::ReadyForFreeze => 8,
    }
}

/// Closed row vocabulary. Every row kind except `ClaimNarrowed` blocks
/// `ReadyForFreeze`; `ClaimNarrowed` records an explicitly permitted
/// support-only narrowing that never becomes proof.
#[derive(Debug, Clone, Copy, PartialEq, Eq, Structural)]
pub enum FinalReadinessRowKindV1 {
    MissingEvidence,
    Stale,
    Mismatch,
    NotProven,
    Unsupported,
    ProviderUnavailable,
    InstrumentFailure,
    DecisionRequired,
    ClaimNarrowed,
    CustodyExpiring,
}

impl FinalReadinessRowKindV1 {
    pub open spec fn label_spec(self) -> Seq<char> {
        match self {
            FinalReadinessRowKindV1::MissingEvidence => "missing_evidence"@,
            FinalReadinessRowKindV1::Stale => "stale"@,
            FinalReadinessRowKindV1::Mismatch => "mismatch"@,
            FinalReadinessRowKindV1::NotProven => "not_proven"@,
            FinalReadinessRowKindV1::Unsupported => "unsupported"@,
            FinalReadinessRowKindV1::ProviderUnavailable => "provider_unavailable"@,
            FinalReadinessRowKindV1::InstrumentFailure => "instrument_failure"@,
            FinalReadinessRowKindV1::DecisionRequired => "decision_required"@,
            FinalReadinessRowKindV1::ClaimNarrowed => "claim_narrowed"@,
            FinalReadinessRowKindV1::CustodyExpiring => "custody_expiring"@,
        }
    }

    pub fn label(self) -> (r: &'static str)
        ensures
            r@ == self.label_spec(),
    {
        match self {
            FinalReadinessRowKindV1::MissingEvidence => "missing_evidence",
            FinalReadinessRowKindV1::Stale => "stale",
            FinalReadinessRowKindV1::Mismatch => "mismatch",
            FinalReadinessRowKindV1::NotProven => "not_proven",
            FinalReadinessRowKindV1::Unsupported => "unsupported",
            FinalReadinessRowKindV1::ProviderUnavailable => "provider_unavailable",
            FinalReadinessRowKindV1::InstrumentFailure => "instrument_failure",
            FinalReadinessRowKindV1::DecisionRequired => "decision_required",
            FinalReadinessRowKindV1::ClaimNarrowed => "claim_narrowed",
            FinalReadinessRowKindV1::CustodyExpiring => "custody_expiring",
        }
    }

    /// The verdict a single row of this kind forces, if any.
    pub open spec fn forced_verdict_spec(self) -> Option<FinalReadinessVerdictV1> {
        match self {
            FinalReadinessRowKindV1::Mismatch => Some(FinalReadinessVerdictV1::Mismatch),
            FinalReadinessRowKindV1::ProviderUnavailable => Some(FinalReadinessVerdictV1::ProviderUnavailable),
            FinalReadinessRowKindV1::InstrumentFailure => Some(FinalReadinessVerdictV1::InstrumentFailure),
            FinalReadinessRowKindV1::Stale => Some(FinalReadinessVerdictV1::Stale),
            FinalReadinessRowKindV1::CustodyExpiring => Some(FinalReadinessVerdictV1::Stale),
            FinalReadinessRowKindV1::Unsupported => Some(FinalReadinessVerdictV1::Unsupported),
            FinalReadinessRowKindV1::DecisionRequired => Some(FinalReadinessVerdictV1::NeedsDecision),
            FinalReadinessRowKindV1::MissingEvidence => Some(FinalReadinessVerdictV1::Incomplete),
            FinalReadinessRowKindV1::NotProven => Some(FinalReadinessVerdictV1::NotProven),
            FinalReadinessRowKindV1::ClaimNarrowed => None,
        }
    }

    fn forced_verdict(self) -> (r: Option<FinalReadinessVerdictV1>)
        ensures
            r == self.forced_verdict_spec(),
    {
        match self {
            FinalReadinessRowKindV1::Mismatch => Some(FinalReadinessVerdictV1::Mismatch),
            FinalReadinessRowKindV1::ProviderUnavailable => Some(FinalReadinessVerdictV1::ProviderUnavailable),
            FinalReadinessRowKindV1::InstrumentFailure => Some(FinalReadinessVerdictV1::InstrumentFailure),
            FinalReadinessRowKindV1::Stale => Some(FinalReadinessVerdictV1::Stale),
            FinalReadinessRowKindV1::CustodyExpiring => Some(FinalReadinessVerdictV1::Stale),
            FinalReadinessRowKindV1::Unsupported => Some(FinalReadinessVerdictV1::Unsupported),
            FinalReadinessRowKindV1::DecisionRequired => Some(FinalReadinessVerdictV1::NeedsDecision),
            FinalReadinessRowKindV1::MissingEvidence => Some(FinalReadinessVerdictV1::Incomplete),
            FinalReadinessRowKindV1::NotProven => Some(FinalReadinessVerdictV1::NotProven),
            FinalReadinessRowKindV1::ClaimNarrowed => None,
        }
    }

    /// Deterministic precedence of row kinds when rows are ordered: the
    /// smallest rank comes first.
    pub open spec fn precedence_spec(self) -> nat {
        match self {
            FinalReadinessRowKindV1::Mismatch => 0,
            FinalReadinessRowKindV1::ProviderUnavailable => 1,
            FinalReadinessRowKindV1::InstrumentFailure => 2,
            FinalReadinessRowKindV1::Stale => 3,
            FinalReadinessRowKindV1::CustodyExpiring => 4,
            FinalReadinessRowKindV1::Unsupported => 5,
            FinalReadinessRowKindV1::DecisionRequired => 6,
            FinalReadinessRowKindV1::MissingEvidence => 7,
            FinalReadinessRowKindV1::NotProven => 8,
            FinalReadinessRowKindV1::ClaimNarrowed => 9,
        }
    }

    pub fn precedence(self) -> (r: u8)
        ensures
            r == self.precedence_spec(),
    {
        match self {
            FinalReadinessRowKindV1::Mismatch => 0,
            FinalReadinessRowKindV1::ProviderUnavailable => 1,
            FinalReadinessRowKindV1::InstrumentFailure => 2,
            FinalReadinessRowKindV1::Stale => 3,
            FinalReadinessRowKindV1::CustodyExpiring => 4,
            FinalReadinessRowKindV1::Unsupported => 5,
            FinalReadinessRowKindV1::DecisionRequired => 6,
            FinalReadinessRowKindV1::MissingEvidence => 7,
            FinalReadinessRowKindV1::NotProven => 8,
            FinalReadinessRowKindV1::ClaimNarrowed => 9,
        }
    }
}

/// One exact owner-and-next-action row. `owner` and `next_action` are never
/// empty on emitted rows.
#[derive(Debug, Clone, PartialEq, Eq)]
pub struct FinalReadinessRowV1 {
    pub kind: FinalReadinessRowKindV1,
    pub evidence_id: Option<String>,
    pub message: String,
    pub owner: String,
    pub next_action: String,
}

/// Explicit state of one root campaign/support decision. Decisions are human
/// facts and can never be inferred from implementation or evidence state.
#[derive(Debug, Clone, Copy, PartialEq, Eq, Structural)]
pub enum FinalReadinessDecisionStateV1 {
    Decided,
    Missing,
}

/// One root decision input.
#[derive(Debug, Clone, PartialEq, Eq)]
pub struct FinalReadinessRootDecisionV1 {
    pub decision_id: String,
    pub owner: String,
    pub state: FinalReadinessDecisionStateV1,
    pub required: bool,
}

/// One supported-limitation disposition. A supported limitation is valid only
/// with a selected user-facing support/claim projection and an exact owner.
#[derive(Debug, Clone, PartialEq, Eq)]
pub struct FinalReadinessSupportedLimitationV1 {
    pub limitation_id: String,
    pub user_facing_projection: Option<String>,
    pub owner: Option<String>,
}

/// An explicit support decision permitting one `NotProven` evidence node to
/// narrow its claim. The narrowed claim stays out of proof narration forever.
#[derive(Debug, Clone, PartialEq, Eq)]
pub struct FinalReadinessClaimNarrowingV1 {
    pub evidence_id: String,
    pub permitted_by_decision: String,
    pub owner: String,
}

/// Post-merge qualification posture for the reviewed release subject.
#[derive(Debug, Clone, Copy, PartialEq, Eq, Structural)]
pub enum FinalReadinessQualificationPostureV1 {
    Current,
    RequiresRerun,
}

/// Exact merged-main subject and its requalification posture.
#[derive(Debug, Clone, PartialEq, Eq)]
pub struct FinalReadinessPostMergePostureV1 {
    pub merge_commit: String,
    pub merge_subject_current: bool,
    pub qualification: FinalReadinessQualificationPostureV1,
    pub owner: String,
}

/// Current custody/replay feasibility posture for the frozen candidate.
#[derive(Debug, Clone, PartialEq, Eq)]
pub struct FinalReadinessCustodyPostureV1 {
    pub replay_feasible: bool,
    pub expires_before_authorization_window: bool,
    pub owner: String,
}

/// Explicit campaign/support decision inputs consumed beside the evidence
/// graph. Nothing here is derived from issue state, CI, labels, or prose.
#[derive(Debug, Clone, PartialEq, Eq)]
pub struct FinalReadinessDecisionInputsV1 {
    /// Owner for graph-level rows (rebuild/repair responsibility).
    pub graph_owner: String,
    pub root_decisions: Vec<FinalReadinessRootDecisionV1>,
    pub supported_limitations: Vec<FinalReadinessSupportedLimitationV1>,
    pub permitted_claim_narrowings: Vec<FinalReadinessClaimNarrowingV1>,
    pub post_merge: FinalReadinessPostMergePostureV1,
    pub custody: FinalReadinessCustodyPostureV1,
    pub remaining_reversible_work: Vec<String>,
    pub remaining_irreversible_operations: Vec<String>,
}

pub fn qualification_label(posture: FinalReadinessQualificationPostureV1) -> (r: &'static str)
    ensures
        r@ == (match posture {
            FinalReadinessQualificationPostureV1::Current => "current"@,
            FinalReadinessQualificationPostureV1::RequiresRerun => "requires_rerun"@,
        }),
{
    match posture {
        FinalReadinessQualificationPostureV1::Current => "current",
        FinalReadinessQualificationPostureV1::RequiresRerun => "requires_rerun",
    }
}

// ---------------------------------------------------------------------------
// Rows.
// ---------------------------------------------------------------------------

/// A row as plain values: kind, evidence id, message, owner, next action.
pub type RowView = (FinalReadinessRowKindV1, Option<Seq<char>>, Seq<char>, Seq<char>, Seq<char>);

pub open spec fn opt_text(o: Option<String>) -> Option<Seq<char>> {
    match o {
        Some(s) => Some(s@),
        None => None,
    }
}

pub open spec fn row_view(r: FinalReadinessRowV1) -> RowView {
    (r.kind, opt_text(r.evidence_id), r.message@, r.owner@, r.next_action@)
}

pub open spec fn rows_view(rows: Seq<FinalReadinessRowV1>) -> Seq<RowView> {
    rows.map_values(|r: FinalReadinessRowV1| row_view(r))
}

/// The row owner: the specific owner, trimmed, when it is not blank;
/// otherwise the trimmed graph owner.
pub open spec fn resolved_owner(specific: Option<Seq<char>>, graph_owner: Seq<char>) -> Seq<char> {
    let s = match specific {
        Some(x) => trim(x),
        None => Seq::empty(),
    };
    if s.len() > 0 {
        s
    } else {
        trim(graph_owner)
    }
}

/// The row emitted for the given fields: an empty owner turns it into a
/// blocking `MissingEvidence` row owned by `unassigned`.
pub open spec fn emitted_row(
    kind: FinalReadinessRowKindV1,
    evidence_id: Option<Seq<char>>,
    message: Seq<char>,
    owner: Seq<char>,
    next_action: Seq<char>,
) -> RowView {
    if owner.len() == 0 {
        (
            FinalReadinessRowKindV1::MissingEvidence,
            evidence_id,
            message + "; additionally, no exact owner is recorded for this row"@,
            "unassigned"@,
            "set the exact owner in the readiness decision inputs, then rerun the aggregate"@,
        )
    } else {
        (kind, evidence_id, message, owner, next_action)
    }
}

fn resolve_owner(specific: Option<&str>, graph_owner: &str) -> (r: String)
    ensures
        r@ == resolved_owner(
            match specific {
                Some(x) => Some(x@),
                None => None,
            },
            graph_owner@,
        ),
{
    match specific {
        Some(x) => {
            let t = trim_string(x);
            if !t.as_str().is_empty() {
                return t;
            }
        },
        None => {},
    }
    trim_string(graph_owner)
}

fn push_row(
    rows: &mut Vec<FinalReadinessRowV1>,
    kind: FinalReadinessRowKindV1,
    evidence_id: Option<String>,
    message: &str,
    owner: String,
    next_action: &str,
)
    ensures
        rows_view(final(rows)@) == rows_view(old(rows)@).push(
            emitted_row(kind, opt_text(evidence_id), message@, owner@, next_action@),
        ),
{
    let ghost before = rows_view(rows@);
    let row = if owner.as_str().is_empty() {
        FinalReadinessRowV1 {
            kind: FinalReadinessRowKindV1::MissingEvidence,
            evidence_id,
            message: crate::text::cat(message, "; additionally, no exact owner is recorded for this row"),
            owner: "unassigned".to_string(),
            next_action: "set the exact owner in the readiness decision inputs, then rerun the aggregate".to_string(),
        }
    } else {
        FinalReadinessRowV1 {
            kind,
            evidence_id,
            message: message.to_string(),
            owner,
            next_action: next_action.to_string(),
        }
    };
    rows.push(row);
    assert(rows_view(rows@) =~= before.push(row_view(row)));
}

pub open spec fn if_row(cond: bool, row: RowView) -> Seq<RowView> {
    if cond {
        seq![row]
    } else {
        Seq::empty()
    }
}

// ---------------------------------------------------------------------------
// Decision rows.
// ---------------------------------------------------------------------------

pub open spec fn root_decision_row(d: FinalReadinessRootDecisionV1, graph_owner: Seq<char>) -> Seq<RowView> {
    let owner = resolved_owner(Some(d.owner@), graph_owner);
    if trim(d.decision_id@).len() == 0 {
        seq![
            emitted_row(
                FinalReadinessRowKindV1::DecisionRequired,
                None,
                "a root decision input lacks a stable decision id"@,
                owner,
                "record the decision with a stable id and exact owner"@,
            ),
        ]
    } else {
        if_row(
            d.required && d.state == FinalReadinessDecisionStateV1::Missing,
            emitted_row(
                FinalReadinessRowKindV1::DecisionRequired,
                None,
                "required root decision `"@ + d.decision_id@ + "` is not recorded"@,
                owner,
                "record the explicit human decision; it cannot be inferred from implementation or evidence state"@,
            ),
        )
    }
}

pub open spec fn root_decision_rows(ds: Seq<FinalReadinessRootDecisionV1>, graph_owner: Seq<char>) -> Seq<RowView>
    decreases ds.len(),
{
    if ds.len() == 0 {
        Seq::empty()
    } else {
        root_decision_rows(ds.drop_last(), graph_owner) + root_decision_row(ds.last(), graph_owner)
    }
}

/// A supported limitation is valid with a stable id, a non-blank
/// user-facing projection, and a resolvable owner.
pub open spec fn limitation_valid(l: FinalReadinessSupportedLimitationV1, graph_owner: Seq<char>) -> bool {
    &&& trim(l.limitation_id@).len() > 0
    &&& (match l.user_facing_projection {
        Some(p) => trim(p@).len() > 0,
        None => false,
    })
    &&& resolved_owner(opt_text(l.owner), graph_owner).len() > 0
}

pub open spec fn limitation_rows(ls: Seq<FinalReadinessSupportedLimitationV1>, graph_owner: Seq<char>) -> Seq<RowView>
    decreases ls.len(),
{
    if ls.len() == 0 {
        Seq::empty()
    } else {
        let l = ls.last();
        limitation_rows(ls.drop_last(), graph_owner) + if_row(
            !limitation_valid(l, graph_owner),
            emitted_row(
                FinalReadinessRowKindV1::Unsupported,
                None,
                "supported limitation `"@ + l.limitation_id@
                    + "` lacks a user-facing projection or exact owner"@,
                resolved_owner(opt_text(l.owner), graph_owner),
                "select the user-facing support/claim projection and exact owner, or withdraw the limitation"@,
            ),
        )
    }
}

/// Rows from the root decisions, then from the supported limitations.
pub open spec fn decision_rows(i: FinalReadinessDecisionInputsV1) -> Seq<RowView> {
    root_decision_rows(i.root_decisions@, i.graph_owner@) + limitation_rows(
        i.supported_limitations@,
        i.graph_owner@,
    )
}

fn opt_str(o: &Option<String>) -> (r: Option<&str>)
    ensures
        match r {
            Some(x) => o is Some && x@ == o->Some_0@,
            None => o is None,
        },
{
    match o {
        Some(s) => Some(s.as_str()),
        None => None,
    }
}

fn supported_limitation_is_valid(
    limitation: &FinalReadinessSupportedLimitationV1,
    inputs: &FinalReadinessDecisionInputsV1,
) -> (r: bool)
    ensures
        r == limitation_valid(*limitation, inputs.graph_owner@),
{
    if is_blank(limitation.limitation_id.as_str()) {
        proof {
            crate::text::lemma_trim_empty_iff_blank(limitation.limitation_id@);
        }
        return false;
    }
    proof {
        crate::text::lemma_trim_empty_iff_blank(limitation.limitation_id@);
    }
    match &limitation.user_facing_projection {
        None => {
            return false;
        },
        Some(p) => {
            proof {
                crate::text::lemma_trim_empty_iff_blank(p@);
            }
            if is_blank(p.as_str()) {
                return false;
            }
        },
    }
    let owner = resolve_owner(opt_str(&limitation.owner), inputs.graph_owner.as_str());
    !owner.as_str().is_empty()
}

/// Appends the rows that the root decisions and supported limitations
/// contribute: a decision without a stable id, a required decision not yet
/// recorded, and an invalid supported limitation each add one row.
pub fn collect_decision_rows(inputs: &FinalReadinessDecisionInputsV1, rows: &mut Vec<FinalReadinessRowV1>)
    ensures
        rows_view(final(rows)@) == rows_view(old(rows)@) + decision_rows(*inputs),
{
    let ghost start = rows_view(rows@);
    let ds = &inputs.root_decisions;
    let mut k: usize = 0;
    while k < ds.len()
        invariant
            k <= ds@.len(),
            ds@ == inputs.root_decisions@,
            rows_view(rows@) == start + root_decision_rows(ds@.take(k as int), inputs.graph_owner@),
        decreases ds@.len() - k,
    {
        let d = &ds[k];
        let ghost before = rows_view(rows@);
        proof {
            crate::text::lemma_trim_empty_iff_blank(d.decision_id@);
            assert(ds@.take(k + 1).drop_last() =~= ds@.take(k as int));
        }
        let owner = resolve_owner(Some(d.owner.as_str()), inputs.graph_owner.as_str());
        if is_blank(d.decision_id.as_str()) {
            push_row(
                rows,
                FinalReadinessRowKindV1::DecisionRequired,
                None,
                "a root decision input lacks a stable decision id",
                owner,
                "record the decision with a stable id and exact owner",
            );
            assert(rows_view(rows@) =~= start + root_decision_rows(ds@.take(k + 1), inputs.graph_owner@));
        } else if d.required && d.state == FinalReadinessDecisionStateV1::Missing {
            let message = cat3("required root decision `", d.decision_id.as_str(), "` is not recorded");
            push_row(
                rows,
                FinalReadinessRowKindV1::DecisionRequired,
                None,
                message.as_str(),
                owner,
                "record the explicit human decision; it cannot be inferred from implementation or evidence state",
            );
            assert(rows_view(rows@) =~= start + root_decision_rows(ds@.take(k + 1), inputs.graph_owner@));
        } else {
            assert(rows_view(rows@) =~= start + root_decision_rows(ds@.take(k + 1), inputs.graph_owner@));
        }
        k = k + 1;
    }
    assert(ds@.take(ds@.len() as int) =~= ds@);
    let ghost mid = rows_view(rows@);
    let ls = &inputs.supported_limitations;
    let mut j: usize = 0;
    while j < ls.len()
        invariant
            j <= ls@.len(),
            ls@ == inputs.supported_limitations@,
            rows_view(rows@) == mid + limitation_rows(ls@.take(j as int), inputs.graph_owner@),
        decreases ls@.len() - j,
    {
        let l = &ls[j];
        proof {
            assert(ls@.take(j + 1).drop_last() =~= ls@.take(j as int));
        }
        if supported_limitation_is_valid(l, inputs) {
            assert(rows_view(rows@) =~= mid + limitation_rows(ls@.take(j + 1), inputs.graph_owner@));
        } else {
            let message = cat3(
                "supported limitation `",
                l.limitation_id.as_str(),
                "` lacks a user-facing projection or exact owner",
            );
            let owner = resolve_owner(opt_str(&l.owner), inputs.graph_owner.as_str());
            push_row(
                rows,
                FinalReadinessRowKindV1::Unsupported,
                None,
                message.as_str(),
                owner,
                "select the user-facing support/claim projection and exact owner, or withdraw the limitation",
            );
            assert(rows_view(rows@) =~= mid + limitation_rows(ls@.take(j + 1), inputs.graph_owner@));
        }
        j = j + 1;
    }
    assert(ls@.take(ls@.len() as int) =~= ls@);
    assert(rows_view(rows@) =~= start + decision_rows(*inputs));
}

// ---------------------------------------------------------------------------
// Post-merge and custody rows.
// ---------------------------------------------------------------------------

pub open spec fn post_merge_rows(i: FinalReadinessDecisionInputsV1) -> Seq<RowView> {
    let owner = resolved_owner(Some(i.post_merge.owner@), i.graph_owner@);
    if_row(
        trim(i.post_merge.merge_commit@).len() == 0,
        emitted_row(
            FinalReadinessRowKindV1::MissingEvidence,
            None,
            "the merged-main subject is missing from the readiness inputs"@,
            owner,
            "record the exact merged-main commit subject"@,
        ),
    ) + if_row(
        !i.post_merge.merge_subject_current,
        emitted_row(
            FinalReadinessRowKindV1::Stale,
            None,
            "current main moved past the reviewed release subject"@,
            owner,
            "recompute the effective merge base and rerun affected evidence on the merged head"@,
        ),
    ) + if_row(
        i.post_merge.qualification == FinalReadinessQualificationPostureV1::RequiresRerun,
        emitted_row(
            FinalReadinessRowKindV1::Stale,
            None,
            "post-merge qualification requires a rerun; the pre-freeze graph cannot remain accepted"@,
            owner,
            "rerun the required qualification set on the merged head"@,
        ),
    )
}

/// Appends the rows the merged-main subject contributes: a missing merge
/// commit, main having moved past the reviewed subject, and a required
/// requalification rerun each add one row.
pub fn collect_post_merge_rows(inputs: &FinalReadinessDecisionInputsV1, rows: &mut Vec<FinalReadinessRowV1>)
    ensures
        rows_view(final(rows)@) == rows_view(old(rows)@) + post_merge_rows(*inputs),
{
    let ghost start = rows_view(rows@);
    let owner = resolve_owner(Some(inputs.post_merge.owner.as_str()), inputs.graph_owner.as_str());
    proof {
        crate::text::lemma_trim_empty_iff_blank(inputs.post_merge.merge_commit@);
    }
    if is_blank(inputs.post_merge.merge_commit.as_str()) {
        push_row(
            rows,
            FinalReadinessRowKindV1::MissingEvidence,
            None,
            "the merged-main subject is missing from the readiness inputs",
            owner.clone(),
            "record the exact merged-main commit subject",
        );
    }
    let ghost a = rows_view(rows@);
    if !inputs.post_merge.merge_subject_current {
        push_row(
            rows,
            FinalReadinessRowKindV1::Stale,
            None,
            "current main moved past the reviewed release subject",
            owner.clone(),
            "recompute the effective merge base and rerun affected evidence on the merged head",
        );
    }
    let ghost b = rows_view(rows@);
    if inputs.post_merge.qualification == FinalReadinessQualificationPostureV1::RequiresRerun {
        push_row(
            rows,
            FinalReadinessRowKindV1::Stale,
            None,
            "post-merge qualification requires a rerun; the pre-freeze graph cannot remain accepted",
            owner,
            "rerun the required qualification set on the merged head",
        );
    }
    assert(rows_view(rows@) =~= start + post_merge_rows(*inputs));
}

pub open spec fn custody_rows(i: FinalReadinessDecisionInputsV1) -> Seq<RowView> {
    let owner = resolved_owner(Some(i.custody.owner@), i.graph_owner@);
    if_row(
        !i.custody.replay_feasible,
        emitted_row(
            FinalReadinessRowKindV1::MissingEvidence,
            None,
            "custody replay is infeasible for the frozen candidate"@,
            owner,
            "restore custody and verify an independent readback before freeze"@,
        ),
    ) + if_row(
        i.custody.expires_before_authorization_window,
        emitted_row(
            FinalReadinessRowKindV1::CustodyExpiring,
            None,
            "custody retention expires before the authorization window"@,
            owner,
            "extend retention or re-freeze custody before requesting authorization"@,
        ),
    )
}

/// Appends the rows custody contributes: infeasible replay and retention
/// that expires before the authorization window each add one row.
pub fn collect_custody_rows(inputs: &FinalReadinessDecisionInputsV1, rows: &mut Vec<FinalReadinessRowV1>)
    ensures
        rows_view(final(rows)@) == rows_view(old(rows)@) + custody_rows(*inputs),
{
    let ghost start = rows_view(rows@);
    let owner = resolve_owner(Some(inputs.custody.owner.as_str()), inputs.graph_owner.as_str());
    if !inputs.custody.replay_feasible {
        push_row(
            rows,
            FinalReadinessRowKindV1::MissingEvidence,
            None,
            "custody replay is infeasible for the frozen candidate",
            owner.clone(),
            "restore custody and verify an independent readback before freeze",
        );
    }
    if inputs.custody.expires_before_authorization_window {
        push_row(
            rows,
            FinalReadinessRowKindV1::CustodyExpiring,
            None,
            "custody retention expires before the authorization window",
            owner,
            "extend retention or re-freeze custody before requesting authorization",
        );
    }
    assert(rows_view(rows@) =~= start + custody_rows(*inputs));
}

// ---------------------------------------------------------------------------
// Verdict.
// ---------------------------------------------------------------------------

/// The verdict the rows force: the most severe forced verdict, or
/// `ReadyForFreeze` when no row forces one.
pub open spec fn rows_verdict(kinds: Seq<FinalReadinessRowKindV1>) -> FinalReadinessVerdictV1
    decreases kinds.len(),
{
    if kinds.len() == 0 {
        FinalReadinessVerdictV1::ReadyForFreeze
    } else {
        let acc = rows_verdict(kinds.drop_last());
        match kinds.last().forced_verdict_spec() {
            Some(v) => if verdict_rank_spec(v) < verdict_rank_spec(acc) {
                v
            } else {
                acc
            },
            None => acc,
        }
    }
}

pub open spec fn row_kinds(rows: Seq<FinalReadinessRowV1>) -> Seq<FinalReadinessRowKindV1> {
    rows.map_values(|r: FinalReadinessRowV1| r.kind)
}

/// The verdict a set of readiness rows forces: the most severe verdict any
/// row forces (`Mismatch` first, `NotProven` last), or `ReadyForFreeze`
/// when every row is a permitted claim narrowing.
pub fn readiness_verdict(rows: &Vec<FinalReadinessRowV1>) -> (r: FinalReadinessVerdictV1)
    ensures
        r == rows_verdict(row_kinds(rows@)),
{
    let mut acc = FinalReadinessVerdictV1::ReadyForFreeze;
    let mut k: usize = 0;
    while k < rows.len()
        invariant
            k <= rows@.len(),
            acc == rows_verdict(row_kinds(rows@).take(k as int)),
        decreases rows@.len() - k,
    {
        proof {
            assert(row_kinds(rows@).take(k + 1).drop_last() =~= row_kinds(rows@).take(k as int));
            assert(row_kinds(rows@).take(k + 1).last() == rows@[k as int].kind);
        }
        match rows[k].kind.forced_verdict() {
            Some(v) => {
                if verdict_rank(v) < verdict_rank(acc) {
                    acc = v;
                }
            },
            None => {},
        }
        k = k + 1;
    }
    assert(row_kinds(rows@).take(rows@.len() as int) =~= row_kinds(rows@));
    acc
}

// ---------------------------------------------------------------------------
// Laws.
// ---------------------------------------------------------------------------

/// Every emitted row names an owner and a next action, and a row whose
/// owner cannot be resolved is a blocking `MissingEvidence` row: a ready
/// verdict can never carry an unnamed row.
pub proof fn lemma_emitted_rows_are_owned(
    kind: FinalReadinessRowKindV1,
    evidence_id: Option<Seq<char>>,
    message: Seq<char>,
    owner: Seq<char>,
    next_action: Seq<char>,
)
    requires
        next_action.len() > 0,
    ensures
        emitted_row(kind, evidence_id, message, owner, next_action).3.len() > 0,
        emitted_row(kind, evidence_id, message, owner, next_action).4.len() > 0,
        owner.len() == 0 ==> emitted_row(kind, evidence_id, message, owner, next_action).0
            == FinalReadinessRowKindV1::MissingEvidence,
{
    reveal_strlit("unassigned");
    reveal_strlit("set the exact owner in the readiness decision inputs, then rerun the aggregate");
}

proof fn lemma_verdict_is_most_severe(kinds: Seq<FinalReadinessRowKindV1>)
    ensures
        forall|j: int|
            0 <= j < kinds.len() && (#[trigger] kinds[j]).forced_verdict_spec() is Some
                ==> verdict_rank_spec(rows_verdict(kinds)) <= verdict_rank_spec(
                kinds[j].forced_verdict_spec()->Some_0,
            ),
        rows_verdict(kinds) != FinalReadinessVerdictV1::ReadyForFreeze ==> exists|j: int|
            0 <= j < kinds.len() && (#[trigger] kinds[j]).forced_verdict_spec() == Some(
                rows_verdict(kinds),
            ),
    decreases kinds.len(),
{
    if kinds.len() > 0 {
        let rest = kinds.drop_last();
        lemma_verdict_is_most_severe(rest);
        assert forall|j: int|
            0 <= j < kinds.len() && (#[trigger] kinds[j]).forced_verdict_spec() is Some implies verdict_rank_spec(
            rows_verdict(kinds),
        ) <= verdict_rank_spec(kinds[j].forced_verdict_spec()->Some_0) by {
            if j < kinds.len() - 1 {
                assert(rest[j] == kinds[j]);
            }
        }
        if rows_verdict(kinds) != FinalReadinessVerdictV1::ReadyForFreeze {
            if rows_verdict(kinds) == rows_verdict(rest) {
                let j = choose|j: int|
                    0 <= j < rest.len() && (#[trigger] rest[j]).forced_verdict_spec() == Some(
                        rows_verdict(rest),
                    );
                assert(kinds[j] == rest[j]);
            } else {
                assert(kinds[kinds.len() - 1].forced_verdict_spec() == Some(rows_verdict(kinds)));
            }
        }
    }
}

/// `ReadyForFreeze` exactly when no row blocks: every row is a permitted
/// claim narrowing (or there are no rows at all).
pub proof fn lemma_ready_iff_no_blocking_row(kinds: Seq<FinalReadinessRowKindV1>)
    ensures
        rows_verdict(kinds) == FinalReadinessVerdictV1::ReadyForFreeze <==> forall|j: int|
            0 <= j < kinds.len() ==> #[trigger] kinds[j] == FinalReadinessRowKindV1::ClaimNarrowed,
{
    lemma_verdict_is_most_severe(kinds);
    if rows_verdict(kinds) == FinalReadinessVerdictV1::ReadyForFreeze {
        assert forall|j: int| 0 <= j < kinds.len() implies #[trigger] kinds[j]
            == FinalReadinessRowKindV1::ClaimNarrowed by {
            if kinds[j] != FinalReadinessRowKindV1::ClaimNarrowed {
                assert(kinds[j].forced_verdict_spec() is Some);
            }
        }
    } else {
        let j = choose|j: int|
            0 <= j < kinds.len() && (#[trigger] kinds[j]).forced_verdict_spec() == Some(
                rows_verdict(kinds),
            );
        assert(kinds[j] != FinalReadinessRowKindV1::ClaimNarrowed);
    }
}

/// The verdict does not depend on the order of the rows, nor on how often a
/// kind repeats: two row lists with the same kinds force the same verdict.
pub proof fn lemma_verdict_ignores_row_order(a: Seq<FinalReadinessRowKindV1>, b: Seq<FinalReadinessRowKindV1>)
    requires
        forall|x: FinalReadinessRowKindV1| a.contains(x) <==> b.contains(x),
    ensures
        rows_verdict(a) == rows_verdict(b),
{
    lemma_verdict_is_most_severe(a);
    lemma_verdict_is_most_severe(b);
    let va = rows_verdict(a);
    let vb = rows_verdict(b);
    if va != FinalReadinessVerdictV1::ReadyForFreeze {
        let j = choose|j: int| 0 <= j < a.len() && (#[trigger] a[j]).forced_verdict_spec() == Some(va);
        assert(a.contains(a[j]));
        let k = choose|k: int| 0 <= k < b.len() && b[k] == a[j];
        assert(b[k].forced_verdict_spec() == Some(va));
        assert(verdict_rank_spec(vb) <= verdict_rank_spec(va));
    }
    if vb != FinalReadinessVerdictV1::ReadyForFreeze {
        let j = choose|j: int| 0 <= j < b.len() && (#[trigger] b[j]).forced_verdict_spec() == Some(vb);
        assert(b.contains(b[j]));
        let k = choose|k: int| 0 <= k < a.len() && a[k] == b[j];
        assert(a[k].forced_verdict_spec() == Some(vb));
        assert(verdict_rank_spec(va) <= verdict_rank_spec(vb));
    }
}

} // verus!
