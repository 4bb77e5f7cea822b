//! Bounded GitHub check and annotation projection over one exact
//! cargo-allow diff evaluation.
//!
//! The projection consumes one canonical diff report plus the PR subject,
//! base-scan completeness, and annotation budget. It never rescans,
//! reclassifies, or invents posture: rows keep their earned movement
//! classes, truncation is deterministic and never becomes clean, and the
//! subject and artifact identities must be present.

use vstd::prelude::*;
use crate::text::{blank, is_blank, push_str, seq_lt, str_eq, str_lt, views};

verus! {

pub const GITHUB_PR_CHECK_V1_SCHEMA_VERSION: u32 = 1;

pub const GITHUB_PR_CHECK_V1_SCHEMA_ID: &'static str = "cargo-allow.github-pr-check.v1";

/// Closed check-result vocabulary. Only exact current `Passed` is clean.
#[derive(Debug, Clone, Copy, PartialEq, Eq, Structural)]
pub enum GitHubPrCheckResultV1 {
    Passed,
    FindingsBlocking,
    FindingsAdvisory,
    Partial,
    UnknownAttribution,
    Stale,
    Unsupported,
    ProviderUnavailable,
    InstrumentFailure,
}

/// Base/head scanner completeness as declared by the stage that produced the
/// diff evaluation.
#[derive(Debug, Clone, Copy, PartialEq, Eq, Structural)]
pub enum BaseScanCompletenessV1 {
    Complete,
    BasePartial,
    HeadPartial,
    BothPartial,
    MissingBase,
}

/// Semantic movement class retained per row. Partial-coverage rows keep
/// `UnknownAttribution` rather than earning ordinary introduced/resolved
/// labels with false confidence.
#[derive(Debug, Clone, Copy, PartialEq, Eq, Structural)]
pub enum GitHubPrAnnotationClassV1 {
    Introduced,
    Worsened,
    PersistingTouched,
    PersistingUnaffected,
    Resolved,
    Reclassified,
    UnknownAttribution,
}

/// One bounded inline annotation. Identity is the canonical diff row key —
/// never the rendered message or line number alone.
#[derive(Debug, Clone, PartialEq, Eq)]
pub struct CargoAllowGitHubPrAnnotationV1 {
    /// Canonical diff row `key` (stable semantic/instance identity).
    pub annotation_id: String,
    pub classification: GitHubPrAnnotationClassV1,
    pub kind: String,
    pub path: String,
    pub start_line: u32,
    pub end_line: u32,
    /// Compact bounded message; no free-form remediation prose.
    pub message: String,
}

/// The exact PR subject one check identity belongs to.
#[derive(Debug, Clone, PartialEq, Eq)]
pub struct GitHubPrCheckSubjectV1 {
    pub repository: String,
    pub pr_number: u64,
    pub base: String,
    pub merge_base: String,
    pub head: String,
}

/// Minimal view of the canonical `cargo-allow.report.v1` diff report.
/// Only the fields the projection consumes are modeled.
#[derive(Debug, Clone, PartialEq, Eq)]
pub struct GitHubPrDiffReportViewV1 {
    pub schema_id: String,
    pub status: String,
    pub failed: bool,
    pub inventory: Option<GitHubPrInventoryViewV1>,
    pub diff: Option<GitHubPrDiffViewV1>,
}

#[derive(Debug, Clone, PartialEq, Eq)]
pub struct GitHubPrInventoryViewV1 {
    pub completeness: String,
}

#[derive(Debug, Clone, PartialEq, Eq)]
pub struct GitHubPrDiffViewV1 {
    pub net_posture: String,
    pub finding_changes: Vec<GitHubPrFindingChangeRowViewV1>,
}

#[derive(Debug, Clone, PartialEq, Eq)]
pub struct GitHubPrFindingChangeRowViewV1 {
    pub change: String,
    pub movement: String,
    pub posture_delta: String,
    pub changed_in_diff: bool,
    pub key: String,
    pub kind: String,
    pub path: String,
    pub line: Option<u32>,
}

/// The assembled bounded check payload: subject, result, counts, annotations,
/// and overflow accounting.
#[derive(Debug, Clone, PartialEq, Eq)]
pub struct CargoAllowGitHubPrCheckV1 {
    pub schema_id: String,
    pub schema_version: u32,
    pub subject: GitHubPrCheckSubjectV1,
    pub result: GitHubPrCheckResultV1,
    pub base_scan_completeness: BaseScanCompletenessV1,
    pub net_posture: String,
    pub introduced_count: u32,
    pub worsened_count: u32,
    pub persisting_touched_count: u32,
    pub resolved_count: u32,
    pub persisting_unaffected_count: u32,
    pub unknown_count: u32,
    pub annotated_count: u32,
    pub omitted_count: u32,
    pub annotations: Vec<CargoAllowGitHubPrAnnotationV1>,
    /// Stable reference to the consumed diff artifact (overflow target).
    pub artifact_reference: String,
    pub limitations: Vec<String>,
    pub claim_boundary: String,
}

/// Retained adapter receipt: what the adapter consumed, projected, and
/// published. Check publication success is not cargo-allow evidence.
#[derive(Debug, Clone, PartialEq, Eq)]
pub struct CargoAllowGitHubPrCheckReceiptV1 {
    pub schema_id: String,
    pub schema_version: u32,
    pub subject: GitHubPrCheckSubjectV1,
    /// sha256 of the consumed diff report artifact.
    pub diff_report_digest: String,
    /// sha256 of the assembled check payload.
    pub check_payload_digest: String,
    pub result: GitHubPrCheckResultV1,
    pub annotated_count: u32,
    pub omitted_count: u32,
    /// Provider outcome: the adapter records ProviderUnavailable when the
    /// GitHub API fails after a valid local projection.
    pub provider_outcome: String,
    pub claim_boundary: String,
}


impl GitHubPrAnnotationClassV1 {
    pub open spec fn label(self) -> Seq<char> {
        match self {
            Self::Introduced => "introduced"@,
            Self::Worsened => "worsened"@,
            Self::PersistingTouched => "persisting_touched"@,
            Self::PersistingUnaffected => "persisting_unaffected"@,
            Self::Resolved => "resolved"@,
            Self::Reclassified => "reclassified"@,
            Self::UnknownAttribution => "unknown_attribution"@,
        }
    }

    /// The snake_case wire label of this class.
    pub fn as_str(self) -> (r: &'static str)
        ensures
            r@ == self.label(),
    {
        match self {
            Self::Introduced => "introduced",
            Self::Worsened => "worsened",
            Self::PersistingTouched => "persisting_touched",
            Self::PersistingUnaffected => "persisting_unaffected",
            Self::Resolved => "resolved",
            Self::Reclassified => "reclassified",
            Self::UnknownAttribution => "unknown_attribution",
        }
    }
}

/// The first violation of the check's structural law, or `None`.
pub open spec fn check_error(c: CargoAllowGitHubPrCheckV1) -> Option<Seq<char>> {
    let clean = c.result == GitHubPrCheckResultV1::Passed;
    if c.schema_id@ != GITHUB_PR_CHECK_V1_SCHEMA_ID@ || c.schema_version
        != GITHUB_PR_CHECK_V1_SCHEMA_VERSION {
        Some("non-current github-pr-check generation"@)
    } else if blank(c.subject.repository@) || blank(c.subject.head@) || blank(
        c.subject.merge_base@,
    ) {
        Some("subject identity is incomplete"@)
    } else if blank(c.artifact_reference@) {
        Some("artifact reference is missing"@)
    } else if clean && (c.introduced_count > 0 || c.worsened_count > 0 || c.omitted_count > 0
        || c.base_scan_completeness != BaseScanCompletenessV1::Complete) {
        Some("clean result with blocking, omitted, or partial inputs"@)
    } else {
        annotations_error(c.annotations@)
    }
}

/// The first annotation without an identity or a path, in order.
pub open spec fn annotations_error(a: Seq<CargoAllowGitHubPrAnnotationV1>) -> Option<Seq<char>>
    decreases a.len(),
{
    if a.len() == 0 {
        None
    } else if blank(a[0].annotation_id@) {
        Some("annotation without a stable identity"@)
    } else if blank(a[0].path@) {
        Some("annotation without a path"@)
    } else {
        annotations_error(a.drop_first())
    }
}

pub open spec fn check_outcome(r: Result<(), String>) -> Option<Seq<char>> {
    match r {
        Ok(_) => None,
        Err(e) => Some(e@),
    }
}

/// Validates the assembled check against its structural law: only exact
/// current `Passed` is clean, never with blocking, omitted, or partial
/// inputs; subject and artifact identities are present; every annotation
/// has an identity and a path.
pub fn validate_github_pr_check_v1(check: &CargoAllowGitHubPrCheckV1) -> (r: Result<(), String>)
    ensures
        check_outcome(r) == check_error(*check),
{
    if !str_eq(check.schema_id.as_str(), GITHUB_PR_CHECK_V1_SCHEMA_ID) || check.schema_version
        != GITHUB_PR_CHECK_V1_SCHEMA_VERSION {
        return Err("non-current github-pr-check generation".to_string());
    }
    if is_blank(check.subject.repository.as_str()) || is_blank(check.subject.head.as_str())
        || is_blank(check.subject.merge_base.as_str()) {
        return Err("subject identity is incomplete".to_string());
    }
    if is_blank(check.artifact_reference.as_str()) {
        return Err("artifact reference is missing".to_string());
    }
    let clean = check.result == GitHubPrCheckResultV1::Passed;
    if clean && (check.introduced_count > 0 || check.worsened_count > 0 || check.omitted_count > 0
        || check.base_scan_completeness != BaseScanCompletenessV1::Complete) {
        return Err("clean result with blocking, omitted, or partial inputs".to_string());
    }
    let mut k: usize = 0;
    assert(check.annotations@.skip(0) =~= check.annotations@);
    while k < check.annotations.len()
        invariant
            k <= check.annotations.len(),
            check_error(*check) == annotations_error(check.annotations@.skip(k as int)),
        decreases check.annotations.len() - k,
    {
        let a = &check.annotations[k];
        assert(check.annotations@.skip(k as int)[0] == check.annotations@[k as int]);
        assert(check.annotations@.skip(k as int).drop_first() =~= check.annotations@.skip(k + 1));
        if is_blank(a.annotation_id.as_str()) {
            return Err("annotation without a stable identity".to_string());
        }
        if is_blank(a.path.as_str()) {
            return Err("annotation without a path".to_string());
        }
        k = k + 1;
    }
    Ok(())
}

// ---------------------------------------------------------------------------
// Projection.
// ---------------------------------------------------------------------------

pub const GITHUB_PR_CHECK_CLAIM_BOUNDARY: &'static str = "Bounded exact-head check projection over one cargo-allow diff evaluation; no rescan, no repository mutation, no merge or release authority.";

/// (id, class, kind, path, start line, end line, message)
pub type AnnotationView = (Seq<char>, GitHubPrAnnotationClassV1, Seq<char>, Seq<char>, u32, u32, Seq<char>);

pub open spec fn annotation_view(a: CargoAllowGitHubPrAnnotationV1) -> AnnotationView {
    (a.annotation_id@, a.classification, a.kind@, a.path@, a.start_line, a.end_line, a.message@)
}

pub open spec fn annotation_views(s: Seq<CargoAllowGitHubPrAnnotationV1>) -> Seq<AnnotationView> {
    s.map_values(|a: CargoAllowGitHubPrAnnotationV1| annotation_view(a))
}

/// Deterministic annotation priority: introduced first, then worsened, then
/// persisting-touched, then unknown.
pub open spec fn priority(c: GitHubPrAnnotationClassV1) -> u32 {
    match c {
        GitHubPrAnnotationClassV1::Introduced => 0,
        GitHubPrAnnotationClassV1::Worsened => 1,
        GitHubPrAnnotationClassV1::PersistingTouched => 2,
        GitHubPrAnnotationClassV1::UnknownAttribution => 3,
        GitHubPrAnnotationClassV1::PersistingUnaffected => 4,
        GitHubPrAnnotationClassV1::Reclassified => 5,
        GitHubPrAnnotationClassV1::Resolved => 6,
    }
}

fn annotation_priority(c: GitHubPrAnnotationClassV1) -> (r: u32)
    ensures
        r == priority(c),
{
    match c {
        GitHubPrAnnotationClassV1::Introduced => 0,
        GitHubPrAnnotationClassV1::Worsened => 1,
        GitHubPrAnnotationClassV1::PersistingTouched => 2,
        GitHubPrAnnotationClassV1::UnknownAttribution => 3,
        GitHubPrAnnotationClassV1::PersistingUnaffected => 4,
        GitHubPrAnnotationClassV1::Reclassified => 5,
        GitHubPrAnnotationClassV1::Resolved => 6,
    }
}

/// The movement class a diff row earns. Partial coverage cannot earn an
/// ordinary introduced label.
pub open spec fn row_class(row: GitHubPrFindingChangeRowViewV1, partial: bool) -> GitHubPrAnnotationClassV1 {
    if partial && row.movement@ == "introduced"@ {
        GitHubPrAnnotationClassV1::UnknownAttribution
    } else if row.change@ == "removed"@ || row.movement@ == "removed"@ {
        GitHubPrAnnotationClassV1::Resolved
    } else if row.changed_in_diff {
        if row.movement@ == "introduced"@ {
            GitHubPrAnnotationClassV1::Introduced
        } else if row.posture_delta@ == "worsened"@ {
            GitHubPrAnnotationClassV1::Worsened
        } else if row.posture_delta@ == "improved"@ || row.posture_delta@ == "unchanged"@ {
            GitHubPrAnnotationClassV1::Reclassified
        } else {
            GitHubPrAnnotationClassV1::PersistingTouched
        }
    } else {
        GitHubPrAnnotationClassV1::PersistingUnaffected
    }
}

fn classify_row(row: &GitHubPrFindingChangeRowViewV1, partial: bool) -> (r: GitHubPrAnnotationClassV1)
    ensures
        r == row_class(*row, partial),
{
    if partial && str_eq(row.movement.as_str(), "introduced") {
        return GitHubPrAnnotationClassV1::UnknownAttribution;
    }
    if str_eq(row.change.as_str(), "removed") || str_eq(row.movement.as_str(), "removed") {
        return GitHubPrAnnotationClassV1::Resolved;
    }
    if row.changed_in_diff {
        if str_eq(row.movement.as_str(), "introduced") {
            return GitHubPrAnnotationClassV1::Introduced;
        }
        if str_eq(row.posture_delta.as_str(), "worsened") {
            return GitHubPrAnnotationClassV1::Worsened;
        }
        if str_eq(row.posture_delta.as_str(), "improved") || str_eq(row.posture_delta.as_str(), "unchanged") {
            return GitHubPrAnnotationClassV1::Reclassified;
        }
        return GitHubPrAnnotationClassV1::PersistingTouched;
    }
    GitHubPrAnnotationClassV1::PersistingUnaffected
}

/// Classes that may be annotated inline. A missing base has no attribution
/// at all: rows stay counts-only.
pub open spec fn inline_class(c: GitHubPrAnnotationClassV1, missing_base: bool) -> bool {
    !missing_base && (c == GitHubPrAnnotationClassV1::Introduced || c == GitHubPrAnnotationClassV1::Worsened
        || c == GitHubPrAnnotationClassV1::PersistingTouched || c == GitHubPrAnnotationClassV1::UnknownAttribution)
}

/// `"<class> <kind>: <key> (<artifact>)"`
pub open spec fn annotation_message(
    c: GitHubPrAnnotationClassV1,
    kind: Seq<char>,
    key: Seq<char>,
    artifact: Seq<char>,
) -> Seq<char> {
    c.label() + " "@ + kind + ": "@ + key + " ("@ + artifact + ")"@
}

/// Row `row` has a location that can carry an inline annotation.
pub open spec fn located(row: GitHubPrFindingChangeRowViewV1) -> bool {
    row.line is Some && !blank(row.path@)
}

/// Running totals over diff rows: introduced, worsened, persisting-touched,
/// resolved, persisting-unaffected, unknown, inline rows without a
/// location, and the inline annotation candidates in row order.
pub type Tally = (nat, nat, nat, nat, nat, nat, nat, Seq<AnnotationView>);

pub open spec fn tally_step(
    t: Tally,
    row: GitHubPrFindingChangeRowViewV1,
    completeness: BaseScanCompletenessV1,
    artifact: Seq<char>,
) -> Tally {
    let c = row_class(row, completeness != BaseScanCompletenessV1::Complete);
    let inline = inline_class(c, completeness == BaseScanCompletenessV1::MissingBase);
    (
        t.0 + if c == GitHubPrAnnotationClassV1::Introduced { 1nat } else { 0nat },
        t.1 + if c == GitHubPrAnnotationClassV1::Worsened { 1nat } else { 0nat },
        t.2 + if c == GitHubPrAnnotationClassV1::PersistingTouched { 1nat } else { 0nat },
        t.3 + if c == GitHubPrAnnotationClassV1::Resolved { 1nat } else { 0nat },
        t.4 + if c == GitHubPrAnnotationClassV1::PersistingUnaffected { 1nat } else { 0nat },
        t.5 + if c == GitHubPrAnnotationClassV1::Reclassified || c
            == GitHubPrAnnotationClassV1::UnknownAttribution { 1nat } else { 0nat },
        t.6 + if inline && !located(row) { 1nat } else { 0nat },
        if inline && located(row) {
            t.7.push(
                (
                    row.key@,
                    c,
                    row.kind@,
                    row.path@,
                    row.line->0,
                    row.line->0,
                    annotation_message(c, row.kind@, row.key@, artifact),
                ),
            )
        } else {
            t.7
        },
    )
}

pub open spec fn tally(
    rows: Seq<GitHubPrFindingChangeRowViewV1>,
    completeness: BaseScanCompletenessV1,
    artifact: Seq<char>,
    n: nat,
) -> Tally
    decreases n,
{
    if n == 0 {
        (0, 0, 0, 0, 0, 0, 0, Seq::empty())
    } else {
        tally_step(tally(rows, completeness, artifact, (n - 1) as nat), rows[n - 1], completeness, artifact)
    }
}

proof fn lemma_tally_bounds(
    rows: Seq<GitHubPrFindingChangeRowViewV1>,
    completeness: BaseScanCompletenessV1,
    artifact: Seq<char>,
    n: nat,
)
    ensures
        ({
            let t = tally(rows, completeness, artifact, n);
            &&& t.0 <= n && t.1 <= n && t.2 <= n && t.3 <= n && t.4 <= n && t.5 <= n
            &&& t.6 + t.7.len() <= n
        }),
    decreases n,
{
    if n > 0 {
        lemma_tally_bounds(rows, completeness, artifact, (n - 1) as nat);
    }
}

/// `x` sorts strictly before `y`: by priority, then by stable key.
pub open spec fn sorts_before(x: AnnotationView, y: AnnotationView) -> bool {
    priority(x.1) < priority(y.1) || (priority(x.1) == priority(y.1) && seq_lt(x.0, y.0))
}

/// Inserts `x` after every element that does not sort after it.
pub open spec fn sorted_insert(t: Seq<AnnotationView>, x: AnnotationView) -> Seq<AnnotationView>
    decreases t.len(),
{
    if t.len() == 0 {
        seq![x]
    } else if sorts_before(x, t[0]) {
        seq![x] + t
    } else {
        seq![t[0]] + sorted_insert(t.drop_first(), x)
    }
}

/// The stable sort of `s` by priority and key: equal keys keep row order.
pub open spec fn sort_annotations(s: Seq<AnnotationView>) -> Seq<AnnotationView>
    decreases s.len(),
{
    if s.len() == 0 {
        s
    } else {
        sorted_insert(sort_annotations(s.drop_last()), s.last())
    }
}

proof fn lemma_sorted_insert_at(t: Seq<AnnotationView>, x: AnnotationView, pos: int)
    requires
        0 <= pos <= t.len(),
        forall|i: int| 0 <= i < pos ==> !sorts_before(x, #[trigger] t[i]),
        pos < t.len() ==> sorts_before(x, t[pos]),
    ensures
        sorted_insert(t, x) == t.insert(pos, x),
    decreases t.len(),
{
    if t.len() == 0 {
        assert(t.insert(pos, x) =~= seq![x]);
    } else if pos == 0 {
        assert(t.insert(pos, x) =~= seq![x] + t);
    } else {
        assert(!sorts_before(x, t[0]));
        let rest = t.drop_first();
        assert forall|i: int| 0 <= i < pos - 1 implies !sorts_before(x, #[trigger] rest[i]) by {
            assert(rest[i] == t[i + 1]);
        }
        if pos - 1 < rest.len() {
            assert(rest[pos - 1] == t[pos]);
        }
        lemma_sorted_insert_at(rest, x, pos - 1);
        assert(t.insert(pos, x) =~= seq![t[0]] + rest.insert(pos - 1, x));
    }
}

proof fn lemma_sorted_insert_len(t: Seq<AnnotationView>, x: AnnotationView)
    ensures
        sorted_insert(t, x).len() == t.len() + 1,
    decreases t.len(),
{
    if t.len() > 0 && !sorts_before(x, t[0]) {
        lemma_sorted_insert_len(t.drop_first(), x);
    }
}

proof fn lemma_sort_len(s: Seq<AnnotationView>)
    ensures
        sort_annotations(s).len() == s.len(),
    decreases s.len(),
{
    if s.len() > 0 {
        lemma_sort_len(s.drop_last());
        lemma_sorted_insert_len(sort_annotations(s.drop_last()), s.last());
    }
}

fn annotation_sorts_before(x: &CargoAllowGitHubPrAnnotationV1, y: &CargoAllowGitHubPrAnnotationV1) -> (r: bool)
    ensures
        r == sorts_before(annotation_view(*x), annotation_view(*y)),
{
    let px = annotation_priority(x.classification);
    let py = annotation_priority(y.classification);
    px < py || (px == py && str_lt(x.annotation_id.as_str(), y.annotation_id.as_str()))
}

fn insert_sorted(v: &mut Vec<CargoAllowGitHubPrAnnotationV1>, x: CargoAllowGitHubPrAnnotationV1)
    ensures
        annotation_views(final(v)@) == sorted_insert(annotation_views(old(v)@), annotation_view(x)),
{
    let mut pos: usize = 0;
    while pos < v.len() && !annotation_sorts_before(&x, &v[pos])
        invariant
            pos <= v.len(),
            forall|i: int| 0 <= i < pos ==> !sorts_before(annotation_view(x), #[trigger] annotation_views(v@)[i]),
        decreases v.len() - pos,
    {
        pos = pos + 1;
    }
    let ghost before = annotation_views(v@);
    proof {
        lemma_sorted_insert_at(before, annotation_view(x), pos as int);
    }
    v.insert(pos, x);
    assert(annotation_views(v@) =~= before.insert(pos as int, annotation_view(x)));
}

fn copy_subject(s: &GitHubPrCheckSubjectV1) -> (r: GitHubPrCheckSubjectV1)
    ensures
        r == *s,
{
    GitHubPrCheckSubjectV1 {
        repository: s.repository.clone(),
        pr_number: s.pr_number,
        base: s.base.clone(),
        merge_base: s.merge_base.clone(),
        head: s.head.clone(),
    }
}

fn annotation_for(
    row: &GitHubPrFindingChangeRowViewV1,
    c: GitHubPrAnnotationClassV1,
    line: u32,
    artifact: &str,
) -> (r: CargoAllowGitHubPrAnnotationV1)
    ensures
        annotation_view(r) == (
            row.key@,
            c,
            row.kind@,
            row.path@,
            line,
            line,
            annotation_message(c, row.kind@, row.key@, artifact@),
        ),
{
    let mut message = String::new();
    push_str(&mut message, c.as_str());
    push_str(&mut message, " ");
    push_str(&mut message, row.kind.as_str());
    push_str(&mut message, ": ");
    push_str(&mut message, row.key.as_str());
    push_str(&mut message, " (");
    push_str(&mut message, artifact);
    push_str(&mut message, ")");
    proof {
        reveal_strlit(" ");
        reveal_strlit(": ");
        reveal_strlit(" (");
        reveal_strlit(")");
    }
    CargoAllowGitHubPrAnnotationV1 {
        annotation_id: row.key.clone(),
        classification: c,
        kind: row.kind.clone(),
        path: row.path.clone(),
        start_line: line,
        end_line: line,
        message,
    }
}

/// The check result for a supported report.
pub open spec fn check_result(
    report: GitHubPrDiffReportViewV1,
    completeness: BaseScanCompletenessV1,
    introduced: nat,
    worsened: nat,
    omitted: nat,
) -> GitHubPrCheckResultV1 {
    if report.schema_id@ != "cargo-allow.report.v1"@ {
        GitHubPrCheckResultV1::Unsupported
    } else if report.diff is None {
        GitHubPrCheckResultV1::InstrumentFailure
    } else if report.failed || report.status@ == "failed"@ {
        GitHubPrCheckResultV1::InstrumentFailure
    } else if completeness == BaseScanCompletenessV1::MissingBase {
        GitHubPrCheckResultV1::UnknownAttribution
    } else if completeness != BaseScanCompletenessV1::Complete {
        GitHubPrCheckResultV1::Partial
    } else if report.status@ != "passed"@ {
        GitHubPrCheckResultV1::InstrumentFailure
    } else if introduced > 0 || worsened > 0 || report.diff->0.net_posture@ == "worse"@ {
        GitHubPrCheckResultV1::FindingsBlocking
    } else if omitted > 0 {
        GitHubPrCheckResultV1::FindingsAdvisory
    } else if report.diff->0.net_posture@ == "review-required"@ {
        GitHubPrCheckResultV1::FindingsAdvisory
    } else {
        GitHubPrCheckResultV1::Passed
    }
}

fn classify_result(
    report: &GitHubPrDiffReportViewV1,
    completeness: BaseScanCompletenessV1,
    introduced: u32,
    worsened: u32,
    omitted: u32,
) -> (r: GitHubPrCheckResultV1)
    ensures
        r == check_result(*report, completeness, introduced as nat, worsened as nat, omitted as nat),
{
    if !str_eq(report.schema_id.as_str(), "cargo-allow.report.v1") {
        return GitHubPrCheckResultV1::Unsupported;
    }
    let diff = match &report.diff {
        None => {
            return GitHubPrCheckResultV1::InstrumentFailure;
        },
        Some(d) => d,
    };
    if report.failed || str_eq(report.status.as_str(), "failed") {
        return GitHubPrCheckResultV1::InstrumentFailure;
    }
    match completeness {
        BaseScanCompletenessV1::MissingBase => {
            return GitHubPrCheckResultV1::UnknownAttribution;
        },
        BaseScanCompletenessV1::BasePartial
        | BaseScanCompletenessV1::HeadPartial
        | BaseScanCompletenessV1::BothPartial => {
            return GitHubPrCheckResultV1::Partial;
        },
        BaseScanCompletenessV1::Complete => {},
    }
    if !str_eq(report.status.as_str(), "passed") {
        return GitHubPrCheckResultV1::InstrumentFailure;
    }
    if introduced > 0 || worsened > 0 || str_eq(diff.net_posture.as_str(), "worse") {
        return GitHubPrCheckResultV1::FindingsBlocking;
    }
    if omitted > 0 {
        return GitHubPrCheckResultV1::FindingsAdvisory;
    }
    if str_eq(diff.net_posture.as_str(), "review-required") {
        return GitHubPrCheckResultV1::FindingsAdvisory;
    }
    GitHubPrCheckResultV1::Passed
}

pub open spec fn advisory_limitation() -> Seq<char> {
    "advisory projection only; no merge, policy, or live-control authority"@
}

/// How many sorted candidates an annotation budget admits.
pub open spec fn admitted(len: nat, max: usize) -> nat {
    if len <= max {
        len
    } else {
        max as nat
    }
}

/// The check identity fields every projection carries.
pub open spec fn projection_identity(
    r: CargoAllowGitHubPrCheckV1,
    subject: GitHubPrCheckSubjectV1,
    completeness: BaseScanCompletenessV1,
    artifact: Seq<char>,
) -> bool {
    &&& r.schema_id@ == GITHUB_PR_CHECK_V1_SCHEMA_ID@
    &&& r.schema_version == GITHUB_PR_CHECK_V1_SCHEMA_VERSION
    &&& r.subject == subject
    &&& r.base_scan_completeness == completeness
    &&& r.artifact_reference@ == artifact
    &&& r.claim_boundary@ == GITHUB_PR_CHECK_CLAIM_BOUNDARY@
}

/// A projection that carries no rows: every count is zero.
pub open spec fn empty_projection(r: CargoAllowGitHubPrCheckV1) -> bool {
    &&& r.introduced_count == 0 && r.worsened_count == 0 && r.persisting_touched_count == 0
    &&& r.resolved_count == 0 && r.persisting_unaffected_count == 0 && r.unknown_count == 0
    &&& r.annotated_count == 0 && r.omitted_count == 0
    &&& r.annotations@.len() == 0
    &&& r.net_posture@ == Seq::<char>::empty()
}

fn bare_check(
    subject: &GitHubPrCheckSubjectV1,
    result: GitHubPrCheckResultV1,
    completeness: BaseScanCompletenessV1,
    artifact_reference: &str,
    limitations: Vec<String>,
) -> (r: CargoAllowGitHubPrCheckV1)
    ensures
        projection_identity(r, *subject, completeness, artifact_reference@),
        empty_projection(r),
        r.result == result,
        r.limitations == limitations,
{
    CargoAllowGitHubPrCheckV1 {
        schema_id: GITHUB_PR_CHECK_V1_SCHEMA_ID.to_string(),
        schema_version: GITHUB_PR_CHECK_V1_SCHEMA_VERSION,
        subject: copy_subject(subject),
        result,
        base_scan_completeness: completeness,
        net_posture: String::new(),
        introduced_count: 0,
        worsened_count: 0,
        persisting_touched_count: 0,
        resolved_count: 0,
        persisting_unaffected_count: 0,
        unknown_count: 0,
        annotated_count: 0,
        omitted_count: 0,
        annotations: Vec::new(),
        artifact_reference: artifact_reference.to_string(),
        limitations,
        claim_boundary: GITHUB_PR_CHECK_CLAIM_BOUNDARY.to_string(),
    }
}

/// Projects the bounded check from one exact diff evaluation. Malformed or
/// unsupported input never becomes clean; annotations are the inline
/// candidates in priority and key order, cut to the budget, and every row
/// left out is counted.
pub fn project_github_pr_check(
    report: &GitHubPrDiffReportViewV1,
    subject: &GitHubPrCheckSubjectV1,
    completeness: BaseScanCompletenessV1,
    max_annotations: usize,
    artifact_reference: &str,
) -> (r: CargoAllowGitHubPrCheckV1)
    requires
        report.diff is Some ==> report.diff->0.finding_changes@.len() <= u32::MAX,
    ensures
        projection_identity(r, *subject, completeness, artifact_reference@),
        if report.schema_id@ != "cargo-allow.report.v1"@ {
            &&& empty_projection(r)
            &&& r.result == GitHubPrCheckResultV1::Unsupported
            &&& views(r.limitations@) == seq![
                advisory_limitation(),
                "consumed report is not a cargo-allow.report.v1 artifact"@,
            ]
        } else {
            match report.diff {
                None => {
                    &&& empty_projection(r)
                    &&& r.result == check_result(*report, completeness, 0, 0, 0)
                    &&& views(r.limitations@) == seq![
                        advisory_limitation(),
                        "diff evaluation is absent from the report"@,
                    ]
                },
                Some(d) => {
                    let t = tally(
                        d.finding_changes@,
                        completeness,
                        artifact_reference@,
                        d.finding_changes@.len(),
                    );
                    let sorted = sort_annotations(t.7);
                    let kept = admitted(sorted.len(), max_annotations);
                    let truncated = (sorted.len() - kept) as nat;
                    &&& r.introduced_count == t.0
                    &&& r.worsened_count == t.1
                    &&& r.persisting_touched_count == t.2
                    &&& r.resolved_count == t.3
                    &&& r.persisting_unaffected_count == t.4
                    &&& r.unknown_count == t.5
                    &&& annotation_views(r.annotations@) == sorted.take(kept as int)
                    &&& r.annotated_count == kept
                    &&& r.omitted_count == t.6 + truncated
                    &&& r.result == check_result(*report, completeness, t.0, t.1, t.6 + truncated)
                    &&& r.net_posture@ == d.net_posture@
                    &&& views(r.limitations@) == if truncated > 0 {
                        seq![advisory_limitation(), "annotation budget truncated; see omitted counts"@]
                    } else {
                        seq![advisory_limitation()]
                    }
                },
            }
        },
{
    let mut limitations: Vec<String> = Vec::new();
    limitations.push("advisory projection only; no merge, policy, or live-control authority".to_string());
    if !str_eq(report.schema_id.as_str(), "cargo-allow.report.v1") {
        limitations.push("consumed report is not a cargo-allow.report.v1 artifact".to_string());
        assert(views(limitations@) =~= seq![
            advisory_limitation(),
            "consumed report is not a cargo-allow.report.v1 artifact"@,
        ]);
        return bare_check(subject, GitHubPrCheckResultV1::Unsupported, completeness, artifact_reference, limitations);
    }
    let d = match &report.diff {
        None => {
            limitations.push("diff evaluation is absent from the report".to_string());
            assert(views(limitations@) =~= seq![
                advisory_limitation(),
                "diff evaluation is absent from the report"@,
            ]);
            let result = classify_result(report, completeness, 0, 0, 0);
            return bare_check(subject, result, completeness, artifact_reference, limitations);
        },
        Some(d) => d,
    };
    let rows = &d.finding_changes;
    let partial = completeness != BaseScanCompletenessV1::Complete;
    let missing_base = completeness == BaseScanCompletenessV1::MissingBase;
    let mut introduced: u32 = 0;
    let mut worsened: u32 = 0;
    let mut touched: u32 = 0;
    let mut resolved: u32 = 0;
    let mut unaffected: u32 = 0;
    let mut unknown: u32 = 0;
    let mut unlocated: u32 = 0;
    let mut sorted: Vec<CargoAllowGitHubPrAnnotationV1> = Vec::new();
    let mut i: usize = 0;
    assert(annotation_views(sorted@) =~= Seq::<AnnotationView>::empty());
    while i < rows.len()
        invariant
            rows@.len() <= u32::MAX,
            i <= rows@.len(),
            partial == (completeness != BaseScanCompletenessV1::Complete),
            missing_base == (completeness == BaseScanCompletenessV1::MissingBase),
            ({
                let t = tally(rows@, completeness, artifact_reference@, i as nat);
                &&& introduced == t.0 && worsened == t.1 && touched == t.2 && resolved == t.3
                &&& unaffected == t.4 && unknown == t.5 && unlocated == t.6
                &&& annotation_views(sorted@) == sort_annotations(t.7)
            }),
        decreases rows@.len() - i,
    {
        proof {
            lemma_tally_bounds(rows@, completeness, artifact_reference@, i as nat);
        }
        let ghost before = tally(rows@, completeness, artifact_reference@, i as nat);
        let row = &rows[i];
        let c = classify_row(row, partial);
        match c {
            GitHubPrAnnotationClassV1::Introduced => {
                introduced = introduced + 1;
            },
            GitHubPrAnnotationClassV1::Worsened => {
                worsened = worsened + 1;
            },
            GitHubPrAnnotationClassV1::PersistingTouched => {
                touched = touched + 1;
            },
            GitHubPrAnnotationClassV1::Resolved => {
                resolved = resolved + 1;
            },
            GitHubPrAnnotationClassV1::PersistingUnaffected => {
                unaffected = unaffected + 1;
            },
            GitHubPrAnnotationClassV1::Reclassified | GitHubPrAnnotationClassV1::UnknownAttribution => {
                unknown = unknown + 1;
            },
        }
        let inline = !missing_base && (c == GitHubPrAnnotationClassV1::Introduced || c
            == GitHubPrAnnotationClassV1::Worsened || c == GitHubPrAnnotationClassV1::PersistingTouched || c
            == GitHubPrAnnotationClassV1::UnknownAttribution);
        if inline {
            match row.line {
                Some(line) => {
                    if !is_blank(row.path.as_str()) {
                        let a = annotation_for(row, c, line, artifact_reference);
                        proof {
                            let x = annotation_view(a);
                            assert(before.7.push(x).drop_last() =~= before.7);
                        }
                        insert_sorted(&mut sorted, a);
                    } else {
                        unlocated = unlocated + 1;
                    }
                },
                None => {
                    unlocated = unlocated + 1;
                },
            }
        }
        i = i + 1;
    }
    let ghost t = tally(rows@, completeness, artifact_reference@, rows@.len());
    proof {
        lemma_tally_bounds(rows@, completeness, artifact_reference@, rows@.len());
        lemma_sort_len(t.7);
    }
    let n = sorted.len();
    let truncated: usize = if n > max_annotations {
        n - max_annotations
    } else {
        0
    };
    sorted.truncate(max_annotations);
    assert(annotation_views(sorted@) =~= sort_annotations(t.7).take(admitted(n as nat, max_annotations) as int));
    let omitted: u32 = unlocated + truncated as u32;
    if truncated > 0 {
        limitations.push("annotation budget truncated; see omitted counts".to_string());
    }
    assert(views(limitations@) =~= if truncated > 0 {
        seq![advisory_limitation(), "annotation budget truncated; see omitted counts"@]
    } else {
        seq![advisory_limitation()]
    });
    let annotated_count = sorted.len() as u32;
    let result = classify_result(report, completeness, introduced, worsened, omitted);
    CargoAllowGitHubPrCheckV1 {
        schema_id: GITHUB_PR_CHECK_V1_SCHEMA_ID.to_string(),
        schema_version: GITHUB_PR_CHECK_V1_SCHEMA_VERSION,
        subject: copy_subject(subject),
        result,
        base_scan_completeness: completeness,
        net_posture: d.net_posture.clone(),
        introduced_count: introduced,
        worsened_count: worsened,
        persisting_touched_count: touched,
        resolved_count: resolved,
        persisting_unaffected_count: unaffected,
        unknown_count: unknown,
        annotated_count,
        omitted_count: omitted,
        annotations: sorted,
        artifact_reference: artifact_reference.to_string(),
        limitations,
        claim_boundary: GITHUB_PR_CHECK_CLAIM_BOUNDARY.to_string(),
    }
}

// ---------------------------------------------------------------------------
// Laws.
// ---------------------------------------------------------------------------

/// Only exact current `Passed` is clean: a passing projection has no
/// introduced or worsened rows, omits nothing, and saw complete coverage.
/// Truncation therefore never passes.
pub proof fn lemma_passed_is_clean(
    report: GitHubPrDiffReportViewV1,
    completeness: BaseScanCompletenessV1,
    introduced: nat,
    worsened: nat,
    omitted: nat,
)
    requires
        check_result(report, completeness, introduced, worsened, omitted) == GitHubPrCheckResultV1::Passed,
    ensures
        introduced == 0,
        worsened == 0,
        omitted == 0,
        completeness == BaseScanCompletenessV1::Complete,
        report.schema_id@ == "cargo-allow.report.v1"@,
        !report.failed,
        report.status@ == "passed"@,
{
}

/// The annotation budget is never exceeded, and every inline candidate is
/// either annotated or counted as omitted.
pub proof fn lemma_budget_accounting(s: Seq<AnnotationView>, max: usize)
    ensures
        admitted(sort_annotations(s).len(), max) <= max,
        admitted(sort_annotations(s).len(), max) + (sort_annotations(s).len() - admitted(
            sort_annotations(s).len(),
            max,
        )) == s.len(),
{
    lemma_sort_len(s);
}

/// A sequence of annotations in check order: no annotation sorts before an
/// earlier one.
pub open spec fn in_check_order(s: Seq<AnnotationView>) -> bool {
    forall|i: int, j: int| 0 <= i < j < s.len() ==> !sorts_before(#[trigger] s[j], #[trigger] s[i])
}

proof fn lemma_sorts_before_order(x: AnnotationView, y: AnnotationView, z: AnnotationView)
    ensures
        !(sorts_before(x, y) && sorts_before(y, x)),
        sorts_before(x, y) && sorts_before(y, z) ==> sorts_before(x, z),
{
    crate::text::lemma_seq_lt_asymmetric(x.0, y.0);
    if sorts_before(x, y) && sorts_before(y, z) && priority(x.1) == priority(y.1) && priority(y.1)
        == priority(z.1) {
        crate::text::lemma_seq_lt_transitive(x.0, y.0, z.0);
    }
}

proof fn lemma_sorted_insert_members(t: Seq<AnnotationView>, x: AnnotationView)
    ensures
        sorted_insert(t, x).len() == t.len() + 1,
        forall|k: int|
            0 <= k < sorted_insert(t, x).len() ==> #[trigger] sorted_insert(t, x)[k] == x || t.contains(
                sorted_insert(t, x)[k],
            ),
    decreases t.len(),
{
    if t.len() > 0 && !sorts_before(x, t[0]) {
        let rest = t.drop_first();
        lemma_sorted_insert_members(rest, x);
        let r = sorted_insert(t, x);
        assert forall|k: int| 0 <= k < r.len() implies #[trigger] r[k] == x || t.contains(r[k]) by {
            if k == 0 {
                assert(t[0] == r[0]);
            } else {
                let y = sorted_insert(rest, x)[k - 1];
                assert(r[k] == y);
                if y != x {
                    let j = choose|j: int| 0 <= j < rest.len() && rest[j] == y;
                    assert(t[j + 1] == y);
                }
            }
        }
    }
}

proof fn lemma_sorted_insert_keeps_order(t: Seq<AnnotationView>, x: AnnotationView)
    requires
        in_check_order(t),
    ensures
        in_check_order(sorted_insert(t, x)),
    decreases t.len(),
{
    let r = sorted_insert(t, x);
    if t.len() == 0 {
    } else if sorts_before(x, t[0]) {
        assert(r =~= seq![x] + t);
        assert forall|i: int, j: int| 0 <= i < j < r.len() implies !sorts_before(#[trigger] r[j], #[trigger] r[i]) by {
            if i == 0 {
                lemma_sorts_before_order(r[j], x, t[0]);
                if j > 1 {
                    assert(!sorts_before(t[j - 1], t[0]));
                }
            } else {
                assert(r[i] == t[i - 1] && r[j] == t[j - 1]);
            }
        }
    } else {
        let rest = t.drop_first();
        assert(in_check_order(rest)) by {
            assert forall|i: int, j: int| 0 <= i < j < rest.len() implies !sorts_before(#[trigger] rest[j], #[trigger] rest[i]) by {
                assert(rest[i] == t[i + 1] && rest[j] == t[j + 1]);
            }
        }
        lemma_sorted_insert_keeps_order(rest, x);
        lemma_sorted_insert_members(rest, x);
        let q = sorted_insert(rest, x);
        assert(r =~= seq![t[0]] + q);
        assert forall|i: int, j: int| 0 <= i < j < r.len() implies !sorts_before(#[trigger] r[j], #[trigger] r[i]) by {
            if i == 0 {
                let y = q[j - 1];
                assert(r[j] == y);
                if y != x {
                    let k = choose|k: int| 0 <= k < rest.len() && rest[k] == y;
                    assert(t[k + 1] == y);
                    assert(!sorts_before(t[k + 1], t[0]));
                }
            } else {
                assert(r[i] == q[i - 1] && r[j] == q[j - 1]);
            }
        }
    }
}

/// Annotations are emitted in check order, by priority and then annotation
/// id, so truncation to the budget is deterministic: every kept annotation
/// sorts no later than every omitted one.
pub proof fn lemma_annotations_are_in_check_order(s: Seq<AnnotationView>, n: int)
    requires
        0 <= n <= s.len(),
    ensures
        in_check_order(sort_annotations(s)),
        forall|i: int, j: int|
            0 <= i < n <= j < sort_annotations(s).len() ==> !sorts_before(
                #[trigger] sort_annotations(s)[j],
                #[trigger] sort_annotations(s)[i],
            ),
    decreases s.len(),
{
    if s.len() > 0 {
        lemma_annotations_are_in_check_order(s.drop_last(), 0);
        lemma_sorted_insert_keeps_order(sort_annotations(s.drop_last()), s.last());
    }
}

proof fn lemma_sorted_insert_is_insert(t: Seq<AnnotationView>, x: AnnotationView)
    ensures
        exists|k: int| 0 <= k <= t.len() && sorted_insert(t, x) == t.insert(k, x),
    decreases t.len(),
{
    if t.len() == 0 {
        assert(sorted_insert(t, x) =~= t.insert(0, x));
    } else if sorts_before(x, t[0]) {
        assert(sorted_insert(t, x) =~= t.insert(0, x));
    } else {
        let rest = t.drop_first();
        lemma_sorted_insert_is_insert(rest, x);
        let k = choose|k: int| 0 <= k <= rest.len() && sorted_insert(rest, x) == rest.insert(k, x);
        assert(sorted_insert(t, x) =~= t.insert(k + 1, x));
    }
}

/// The check order keeps every annotation: sorting neither drops,
/// duplicates nor invents one.
pub proof fn lemma_sorting_keeps_every_annotation(s: Seq<AnnotationView>)
    ensures
        sort_annotations(s).to_multiset() =~= s.to_multiset(),
    decreases s.len(),
{
    broadcast use vstd::seq_lib::group_to_multiset_ensures;

    if s.len() > 0 {
        let t = sort_annotations(s.drop_last());
        lemma_sorting_keeps_every_annotation(s.drop_last());
        lemma_sorted_insert_is_insert(t, s.last());
        let k = choose|k: int| 0 <= k <= t.len() && sorted_insert(t, s.last()) == t.insert(k, s.last());
        assert(sorted_insert(t, s.last()).to_multiset() == t.to_multiset().insert(s.last()));
        assert(s =~= s.drop_last().push(s.last()));
        assert(s.to_multiset() == s.drop_last().to_multiset().insert(s.last()));
    }
}

} // verus!
