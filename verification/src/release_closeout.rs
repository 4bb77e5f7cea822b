//! Fail-closed release closeout contract for the exact public release asset
//! set.
//!
//! This module evaluates already-retained evidence. It does not query
//! GitHub, download assets, verify attestations itself, publish a release,
//! or authorize an irreversible operation. Workflow adapters observe those
//! facts first and pass only bounded identities and digests in.

use vstd::prelude::*;
use vstd::utf8::encode_utf8;
use crate::github_release_checkpoint::{lower_text, lowercase};
use crate::release_identity::{valid_identity, ReleaseIdentityV1};
use crate::text::{
    all_hex, all_hex_str, blank, cat, cat3, contains, contains_str, is_blank, is_sha256_digest,
    is_sha256_digest_str, note, note_if, seq_lt, str_eq, str_lt, views,
};

verus! {

pub const RELEASE_CLOSEOUT_V1_SCHEMA_ID: &'static str = "cargo-allow.release-closeout-receipt.v1";

pub const RELEASE_CLOSEOUT_V1_SCHEMA_VERSION: u32 = 1;

/// Outcome of the release manifest the closeout is bound to. Only
/// `Complete` may close out a release.
#[derive(Debug, Clone, Copy, PartialEq, Eq, Structural)]
pub enum ReleaseManifestResultV2 {
    Complete,
    IncompletePrePublication,
}

#[derive(Debug, Clone, Copy, PartialEq, Eq, Structural)]
pub enum ReleaseCloseoutResultV1 {
    Complete,
    Incomplete,
    ReleaseIncident,
    InstrumentFailure,
}

#[derive(Debug, Clone, PartialEq, Eq)]
pub struct ReleaseCloseoutExpectedAssetV1 {
    pub name: String,
    pub size: u64,
    pub sha256: String,
    pub attestation_required: bool,
}

#[derive(Debug, Clone, PartialEq, Eq)]
pub struct ReleaseCloseoutObservedAssetV1 {
    pub asset_id: u64,
    pub name: String,
    pub size: u64,
    pub sha256: String,
}

#[derive(Debug, Clone, PartialEq, Eq)]
pub struct ReleaseCloseoutAttestationV1 {
    pub subject_name: String,
    pub subject_sha256: String,
    pub repository: String,
    pub workflow_path: String,
    pub git_ref: String,
    pub verified: bool,
}

/// Bounded observations supplied by release workflow adapters.
#[derive(Debug, Clone, PartialEq, Eq)]
pub struct ReleaseCloseoutEvidenceV1 {
    pub schema_id: String,
    pub schema_version: u32,
    pub repository: String,
    pub version: String,
    pub tag: String,
    pub commit: String,
    pub tree: String,
    pub workflow_path: String,
    pub workflow_run_id: u64,
    pub workflow_attempt: u32,
    pub authorization_reference: String,
    pub release_manifest_sha256: String,
    pub release_manifest_result: ReleaseManifestResultV2,
    pub draft: bool,
    pub github_prerelease: bool,
    pub expected_assets: Vec<ReleaseCloseoutExpectedAssetV1>,
    pub observed_assets: Vec<ReleaseCloseoutObservedAssetV1>,
    pub attestations: Vec<ReleaseCloseoutAttestationV1>,
    pub incident_reference: Option<String>,
    pub instrument_diagnostics: Vec<String>,
    pub claim_boundary: String,
}

/// Retained result of evaluating one exact draft release against its evidence.
#[derive(Debug, Clone, PartialEq, Eq)]
pub struct ReleaseCloseoutReceiptV1 {
    pub evidence: ReleaseCloseoutEvidenceV1,
    pub result: ReleaseCloseoutResultV1,
    pub gaps: Vec<String>,
}

// ---------------------------------------------------------------------------
// Shapes.
// ---------------------------------------------------------------------------

/// A Git object identity: 40 to 64 hexadecimal digits.
pub open spec fn git_object_id(s: Seq<char>) -> bool {
    40 <= s.len() <= 64 && all_hex(s)
}

fn is_git_object_id(s: &str) -> (r: bool)
    ensures
        r == git_object_id(s@),
{
    let n = crate::text::chars_of(s).len();
    40 <= n && n <= 64 && all_hex_str(s)
}

pub open spec fn reference_char(c: char) -> bool {
    ('0' <= c && c <= '9') || ('a' <= c && c <= 'z') || ('A' <= c && c <= 'Z') || c == '.' || c == '_'
        || c == ':' || c == '/' || c == '#' || c == '-'
}

pub open spec fn credential_markers() -> Seq<Seq<char>> {
    seq!["token="@, "password="@, "secret="@, "bearer "@]
}

pub open spec fn has_credential_material(s: Seq<char>) -> bool {
    exists|i: int| 0 <= i < 4 && contains(lower_text(s), #[trigger] credential_markers()[i])
}

/// A bounded reference token: non-empty, at most 200 bytes of a closed
/// ASCII alphabet, with no credential material.
pub open spec fn bounded_reference(s: Seq<char>) -> bool {
    &&& s.len() > 0
    &&& encode_utf8(s).len() <= 200
    &&& forall|i: int| 0 <= i < s.len() ==> reference_char(#[trigger] s[i])
    &&& !has_credential_material(s)
}

fn contains_credential_material(value: &str) -> (r: bool)
    ensures
        r == has_credential_material(value@),
{
    let lower = lowercase(value);
    proof {
        reveal_strlit("token=");
        reveal_strlit("password=");
        reveal_strlit("secret=");
        reveal_strlit("bearer ");
    }
    let a = contains_str(lower.as_str(), "token=");
    let b = contains_str(lower.as_str(), "password=");
    let c = contains_str(lower.as_str(), "secret=");
    let d = contains_str(lower.as_str(), "bearer ");
    proof {
        let m = credential_markers();
        assert(m[0] == "token="@ && m[1] == "password="@ && m[2] == "secret="@ && m[3] == "bearer "@);
        if has_credential_material(value@) {
            let i = choose|i: int| 0 <= i < 4 && contains(lower_text(value@), #[trigger] m[i]);
            assert(a || b || c || d);
        }
    }
    a || b || c || d
}

fn is_bounded_reference(value: &str) -> (r: bool)
    ensures
        r == bounded_reference(value@),
{
    let cs = crate::text::chars_of(value);
    if cs.len() == 0 || value.as_bytes().len() > 200 {
        return false;
    }
    let mut i: usize = 0;
    while i < cs.len()
        invariant
            i <= cs.len(),
            cs@ == value@,
            forall|k: int| 0 <= k < i ==> reference_char(#[trigger] value@[k]),
        decreases cs.len() - i,
    {
        let c = cs[i];
        let ok = ('0' <= c && c <= '9') || ('a' <= c && c <= 'z') || ('A' <= c && c <= 'Z') || c == '.' || c
            == '_' || c == ':' || c == '/' || c == '#' || c == '-';
        if !ok {
            return false;
        }
        i = i + 1;
    }
    !contains_credential_material(value)
}

// ---------------------------------------------------------------------------
// Name sets, in the byte order of their texts.
// ---------------------------------------------------------------------------

/// Inserts `x` into the ordered name list `t` unless it is already there.
pub open spec fn insert_name(t: Seq<Seq<char>>, x: Seq<char>) -> Seq<Seq<char>>
    decreases t.len(),
{
    if t.len() == 0 {
        seq![x]
    } else if x == t[0] {
        t
    } else if seq_lt(x, t[0]) {
        seq![x] + t
    } else {
        seq![t[0]] + insert_name(t.drop_first(), x)
    }
}

/// The distinct names of `s` in text order.
pub open spec fn ordered_names(s: Seq<Seq<char>>) -> Seq<Seq<char>>
    decreases s.len(),
{
    if s.len() == 0 {
        s
    } else {
        insert_name(ordered_names(s.drop_last()), s.last())
    }
}

proof fn lemma_insert_name_at(t: Seq<Seq<char>>, x: Seq<char>, pos: int)
    requires
        0 <= pos <= t.len(),
        forall|i: int| 0 <= i < pos ==> #[trigger] t[i] != x && !seq_lt(x, t[i]),
        pos < t.len() ==> t[pos] == x || seq_lt(x, t[pos]),
    ensures
        insert_name(t, x) == if pos < t.len() && t[pos] == x { t } else { t.insert(pos, x) },
    decreases t.len(),
{
    if t.len() == 0 {
        assert(t.insert(pos, x) =~= seq![x]);
    } else if pos == 0 {
        if t[0] != x {
            assert(t.insert(pos, x) =~= seq![x] + t);
        }
    } else {
        let rest = t.drop_first();
        assert forall|i: int| 0 <= i < pos - 1 implies #[trigger] rest[i] != x && !seq_lt(x, rest[i]) by {
            assert(rest[i] == t[i + 1]);
        }
        if pos - 1 < rest.len() {
            assert(rest[pos - 1] == t[pos]);
        }
        lemma_insert_name_at(rest, x, pos - 1);
        if pos < t.len() && t[pos] == x {
            assert(seq![t[0]] + rest =~= t);
        } else {
            assert(t.insert(pos, x) =~= seq![t[0]] + rest.insert(pos - 1, x));
        }
    }
}

fn insert_ordered(v: &mut Vec<String>, x: &str)
    ensures
        views(final(v)@) == insert_name(views(old(v)@), x@),
{
    let mut pos: usize = 0;
    while pos < v.len() && !str_eq(v[pos].as_str(), x) && !str_lt(x, v[pos].as_str())
        invariant
            pos <= v.len(),
            forall|i: int| 0 <= i < pos ==> #[trigger] views(v@)[i] != x@ && !seq_lt(x@, views(v@)[i]),
        decreases v.len() - pos,
    {
        pos = pos + 1;
    }
    let ghost before = views(v@);
    proof {
        lemma_insert_name_at(before, x@, pos as int);
    }
    if pos < v.len() && str_eq(v[pos].as_str(), x) {
        return;
    }
    v.insert(pos, x.to_string());
    assert(views(v@) =~= before.insert(pos as int, x@));
}

// ---------------------------------------------------------------------------
// Asset set.
// ---------------------------------------------------------------------------

pub open spec fn expected_name_taken(s: Seq<ReleaseCloseoutExpectedAssetV1>, i: int) -> bool {
    exists|j: int| 0 <= j < i && (#[trigger] s[j]).name@ == s[i].name@
}

pub open spec fn expected_asset_gaps(s: Seq<ReleaseCloseoutExpectedAssetV1>, i: int) -> Seq<Seq<char>> {
    note(blank(s[i].name@) || expected_name_taken(s, i), "expected asset name is empty or duplicated"@) + note(
        s[i].size == 0,
        "expected asset "@ + s[i].name@ + " has zero size"@,
    ) + note(!is_sha256_digest(s[i].sha256@), "expected asset "@ + s[i].name@ + " has malformed sha256"@)
}

pub open spec fn expected_gaps(s: Seq<ReleaseCloseoutExpectedAssetV1>, n: nat) -> Seq<Seq<char>>
    decreases n,
{
    if n == 0 {
        Seq::empty()
    } else {
        expected_gaps(s, (n - 1) as nat) + expected_asset_gaps(s, n - 1)
    }
}

pub open spec fn observed_id_taken(s: Seq<ReleaseCloseoutObservedAssetV1>, i: int) -> bool {
    exists|j: int| 0 <= j < i && (#[trigger] s[j]).asset_id == s[i].asset_id
}

pub open spec fn observed_name_taken(s: Seq<ReleaseCloseoutObservedAssetV1>, i: int) -> bool {
    exists|j: int| 0 <= j < i && (#[trigger] s[j]).name@ == s[i].name@
}

pub open spec fn observed_asset_gaps(s: Seq<ReleaseCloseoutObservedAssetV1>, i: int) -> Seq<Seq<char>> {
    note(s[i].asset_id == 0 || observed_id_taken(s, i), "observed asset id is zero or duplicated"@) + note(
        blank(s[i].name@) || observed_name_taken(s, i),
        "observed asset name is empty or duplicated"@,
    ) + note(!is_sha256_digest(s[i].sha256@), "observed asset "@ + s[i].name@ + " has malformed sha256"@)
}

pub open spec fn observed_gaps(s: Seq<ReleaseCloseoutObservedAssetV1>, n: nat) -> Seq<Seq<char>>
    decreases n,
{
    if n == 0 {
        Seq::empty()
    } else {
        observed_gaps(s, (n - 1) as nat) + observed_asset_gaps(s, n - 1)
    }
}

/// The non-blank expected names among the first `n`, in order.
pub open spec fn expected_names(s: Seq<ReleaseCloseoutExpectedAssetV1>, n: nat) -> Seq<Seq<char>>
    decreases n,
{
    if n == 0 {
        Seq::empty()
    } else if blank(s[n - 1].name@) {
        expected_names(s, (n - 1) as nat)
    } else {
        expected_names(s, (n - 1) as nat).push(s[n - 1].name@)
    }
}

pub open spec fn observed_names(s: Seq<ReleaseCloseoutObservedAssetV1>, n: nat) -> Seq<Seq<char>>
    decreases n,
{
    if n == 0 {
        Seq::empty()
    } else if blank(s[n - 1].name@) {
        observed_names(s, (n - 1) as nat)
    } else {
        observed_names(s, (n - 1) as nat).push(s[n - 1].name@)
    }
}

pub open spec fn expected_has(s: Seq<ReleaseCloseoutExpectedAssetV1>, name: Seq<char>) -> bool {
    exists|j: int| 0 <= j < s.len() && (#[trigger] s[j]).name@ == name
}

pub open spec fn observed_has(s: Seq<ReleaseCloseoutObservedAssetV1>, name: Seq<char>) -> bool {
    exists|j: int| 0 <= j < s.len() && (#[trigger] s[j]).name@ == name
}

/// The last expected asset named `name` among the first `n` (later entries
/// replace earlier ones).
pub open spec fn last_expected(s: Seq<ReleaseCloseoutExpectedAssetV1>, name: Seq<char>, n: nat) -> int
    decreases n,
{
    if n == 0 {
        -1
    } else if s[n - 1].name@ == name {
        n - 1
    } else {
        last_expected(s, name, (n - 1) as nat)
    }
}

pub open spec fn last_observed(s: Seq<ReleaseCloseoutObservedAssetV1>, name: Seq<char>, n: nat) -> int
    decreases n,
{
    if n == 0 {
        -1
    } else if s[n - 1].name@ == name {
        n - 1
    } else {
        last_observed(s, name, (n - 1) as nat)
    }
}

pub open spec fn missing_gaps(names: Seq<Seq<char>>, obs: Seq<ReleaseCloseoutObservedAssetV1>) -> Seq<Seq<char>>
    decreases names.len(),
{
    if names.len() == 0 {
        Seq::empty()
    } else {
        missing_gaps(names.drop_last(), obs) + note(
            !observed_has(obs, names.last()),
            "required draft asset "@ + names.last() + " is missing"@,
        )
    }
}

pub open spec fn extra_gaps(names: Seq<Seq<char>>, exp: Seq<ReleaseCloseoutExpectedAssetV1>) -> Seq<Seq<char>>
    decreases names.len(),
{
    if names.len() == 0 {
        Seq::empty()
    } else {
        extra_gaps(names.drop_last(), exp) + note(
            !expected_has(exp, names.last()),
            "unmanifested draft asset "@ + names.last() + " is present"@,
        )
    }
}

pub open spec fn name_diff_gaps(
    name: Seq<char>,
    exp: Seq<ReleaseCloseoutExpectedAssetV1>,
    obs: Seq<ReleaseCloseoutObservedAssetV1>,
) -> Seq<Seq<char>> {
    if !observed_has(obs, name) {
        Seq::empty()
    } else {
        let e = exp[last_expected(exp, name, exp.len())];
        let o = obs[last_observed(obs, name, obs.len())];
        note(e.size != o.size, "draft asset "@ + name + " size differs from expected"@) + note(
            e.sha256@ != o.sha256@,
            "draft asset "@ + name + " digest differs from expected"@,
        )
    }
}

pub open spec fn diff_gaps(
    names: Seq<Seq<char>>,
    exp: Seq<ReleaseCloseoutExpectedAssetV1>,
    obs: Seq<ReleaseCloseoutObservedAssetV1>,
) -> Seq<Seq<char>>
    decreases names.len(),
{
    if names.len() == 0 {
        Seq::empty()
    } else {
        diff_gaps(names.drop_last(), exp, obs) + name_diff_gaps(names.last(), exp, obs)
    }
}

/// Every gap of the asset-set comparison, in the order they are found.
pub open spec fn asset_gaps(e: ReleaseCloseoutEvidenceV1) -> Seq<Seq<char>> {
    let exp = e.expected_assets@;
    let obs = e.observed_assets@;
    if exp.len() == 0 {
        seq!["expected release asset set is empty"@]
    } else {
        let en = ordered_names(expected_names(exp, exp.len()));
        let on = ordered_names(observed_names(obs, obs.len()));
        expected_gaps(exp, exp.len()) + observed_gaps(obs, obs.len()) + missing_gaps(en, obs) + extra_gaps(on, exp)
            + diff_gaps(en, exp, obs)
    }
}

fn expected_taken(s: &Vec<ReleaseCloseoutExpectedAssetV1>, i: usize) -> (r: bool)
    requires
        i < s@.len(),
    ensures
        r == expected_name_taken(s@, i as int),
{
    let mut j: usize = 0;
    while j < i
        invariant
            j <= i < s@.len(),
            forall|k: int| 0 <= k < j ==> (#[trigger] s@[k]).name@ != s@[i as int].name@,
        decreases i - j,
    {
        if str_eq(s[j].name.as_str(), s[i].name.as_str()) {
            assert(s@[j as int].name@ == s@[i as int].name@);
            return true;
        }
        j = j + 1;
    }
    false
}

fn observed_taken(s: &Vec<ReleaseCloseoutObservedAssetV1>, i: usize) -> (r: (bool, bool))
    requires
        i < s@.len(),
    ensures
        r.0 == observed_id_taken(s@, i as int),
        r.1 == observed_name_taken(s@, i as int),
{
    let mut id = false;
    let mut name = false;
    let mut j: usize = 0;
    while j < i
        invariant
            j <= i < s@.len(),
            id == exists|k: int| 0 <= k < j && (#[trigger] s@[k]).asset_id == s@[i as int].asset_id,
            name == exists|k: int| 0 <= k < j && (#[trigger] s@[k]).name@ == s@[i as int].name@,
        decreases i - j,
    {
        if s[j].asset_id == s[i].asset_id {
            assert(s@[j as int].asset_id == s@[i as int].asset_id);
            id = true;
        }
        if str_eq(s[j].name.as_str(), s[i].name.as_str()) {
            assert(s@[j as int].name@ == s@[i as int].name@);
            name = true;
        }
        j = j + 1;
    }
    (id, name)
}

fn expected_index(s: &Vec<ReleaseCloseoutExpectedAssetV1>, name: &str) -> (r: Option<usize>)
    ensures
        match r {
            None => !expected_has(s@, name@) && last_expected(s@, name@, s@.len()) == -1,
            Some(k) => expected_has(s@, name@) && k as int == last_expected(s@, name@, s@.len()) && k < s@.len(),
        },
{
    let mut i: usize = s.len();
    while i > 0
        invariant
            i <= s@.len(),
            last_expected(s@, name@, s@.len()) == last_expected(s@, name@, i as nat),
            forall|k: int| i <= k < s@.len() ==> (#[trigger] s@[k]).name@ != name@,
        decreases i,
    {
        if str_eq(s[i - 1].name.as_str(), name) {
            assert(s@[i - 1].name@ == name@);
            return Some(i - 1);
        }
        i = i - 1;
    }
    None
}

fn observed_index(s: &Vec<ReleaseCloseoutObservedAssetV1>, name: &str) -> (r: Option<usize>)
    ensures
        match r {
            None => !observed_has(s@, name@) && last_observed(s@, name@, s@.len()) == -1,
            Some(k) => observed_has(s@, name@) && k as int == last_observed(s@, name@, s@.len()) && k < s@.len(),
        },
{
    let mut i: usize = s.len();
    while i > 0
        invariant
            i <= s@.len(),
            last_observed(s@, name@, s@.len()) == last_observed(s@, name@, i as nat),
            forall|k: int| i <= k < s@.len() ==> (#[trigger] s@[k]).name@ != name@,
        decreases i,
    {
        if str_eq(s[i - 1].name.as_str(), name) {
            assert(s@[i - 1].name@ == name@);
            return Some(i - 1);
        }
        i = i - 1;
    }
    None
}

fn expected_pass(exp: &Vec<ReleaseCloseoutExpectedAssetV1>, gaps: &mut Vec<String>) -> (en: Vec<String>)
    ensures
        views(final(gaps)@) == views(old(gaps)@) + expected_gaps(exp@, exp@.len()),
        views(en@) == ordered_names(expected_names(exp@, exp@.len())),
{
    let ghost base = views(gaps@);
    let mut en: Vec<String> = Vec::new();
    let mut i: usize = 0;
    assert(views(gaps@) =~= base + expected_gaps(exp@, 0));
    while i < exp.len()
        invariant
            i <= exp@.len(),
            views(gaps@) == base + expected_gaps(exp@, i as nat),
            views(en@) == ordered_names(expected_names(exp@, i as nat)),
        decreases exp@.len() - i,
    {
        let a = &exp[i];
        let ghost g0 = views(gaps@);
        let dup = is_blank(a.name.as_str()) || expected_taken(exp, i);
        note_if(gaps, dup, "expected asset name is empty or duplicated".to_string());
        note_if(gaps, a.size == 0, cat3("expected asset ", a.name.as_str(), " has zero size"));
        note_if(
            gaps,
            !is_sha256_digest_str(a.sha256.as_str()),
            cat3("expected asset ", a.name.as_str(), " has malformed sha256"),
        );
        assert(views(gaps@) =~= g0 + expected_asset_gaps(exp@, i as int));
        if !is_blank(a.name.as_str()) {
            proof {
                let ns = expected_names(exp@, i as nat);
                assert(ns.push(a.name@).drop_last() =~= ns);
            }
            insert_ordered(&mut en, a.name.as_str());
        }
        i = i + 1;
    }
    en
}

fn observed_pass(obs: &Vec<ReleaseCloseoutObservedAssetV1>, gaps: &mut Vec<String>) -> (on: Vec<String>)
    ensures
        views(final(gaps)@) == views(old(gaps)@) + observed_gaps(obs@, obs@.len()),
        views(on@) == ordered_names(observed_names(obs@, obs@.len())),
{
    let ghost base = views(gaps@);
    let mut on: Vec<String> = Vec::new();
    let mut k: usize = 0;
    assert(views(gaps@) =~= base + observed_gaps(obs@, 0));
    while k < obs.len()
        invariant
            k <= obs@.len(),
            views(gaps@) == base + observed_gaps(obs@, k as nat),
            views(on@) == ordered_names(observed_names(obs@, k as nat)),
        decreases obs@.len() - k,
    {
        let a = &obs[k];
        let ghost g0 = views(gaps@);
        let (id_taken, name_taken) = observed_taken(obs, k);
        note_if(gaps, a.asset_id == 0 || id_taken, "observed asset id is zero or duplicated".to_string());
        note_if(
            gaps,
            is_blank(a.name.as_str()) || name_taken,
            "observed asset name is empty or duplicated".to_string(),
        );
        note_if(
            gaps,
            !is_sha256_digest_str(a.sha256.as_str()),
            cat3("observed asset ", a.name.as_str(), " has malformed sha256"),
        );
        assert(views(gaps@) =~= g0 + observed_asset_gaps(obs@, k as int));
        if !is_blank(a.name.as_str()) {
            proof {
                let ns = observed_names(obs@, k as nat);
                assert(ns.push(a.name@).drop_last() =~= ns);
            }
            insert_ordered(&mut on, a.name.as_str());
        }
        k = k + 1;
    }
    on
}

fn missing_pass(en: &Vec<String>, obs: &Vec<ReleaseCloseoutObservedAssetV1>, gaps: &mut Vec<String>)
    ensures
        views(final(gaps)@) == views(old(gaps)@) + missing_gaps(views(en@), obs@),
{
    let ghost base = views(gaps@);
    let mut m: usize = 0;
    assert(views(en@).take(0) =~= Seq::<Seq<char>>::empty());
    while m < en.len()
        invariant
            m <= en@.len(),
            views(gaps@) == base + missing_gaps(views(en@).take(m as int), obs@),
        decreases en@.len() - m,
    {
        let present = observed_index(obs, en[m].as_str()).is_some();
        let ghost g0 = views(gaps@);
        note_if(gaps, !present, cat3("required draft asset ", en[m].as_str(), " is missing"));
        proof {
            let t = views(en@).take(m + 1);
            assert(t.drop_last() =~= views(en@).take(m as int));
            assert(t.last() == en@[m as int]@);
            assert(views(gaps@) =~= base + missing_gaps(t, obs@));
        }
        m = m + 1;
    }
    assert(views(en@).take(en@.len() as int) =~= views(en@));
}

fn extra_pass(on: &Vec<String>, exp: &Vec<ReleaseCloseoutExpectedAssetV1>, gaps: &mut Vec<String>)
    ensures
        views(final(gaps)@) == views(old(gaps)@) + extra_gaps(views(on@), exp@),
{
    let ghost base = views(gaps@);
    let mut x: usize = 0;
    assert(views(on@).take(0) =~= Seq::<Seq<char>>::empty());
    while x < on.len()
        invariant
            x <= on@.len(),
            views(gaps@) == base + extra_gaps(views(on@).take(x as int), exp@),
        decreases on@.len() - x,
    {
        let present = expected_index(exp, on[x].as_str()).is_some();
        note_if(gaps, !present, cat3("unmanifested draft asset ", on[x].as_str(), " is present"));
        proof {
            let t = views(on@).take(x + 1);
            assert(t.drop_last() =~= views(on@).take(x as int));
            assert(t.last() == on@[x as int]@);
            assert(views(gaps@) =~= base + extra_gaps(t, exp@));
        }
        x = x + 1;
    }
    assert(views(on@).take(on@.len() as int) =~= views(on@));
}

fn name_diff_pass(
    name: &str,
    exp: &Vec<ReleaseCloseoutExpectedAssetV1>,
    obs: &Vec<ReleaseCloseoutObservedAssetV1>,
    gaps: &mut Vec<String>,
)
    requires
        expected_has(exp@, name@),
    ensures
        views(final(gaps)@) == views(old(gaps)@) + name_diff_gaps(name@, exp@, obs@),
{
    let ghost base = views(gaps@);
    match observed_index(obs, name) {
        None => {
            assert(views(gaps@) =~= base + name_diff_gaps(name@, exp@, obs@));
        },
        Some(oi) => {
            match expected_index(exp, name) {
                None => {},
                Some(ei) => {
                    note_if(gaps, exp[ei].size != obs[oi].size, cat3("draft asset ", name, " size differs from expected"));
                    note_if(
                        gaps,
                        !str_eq(exp[ei].sha256.as_str(), obs[oi].sha256.as_str()),
                        cat3("draft asset ", name, " digest differs from expected"),
                    );
                    assert(views(gaps@) =~= base + name_diff_gaps(name@, exp@, obs@));
                },
            }
        },
    }
}

fn diff_pass(
    en: &Vec<String>,
    exp: &Vec<ReleaseCloseoutExpectedAssetV1>,
    obs: &Vec<ReleaseCloseoutObservedAssetV1>,
    gaps: &mut Vec<String>,
)
    requires
        views(en@) == ordered_names(expected_names(exp@, exp@.len())),
    ensures
        views(final(gaps)@) == views(old(gaps)@) + diff_gaps(views(en@), exp@, obs@),
{
    let ghost base = views(gaps@);
    let mut d: usize = 0;
    assert(views(en@).take(0) =~= Seq::<Seq<char>>::empty());
    while d < en.len()
        invariant
            d <= en@.len(),
            views(en@) == ordered_names(expected_names(exp@, exp@.len())),
            views(gaps@) == base + diff_gaps(views(en@).take(d as int), exp@, obs@),
        decreases en@.len() - d,
    {
        proof {
            lemma_ordered_names_members(expected_names(exp@, exp@.len()), d as int);
            lemma_expected_names_present(exp@, exp@.len(), en@[d as int]@);
        }
        name_diff_pass(en[d].as_str(), exp, obs, gaps);
        proof {
            let t = views(en@).take(d + 1);
            assert(t.drop_last() =~= views(en@).take(d as int));
            assert(t.last() == en@[d as int]@);
        }
        d = d + 1;
    }
    assert(views(en@).take(en@.len() as int) =~= views(en@));
}

fn validate_assets(e: &ReleaseCloseoutEvidenceV1, gaps: &mut Vec<String>)
    ensures
        views(final(gaps)@) == views(old(gaps)@) + asset_gaps(*e),
{
    let exp = &e.expected_assets;
    let obs = &e.observed_assets;
    let ghost base = views(gaps@);
    if exp.len() == 0 {
        gaps.push("expected release asset set is empty".to_string());
        assert(views(gaps@) =~= base + seq!["expected release asset set is empty"@]);
        return;
    }
    let en = expected_pass(exp, gaps);
    let on = observed_pass(obs, gaps);
    missing_pass(&en, obs, gaps);
    extra_pass(&on, exp, gaps);
    diff_pass(&en, exp, obs, gaps);
    assert(views(gaps@) =~= base + asset_gaps(*e));
}

proof fn lemma_insert_name_members(t: Seq<Seq<char>>, x: Seq<char>, i: int)
    requires
        0 <= i < insert_name(t, x).len(),
    ensures
        insert_name(t, x)[i] == x || exists|k: int| 0 <= k < t.len() && t[k] == insert_name(t, x)[i],
    decreases t.len(),
{
    if t.len() == 0 {
    } else if x == t[0] {
        assert(t[i] == insert_name(t, x)[i]);
    } else if seq_lt(x, t[0]) {
        if i > 0 {
            assert(t[i - 1] == insert_name(t, x)[i]);
        }
    } else {
        if i == 0 {
            assert(t[0] == insert_name(t, x)[i]);
        } else {
            let rest = t.drop_first();
            lemma_insert_name_members(rest, x, i - 1);
            if insert_name(rest, x)[i - 1] != x {
                let k = choose|k: int| 0 <= k < rest.len() && rest[k] == insert_name(rest, x)[i - 1];
                assert(t[k + 1] == insert_name(t, x)[i]);
            }
        }
    }
}

/// Every name in the ordered list comes from the listed names.
proof fn lemma_ordered_names_members(s: Seq<Seq<char>>, i: int)
    requires
        0 <= i < ordered_names(s).len(),
    ensures
        exists|k: int| 0 <= k < s.len() && s[k] == ordered_names(s)[i],
    decreases s.len(),
{
    if s.len() > 0 {
        let prev = ordered_names(s.drop_last());
        lemma_insert_name_members(prev, s.last(), i);
        if ordered_names(s)[i] == s.last() {
            assert(s[s.len() - 1] == ordered_names(s)[i]);
        } else {
            let k = choose|k: int| 0 <= k < prev.len() && prev[k] == ordered_names(s)[i];
            lemma_ordered_names_members(s.drop_last(), k);
            let k2 = choose|k2: int| 0 <= k2 < s.drop_last().len() && s.drop_last()[k2] == prev[k];
            assert(s[k2] == ordered_names(s)[i]);
        }
    }
}

/// A name listed among the expected names is an expected asset's name.
proof fn lemma_expected_names_present(s: Seq<ReleaseCloseoutExpectedAssetV1>, n: nat, name: Seq<char>)
    requires
        n <= s.len(),
        exists|k: int| 0 <= k < expected_names(s, n).len() && expected_names(s, n)[k] == name,
    ensures
        expected_has(s, name),
    decreases n,
{
    if n > 0 {
        let k = choose|k: int| 0 <= k < expected_names(s, n).len() && expected_names(s, n)[k] == name;
        if !blank(s[n - 1].name@) && k == expected_names(s, n).len() - 1 {
            assert(s[n - 1].name@ == name);
        } else {
            if !blank(s[n - 1].name@) {
                assert(expected_names(s, (n - 1) as nat)[k] == name);
            } else {
                assert(expected_names(s, n) == expected_names(s, (n - 1) as nat));
                assert(expected_names(s, (n - 1) as nat)[k] == name);
            }
            lemma_expected_names_present(s, (n - 1) as nat, name);
        }
    }
}

// ---------------------------------------------------------------------------
// Attestations.
// ---------------------------------------------------------------------------

pub open spec fn attestation_taken(a: Seq<ReleaseCloseoutAttestationV1>, i: int) -> bool {
    exists|j: int| 0 <= j < i && (#[trigger] a[j]).subject_name@ == a[i].subject_name@
}

pub open spec fn release_git_ref(e: ReleaseCloseoutEvidenceV1) -> Seq<char> {
    "refs/tags/"@ + e.tag@
}

pub open spec fn attestation_gaps_at(e: ReleaseCloseoutEvidenceV1, i: int) -> Seq<Seq<char>> {
    let a = e.attestations@[i];
    let name = a.subject_name@;
    let exp = e.expected_assets@;
    if blank(name) || attestation_taken(e.attestations@, i) {
        seq!["attestation subject is empty or duplicated"@]
    } else if !expected_has(exp, name) {
        seq!["attestation subject "@ + name + " is not an expected release asset"@]
    } else {
        let x = exp[last_expected(exp, name, exp.len())];
        note(!a.verified, "attestation for "@ + name + " is not verified"@) + note(
            a.subject_sha256@ != x.sha256@,
            "attestation subject digest for "@ + name + " differs from expected"@,
        ) + note(
            a.repository@ != e.repository@ || a.workflow_path@ != e.workflow_path@ || a.git_ref@
                != release_git_ref(e),
            "attestation identity for "@ + name + " differs from the release identity"@,
        )
    }
}

pub open spec fn attestation_loop_gaps(e: ReleaseCloseoutEvidenceV1, n: nat) -> Seq<Seq<char>>
    decreases n,
{
    if n == 0 {
        Seq::empty()
    } else {
        attestation_loop_gaps(e, (n - 1) as nat) + attestation_gaps_at(e, n - 1)
    }
}

/// A non-blank attestation names this subject.
pub open spec fn attested(a: Seq<ReleaseCloseoutAttestationV1>, name: Seq<char>) -> bool {
    exists|j: int| 0 <= j < a.len() && !blank((#[trigger] a[j]).subject_name@) && a[j].subject_name@ == name
}

pub open spec fn required_gaps(e: ReleaseCloseoutEvidenceV1, n: nat) -> Seq<Seq<char>>
    decreases n,
{
    if n == 0 {
        Seq::empty()
    } else {
        let x = e.expected_assets@[n - 1];
        required_gaps(e, (n - 1) as nat) + note(
            x.attestation_required && !attested(e.attestations@, x.name@),
            "required attestation for "@ + x.name@ + " is missing"@,
        )
    }
}

pub open spec fn attestation_gaps(e: ReleaseCloseoutEvidenceV1) -> Seq<Seq<char>> {
    attestation_loop_gaps(e, e.attestations@.len()) + required_gaps(e, e.expected_assets@.len())
}

fn attestation_seen(a: &Vec<ReleaseCloseoutAttestationV1>, i: usize) -> (r: bool)
    requires
        i < a@.len(),
    ensures
        r == attestation_taken(a@, i as int),
{
    let mut j: usize = 0;
    while j < i
        invariant
            j <= i < a@.len(),
            forall|k: int| 0 <= k < j ==> (#[trigger] a@[k]).subject_name@ != a@[i as int].subject_name@,
        decreases i - j,
    {
        if str_eq(a[j].subject_name.as_str(), a[i].subject_name.as_str()) {
            assert(a@[j as int].subject_name@ == a@[i as int].subject_name@);
            return true;
        }
        j = j + 1;
    }
    false
}

fn is_attested(a: &Vec<ReleaseCloseoutAttestationV1>, name: &str) -> (r: bool)
    ensures
        r == attested(a@, name@),
{
    let mut j: usize = 0;
    while j < a.len()
        invariant
            j <= a@.len(),
            forall|k: int| 0 <= k < j ==> !(!blank((#[trigger] a@[k]).subject_name@) && a@[k].subject_name@ == name@),
        decreases a@.len() - j,
    {
        if !is_blank(a[j].subject_name.as_str()) && str_eq(a[j].subject_name.as_str(), name) {
            assert(!blank(a@[j as int].subject_name@));
            return true;
        }
        j = j + 1;
    }
    false
}

fn attestation_pass_at(e: &ReleaseCloseoutEvidenceV1, i: usize, gaps: &mut Vec<String>)
    requires
        i < e.attestations@.len(),
    ensures
        views(final(gaps)@) == views(old(gaps)@) + attestation_gaps_at(*e, i as int),
{
    let ghost base = views(gaps@);
    let a = &e.attestations[i];
    let name = a.subject_name.as_str();
    if is_blank(name) || attestation_seen(&e.attestations, i) {
        gaps.push("attestation subject is empty or duplicated".to_string());
        assert(views(gaps@) =~= base + attestation_gaps_at(*e, i as int));
        return;
    }
    match expected_index(&e.expected_assets, name) {
        None => {
            gaps.push(cat3("attestation subject ", name, " is not an expected release asset"));
            assert(views(gaps@) =~= base + attestation_gaps_at(*e, i as int));
        },
        Some(k) => {
            let x = &e.expected_assets[k];
            note_if(gaps, !a.verified, cat3("attestation for ", name, " is not verified"));
            note_if(
                gaps,
                !str_eq(a.subject_sha256.as_str(), x.sha256.as_str()),
                cat3("attestation subject digest for ", name, " differs from expected"),
            );
            let git_ref = cat("refs/tags/", e.tag.as_str());
            proof {
                reveal_strlit("refs/tags/");
            }
            note_if(
                gaps,
                !str_eq(a.repository.as_str(), e.repository.as_str()) || !str_eq(
                    a.workflow_path.as_str(),
                    e.workflow_path.as_str(),
                ) || !str_eq(a.git_ref.as_str(), git_ref.as_str()),
                cat3("attestation identity for ", name, " differs from the release identity"),
            );
            assert(views(gaps@) =~= base + attestation_gaps_at(*e, i as int));
        },
    }
}

fn validate_attestations(e: &ReleaseCloseoutEvidenceV1, gaps: &mut Vec<String>)
    ensures
        views(final(gaps)@) == views(old(gaps)@) + attestation_gaps(*e),
{
    let ghost base = views(gaps@);
    let mut i: usize = 0;
    assert(views(gaps@) =~= base + attestation_loop_gaps(*e, 0));
    while i < e.attestations.len()
        invariant
            i <= e.attestations@.len(),
            views(gaps@) == base + attestation_loop_gaps(*e, i as nat),
        decreases e.attestations@.len() - i,
    {
        attestation_pass_at(e, i, gaps);
        i = i + 1;
    }
    let ghost mid = views(gaps@);
    let mut k: usize = 0;
    assert(views(gaps@) =~= mid + required_gaps(*e, 0));
    while k < e.expected_assets.len()
        invariant
            k <= e.expected_assets@.len(),
            views(gaps@) == mid + required_gaps(*e, k as nat),
        decreases e.expected_assets@.len() - k,
    {
        let x = &e.expected_assets[k];
        let missing = x.attestation_required && !is_attested(&e.attestations, x.name.as_str());
        note_if(gaps, missing, cat3("required attestation for ", x.name.as_str(), " is missing"));
        k = k + 1;
    }
    assert(views(gaps@) =~= base + attestation_gaps(*e));
}

// ---------------------------------------------------------------------------
// The receipt.
// ---------------------------------------------------------------------------

pub open spec fn schema_invalid(e: ReleaseCloseoutEvidenceV1) -> bool {
    e.schema_id@ != RELEASE_CLOSEOUT_V1_SCHEMA_ID@ || e.schema_version != RELEASE_CLOSEOUT_V1_SCHEMA_VERSION
}

pub open spec fn field_gaps(e: ReleaseCloseoutEvidenceV1) -> Seq<Seq<char>> {
    note(blank(e.repository@), "repository is missing"@) + note(blank(e.version@), "version is missing"@)
        + note(blank(e.tag@), "tag is missing"@) + note(blank(e.commit@), "commit is missing"@) + note(
        blank(e.tree@),
        "tree is missing"@,
    ) + note(blank(e.workflow_path@), "workflow_path is missing"@) + note(
        blank(e.authorization_reference@),
        "authorization_reference is missing"@,
    ) + note(blank(e.claim_boundary@), "claim_boundary is missing"@)
}

pub open spec fn identity_gaps(e: ReleaseCloseoutEvidenceV1) -> Seq<Seq<char>> {
    note(
        !valid_identity(e.version@, e.tag@, e.github_prerelease),
        "version, tag, and GitHub prerelease posture disagree"@,
    ) + note(!git_object_id(e.commit@), "commit is not a bounded hexadecimal object identity"@) + note(
        !git_object_id(e.tree@),
        "tree is not a bounded hexadecimal object identity"@,
    ) + note(e.workflow_run_id == 0 || e.workflow_attempt == 0, "workflow run or attempt identity is missing"@)
        + note(!bounded_reference(e.authorization_reference@), "authorization reference is not a bounded token"@)
        + note(!is_sha256_digest(e.release_manifest_sha256@), "release manifest digest is not canonical sha256"@)
        + note(e.release_manifest_result != ReleaseManifestResultV2::Complete, "ReleaseManifestV2 is not complete"@)
        + note(!e.draft, "GitHub release is not a draft during closeout evaluation"@)
}

/// Every closeout gap, in the order the evaluation finds them.
pub open spec fn closeout_gaps(e: ReleaseCloseoutEvidenceV1) -> Seq<Seq<char>> {
    note(schema_invalid(e), "release closeout uses a non-current schema generation"@) + field_gaps(e)
        + identity_gaps(e) + asset_gaps(e) + attestation_gaps(e) + note(
        e.incident_reference is Some,
        "release incident lineage is present"@,
    ) + note(e.instrument_diagnostics@.len() > 0, "release closeout instrument diagnostics are present"@)
}

/// Only gap-free evidence completes. Incident lineage is never erased, and
/// a broken instrument is told apart from an incomplete release.
pub open spec fn closeout_result(e: ReleaseCloseoutEvidenceV1) -> ReleaseCloseoutResultV1 {
    if closeout_gaps(e).len() == 0 {
        ReleaseCloseoutResultV1::Complete
    } else if e.incident_reference is Some {
        ReleaseCloseoutResultV1::ReleaseIncident
    } else if schema_invalid(e) || e.instrument_diagnostics@.len() > 0 {
        ReleaseCloseoutResultV1::InstrumentFailure
    } else {
        ReleaseCloseoutResultV1::Incomplete
    }
}

fn field_pass(e: &ReleaseCloseoutEvidenceV1, gaps: &mut Vec<String>)
    ensures
        views(final(gaps)@) == views(old(gaps)@) + field_gaps(*e),
{
    let ghost base = views(gaps@);
    note_if(gaps, is_blank(e.repository.as_str()), "repository is missing".to_string());
    note_if(gaps, is_blank(e.version.as_str()), "version is missing".to_string());
    note_if(gaps, is_blank(e.tag.as_str()), "tag is missing".to_string());
    note_if(gaps, is_blank(e.commit.as_str()), "commit is missing".to_string());
    note_if(gaps, is_blank(e.tree.as_str()), "tree is missing".to_string());
    note_if(gaps, is_blank(e.workflow_path.as_str()), "workflow_path is missing".to_string());
    note_if(gaps, is_blank(e.authorization_reference.as_str()), "authorization_reference is missing".to_string());
    note_if(gaps, is_blank(e.claim_boundary.as_str()), "claim_boundary is missing".to_string());
    assert(views(gaps@) =~= base + field_gaps(*e));
}

#[verifier::rlimit(40)]
fn identity_pass(e: &ReleaseCloseoutEvidenceV1, gaps: &mut Vec<String>)
    ensures
        views(final(gaps)@) == views(old(gaps)@) + identity_gaps(*e),
{
    let ghost base = views(gaps@);
    let identity_ok = ReleaseIdentityV1::parse(e.version.as_str(), e.tag.as_str(), e.github_prerelease).is_ok();
    note_if(gaps, !identity_ok, "version, tag, and GitHub prerelease posture disagree".to_string());
    note_if(
        gaps,
        !is_git_object_id(e.commit.as_str()),
        "commit is not a bounded hexadecimal object identity".to_string(),
    );
    note_if(gaps, !is_git_object_id(e.tree.as_str()), "tree is not a bounded hexadecimal object identity".to_string());
    note_if(
        gaps,
        e.workflow_run_id == 0 || e.workflow_attempt == 0,
        "workflow run or attempt identity is missing".to_string(),
    );
    note_if(
        gaps,
        !is_bounded_reference(e.authorization_reference.as_str()),
        "authorization reference is not a bounded token".to_string(),
    );
    note_if(
        gaps,
        !is_sha256_digest_str(e.release_manifest_sha256.as_str()),
        "release manifest digest is not canonical sha256".to_string(),
    );
    note_if(
        gaps,
        e.release_manifest_result != ReleaseManifestResultV2::Complete,
        "ReleaseManifestV2 is not complete".to_string(),
    );
    note_if(gaps, !e.draft, "GitHub release is not a draft during closeout evaluation".to_string());
    assert(views(gaps@) =~= base + identity_gaps(*e));
}

/// Evaluates one exact draft release against its retained evidence.
pub fn evaluate_release_closeout_v1(evidence: ReleaseCloseoutEvidenceV1) -> (r: ReleaseCloseoutReceiptV1)
    ensures
        r.evidence == evidence,
        views(r.gaps@) == closeout_gaps(evidence),
        r.result == closeout_result(evidence),
{
    let mut gaps: Vec<String> = Vec::new();
    let schema_bad = !str_eq(evidence.schema_id.as_str(), RELEASE_CLOSEOUT_V1_SCHEMA_ID)
        || evidence.schema_version != RELEASE_CLOSEOUT_V1_SCHEMA_VERSION;
    note_if(&mut gaps, schema_bad, "release closeout uses a non-current schema generation".to_string());
    field_pass(&evidence, &mut gaps);
    identity_pass(&evidence, &mut gaps);
    validate_assets(&evidence, &mut gaps);
    validate_attestations(&evidence, &mut gaps);
    note_if(&mut gaps, evidence.incident_reference.is_some(), "release incident lineage is present".to_string());
    note_if(
        &mut gaps,
        evidence.instrument_diagnostics.len() > 0,
        "release closeout instrument diagnostics are present".to_string(),
    );
    assert(views(gaps@) =~= closeout_gaps(evidence));
    let result = if gaps.len() == 0 {
        ReleaseCloseoutResultV1::Complete
    } else if evidence.incident_reference.is_some() {
        ReleaseCloseoutResultV1::ReleaseIncident
    } else if schema_bad || evidence.instrument_diagnostics.len() > 0 {
        ReleaseCloseoutResultV1::InstrumentFailure
    } else {
        ReleaseCloseoutResultV1::Incomplete
    };
    ReleaseCloseoutReceiptV1 { evidence, result, gaps }
}

// ---------------------------------------------------------------------------
// Laws.
// ---------------------------------------------------------------------------

/// Incident lineage cannot be erased by otherwise clean evidence: any
/// evidence carrying an incident reference closes out as an incident.
pub proof fn lemma_incident_lineage_survives(e: ReleaseCloseoutEvidenceV1)
    requires
        e.incident_reference is Some,
    ensures
        closeout_result(e) == ReleaseCloseoutResultV1::ReleaseIncident,
{
    reveal(note);
    assert(closeout_gaps(e).len() > 0);
}

/// Completion is exact: a complete closeout has no gap at all, so the
/// release manifest is complete, the release is a draft, and no incident or
/// instrument diagnostic is present.
pub proof fn lemma_complete_is_gap_free(e: ReleaseCloseoutEvidenceV1)
    requires
        closeout_result(e) == ReleaseCloseoutResultV1::Complete,
    ensures
        closeout_gaps(e).len() == 0,
        !schema_invalid(e),
        e.release_manifest_result == ReleaseManifestResultV2::Complete,
        e.draft,
        e.incident_reference is None,
        e.instrument_diagnostics@.len() == 0,
        e.expected_assets@.len() > 0,
{
    reveal(note);
}

} // verus!
