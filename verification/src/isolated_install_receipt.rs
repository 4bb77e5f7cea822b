//! Typed receipt for the isolated local-registry install of the exact
//! cargo-allow candidate.
//!
//! The receipt binds what the isolated install proved: which candidate rows
//! were packaged, what the isolated registry and its index contained, how the
//! actual resolved graph compared with the candidate artifact, and the
//! identity of the installed executable. Validation checks its structural law
//! without reading policy files, spawning Cargo, or touching a registry.
//! Portable identity only: absolute paths and private checkout locations are
//! rejected.

use vstd::prelude::*;
use crate::text::{
    any_contains, any_contains_str, ascii_lower, blank, cat, char_ascii_lower, chars_of, contains,
    contains_str, decimal, decimal_string, is_blank, is_sha256_digest, is_sha256_digest_str, note,
    note_if, str_eq, string_from_chars, views,
};

verus! {

pub const ISOLATED_INSTALL_RECEIPT_V2_SCHEMA_VERSION: u32 = 2;

pub const ISOLATED_INSTALL_RECEIPT_V2_SCHEMA_ID: &'static str = "cargo-allow.isolated-install.v2";

/// One candidate row as installed, with the actual resolved version.
#[derive(Debug, Clone, PartialEq, Eq)]
pub struct IsolatedInstallPackageRowV2 {
    pub package_name: String,
    pub package_version: String,
    /// sha256 of the packaged `.crate` that entered the registry.
    pub crate_digest: String,
    /// The checksum recorded in the isolated registry index row.
    pub index_checksum: String,
    /// The version `cargo metadata`/`--version` actually resolved; absent
    /// when the package is a library with no independently observable
    /// resolution beyond the graph comparison.
    pub resolved_version: Option<String>,
}

/// Actual-versus-expected resolved graph comparison.
#[derive(Debug, Clone, PartialEq, Eq)]
pub struct IsolatedInstallGraphComparisonV2 {
    pub expected_packages: u32,
    pub matched_packages: u32,
    pub unexpected_packages: Vec<String>,
    pub missing_packages: Vec<String>,
    pub version_mismatches: Vec<String>,
    pub path_sources: Vec<String>,
}


pub open spec fn graph_clean(g: IsolatedInstallGraphComparisonV2) -> bool {
    g.matched_packages == g.expected_packages && g.unexpected_packages@.len() == 0
        && g.missing_packages@.len() == 0 && g.version_mismatches@.len() == 0
        && g.path_sources@.len() == 0
}

impl IsolatedInstallGraphComparisonV2 {
    /// Every expected package matched, with nothing unexpected, missing,
    /// mismatched, or path-sourced.
    pub fn is_clean(&self) -> (r: bool)
        ensures
            r == graph_clean(*self),
    {
        self.matched_packages == self.expected_packages && self.unexpected_packages.len() == 0
            && self.missing_packages.len() == 0 && self.version_mismatches.len() == 0
            && self.path_sources.len() == 0
    }
}

/// Canonical semantic identity. Volatile execution metadata must live
/// beside the payload, not inside it.
#[derive(Debug, Clone, PartialEq, Eq)]
pub struct IsolatedInstallPayloadV2 {
    pub schema_id: String,
    pub schema_version: u32,
    /// sha256 of the `CargoAllowPackageCandidateV2` artifact consumed.
    pub candidate_artifact_digest: String,
    pub repository_commit: String,
    pub repository_tree: String,
    pub cargo_lock_digest: String,
    /// sha256 over the isolated registry index rows (deterministic digest
    /// of the sorted index JSON lines).
    pub registry_index_digest: String,
    /// Bounded identity of the mirrored external cache input (for example
    /// the warm Cargo home's lockfile-scoped cache digest); never a path.
    pub external_cache_identity: String,
    pub source_checkout_denied: bool,
    /// Portable identity of the fresh install root (sha256 of the root
    /// path at creation time), never the path itself.
    pub install_root_identity: String,
    /// Portable identity of the fresh Cargo home used for the install.
    pub cargo_home_identity: String,
    pub installed_executable_digest: String,
    /// Exact stdout of the installed binary's `--version`.
    pub installed_version_output: String,
    pub platform: String,
    pub toolchain: String,
    pub package_rows: Vec<IsolatedInstallPackageRowV2>,
    pub graph_comparison: IsolatedInstallGraphComparisonV2,
    pub limitations: Vec<String>,
    pub claim_boundary: String,
}

/// Closed validation vocabulary for the isolated install receipt.
#[derive(Debug, Clone, Copy, PartialEq, Eq, Structural)]
pub enum IsolatedInstallResultV2 {
    Complete,
    SourceFallbackDetected,
    PackageMissing,
    ChecksumMismatch,
    IndexMismatch,
    GraphMismatch,
    AmbientShadow,
    StaleInput,
    PathLeakInReceipt,
    MalformedArtifact,
    UnsupportedGeneration,
}

#[derive(Debug, Clone, PartialEq, Eq)]
pub struct IsolatedInstallV2Validation {
    pub result: IsolatedInstallResultV2,
    pub gaps: Vec<String>,
}


pub open spec fn install_generation_current(p: IsolatedInstallPayloadV2) -> bool {
    p.schema_id@ == ISOLATED_INSTALL_RECEIPT_V2_SCHEMA_ID@ && p.schema_version
        == ISOLATED_INSTALL_RECEIPT_V2_SCHEMA_VERSION
}

/// Markers of private absolute path data, matched case-insensitively.
pub open spec fn private_markers() -> Seq<Seq<char>> {
    Seq::empty().push("/home/"@).push("/users/"@).push("c:\\"@).push("/runner/work/"@).push(
        "\\cargo-allow\\"@,
    ).push("/cargo-allow/crates/"@)
}

pub open spec fn lowered(s: Seq<char>) -> Seq<char> {
    s.map_values(|c: char| ascii_lower(c))
}

pub open spec fn private_path(s: Seq<char>) -> bool {
    exists|k: int| 0 <= k < 6 && contains(lowered(s), #[trigger] private_markers()[k])
}

pub open spec fn row_private(r: IsolatedInstallPackageRowV2) -> bool {
    private_path(r.package_name@) || private_path(r.package_version@)
}

pub open spec fn carries_private_paths(p: IsolatedInstallPayloadV2) -> bool {
    private_path(p.external_cache_identity@) || private_path(p.installed_version_output@)
        || private_path(p.claim_boundary@) || exists|k: int|
        0 <= k < p.package_rows@.len() && row_private(#[trigger] p.package_rows@[k])
}

pub open spec fn row_label(k: int) -> Seq<char> {
    "rows["@ + decimal(k as nat) + "]"@
}

pub open spec fn install_row_gaps(rows: Seq<IsolatedInstallPackageRowV2>, k: int) -> Seq<Seq<char>> {
    let r = rows[k];
    let label = row_label(k);
    note(
        blank(r.package_name@) || exists|j: int|
            0 <= j < k && #[trigger] rows[j].package_name@ == r.package_name@,
        label + " package name is empty or duplicated"@,
    ) + note(blank(r.package_version@), label + " package version is missing"@) + note(
        !is_sha256_digest(r.crate_digest@),
        label + " crate_digest is not a sha256 digest"@,
    ) + note(!is_sha256_digest(r.index_checksum@), label + " index_checksum is not a sha256 digest"@)
        + note(
        r.resolved_version is Some && blank(r.resolved_version->0@),
        label + " resolved_version is blank"@,
    )
}

pub open spec fn install_rows_gaps(rows: Seq<IsolatedInstallPackageRowV2>, n: nat) -> Seq<Seq<char>>
    decreases n,
{
    if n == 0 {
        Seq::empty()
    } else {
        install_rows_gaps(rows, (n - 1) as nat) + install_row_gaps(rows, n - 1)
    }
}

/// `prefix` followed by the gap of each required field that is blank.
pub open spec fn with_missing_gaps(prefix: Seq<Seq<char>>, p: IsolatedInstallPayloadV2) -> Seq<Seq<char>> {
    prefix
        + note(blank(p.candidate_artifact_digest@), "candidate_artifact_digest is missing"@)
        + note(blank(p.repository_commit@), "repository_commit is missing"@)
        + note(blank(p.repository_tree@), "repository_tree is missing"@)
        + note(blank(p.cargo_lock_digest@), "cargo_lock_digest is missing"@)
        + note(blank(p.registry_index_digest@), "registry_index_digest is missing"@)
        + note(blank(p.external_cache_identity@), "external_cache_identity is missing"@)
        + note(blank(p.install_root_identity@), "install_root_identity is missing"@)
        + note(blank(p.cargo_home_identity@), "cargo_home_identity is missing"@)
        + note(blank(p.installed_executable_digest@), "installed_executable_digest is missing"@)
        + note(blank(p.installed_version_output@), "installed_version_output is missing"@)
        + note(blank(p.platform@), "platform is missing"@)
        + note(blank(p.toolchain@), "toolchain is missing"@)
        + note(blank(p.claim_boundary@), "claim_boundary is missing"@)
}

/// `prefix` followed by the digest-shape gaps, the source-denial gap and
/// the empty-rows gap.
pub open spec fn with_identity_gaps(prefix: Seq<Seq<char>>, p: IsolatedInstallPayloadV2) -> Seq<Seq<char>> {
    prefix
        + note(!blank(p.candidate_artifact_digest@) && !is_sha256_digest(p.candidate_artifact_digest@), "candidate_artifact_digest is not a sha256 digest"@)
        + note(!blank(p.cargo_lock_digest@) && !is_sha256_digest(p.cargo_lock_digest@), "cargo_lock_digest is not a sha256 digest"@)
        + note(!blank(p.registry_index_digest@) && !is_sha256_digest(p.registry_index_digest@), "registry_index_digest is not a sha256 digest"@)
        + note(!blank(p.installed_executable_digest@) && !is_sha256_digest(p.installed_executable_digest@), "installed_executable_digest is not a sha256 digest"@)
        + note(!blank(p.install_root_identity@) && !is_sha256_digest(p.install_root_identity@), "install_root_identity must be a sha256 portable identity"@)
        + note(!blank(p.cargo_home_identity@) && !is_sha256_digest(p.cargo_home_identity@), "cargo_home_identity must be a sha256 portable identity"@)
        + note(!p.source_checkout_denied, "source checkout denial is not proven"@)
        + note(p.package_rows@.len() == 0, "package rows are empty"@)
}

/// Every structural gap, in the order the law checks them.
pub open spec fn install_gaps(p: IsolatedInstallPayloadV2) -> Seq<Seq<char>> {
    with_identity_gaps(
        with_missing_gaps(
            note(!install_generation_current(p), "payload uses a non-current isolated-install generation"@),
            p,
        ),
        p,
    ) + install_rows_gaps(p.package_rows@, p.package_rows@.len()) + note(
        !graph_clean(p.graph_comparison),
        "resolved graph comparison is not clean"@,
    ) + note(carries_private_paths(p), "receipt carries private absolute path data"@)
}

pub open spec fn install_result(p: IsolatedInstallPayloadV2) -> IsolatedInstallResultV2 {
    let gaps = install_gaps(p);
    if !install_generation_current(p) {
        IsolatedInstallResultV2::UnsupportedGeneration
    } else if carries_private_paths(p) {
        IsolatedInstallResultV2::PathLeakInReceipt
    } else if !p.source_checkout_denied {
        IsolatedInstallResultV2::SourceFallbackDetected
    } else if !graph_clean(p.graph_comparison) {
        IsolatedInstallResultV2::GraphMismatch
    } else if any_contains(gaps, "not a sha256 digest"@) || any_contains(gaps, "is missing"@) {
        IsolatedInstallResultV2::StaleInput
    } else if gaps.len() == 0 {
        IsolatedInstallResultV2::Complete
    } else {
        IsolatedInstallResultV2::MalformedArtifact
    }
}

fn lower_text(s: &str) -> (r: String)
    ensures
        r@ == lowered(s@),
{
    let x = chars_of(s);
    let mut out: Vec<char> = Vec::new();
    let mut k: usize = 0;
    while k < x.len()
        invariant
            k <= x.len(),
            x@ == s@,
            out@ == lowered(x@.take(k as int)),
        decreases x.len() - k,
    {
        out.push(char_ascii_lower(x[k]));
        assert(out@ =~= lowered(x@.take(k + 1)));
        k = k + 1;
    }
    assert(x@.take(k as int) =~= x@);
    string_from_chars(&out)
}

fn is_private_path(value: &str) -> (r: bool)
    ensures
        r == private_path(value@),
{
    let l = lower_text(value);
    let ghost m = private_markers();
    let a = contains_str(l.as_str(), "/home/");
    let b = contains_str(l.as_str(), "/users/");
    let c = contains_str(l.as_str(), "c:\\");
    let d = contains_str(l.as_str(), "/runner/work/");
    let e = contains_str(l.as_str(), "\\cargo-allow\\");
    let f = contains_str(l.as_str(), "/cargo-allow/crates/");
    proof {
        assert(m[0] == "/home/"@);
        assert(m[1] == "/users/"@);
        assert(m[2] == "c:\\"@);
        assert(m[3] == "/runner/work/"@);
        assert(m[4] == "\\cargo-allow\\"@);
        assert(m[5] == "/cargo-allow/crates/"@);
        if private_path(value@) {
            let k = choose|k: int| 0 <= k < 6 && contains(lowered(value@), #[trigger] m[k]);
            assert(k == 0 || k == 1 || k == 2 || k == 3 || k == 4 || k == 5);
        }
    }
    a || b || c || d || e || f
}

fn has_private_paths(p: &IsolatedInstallPayloadV2) -> (r: bool)
    ensures
        r == carries_private_paths(*p),
{
    if is_private_path(p.external_cache_identity.as_str()) || is_private_path(
        p.installed_version_output.as_str(),
    ) || is_private_path(p.claim_boundary.as_str()) {
        return true;
    }
    let mut k: usize = 0;
    while k < p.package_rows.len()
        invariant
            k <= p.package_rows.len(),
            forall|j: int| 0 <= j < k ==> !row_private(#[trigger] p.package_rows@[j]),
        decreases p.package_rows.len() - k,
    {
        if is_private_path(p.package_rows[k].package_name.as_str()) || is_private_path(
            p.package_rows[k].package_version.as_str(),
        ) {
            assert(row_private(p.package_rows@[k as int]));
            return true;
        }
        assert(!row_private(p.package_rows@[k as int]));
        k = k + 1;
    }
    false
}

fn name_seen_before(rows: &Vec<IsolatedInstallPackageRowV2>, k: usize) -> (r: bool)
    requires
        k < rows@.len(),
    ensures
        r == exists|j: int| 0 <= j < k && #[trigger] rows@[j].package_name@ == rows@[k as int].package_name@,
{
    let mut j: usize = 0;
    while j < k
        invariant
            j <= k < rows@.len(),
            forall|x: int| 0 <= x < j ==> #[trigger] rows@[x].package_name@ != rows@[k as int].package_name@,
        decreases k - j,
    {
        if str_eq(rows[j].package_name.as_str(), rows[k].package_name.as_str()) {
            return true;
        }
        j = j + 1;
    }
    false
}

fn push_install_row_gaps(
    rows: &Vec<IsolatedInstallPackageRowV2>,
    k: usize,
    gaps: &mut Vec<String>,
)
    requires
        k < rows@.len(),
    ensures
        views(final(gaps)@) == views(old(gaps)@) + install_row_gaps(rows@, k as int),
{
    let r = &rows[k];
    let mut label = cat("rows[", decimal_string(k as u64).as_str());
    crate::text::push_str(&mut label, "]");
    let blank_name = is_blank(r.package_name.as_str());
    let dup = !blank_name && name_seen_before(rows, k);
    let ghost g0 = views(gaps@);
    note_if(gaps, blank_name || dup, cat(label.as_str(), " package name is empty or duplicated"));
    note_if(
        gaps,
        is_blank(r.package_version.as_str()),
        cat(label.as_str(), " package version is missing"),
    );
    note_if(
        gaps,
        !is_sha256_digest_str(r.crate_digest.as_str()),
        cat(label.as_str(), " crate_digest is not a sha256 digest"),
    );
    note_if(
        gaps,
        !is_sha256_digest_str(r.index_checksum.as_str()),
        cat(label.as_str(), " index_checksum is not a sha256 digest"),
    );
    let blank_resolved = match &r.resolved_version {
        Some(v) => is_blank(v.as_str()),
        None => false,
    };
    note_if(gaps, blank_resolved, cat(label.as_str(), " resolved_version is blank"));
    proof {
        let l = label@;
        let n1 = note(blank_name || dup, l + " package name is empty or duplicated"@);
        let n2 = note(blank(r.package_version@), l + " package version is missing"@);
        let n3 = note(!is_sha256_digest(r.crate_digest@), l + " crate_digest is not a sha256 digest"@);
        let n4 = note(
            !is_sha256_digest(r.index_checksum@),
            l + " index_checksum is not a sha256 digest"@,
        );
        let n5 = note(blank_resolved, l + " resolved_version is blank"@);
        crate::text::lemma_concat_assoc(g0, n1, n2);
        crate::text::lemma_concat_assoc(g0, n1 + n2, n3);
        crate::text::lemma_concat_assoc(g0, n1 + n2 + n3, n4);
        crate::text::lemma_concat_assoc(g0, n1 + n2 + n3 + n4, n5);
    }
}

fn push_missing_gaps(payload: &IsolatedInstallPayloadV2, gaps: &mut Vec<String>)
    ensures
        views(final(gaps)@) == with_missing_gaps(views(old(gaps)@), *payload),
{
    note_if(gaps, is_blank(payload.candidate_artifact_digest.as_str()), "candidate_artifact_digest is missing".to_string());
    note_if(gaps, is_blank(payload.repository_commit.as_str()), "repository_commit is missing".to_string());
    note_if(gaps, is_blank(payload.repository_tree.as_str()), "repository_tree is missing".to_string());
    note_if(gaps, is_blank(payload.cargo_lock_digest.as_str()), "cargo_lock_digest is missing".to_string());
    note_if(gaps, is_blank(payload.registry_index_digest.as_str()), "registry_index_digest is missing".to_string());
    note_if(gaps, is_blank(payload.external_cache_identity.as_str()), "external_cache_identity is missing".to_string());
    note_if(gaps, is_blank(payload.install_root_identity.as_str()), "install_root_identity is missing".to_string());
    note_if(gaps, is_blank(payload.cargo_home_identity.as_str()), "cargo_home_identity is missing".to_string());
    note_if(gaps, is_blank(payload.installed_executable_digest.as_str()), "installed_executable_digest is missing".to_string());
    note_if(gaps, is_blank(payload.installed_version_output.as_str()), "installed_version_output is missing".to_string());
    note_if(gaps, is_blank(payload.platform.as_str()), "platform is missing".to_string());
    note_if(gaps, is_blank(payload.toolchain.as_str()), "toolchain is missing".to_string());
    note_if(gaps, is_blank(payload.claim_boundary.as_str()), "claim_boundary is missing".to_string());
}

fn push_identity_gaps(payload: &IsolatedInstallPayloadV2, gaps: &mut Vec<String>)
    ensures
        views(final(gaps)@) == with_identity_gaps(views(old(gaps)@), *payload),
{
    note_if(
        gaps,
        !is_blank(payload.candidate_artifact_digest.as_str()) && !is_sha256_digest_str(payload.candidate_artifact_digest.as_str()),
        "candidate_artifact_digest is not a sha256 digest".to_string(),
    );
    note_if(
        gaps,
        !is_blank(payload.cargo_lock_digest.as_str()) && !is_sha256_digest_str(payload.cargo_lock_digest.as_str()),
        "cargo_lock_digest is not a sha256 digest".to_string(),
    );
    note_if(
        gaps,
        !is_blank(payload.registry_index_digest.as_str()) && !is_sha256_digest_str(payload.registry_index_digest.as_str()),
        "registry_index_digest is not a sha256 digest".to_string(),
    );
    note_if(
        gaps,
        !is_blank(payload.installed_executable_digest.as_str()) && !is_sha256_digest_str(payload.installed_executable_digest.as_str()),
        "installed_executable_digest is not a sha256 digest".to_string(),
    );
    note_if(
        gaps,
        !is_blank(payload.install_root_identity.as_str()) && !is_sha256_digest_str(payload.install_root_identity.as_str()),
        "install_root_identity must be a sha256 portable identity".to_string(),
    );
    note_if(
        gaps,
        !is_blank(payload.cargo_home_identity.as_str()) && !is_sha256_digest_str(payload.cargo_home_identity.as_str()),
        "cargo_home_identity must be a sha256 portable identity".to_string(),
    );
    note_if(gaps, !payload.source_checkout_denied, "source checkout denial is not proven".to_string());
    note_if(gaps, payload.package_rows.len() == 0, "package rows are empty".to_string());
}

fn collect_install_gaps(payload: &IsolatedInstallPayloadV2, current: bool) -> (gaps: Vec<String>)
    requires
        current == install_generation_current(*payload),
    ensures
        views(gaps@) == install_gaps(*payload),
{
    let mut gaps: Vec<String> = Vec::new();
    note_if(
        &mut gaps,
        !current,
        "payload uses a non-current isolated-install generation".to_string(),
    );
    assert(views(gaps@) =~= note(
        !install_generation_current(*payload),
        "payload uses a non-current isolated-install generation"@,
    ));
    push_missing_gaps(payload, &mut gaps);
    push_identity_gaps(payload, &mut gaps);
    let ghost before_rows = views(gaps@);
    let mut i: usize = 0;
    while i < payload.package_rows.len()
        invariant
            i <= payload.package_rows.len(),
            views(gaps@) == before_rows + install_rows_gaps(payload.package_rows@, i as nat),
        decreases payload.package_rows.len() - i,
    {
        push_install_row_gaps(&payload.package_rows, i, &mut gaps);
        proof {
            crate::text::lemma_concat_assoc(
                before_rows,
                install_rows_gaps(payload.package_rows@, i as nat),
                install_row_gaps(payload.package_rows@, i as int),
            );
        }
        i = i + 1;
    }
    note_if(
        &mut gaps,
        !payload.graph_comparison.is_clean(),
        "resolved graph comparison is not clean".to_string(),
    );
    note_if(
        &mut gaps,
        has_private_paths(payload),
        "receipt carries private absolute path data".to_string(),
    );
    assert(views(gaps@) =~= install_gaps(*payload));
    gaps
}

/// Validates the receipt's structural law: the source checkout must be
/// proven denied, the graph comparison must be clean, every row must be
/// checksummed, no field may carry private absolute path data, and the
/// repository and lock identity must be present and well formed. Every gap
/// is reported; the result names the first failing class of the law.
pub fn validate_isolated_install_v2(payload: &IsolatedInstallPayloadV2) -> (r:
    IsolatedInstallV2Validation)
    ensures
        views(r.gaps@) == install_gaps(*payload),
        r.result == install_result(*payload),
{
    let current = str_eq(payload.schema_id.as_str(), ISOLATED_INSTALL_RECEIPT_V2_SCHEMA_ID)
        && payload.schema_version == ISOLATED_INSTALL_RECEIPT_V2_SCHEMA_VERSION;
    let gaps = collect_install_gaps(payload, current);
    let result = if !current {
        IsolatedInstallResultV2::UnsupportedGeneration
    } else if has_private_paths(payload) {
        IsolatedInstallResultV2::PathLeakInReceipt
    } else if !payload.source_checkout_denied {
        IsolatedInstallResultV2::SourceFallbackDetected
    } else if !payload.graph_comparison.is_clean() {
        IsolatedInstallResultV2::GraphMismatch
    } else if any_contains_str(&gaps, "not a sha256 digest") || any_contains_str(
        &gaps,
        "is missing",
    ) {
        IsolatedInstallResultV2::StaleInput
    } else if gaps.len() == 0 {
        IsolatedInstallResultV2::Complete
    } else {
        IsolatedInstallResultV2::MalformedArtifact
    };
    IsolatedInstallV2Validation { result, gaps }
}

/// The receipt's structural law: a receipt validates `Complete` only when it
/// is of the current generation, the source checkout was proven denied, the
/// resolved graph compared clean, no field carries private absolute path
/// data, and validation found no gap at all.
pub proof fn lemma_complete_receipt_meets_the_structural_law(p: IsolatedInstallPayloadV2)
    requires
        install_result(p) == IsolatedInstallResultV2::Complete,
    ensures
        install_generation_current(p),
        p.source_checkout_denied,
        graph_clean(p.graph_comparison),
        !carries_private_paths(p),
        install_gaps(p).len() == 0,
{
}

} // verus!
