//! Operator-side custody for one real out-of-tree final-release
//! authorization: how the decision is minted, stored outside the frozen
//! source tree, read back, selected exactly once, and settled, without ever
//! becoming frozen package input or carrying secret material.

use vstd::prelude::*;
use crate::digest::{digest_text, text_digest};
use crate::json::{
    json_arr, json_bool, json_obj, json_opt_str, json_str, json_str_array, json_string_array, kv,
    string_views, JsonList,
};
use vstd::utf8::encode_utf8;
use crate::release_authorization::{
    authorization_statement_digest, consumption_step_allowed, json_evidence, json_freeze,
    json_operation, render_freeze, render_operation, render_evidence,
    statement_digest, transition_authorization_consumption, ReleaseAuthorizationAuthorityKindV1,
    ReleaseAuthorizationConsumptionV1, ReleaseAuthorizationEvidenceV1, ReleaseAuthorizationFreezeV1,
    ReleaseAuthorizationInputV1, ReleaseAuthorizationOperationV1, ReleaseAuthorizationPackageRowV1,
    ReleaseAuthorizationSharedRowV1, RELEASE_AUTHORIZATION_AUTH_CLASS,
    RELEASE_AUTHORIZATION_FINAL_OPERATION, RELEASE_AUTHORIZATION_FINAL_TAG,
    RELEASE_AUTHORIZATION_FINAL_VERSION, RELEASE_AUTHORIZATION_SCHEMA_ID,
    RELEASE_AUTHORIZATION_SCHEMA_VERSION, RELEASE_AUTHORIZATION_STABLE_CHANNEL,
};
use crate::text::{
    is_lower_sha256_digest,
    decimal, decimal_string, push_char, push_str, blank, contains, contains_str, eq_ignore_ascii_case, is_blank, is_git_sha, is_git_sha_str,
    is_sha256_digest, is_sha256_digest_str, starts_with, starts_with_str, str_eq,
    str_eq_ignore_ascii_case, views,
};

verus! {

/// Free-text markers that must never appear in custody or journal records:
/// records carry digests, locators, and policy names, never secret values.
pub open spec fn secret_markers() -> Seq<Seq<char>> {
    Seq::empty().push("BEGIN PRIVATE KEY"@).push("BEGIN RSA PRIVATE KEY"@).push(
        "BEGIN EC PRIVATE KEY"@,
    ).push("BEGIN OPENSSH PRIVATE KEY"@).push("ghp_"@).push("github_pat_"@).push("AKIA"@).push(
        "xoxb-"@,
    ).push("xoxp-"@).push("xoxa-"@).push("password="@).push("token="@)
}

/// The first marker (in table order) at or after position `k` that `s`
/// contains.
pub open spec fn secret_marker_from(s: Seq<char>, k: nat) -> Option<Seq<char>>
    decreases 12 - k,
{
    if k >= 12 {
        None
    } else if contains(s, secret_markers()[k as int]) {
        Some(secret_markers()[k as int])
    } else {
        secret_marker_from(s, k + 1)
    }
}

pub open spec fn secret_marker_spec(s: Seq<char>) -> Option<Seq<char>> {
    secret_marker_from(s, 0)
}

fn secret_marker_at(k: usize) -> (r: &'static str)
    requires
        k < 12,
    ensures
        r@ == secret_markers()[k as int],
{
    if k == 0 {
        "BEGIN PRIVATE KEY"
    } else if k == 1 {
        "BEGIN RSA PRIVATE KEY"
    } else if k == 2 {
        "BEGIN EC PRIVATE KEY"
    } else if k == 3 {
        "BEGIN OPENSSH PRIVATE KEY"
    } else if k == 4 {
        "ghp_"
    } else if k == 5 {
        "github_pat_"
    } else if k == 6 {
        "AKIA"
    } else if k == 7 {
        "xoxb-"
    } else if k == 8 {
        "xoxp-"
    } else if k == 9 {
        "xoxa-"
    } else if k == 10 {
        "password="
    } else {
        "token="
    }
}

/// The first secret marker `value` contains, if any.
pub(crate) fn secret_marker(value: &str) -> (r: Option<&'static str>)
    ensures
        match r {
            None => secret_marker_spec(value@) is None,
            Some(m) => secret_marker_spec(value@) == Some(m@),
        },
{
    let mut k: usize = 0;
    while k < 12
        invariant
            k <= 12,
            secret_marker_spec(value@) == secret_marker_from(value@, k as nat),
        decreases 12 - k,
    {
        let m = secret_marker_at(k);
        if contains_str(value, m) {
            return Some(m);
        }
        k = k + 1;
    }
    None
}

pub const AUTHORIZATION_CUSTODY_SCHEMA_ID: &'static str = "cargo-allow.release-authorization-custody.v1";

pub const AUTHORIZATION_CUSTODY_SCHEMA_VERSION: u32 = 1;

pub const AUTHORIZATION_CONSUMPTION_SCHEMA_ID: &'static str = "cargo-allow.release-authorization-consumption.v1";

pub const AUTHORIZATION_CONSUMPTION_SCHEMA_VERSION: u32 = 1;

/// Replay outcomes that prove the frozen subject reproduces. Anything else
/// cannot be minted against.
pub const AUTHORIZATION_CUSTODY_COMPLETE_REPLAY_RESULTS: [&'static str; 2] = ["Complete", "CompleteEquivalent"];

pub const AUTHORIZATION_CUSTODY_CLAIM_BOUNDARY: &'static str = "This record models operator-side minting, out-of-tree custody, readback, one-use selection, and consumption of one immutable final-release authorization decision. It does not authenticate the maintainer, create or move a tag, read a credential, upload a package, grant recovery authority, or execute publication.";

/// Out-of-tree storage binding for one minted authorization.
#[derive(Debug, Clone, PartialEq, Eq)]
pub struct AuthorizationCustodyStorageV1 {
    /// Absolute storage locator (URI with explicit scheme). Never an in-tree path.
    pub locator: String,
    /// Bounded access policy name. Names who may read, never carries credentials.
    pub access_policy: String,
    pub retention_expiry_unix_seconds: u64,
}

/// Mint declaration: the exact Complete freeze and replay result the
/// maintainer decision was made against.
#[derive(Debug, Clone, PartialEq, Eq)]
pub struct AuthorizationCustodyMintV1 {
    pub freeze_receipt_digest: String,
    pub replay_digest: String,
    pub replay_result: String,
    pub candidate_custody_digest: String,
    pub minted_by: String,
    pub minted_at_unix_seconds: u64,
}

/// One append-only custody state transition. The immutable decision is never
/// rewritten; only the custody record advances.
#[derive(Debug, Clone, PartialEq, Eq)]
pub struct AuthorizationCustodyTransitionV1 {
    pub from: ReleaseAuthorizationConsumptionV1,
    pub to: ReleaseAuthorizationConsumptionV1,
    pub at_unix_seconds: u64,
    pub reason: String,
}

/// Custody record for one minted authorization. The use-state vocabulary is
/// the shared consumption lifecycle.
#[derive(Debug, Clone, PartialEq, Eq)]
pub struct CargoAllowReleaseAuthorizationCustodyV1 {
    pub schema_id: String,
    pub schema_version: u32,
    pub authorization_id: String,
    pub authorization_digest: String,
    pub operation: ReleaseAuthorizationOperationV1,
    pub freeze: ReleaseAuthorizationFreezeV1,
    pub evidence_digest: String,
    pub mint: AuthorizationCustodyMintV1,
    pub storage: AuthorizationCustodyStorageV1,
    pub valid_from_unix_seconds: u64,
    pub expires_at_unix_seconds: u64,
    pub one_run_scope: bool,
    pub nonce: String,
    pub state: ReleaseAuthorizationConsumptionV1,
    pub consumed_nonces: Vec<String>,
    pub transitions: Vec<AuthorizationCustodyTransitionV1>,
    pub readback_verified: bool,
    pub readback_digest: Option<String>,
    /// Always true: secret values never travel in authorization documents.
    pub redacted: bool,
    pub claim_boundary: String,
    pub limitations: Vec<String>,
}

/// Append-only consumption observation binding one selection to the custody
/// record that authorized it.
#[derive(Debug, Clone, PartialEq, Eq)]
pub struct CargoAllowReleaseAuthorizationConsumptionV1 {
    pub schema_id: String,
    pub schema_version: u32,
    pub authorization_id: String,
    pub authorization_digest: String,
    pub nonce: String,
    pub from: ReleaseAuthorizationConsumptionV1,
    pub to: ReleaseAuthorizationConsumptionV1,
    pub observed_at_unix_seconds: u64,
    pub evidence_digest: String,
    pub claim_boundary: String,
}

/// Bounded selection payload the workflow gate may consume. It binds
/// identity and digests only; no field can carry secret material.
#[derive(Debug, Clone, PartialEq, Eq)]
pub struct AuthorizationSelectionPayloadV1 {
    pub authorization_id: String,
    pub authorization_digest: String,
    pub operation_name: String,
    pub operation_version: String,
    pub operation_tag: String,
    pub operation_channel: String,
    pub commit: String,
    pub tree: String,
    pub denominator_digest: String,
    pub evidence_digest: String,
    pub nonce: String,
    pub state: ReleaseAuthorizationConsumptionV1,
    pub valid_from_unix_seconds: u64,
    pub expires_at_unix_seconds: u64,
}

/// Caller-supplied mint inputs. Every digest is independently retained
/// evidence; minting validates shape and consistency but never fetches.
#[derive(Debug, Clone, PartialEq, Eq)]
pub struct AuthorizationCustodyMintInitV1 {
    pub authorization_id: String,
    pub decision: ReleaseAuthorizationInputV1,
    pub freeze_receipt_digest: String,
    pub replay_digest: String,
    pub replay_result: String,
    pub candidate_custody_digest: String,
    pub freeze_complete: bool,
    pub replay_complete: bool,
    pub storage_locator: String,
    pub storage_access_policy: String,
    pub storage_retention_expiry_unix_seconds: u64,
    pub storage_provider_available: bool,
    pub valid_from_unix_seconds: u64,
    pub expires_at_unix_seconds: u64,
    pub minted_by: String,
    pub minted_at_unix_seconds: u64,
}

/// Custody readback verdict for independently stored bytes.
#[derive(Debug, Clone, Copy, PartialEq, Eq, Structural)]
pub enum CustodyReadbackV1 {
    Match,
    Mismatch,
    Malformed,
}

// ---------------------------------------------------------------------------
// Locators.
// ---------------------------------------------------------------------------

/// Source-tree prefixes a custody locator must never start with.
pub open spec fn in_tree_prefixes() -> Seq<Seq<char>> {
    Seq::empty().push("./"@).push("../"@).push("policy/"@).push("crates/"@).push("docs/"@).push(
        "target/"@,
    ).push("fixtures/"@).push("tests/"@).push("scripts/"@).push("examples/"@).push("plans/"@).push(
        ".allow/"@,
    )
}

/// A locator without an explicit scheme, or one that names a source-tree
/// path, is in the tree. The check is a fail-closed tripwire.
pub open spec fn in_tree(locator: Seq<char>) -> bool {
    !contains(locator, "://"@) || exists|i: int|
        0 <= i < 12 && starts_with(locator, #[trigger] in_tree_prefixes()[i])
}

fn in_tree_prefix_at(k: usize) -> (r: &'static str)
    requires
        k < 12,
    ensures
        r@ == in_tree_prefixes()[k as int],
{
    if k == 0 {
        "./"
    } else if k == 1 {
        "../"
    } else if k == 2 {
        "policy/"
    } else if k == 3 {
        "crates/"
    } else if k == 4 {
        "docs/"
    } else if k == 5 {
        "target/"
    } else if k == 6 {
        "fixtures/"
    } else if k == 7 {
        "tests/"
    } else if k == 8 {
        "scripts/"
    } else if k == 9 {
        "examples/"
    } else if k == 10 {
        "plans/"
    } else {
        ".allow/"
    }
}

fn in_tree_locator(locator: &str) -> (r: bool)
    ensures
        r == in_tree(locator@),
{
    proof {
        reveal_strlit("://");
    }
    if !contains_str(locator, "://") {
        return true;
    }
    let mut k: usize = 0;
    while k < 12
        invariant
            k <= 12,
            forall|i: int| 0 <= i < k ==> !starts_with(locator@, #[trigger] in_tree_prefixes()[i]),
        decreases 12 - k,
    {
        if starts_with_str(locator, in_tree_prefix_at(k)) {
            return true;
        }
        k = k + 1;
    }
    false
}

// ---------------------------------------------------------------------------
// Minting.
// ---------------------------------------------------------------------------

pub open spec fn mint_operation_ok(o: ReleaseAuthorizationOperationV1) -> bool {
    &&& o.name@ == RELEASE_AUTHORIZATION_FINAL_OPERATION@
    &&& o.version@ == RELEASE_AUTHORIZATION_FINAL_VERSION@
    &&& o.tag@ == RELEASE_AUTHORIZATION_FINAL_TAG@
    &&& o.channel@ == RELEASE_AUTHORIZATION_STABLE_CHANNEL@
    &&& !o.github_prerelease
    &&& o.authority_kind == ReleaseAuthorizationAuthorityKindV1::Clean
}

pub open spec fn package_row_ok(r: ReleaseAuthorizationPackageRowV1) -> bool {
    is_sha256_digest(r.package_digest@) && r.package_size_bytes != 0
}

pub open spec fn shared_row_ok(r: ReleaseAuthorizationSharedRowV1) -> bool {
    is_sha256_digest(r.expected_checksum@) && is_sha256_digest(r.authority_digest@)
}

pub open spec fn mint_freeze_error(f: ReleaseAuthorizationFreezeV1) -> Option<Seq<char>> {
    if !is_sha256_digest(f.receipt_digest@) || !is_sha256_digest(f.candidate_digest@) || !is_sha256_digest(
        f.denominator_digest@,
    ) || !is_sha256_digest(f.lock_digest@) {
        Some("minting requires well-formed freeze digests"@)
    } else if !is_git_sha(f.commit@) || !is_git_sha(f.tree@) {
        Some("minting requires canonical freeze commit and tree SHAs"@)
    } else if f.packages@.len() != 10 || f.shared_prerequisites@.len() != 3 {
        Some("minting requires exactly ten final and three shared rows"@)
    } else if exists|i: int| 0 <= i < f.packages@.len() && !package_row_ok(#[trigger] f.packages@[i]) {
        Some("minting requires well-formed final package digests and sizes"@)
    } else if exists|i: int|
        0 <= i < f.shared_prerequisites@.len() && !shared_row_ok(#[trigger] f.shared_prerequisites@[i]) {
        Some("minting requires well-formed shared checksum authority"@)
    } else {
        None
    }
}

#[verifier::loop_isolation(false)]
fn validate_mint_freeze(f: &ReleaseAuthorizationFreezeV1) -> (r: Option<&'static str>)
    ensures
        match mint_freeze_error(*f) {
            None => r is None,
            Some(m) => r is Some && r->0@ == m,
        },
{
    if !is_sha256_digest_str(f.receipt_digest.as_str()) || !is_sha256_digest_str(f.candidate_digest.as_str())
        || !is_sha256_digest_str(f.denominator_digest.as_str()) || !is_sha256_digest_str(
        f.lock_digest.as_str(),
    ) {
        return Some("minting requires well-formed freeze digests");
    }
    if !is_git_sha_str(f.commit.as_str()) || !is_git_sha_str(f.tree.as_str()) {
        return Some("minting requires canonical freeze commit and tree SHAs");
    }
    if f.packages.len() != 10 || f.shared_prerequisites.len() != 3 {
        return Some("minting requires exactly ten final and three shared rows");
    }
    let mut i: usize = 0;
    while i < f.packages.len()
        invariant
            i <= f.packages@.len(),
            forall|x: int| 0 <= x < i ==> package_row_ok(#[trigger] f.packages@[x]),
        decreases f.packages@.len() - i,
    {
        let row = &f.packages[i];
        if !is_sha256_digest_str(row.package_digest.as_str()) || row.package_size_bytes == 0 {
            assert(!package_row_ok(f.packages@[i as int]));
            return Some("minting requires well-formed final package digests and sizes");
        }
        i = i + 1;
    }
    let mut k: usize = 0;
    while k < f.shared_prerequisites.len()
        invariant
            k <= f.shared_prerequisites@.len(),
            forall|x: int| 0 <= x < f.packages@.len() ==> package_row_ok(#[trigger] f.packages@[x]),
            forall|x: int| 0 <= x < k ==> shared_row_ok(#[trigger] f.shared_prerequisites@[x]),
        decreases f.shared_prerequisites@.len() - k,
    {
        let row = &f.shared_prerequisites[k];
        if !is_sha256_digest_str(row.expected_checksum.as_str()) || !is_sha256_digest_str(
            row.authority_digest.as_str(),
        ) {
            assert(!shared_row_ok(f.shared_prerequisites@[k as int]));
            return Some("minting requires well-formed shared checksum authority");
        }
        k = k + 1;
    }
    None
}

/// Why the mint act is refused, in the order the checks run.
pub open spec fn mint_error(i: AuthorizationCustodyMintInitV1) -> Option<Seq<char>> {
    let d = i.decision;
    if !i.freeze_complete || !i.replay_complete {
        Some("minting requires a Complete #2501 freeze and replay result"@)
    } else if i.replay_result@ != "Complete"@ && i.replay_result@ != "CompleteEquivalent"@ {
        Some("minting requires a Complete or CompleteEquivalent replay result"@)
    } else if !is_sha256_digest(i.freeze_receipt_digest@) || !is_sha256_digest(i.replay_digest@)
        || !is_sha256_digest(i.candidate_custody_digest@) {
        Some("minting requires well-formed freeze, replay, and custody digests"@)
    } else if !mint_operation_ok(d.operation) {
        Some("minting requires the exact clean final 0.2.0 stable operation"@)
    } else if mint_freeze_error(d.freeze) is Some {
        mint_freeze_error(d.freeze)
    } else if d.schema_id@ != RELEASE_AUTHORIZATION_SCHEMA_ID@ || d.schema_version
        != RELEASE_AUTHORIZATION_SCHEMA_VERSION {
        Some("minting requires the current authorization decision generation"@)
    } else if !d.authority.one_run_scope || blank(d.authority.nonce@) {
        Some("minting requires one-run scope and a non-empty nonce"@)
    } else if d.authority.selected_auth_class@ != RELEASE_AUTHORIZATION_AUTH_CLASS@ {
        Some("minting requires the token-backed authentication class"@)
    } else if in_tree(i.storage_locator@) {
        Some("authorization storage must live outside the frozen source tree"@)
    } else if !i.storage_provider_available {
        Some("authorization storage provider must be available at mint time"@)
    } else if i.storage_retention_expiry_unix_seconds <= i.minted_at_unix_seconds {
        Some("storage retention must outlive the mint act"@)
    } else if i.expires_at_unix_seconds <= i.valid_from_unix_seconds {
        Some("authorization expiry must follow its valid-from bound"@)
    } else if blank(i.authorization_id@) || blank(i.minted_by@) {
        Some("minting requires an authorization identity and maintainer reference"@)
    } else if secret_marker_spec(i.authorization_id@) is Some || secret_marker_spec(i.storage_locator@) is Some
        || secret_marker_spec(i.storage_access_policy@) is Some || secret_marker_spec(i.minted_by@) is Some {
        Some("secret material must never enter authorization custody records"@)
    } else {
        None
    }
}

/// Digest of the canonical JSON of an evidence snapshot.
pub open spec fn evidence_digest_of(e: ReleaseAuthorizationEvidenceV1) -> Seq<char> {
    text_digest(json_evidence(e))
}

/// `c` is the fresh custody record minted from `i`.
pub open spec fn minted_from(c: CargoAllowReleaseAuthorizationCustodyV1, i: AuthorizationCustodyMintInitV1) -> bool {
    &&& c.schema_id@ == AUTHORIZATION_CUSTODY_SCHEMA_ID@
    &&& c.schema_version == AUTHORIZATION_CUSTODY_SCHEMA_VERSION
    &&& c.authorization_id == i.authorization_id
    &&& c.authorization_digest@ == statement_digest(i.decision)
    &&& c.operation == i.decision.operation
    &&& c.freeze == i.decision.freeze
    &&& c.evidence_digest@ == evidence_digest_of(i.decision.evidence)
    &&& c.mint == (AuthorizationCustodyMintV1 {
        freeze_receipt_digest: i.freeze_receipt_digest,
        replay_digest: i.replay_digest,
        replay_result: i.replay_result,
        candidate_custody_digest: i.candidate_custody_digest,
        minted_by: i.minted_by,
        minted_at_unix_seconds: i.minted_at_unix_seconds,
    })
    &&& c.storage == (AuthorizationCustodyStorageV1 {
        locator: i.storage_locator,
        access_policy: i.storage_access_policy,
        retention_expiry_unix_seconds: i.storage_retention_expiry_unix_seconds,
    })
    &&& c.valid_from_unix_seconds == i.valid_from_unix_seconds
    &&& c.expires_at_unix_seconds == i.expires_at_unix_seconds
    &&& c.one_run_scope
    &&& c.nonce == i.decision.authority.nonce
    &&& c.state == ReleaseAuthorizationConsumptionV1::Available
    &&& c.consumed_nonces@.len() == 0
    &&& c.transitions@.len() == 0
    &&& !c.readback_verified
    &&& c.readback_digest is None
    &&& c.redacted
    &&& c.claim_boundary@ == AUTHORIZATION_CUSTODY_CLAIM_BOUNDARY@
    &&& views(c.limitations@) == seq![
        "does_not_authenticate_maintainer"@,
        "does_not_create_or_move_tags"@,
        "does_not_read_credentials"@,
        "does_not_authorize_recovery"@,
    ]
}

/// Models the maintainer mint act against caller-supplied Complete evidence.
/// Refuses before a Complete freeze and replay, on any scope or shape
/// violation, on in-tree or unavailable storage, and on any secret marker in
/// operator-supplied text.
pub fn mint_authorization_custody_v1(init: AuthorizationCustodyMintInitV1) -> (r: Result<
    CargoAllowReleaseAuthorizationCustodyV1,
    &'static str,
>)
    ensures
        match mint_error(init) {
            Some(e) => r is Err && r->Err_0@ == e,
            None => r is Ok && minted_from(r->Ok_0, init),
        },
{
    if !init.freeze_complete || !init.replay_complete {
        return Err("minting requires a Complete #2501 freeze and replay result");
    }
    if !str_eq(init.replay_result.as_str(), "Complete") && !str_eq(init.replay_result.as_str(), "CompleteEquivalent") {
        return Err("minting requires a Complete or CompleteEquivalent replay result");
    }
    if !is_sha256_digest_str(init.freeze_receipt_digest.as_str()) || !is_sha256_digest_str(
        init.replay_digest.as_str(),
    ) || !is_sha256_digest_str(init.candidate_custody_digest.as_str()) {
        return Err("minting requires well-formed freeze, replay, and custody digests");
    }
    let o = &init.decision.operation;
    if !str_eq(o.name.as_str(), RELEASE_AUTHORIZATION_FINAL_OPERATION) || !str_eq(
        o.version.as_str(),
        RELEASE_AUTHORIZATION_FINAL_VERSION,
    ) || !str_eq(o.tag.as_str(), RELEASE_AUTHORIZATION_FINAL_TAG) || !str_eq(
        o.channel.as_str(),
        RELEASE_AUTHORIZATION_STABLE_CHANNEL,
    ) || o.github_prerelease || o.authority_kind != ReleaseAuthorizationAuthorityKindV1::Clean {
        return Err("minting requires the exact clean final 0.2.0 stable operation");
    }
    match validate_mint_freeze(&init.decision.freeze) {
        Some(m) => {
            return Err(m);
        },
        None => {},
    }
    if !str_eq(init.decision.schema_id.as_str(), RELEASE_AUTHORIZATION_SCHEMA_ID)
        || init.decision.schema_version != RELEASE_AUTHORIZATION_SCHEMA_VERSION {
        return Err("minting requires the current authorization decision generation");
    }
    if !init.decision.authority.one_run_scope || is_blank(init.decision.authority.nonce.as_str()) {
        return Err("minting requires one-run scope and a non-empty nonce");
    }
    if !str_eq(init.decision.authority.selected_auth_class.as_str(), RELEASE_AUTHORIZATION_AUTH_CLASS) {
        return Err("minting requires the token-backed authentication class");
    }
    if in_tree_locator(init.storage_locator.as_str()) {
        return Err("authorization storage must live outside the frozen source tree");
    }
    if !init.storage_provider_available {
        return Err("authorization storage provider must be available at mint time");
    }
    if init.storage_retention_expiry_unix_seconds <= init.minted_at_unix_seconds {
        return Err("storage retention must outlive the mint act");
    }
    if init.expires_at_unix_seconds <= init.valid_from_unix_seconds {
        return Err("authorization expiry must follow its valid-from bound");
    }
    if is_blank(init.authorization_id.as_str()) || is_blank(init.minted_by.as_str()) {
        return Err("minting requires an authorization identity and maintainer reference");
    }
    if secret_marker(init.authorization_id.as_str()).is_some() || secret_marker(init.storage_locator.as_str()).is_some()
        || secret_marker(init.storage_access_policy.as_str()).is_some() || secret_marker(
        init.minted_by.as_str(),
    ).is_some() {
        return Err("secret material must never enter authorization custody records");
    }
    let authorization_digest = authorization_statement_digest(&init.decision);
    let evidence_digest = authorization_evidence_digest_v1(&init.decision.evidence);
    let mut limitations: Vec<String> = Vec::new();
    limitations.push("does_not_authenticate_maintainer".to_string());
    limitations.push("does_not_create_or_move_tags".to_string());
    limitations.push("does_not_read_credentials".to_string());
    limitations.push("does_not_authorize_recovery".to_string());
    assert(views(limitations@) =~= seq![
        "does_not_authenticate_maintainer"@,
        "does_not_create_or_move_tags"@,
        "does_not_read_credentials"@,
        "does_not_authorize_recovery"@,
    ]);
    let decision = init.decision;
    Ok(
        CargoAllowReleaseAuthorizationCustodyV1 {
            schema_id: AUTHORIZATION_CUSTODY_SCHEMA_ID.to_string(),
            schema_version: AUTHORIZATION_CUSTODY_SCHEMA_VERSION,
            authorization_id: init.authorization_id,
            authorization_digest,
            operation: decision.operation,
            freeze: decision.freeze,
            evidence_digest,
            mint: AuthorizationCustodyMintV1 {
                freeze_receipt_digest: init.freeze_receipt_digest,
                replay_digest: init.replay_digest,
                replay_result: init.replay_result,
                candidate_custody_digest: init.candidate_custody_digest,
                minted_by: init.minted_by,
                minted_at_unix_seconds: init.minted_at_unix_seconds,
            },
            storage: AuthorizationCustodyStorageV1 {
                locator: init.storage_locator,
                access_policy: init.storage_access_policy,
                retention_expiry_unix_seconds: init.storage_retention_expiry_unix_seconds,
            },
            valid_from_unix_seconds: init.valid_from_unix_seconds,
            expires_at_unix_seconds: init.expires_at_unix_seconds,
            one_run_scope: true,
            nonce: decision.authority.nonce,
            state: ReleaseAuthorizationConsumptionV1::Available,
            consumed_nonces: Vec::new(),
            transitions: Vec::new(),
            readback_verified: false,
            readback_digest: None,
            redacted: true,
            claim_boundary: AUTHORIZATION_CUSTODY_CLAIM_BOUNDARY.to_string(),
            limitations,
        },
    )
}

/// Evidence snapshot digest: binds the exact evidence object a selection
/// must later reproduce.
pub fn authorization_evidence_digest_v1(evidence: &ReleaseAuthorizationEvidenceV1) -> (r: String)
    ensures
        r@ == evidence_digest_of(*evidence),
        is_lower_sha256_digest(r@),
{
    let body = render_evidence(evidence);
    digest_text(body.as_str())
}

// ---------------------------------------------------------------------------
// Use lifecycle.
// ---------------------------------------------------------------------------

/// `after` is `before` advanced to `next` at `at` for `reason`: the state
/// moves and one transition is appended; nothing else changes.
pub open spec fn advanced(
    before: CargoAllowReleaseAuthorizationCustodyV1,
    after: CargoAllowReleaseAuthorizationCustodyV1,
    next: ReleaseAuthorizationConsumptionV1,
    at: u64,
    reason: Seq<char>,
) -> bool {
    &&& after == (CargoAllowReleaseAuthorizationCustodyV1 {
        state: next,
        transitions: after.transitions,
        ..before
    })
    &&& after.transitions@.len() == before.transitions@.len() + 1
    &&& after.transitions@.drop_last() == before.transitions@
    &&& after.transitions@.last().from == before.state
    &&& after.transitions@.last().to == next
    &&& after.transitions@.last().at_unix_seconds == at
    &&& after.transitions@.last().reason@ == reason
}

fn advance_custody_state(
    record: &mut CargoAllowReleaseAuthorizationCustodyV1,
    next: ReleaseAuthorizationConsumptionV1,
    at_unix_seconds: u64,
    reason: &str,
) -> (r: Result<(), &'static str>)
    ensures
        consumption_step_allowed(old(record).state, next) ==> r is Ok && advanced(
            *old(record),
            *final(record),
            next,
            at_unix_seconds,
            reason@,
        ),
        !consumption_step_allowed(old(record).state, next) ==> r is Err && r->Err_0@
            == "invalid authorization consumption transition"@ && *final(record) == *old(record),
{
    let checked = match transition_authorization_consumption(record.state, next) {
        Ok(c) => c,
        Err(e) => {
            return Err(e);
        },
    };
    let ghost before = *record;
    record.transitions.push(
        AuthorizationCustodyTransitionV1 {
            from: record.state,
            to: checked,
            at_unix_seconds,
            reason: reason.to_string(),
        },
    );
    record.state = checked;
    assert(record.transitions@.drop_last() =~= before.transitions@);
    Ok(())
}

/// `c` observes `record` moving `from` to `to` at `at` under `nonce`.
pub open spec fn consumption_of(
    c: CargoAllowReleaseAuthorizationConsumptionV1,
    record: CargoAllowReleaseAuthorizationCustodyV1,
    nonce: Seq<char>,
    from: ReleaseAuthorizationConsumptionV1,
    to: ReleaseAuthorizationConsumptionV1,
    at: u64,
) -> bool {
    &&& c.schema_id@ == AUTHORIZATION_CONSUMPTION_SCHEMA_ID@
    &&& c.schema_version == AUTHORIZATION_CONSUMPTION_SCHEMA_VERSION
    &&& c.authorization_id == record.authorization_id
    &&& c.authorization_digest == record.authorization_digest
    &&& c.nonce@ == nonce
    &&& c.from == from
    &&& c.to == to
    &&& c.observed_at_unix_seconds == at
    &&& c.evidence_digest == record.evidence_digest
    &&& c.claim_boundary@ == AUTHORIZATION_CUSTODY_CLAIM_BOUNDARY@
}

/// The authorization can no longer be selected because it expired or was
/// revoked, or its validity window has passed.
pub open spec fn selection_expired(record: CargoAllowReleaseAuthorizationCustodyV1, now: u64) -> bool {
    record.state == ReleaseAuthorizationConsumptionV1::Expired || record.state
        == ReleaseAuthorizationConsumptionV1::Revoked || now > record.expires_at_unix_seconds
}

/// Why a live authorization cannot be selected, in the order checked.
pub open spec fn select_error(
    record: CargoAllowReleaseAuthorizationCustodyV1,
    nonce: Seq<char>,
    evidence: Seq<char>,
    storage_provider_available: bool,
) -> Option<Seq<char>> {
    if record.state != ReleaseAuthorizationConsumptionV1::Available {
        Some("authorization was already selected or consumed"@)
    } else if !record.readback_verified {
        Some("selection requires a verified independent readback"@)
    } else if !storage_provider_available {
        Some("selection requires an available storage provider"@)
    } else if blank(nonce) || nonce != record.nonce@ {
        Some("selection requires the exact bound one-use nonce"@)
    } else if exists|i: int| 0 <= i < record.consumed_nonces@.len() && (#[trigger] record.consumed_nonces@[i])@ == nonce {
        Some("authorization nonce was already consumed"@)
    } else if !is_sha256_digest(evidence) || !eq_ignore_ascii_case(evidence, record.evidence_digest@) {
        Some("changed evidence invalidates selection before token access"@)
    } else {
        None
    }
}

fn nonce_consumed(record: &CargoAllowReleaseAuthorizationCustodyV1, nonce: &str) -> (r: bool)
    ensures
        r == exists|i: int| 0 <= i < record.consumed_nonces@.len() && (#[trigger] record.consumed_nonces@[i])@ == nonce@,
{
    let mut i: usize = 0;
    while i < record.consumed_nonces.len()
        invariant
            i <= record.consumed_nonces@.len(),
            forall|x: int| 0 <= x < i ==> (#[trigger] record.consumed_nonces@[x])@ != nonce@,
        decreases record.consumed_nonces@.len() - i,
    {
        if str_eq(record.consumed_nonces[i].as_str(), nonce) {
            return true;
        }
        i = i + 1;
    }
    false
}

/// Selects the authorization for exactly one run. Requires a verified
/// readback, a live validity window, the exact bound nonce, a fresh evidence
/// binding, and an available storage provider. A second selection is
/// refused; a lapsed authorization is marked expired where the lifecycle
/// allows it.
pub fn select_authorization_for_run_v1(
    record: &mut CargoAllowReleaseAuthorizationCustodyV1,
    nonce: &str,
    now_unix_seconds: u64,
    current_evidence_digest: &str,
    storage_provider_available: bool,
) -> (r: Result<CargoAllowReleaseAuthorizationConsumptionV1, &'static str>)
    ensures
        if selection_expired(*old(record), now_unix_seconds) {
            &&& r is Err
            &&& r->Err_0@ == "expired or revoked authorization cannot be selected"@
            &&& if old(record).state != ReleaseAuthorizationConsumptionV1::Expired && consumption_step_allowed(
                old(record).state,
                ReleaseAuthorizationConsumptionV1::Expired,
            ) {
                advanced(
                    *old(record),
                    *final(record),
                    ReleaseAuthorizationConsumptionV1::Expired,
                    now_unix_seconds,
                    "expired"@,
                )
            } else {
                *final(record) == *old(record)
            }
        } else {
            match select_error(*old(record), nonce@, current_evidence_digest@, storage_provider_available) {
                Some(e) => r is Err && r->Err_0@ == e && *final(record) == *old(record),
                None => {
                    &&& r is Ok
                    &&& consumption_of(
                        r->Ok_0,
                        *old(record),
                        nonce@,
                        ReleaseAuthorizationConsumptionV1::Available,
                        ReleaseAuthorizationConsumptionV1::SelectedForRun,
                        now_unix_seconds,
                    )
                    &&& final(record).consumed_nonces@.len() == old(record).consumed_nonces@.len() + 1
                    &&& final(record).consumed_nonces@.drop_last() == old(record).consumed_nonces@
                    &&& final(record).consumed_nonces@.last()@ == nonce@
                    &&& advanced(
                        *old(record),
                        CargoAllowReleaseAuthorizationCustodyV1 {
                            consumed_nonces: old(record).consumed_nonces,
                            ..*final(record)
                        },
                        ReleaseAuthorizationConsumptionV1::SelectedForRun,
                        now_unix_seconds,
                        "selected"@,
                    )
                },
            }
        },
{
    if record.state == ReleaseAuthorizationConsumptionV1::Expired || record.state
        == ReleaseAuthorizationConsumptionV1::Revoked || now_unix_seconds > record.expires_at_unix_seconds {
        if record.state != ReleaseAuthorizationConsumptionV1::Expired {
            let _ = advance_custody_state(
                record,
                ReleaseAuthorizationConsumptionV1::Expired,
                now_unix_seconds,
                "expired",
            );
        }
        return Err("expired or revoked authorization cannot be selected");
    }
    if record.state != ReleaseAuthorizationConsumptionV1::Available {
        return Err("authorization was already selected or consumed");
    }
    if !record.readback_verified {
        return Err("selection requires a verified independent readback");
    }
    if !storage_provider_available {
        return Err("selection requires an available storage provider");
    }
    if is_blank(nonce) || !str_eq(nonce, record.nonce.as_str()) {
        return Err("selection requires the exact bound one-use nonce");
    }
    if nonce_consumed(record, nonce) {
        return Err("authorization nonce was already consumed");
    }
    if !is_sha256_digest_str(current_evidence_digest) || !str_eq_ignore_ascii_case(
        current_evidence_digest,
        record.evidence_digest.as_str(),
    ) {
        return Err("changed evidence invalidates selection before token access");
    }
    let ghost before = *record;
    match advance_custody_state(
        record,
        ReleaseAuthorizationConsumptionV1::SelectedForRun,
        now_unix_seconds,
        "selected",
    ) {
        Ok(()) => {},
        Err(e) => {
            return Err(e);
        },
    }
    let ghost mid = *record;
    record.consumed_nonces.push(nonce.to_string());
    assert(record.consumed_nonces@.drop_last() =~= before.consumed_nonces@);
    assert((CargoAllowReleaseAuthorizationCustodyV1 { consumed_nonces: before.consumed_nonces, ..*record }) == mid);
    Ok(
        CargoAllowReleaseAuthorizationConsumptionV1 {
            schema_id: AUTHORIZATION_CONSUMPTION_SCHEMA_ID.to_string(),
            schema_version: AUTHORIZATION_CONSUMPTION_SCHEMA_VERSION,
            authorization_id: record.authorization_id.clone(),
            authorization_digest: record.authorization_digest.clone(),
            nonce: nonce.to_string(),
            from: ReleaseAuthorizationConsumptionV1::Available,
            to: ReleaseAuthorizationConsumptionV1::SelectedForRun,
            observed_at_unix_seconds: now_unix_seconds,
            evidence_digest: record.evidence_digest.clone(),
            claim_boundary: AUTHORIZATION_CUSTODY_CLAIM_BOUNDARY.to_string(),
        },
    )
}

/// Notes the first irreversible action on a selected authorization, so
/// later selection attempts observe consumption.
pub fn note_irreversible_start_v1(
    record: &mut CargoAllowReleaseAuthorizationCustodyV1,
    now_unix_seconds: u64,
) -> (r: Result<(), &'static str>)
    ensures
        if old(record).state != ReleaseAuthorizationConsumptionV1::SelectedForRun {
            r is Err && r->Err_0@ == "only a selected authorization can start the irreversible operation"@
                && *final(record) == *old(record)
        } else {
            r is Ok && advanced(
                *old(record),
                *final(record),
                ReleaseAuthorizationConsumptionV1::IrreversibleOperationStarted,
                now_unix_seconds,
                "irreversible-operation-started"@,
            )
        },
{
    if record.state != ReleaseAuthorizationConsumptionV1::SelectedForRun {
        return Err("only a selected authorization can start the irreversible operation");
    }
    advance_custody_state(
        record,
        ReleaseAuthorizationConsumptionV1::IrreversibleOperationStarted,
        now_unix_seconds,
        "irreversible-operation-started",
    )
}

pub open spec fn settled_state(complete: bool) -> ReleaseAuthorizationConsumptionV1 {
    if complete {
        ReleaseAuthorizationConsumptionV1::ConsumedComplete
    } else {
        ReleaseAuthorizationConsumptionV1::ConsumedIncident
    }
}

/// Settles a started authorization as complete or incident. A clean
/// authorization can never be selected again after either.
pub fn settle_authorization_consumption_v1(
    record: &mut CargoAllowReleaseAuthorizationCustodyV1,
    complete: bool,
    now_unix_seconds: u64,
) -> (r: Result<CargoAllowReleaseAuthorizationConsumptionV1, &'static str>)
    ensures
        if old(record).state != ReleaseAuthorizationConsumptionV1::IrreversibleOperationStarted {
            r is Err && r->Err_0@ == "invalid authorization consumption transition"@ && *final(record)
                == *old(record)
        } else {
            &&& r is Ok
            &&& advanced(
                *old(record),
                *final(record),
                settled_state(complete),
                now_unix_seconds,
                if complete { "consumed-complete"@ } else { "consumed-incident"@ },
            )
            &&& consumption_of(
                r->Ok_0,
                *old(record),
                old(record).nonce@,
                ReleaseAuthorizationConsumptionV1::IrreversibleOperationStarted,
                settled_state(complete),
                now_unix_seconds,
            )
        },
{
    let next = if complete {
        ReleaseAuthorizationConsumptionV1::ConsumedComplete
    } else {
        ReleaseAuthorizationConsumptionV1::ConsumedIncident
    };
    let from = record.state;
    let reason = if complete {
        "consumed-complete"
    } else {
        "consumed-incident"
    };
    match advance_custody_state(record, next, now_unix_seconds, reason) {
        Ok(()) => {},
        Err(e) => {
            return Err(e);
        },
    }
    Ok(
        CargoAllowReleaseAuthorizationConsumptionV1 {
            schema_id: AUTHORIZATION_CONSUMPTION_SCHEMA_ID.to_string(),
            schema_version: AUTHORIZATION_CONSUMPTION_SCHEMA_VERSION,
            authorization_id: record.authorization_id.clone(),
            authorization_digest: record.authorization_digest.clone(),
            nonce: record.nonce.clone(),
            from,
            to: next,
            observed_at_unix_seconds: now_unix_seconds,
            evidence_digest: record.evidence_digest.clone(),
            claim_boundary: AUTHORIZATION_CUSTODY_CLAIM_BOUNDARY.to_string(),
        },
    )
}

/// Revokes a minted authorization. Terminal consumption history is
/// immutable and cannot be revoked after the fact.
pub fn revoke_authorization_custody_v1(
    record: &mut CargoAllowReleaseAuthorizationCustodyV1,
    reason: &str,
    now_unix_seconds: u64,
) -> (r: Result<(), &'static str>)
    ensures
        if old(record).state == ReleaseAuthorizationConsumptionV1::ConsumedComplete || old(record).state
            == ReleaseAuthorizationConsumptionV1::ConsumedIncident {
            r is Err && r->Err_0@ == "terminal consumption history cannot be revoked"@ && *final(record)
                == *old(record)
        } else if blank(reason@) {
            r is Err && r->Err_0@ == "revocation requires a reason"@ && *final(record) == *old(record)
        } else {
            r is Ok && advanced(
                *old(record),
                *final(record),
                ReleaseAuthorizationConsumptionV1::Revoked,
                now_unix_seconds,
                reason@,
            )
        },
{
    match record.state {
        ReleaseAuthorizationConsumptionV1::ConsumedComplete | ReleaseAuthorizationConsumptionV1::ConsumedIncident => {
            return Err("terminal consumption history cannot be revoked");
        },
        _ => {},
    }
    if is_blank(reason) {
        return Err("revocation requires a reason");
    }
    advance_custody_state(record, ReleaseAuthorizationConsumptionV1::Revoked, now_unix_seconds, reason)
}

// ---------------------------------------------------------------------------
// The stored JSON form of a custody record.
// ---------------------------------------------------------------------------

pub open spec fn json_mint(m: AuthorizationCustodyMintV1) -> Seq<char> {
    json_obj(
        Seq::empty()
            .push(kv("freeze_receipt_digest"@, json_str(m.freeze_receipt_digest@)))
            .push(kv("replay_digest"@, json_str(m.replay_digest@)))
            .push(kv("replay_result"@, json_str(m.replay_result@)))
            .push(kv("candidate_custody_digest"@, json_str(m.candidate_custody_digest@)))
            .push(kv("minted_by"@, json_str(m.minted_by@)))
            .push(kv("minted_at_unix_seconds"@, decimal(m.minted_at_unix_seconds as nat))),
    )
}

pub open spec fn json_storage(s: AuthorizationCustodyStorageV1) -> Seq<char> {
    json_obj(
        Seq::empty()
            .push(kv("locator"@, json_str(s.locator@)))
            .push(kv("access_policy"@, json_str(s.access_policy@)))
            .push(kv("retention_expiry_unix_seconds"@, decimal(s.retention_expiry_unix_seconds as nat))),
    )
}

pub open spec fn json_transition(t: AuthorizationCustodyTransitionV1) -> Seq<char> {
    json_obj(
        Seq::empty()
            .push(kv("from"@, json_str(t.from.wire())))
            .push(kv("to"@, json_str(t.to.wire())))
            .push(kv("at_unix_seconds"@, decimal(t.at_unix_seconds as nat)))
            .push(kv("reason"@, json_str(t.reason@))),
    )
}

pub open spec fn json_transitions(v: Seq<AuthorizationCustodyTransitionV1>) -> Seq<char> {
    json_arr(v.map_values(|t: AuthorizationCustodyTransitionV1| json_transition(t)))
}

/// The members of a custody record's JSON object, in declaration order:
/// its identity and bindings, then its use state.
pub open spec fn custody_record_members(c: CargoAllowReleaseAuthorizationCustodyV1) -> Seq<Seq<char>> {
    custody_identity_members(c) + custody_state_members(c)
}

pub open spec fn custody_identity_members(c: CargoAllowReleaseAuthorizationCustodyV1) -> Seq<Seq<char>> {
    Seq::empty()
        .push(kv("schema_id"@, json_str(c.schema_id@)))
        .push(kv("schema_version"@, decimal(c.schema_version as nat)))
        .push(kv("authorization_id"@, json_str(c.authorization_id@)))
        .push(kv("authorization_digest"@, json_str(c.authorization_digest@)))
        .push(kv("operation"@, json_operation(c.operation)))
        .push(kv("freeze"@, json_freeze(c.freeze)))
        .push(kv("evidence_digest"@, json_str(c.evidence_digest@)))
        .push(kv("mint"@, json_mint(c.mint)))
        .push(kv("storage"@, json_storage(c.storage)))
        .push(kv("valid_from_unix_seconds"@, decimal(c.valid_from_unix_seconds as nat)))
        .push(kv("expires_at_unix_seconds"@, decimal(c.expires_at_unix_seconds as nat)))
}

pub open spec fn custody_state_members(c: CargoAllowReleaseAuthorizationCustodyV1) -> Seq<Seq<char>> {
    Seq::empty()
        .push(kv("one_run_scope"@, json_bool(c.one_run_scope)))
        .push(kv("nonce"@, json_str(c.nonce@)))
        .push(kv("state"@, json_str(c.state.wire())))
        .push(kv("consumed_nonces"@, json_str_array(string_views(c.consumed_nonces@))))
        .push(kv("transitions"@, json_transitions(c.transitions@)))
        .push(kv("readback_verified"@, json_bool(c.readback_verified)))
        .push(
            kv(
                "readback_digest"@,
                json_opt_str(
                    match c.readback_digest {
                        Some(d) => Some(d@),
                        None => None,
                    },
                ),
            ),
        )
        .push(kv("redacted"@, json_bool(c.redacted)))
        .push(kv("claim_boundary"@, json_str(c.claim_boundary@)))
        .push(kv("limitations"@, json_str_array(string_views(c.limitations@))))
}

/// The canonical compact JSON of a custody record: the form it is stored in,
/// every field in declaration order, an absent readback digest as `null`.
pub open spec fn custody_record_json(c: CargoAllowReleaseAuthorizationCustodyV1) -> Seq<char> {
    json_obj(custody_record_members(c))
}

fn render_mint(m: &AuthorizationCustodyMintV1) -> (r: String)
    ensures
        r@ == json_mint(*m),
{
    let mut l = JsonList::new();
    l.push_str_member("freeze_receipt_digest", m.freeze_receipt_digest.as_str());
    l.push_str_member("replay_digest", m.replay_digest.as_str());
    l.push_str_member("replay_result", m.replay_result.as_str());
    l.push_str_member("candidate_custody_digest", m.candidate_custody_digest.as_str());
    l.push_str_member("minted_by", m.minted_by.as_str());
    l.push_u64_member("minted_at_unix_seconds", m.minted_at_unix_seconds);
    assert(l.items@ =~= Seq::empty()
        .push(kv("freeze_receipt_digest"@, json_str(m.freeze_receipt_digest@)))
        .push(kv("replay_digest"@, json_str(m.replay_digest@)))
        .push(kv("replay_result"@, json_str(m.replay_result@)))
        .push(kv("candidate_custody_digest"@, json_str(m.candidate_custody_digest@)))
        .push(kv("minted_by"@, json_str(m.minted_by@)))
        .push(kv("minted_at_unix_seconds"@, decimal(m.minted_at_unix_seconds as nat))));
    l.finish_object()
}

fn render_storage(s: &AuthorizationCustodyStorageV1) -> (r: String)
    ensures
        r@ == json_storage(*s),
{
    let mut l = JsonList::new();
    l.push_str_member("locator", s.locator.as_str());
    l.push_str_member("access_policy", s.access_policy.as_str());
    l.push_u64_member("retention_expiry_unix_seconds", s.retention_expiry_unix_seconds);
    assert(l.items@ =~= Seq::empty()
        .push(kv("locator"@, json_str(s.locator@)))
        .push(kv("access_policy"@, json_str(s.access_policy@)))
        .push(kv("retention_expiry_unix_seconds"@, decimal(s.retention_expiry_unix_seconds as nat))));
    l.finish_object()
}

fn render_transition(t: &AuthorizationCustodyTransitionV1) -> (r: String)
    ensures
        r@ == json_transition(*t),
{
    let mut l = JsonList::new();
    l.push_str_member("from", t.from.wire_label());
    l.push_str_member("to", t.to.wire_label());
    l.push_u64_member("at_unix_seconds", t.at_unix_seconds);
    l.push_str_member("reason", t.reason.as_str());
    assert(l.items@ =~= Seq::empty()
        .push(kv("from"@, json_str(t.from.wire())))
        .push(kv("to"@, json_str(t.to.wire())))
        .push(kv("at_unix_seconds"@, decimal(t.at_unix_seconds as nat)))
        .push(kv("reason"@, json_str(t.reason@))));
    l.finish_object()
}

fn render_transitions(v: &Vec<AuthorizationCustodyTransitionV1>) -> (r: String)
    ensures
        r@ == json_transitions(v@),
{
    let mut l = JsonList::new();
    let mut i: usize = 0;
    assert(v@.take(0).map_values(|t: AuthorizationCustodyTransitionV1| json_transition(t))
        =~= Seq::<Seq<char>>::empty());
    while i < v.len()
        invariant
            i <= v.len(),
            l.wf(),
            l.count == i,
            l.items@ == v@.take(i as int).map_values(
                |t: AuthorizationCustodyTransitionV1| json_transition(t),
            ),
        decreases v.len() - i,
    {
        let piece = render_transition(&v[i]);
        l.push_raw(piece.as_str());
        assert(v@.take(i + 1).map_values(|t: AuthorizationCustodyTransitionV1| json_transition(t))
            =~= v@.take(i as int).map_values(
            |t: AuthorizationCustodyTransitionV1| json_transition(t),
        ).push(piece@));
        i = i + 1;
    }
    assert(v@.take(v@.len() as int) =~= v@);
    l.finish_array()
}

fn push_custody_identity(l: &mut JsonList, c: &CargoAllowReleaseAuthorizationCustodyV1)
    requires
        old(l).wf(),
        old(l).count == 0,
    ensures
        final(l).wf(),
        final(l).count == 11,
        final(l).items@ == old(l).items@ + custody_identity_members(*c),
{
    let ghost start = l.items@;
    l.push_str_member("schema_id", c.schema_id.as_str());
    l.push_u64_member("schema_version", c.schema_version as u64);
    l.push_str_member("authorization_id", c.authorization_id.as_str());
    l.push_str_member("authorization_digest", c.authorization_digest.as_str());
    let op = render_operation(&c.operation);
    l.push_member("operation", op.as_str());
    let fr = render_freeze(&c.freeze);
    l.push_member("freeze", fr.as_str());
    l.push_str_member("evidence_digest", c.evidence_digest.as_str());
    let mi = render_mint(&c.mint);
    l.push_member("mint", mi.as_str());
    let st = render_storage(&c.storage);
    l.push_member("storage", st.as_str());
    l.push_u64_member("valid_from_unix_seconds", c.valid_from_unix_seconds);
    l.push_u64_member("expires_at_unix_seconds", c.expires_at_unix_seconds);
    assert(l.items@ =~= start + custody_identity_members(*c));
}

fn push_custody_state(l: &mut JsonList, c: &CargoAllowReleaseAuthorizationCustodyV1)
    requires
        old(l).wf(),
        old(l).count == 11,
    ensures
        final(l).wf(),
        final(l).items@ == old(l).items@ + custody_state_members(*c),
{
    let ghost start = l.items@;
    l.push_bool_member("one_run_scope", c.one_run_scope);
    l.push_str_member("nonce", c.nonce.as_str());
    l.push_str_member("state", c.state.wire_label());
    let cn = json_string_array(&c.consumed_nonces);
    l.push_member("consumed_nonces", cn.as_str());
    let tr = render_transitions(&c.transitions);
    l.push_member("transitions", tr.as_str());
    l.push_bool_member("readback_verified", c.readback_verified);
    l.push_nullable_str_member("readback_digest", &c.readback_digest);
    l.push_bool_member("redacted", c.redacted);
    l.push_str_member("claim_boundary", c.claim_boundary.as_str());
    let li = json_string_array(&c.limitations);
    l.push_member("limitations", li.as_str());
    assert(l.items@ =~= start + custody_state_members(*c));
}

/// The canonical compact JSON text of a custody record.
pub fn render_custody_record(c: &CargoAllowReleaseAuthorizationCustodyV1) -> (r: String)
    ensures
        r@ == custody_record_json(*c),
{
    let mut l = JsonList::new();
    push_custody_identity(&mut l, c);
    push_custody_state(&mut l, c);
    assert(l.items@ =~= custody_record_members(*c));
    l.finish_object()
}

/// Names the result of three serde_json steps taken together, not of one
/// outside function: `serde_json::from_slice` parses each byte string into a
/// `serde_json::Value`, and the derived `==` of `Value` compares the two.
/// `None` when either parse fails, else `Some` of that comparison. It depends
/// on the two byte strings alone (without `preserve_order` an object is a
/// `BTreeMap`, so key order does not matter).
pub uninterp spec fn json_value_eq(a: Seq<u8>, b: Seq<u8>) -> Option<bool>;

/// Parses both byte strings with `serde_json::from_slice` into
/// `serde_json::Value` and compares the values with `Value`'s derived `==`;
/// a parse error on either side gives `None`. Trusted: the result is named
/// `json_value_eq` of exactly these bytes (the parse-parse-compare
/// composition); nothing else is claimed of it.
#[verifier::external_body]
fn json_values_equal(a: &[u8], b: &[u8]) -> (r: Option<bool>)
    ensures
        r == json_value_eq(a@, b@),
{
    let x: serde_json::Value = match serde_json::from_slice(a) {
        Ok(v) => v,
        Err(_) => return None,
    };
    let y: serde_json::Value = match serde_json::from_slice(b) {
        Ok(v) => v,
        Err(_) => return None,
    };
    Some(x == y)
}

/// The verdict of comparing read-back bytes with a record's stored form.
pub open spec fn readback_verdict(c: CargoAllowReleaseAuthorizationCustodyV1, readback: Seq<u8>) -> CustodyReadbackV1 {
    match json_value_eq(readback, encode_utf8(custody_record_json(c))) {
        None => CustodyReadbackV1::Malformed,
        Some(true) => CustodyReadbackV1::Match,
        Some(false) => CustodyReadbackV1::Mismatch,
    }
}

/// Verifies independently read-back storage bytes against the minted record:
/// the readback must be the record's canonical JSON value; any drift is a
/// mismatch, and non-JSON bytes are malformed.
pub fn verify_custody_readback_v1(
    record: &CargoAllowReleaseAuthorizationCustodyV1,
    readback_json: &[u8],
) -> (r: CustodyReadbackV1)
    ensures
        r == readback_verdict(*record, readback_json@),
{
    let stored = render_custody_record(record);
    match json_values_equal(readback_json, stored.as_str().as_bytes()) {
        None => CustodyReadbackV1::Malformed,
        Some(true) => CustodyReadbackV1::Match,
        Some(false) => CustodyReadbackV1::Mismatch,
    }
}

// ---------------------------------------------------------------------------
// Independent readback.
// ---------------------------------------------------------------------------

/// The JSON text of a byte string serialised as an array of numbers, e.g.
/// `[123,34]`: the body that a readback digest hashes.
pub open spec fn byte_array_json(bytes: Seq<u8>) -> Seq<char> {
    seq!['['] + byte_list_json(bytes) + seq![']']
}

pub open spec fn byte_list_json(bytes: Seq<u8>) -> Seq<char>
    decreases bytes.len(),
{
    if bytes.len() == 0 {
        Seq::empty()
    } else if bytes.len() == 1 {
        decimal(bytes[0] as nat)
    } else {
        byte_list_json(bytes.drop_last()) + seq![','] + decimal(bytes.last() as nat)
    }
}

/// The digest a verified readback records for its bytes.
pub open spec fn readback_digest_of(bytes: Seq<u8>) -> Seq<char> {
    text_digest(byte_array_json(bytes))
}

fn byte_array_text(bytes: &[u8]) -> (r: String)
    ensures
        r@ == byte_array_json(bytes@),
{
    let mut out = String::new();
    push_char(&mut out, '[');
    let mut i: usize = 0;
    while i < bytes.len()
        invariant
            i <= bytes@.len(),
            out@ == seq!['['] + byte_list_json(bytes@.take(i as int)),
        decreases bytes@.len() - i,
    {
        let ghost before = out@;
        let ghost head = bytes@.take(i as int);
        if i > 0 {
            push_char(&mut out, ',');
        }
        let d = decimal_string(bytes[i] as u64);
        push_str(&mut out, d.as_str());
        proof {
            let next = bytes@.take(i + 1);
            assert(next.drop_last() =~= head);
            assert(next.last() == bytes@[i as int]);
            if i == 0 {
                assert(head =~= Seq::<u8>::empty());
                assert(next.len() == 1);
                assert(next[0] == bytes@[0]);
                assert(out@ =~= seq!['['] + byte_list_json(next));
            } else {
                assert(out@ =~= seq!['['] + byte_list_json(next));
            }
        }
        i = i + 1;
    }
    assert(bytes@.take(bytes@.len() as int) =~= bytes@);
    push_char(&mut out, ']');
    out
}

/// Records a successful independent readback on the custody record: the
/// readback bytes are graded against the record's stored form, and on
/// `Match` the record is marked verified and keeps the digest of the
/// readback bytes; any other verdict leaves the record as it was.
pub fn note_custody_readback_v1(
    record: &mut CargoAllowReleaseAuthorizationCustodyV1,
    readback_json: &[u8],
) -> (r: CustodyReadbackV1)
    ensures
        r == readback_verdict(*old(record), readback_json@),
        r == CustodyReadbackV1::Match ==> {
            &&& final(record).readback_verified
            &&& final(record).readback_digest is Some
            &&& final(record).readback_digest->Some_0@ == readback_digest_of(readback_json@)
            &&& *final(record) == (CargoAllowReleaseAuthorizationCustodyV1 {
                readback_verified: true,
                readback_digest: final(record).readback_digest,
                ..*old(record)
            })
        },
        r != CustodyReadbackV1::Match ==> *final(record) == *old(record),
{
    let verdict = verify_custody_readback_v1(record, readback_json);
    match verdict {
        CustodyReadbackV1::Match => {
            let body = byte_array_text(readback_json);
            let digest = digest_text(body.as_str());
            record.readback_verified = true;
            record.readback_digest = Some(digest);
            CustodyReadbackV1::Match
        },
        other => other,
    }
}

/// Bounded selection payload for the workflow gate: identity and digests
/// only.
pub fn selection_payload_v1(record: &CargoAllowReleaseAuthorizationCustodyV1) -> (r:
    AuthorizationSelectionPayloadV1)
    ensures
        r == (AuthorizationSelectionPayloadV1 {
            authorization_id: record.authorization_id,
            authorization_digest: record.authorization_digest,
            operation_name: record.operation.name,
            operation_version: record.operation.version,
            operation_tag: record.operation.tag,
            operation_channel: record.operation.channel,
            commit: record.freeze.commit,
            tree: record.freeze.tree,
            denominator_digest: record.freeze.denominator_digest,
            evidence_digest: record.evidence_digest,
            nonce: record.nonce,
            state: record.state,
            valid_from_unix_seconds: record.valid_from_unix_seconds,
            expires_at_unix_seconds: record.expires_at_unix_seconds,
        }),
{
    AuthorizationSelectionPayloadV1 {
        authorization_id: record.authorization_id.clone(),
        authorization_digest: record.authorization_digest.clone(),
        operation_name: record.operation.name.clone(),
        operation_version: record.operation.version.clone(),
        operation_tag: record.operation.tag.clone(),
        operation_channel: record.operation.channel.clone(),
        commit: record.freeze.commit.clone(),
        tree: record.freeze.tree.clone(),
        denominator_digest: record.freeze.denominator_digest.clone(),
        evidence_digest: record.evidence_digest.clone(),
        nonce: record.nonce.clone(),
        state: record.state,
        valid_from_unix_seconds: record.valid_from_unix_seconds,
        expires_at_unix_seconds: record.expires_at_unix_seconds,
    }
}

// ---------------------------------------------------------------------------
// Laws.
// ---------------------------------------------------------------------------

/// Selection succeeds only from `Available`: once an authorization was
/// selected, started, settled, expired or revoked, every further selection
/// is refused. One authorization therefore serves at most one run.
pub proof fn lemma_selection_is_one_use(
    record: CargoAllowReleaseAuthorizationCustodyV1,
    nonce: Seq<char>,
    now: u64,
    evidence: Seq<char>,
    storage_provider_available: bool,
)
    requires
        record.state != ReleaseAuthorizationConsumptionV1::Available,
    ensures
        selection_expired(record, now) || select_error(record, nonce, evidence, storage_provider_available)
            is Some,
{
}

/// Terminal consumption history is immutable: a completed or incident
/// authorization cannot be selected, started, settled again or revoked,
/// and the lifecycle admits no step out of it but revocation, which
/// custody refuses.
pub proof fn lemma_terminal_history_is_final(
    record: CargoAllowReleaseAuthorizationCustodyV1,
    next: ReleaseAuthorizationConsumptionV1,
    nonce: Seq<char>,
    now: u64,
    evidence: Seq<char>,
    storage_provider_available: bool,
)
    requires
        record.state == ReleaseAuthorizationConsumptionV1::ConsumedComplete || record.state
            == ReleaseAuthorizationConsumptionV1::ConsumedIncident,
    ensures
        selection_expired(record, now) || select_error(record, nonce, evidence, storage_provider_available)
            is Some,
        record.state != ReleaseAuthorizationConsumptionV1::SelectedForRun,
        record.state != ReleaseAuthorizationConsumptionV1::IrreversibleOperationStarted,
        consumption_step_allowed(record.state, next) ==> next == ReleaseAuthorizationConsumptionV1::Revoked,
{
}

/// A fresh mint is always selectable in principle: it starts `Available`,
/// unread, with no consumed nonce and an empty transition history.
pub proof fn lemma_mint_starts_available(
    c: CargoAllowReleaseAuthorizationCustodyV1,
    i: AuthorizationCustodyMintInitV1,
)
    requires
        minted_from(c, i),
    ensures
        c.state == ReleaseAuthorizationConsumptionV1::Available,
        c.consumed_nonces@.len() == 0,
        c.transitions@.len() == 0,
        select_error(c, c.nonce@, c.evidence_digest@, true) == Some(
            "selection requires a verified independent readback"@,
        ),
{
}

} // verus!
