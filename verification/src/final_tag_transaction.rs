//! Typed exactly-once annotated tag transaction for the final release.
//!
//! The final `v0.2.0` annotated tag is created exactly once at the separately
//! authorized frozen commit. This module gives that first irreversible action
//! one crash-consistent owner by distinguishing local construction, durable
//! push intent, push start, observed/unknown responses, and exact remote
//! observation. A failed runner or ambiguous push result never leads to
//! deleting, recreating, moving, or blindly retrying the tag.
//!
//! Everything here is pure: no git invocation, no network access, no
//! credential reads, no uploads, and no live-state mutation. Remote and
//! journal observations are caller-supplied; the transaction validates them
//! but never fetches them.

use vstd::prelude::*;
use crate::digest::{digest_text, text_digest};
use crate::json::{json_arr, json_str, JsonList};
use crate::text::{
    blank, is_blank, is_lower_git_sha, is_lower_git_sha_str, is_lower_sha256_digest,
    is_lower_sha256_digest_str, str_eq, views,
};

verus! {

pub const FINAL_TAG_TRANSACTION_SCHEMA_ID: &'static str = "cargo-allow.final-tag-transaction.v1";

pub const FINAL_TAG_TRANSACTION_SCHEMA_VERSION: u32 = 1;

/// The exact selected operation this transaction may carry.
pub const FINAL_TAG_OPERATION: &'static str = "publish_cargo_allow_final_0_2_0";

pub const FINAL_TAG_VERSION: &'static str = "0.2.0";

pub const FINAL_TAG_TAG: &'static str = "v0.2.0";

pub const FINAL_TAG_CHANNEL: &'static str = "stable";

/// Lease state the transaction requires: held before any irreversible action.
pub const FINAL_TAG_REQUIRED_LEASE_STATE: &'static str = "held_pre_irreversible";

/// Authorization custody state the transaction requires: selected for one run.
pub const FINAL_TAG_REQUIRED_AUTHORIZATION_STATE: &'static str = "selected_for_run";

/// Bounded push retries after an observed-absent reconciliation.
pub const FINAL_TAG_MAX_PUSH_ATTEMPTS: u32 = 3;

pub const FINAL_TAG_CLAIM_BOUNDARY: &'static str = "This record owns exactly-once construction, durable push intent, checkpoint agreement, response uncertainty, and exact remote observation for one annotated final-release tag. It does not create or push the tag, read credentials, upload packages, or execute publication.";

/// Typed tag-transaction states in lifecycle order.
#[derive(Debug, Clone, Copy, PartialEq, Eq, Structural)]
pub enum TagTransactionStateV1 {
    CreatedLocally,
    PushIntentDurable,
    PushStarted,
    PushResponseObserved,
    PushResponseUnknown,
    RemoteObservedExact,
    RemoteConflict,
    ProviderUnavailable,
    InstrumentFailure,
}

/// Exact tag identity: the annotated object and what it peels to.
#[derive(Debug, Clone, PartialEq, Eq)]
pub struct FinalTagIdentityV1 {
    pub version: String,
    pub tag: String,
    pub channel: String,
    pub github_prerelease: bool,
    pub commit: String,
    pub tree: String,
    pub tag_object_id: String,
    pub tagger_digest: String,
    pub message_digest: String,
}

/// Caller-supplied remote observation. Reachability and existence are
/// separate claims: an unreachable provider is never inferred as absent.
#[derive(Debug, Clone, PartialEq, Eq)]
pub struct FinalTagRemoteObservationV1 {
    pub provider_reachable: bool,
    pub ref_exists: bool,
    pub remote_is_annotated: bool,
    pub remote_object_id: String,
    pub remote_peeled_commit: String,
    pub remote_peeled_tree: String,
}

/// Caller-supplied durability attestation: the journal head and the
/// independently read-back checkpoint that must bind the same push intent.
#[derive(Debug, Clone, PartialEq, Eq)]
pub struct FinalTagDurabilityV1 {
    pub journal_head_digest: String,
    pub checkpoint_digest: String,
    pub checkpoint_bound_intent_digest: String,
}

/// One append-only tag-transaction transition.
#[derive(Debug, Clone, PartialEq, Eq)]
pub struct TagTransactionTransitionV1 {
    pub from: TagTransactionStateV1,
    pub to: TagTransactionStateV1,
    pub at_unix_seconds: u64,
    pub reason: String,
}

/// The exactly-once tag transaction record.
#[derive(Debug, Clone, PartialEq, Eq)]
pub struct CargoAllowFinalTagTransactionV1 {
    pub schema_id: String,
    pub schema_version: u32,
    pub transaction_id: String,
    pub operation: String,
    /// Canonical operation identity digest. The tag never invents
    /// operation identity; this must equal the digest of the canonical
    /// release-operation identity the transaction is bound to.
    pub operation_identity_digest: String,
    pub authorization_digest: String,
    pub authorization_observed_state: String,
    pub lease_key_digest: String,
    pub lease_observed_state: String,
    pub lease_holder_generation: u64,
    /// Custody subject the tag peels to, bound at construction.
    pub custody_commit: String,
    pub custody_tree: String,
    pub freeze_digest: String,
    pub custody_digest: String,
    pub replay_digest: String,
    pub evidence_digest: String,
    pub tag: FinalTagIdentityV1,
    pub remote_repository: String,
    pub remote_ref: String,
    pub journal_prefix: String,
    pub journal_head_digest: String,
    pub checkpoint_digest: String,
    pub intent_digest: String,
    pub push_attempts: u32,
    pub created_at_unix_seconds: u64,
    pub workflow: String,
    pub run: String,
    pub attempt: String,
    pub job: String,
    pub state: TagTransactionStateV1,
    pub transitions: Vec<TagTransactionTransitionV1>,
    pub claim_boundary: String,
    pub limitations: Vec<String>,
}

/// Caller-supplied construction inputs: local tag object facts plus the
/// pre-creation remote preflight and the authority attestations mapped from
/// the custody and lease records.
#[derive(Debug, Clone, PartialEq, Eq)]
pub struct FinalTagTransactionInitV1 {
    pub transaction_id: String,
    pub operation_identity_digest: String,
    pub authorization_digest: String,
    pub authorization_observed_state: String,
    pub lease_key_digest: String,
    pub lease_observed_state: String,
    pub lease_holder_generation: u64,
    /// Custody subject the tag must peel to. The tag commits to these
    /// values; they come from the freeze custody record so a tag built from
    /// moving `main` cannot validate.
    pub custody_commit: String,
    pub custody_tree: String,
    pub freeze_digest: String,
    pub custody_digest: String,
    pub replay_digest: String,
    pub evidence_digest: String,
    pub tag: FinalTagIdentityV1,
    pub remote_repository: String,
    pub remote_ref: String,
    pub journal_prefix: String,
    pub workflow: String,
    pub run: String,
    pub attempt: String,
    pub job: String,
    pub remote_preflight: FinalTagRemoteObservationV1,
    pub created_at_unix_seconds: u64,
}


// ---------------------------------------------------------------------------
// Shapes and the push intent.
// ---------------------------------------------------------------------------

/// `sha256:` and 64 lowercase hexadecimal digits; uppercase forms hash to
/// different intent digests, so they are rejected rather than normalized.
pub open spec fn digest_shape(s: Seq<char>) -> bool {
    is_lower_sha256_digest(s)
}

/// 40 or 64 lowercase hexadecimal digits.
pub open spec fn git_sha_shape(s: Seq<char>) -> bool {
    is_lower_git_sha(s)
}

/// The canonical push intent: the digest of the compact JSON triple
/// (transaction id, tag object id, journal head digest).
pub open spec fn intent_digest(tid: Seq<char>, object: Seq<char>, head: Seq<char>) -> Seq<char> {
    text_digest(json_arr(Seq::empty().push(json_str(tid)).push(json_str(object)).push(json_str(head))))
}

/// Canonical push-intent digest binding the transaction, tag object, and
/// journal head. The remote checkpoint must bind this same intent before the
/// push may begin.
pub fn tag_push_intent_digest_v1(
    transaction_id: &str,
    tag_object_id: &str,
    journal_head_digest: &str,
) -> (r: String)
    ensures
        r@ == intent_digest(transaction_id@, tag_object_id@, journal_head_digest@),
        is_lower_sha256_digest(r@),
{
    let mut l = JsonList::new();
    let mut a = String::new();
    crate::json::push_json_str(&mut a, transaction_id);
    l.push_raw(a.as_str());
    let mut b = String::new();
    crate::json::push_json_str(&mut b, tag_object_id);
    l.push_raw(b.as_str());
    let mut c = String::new();
    crate::json::push_json_str(&mut c, journal_head_digest);
    l.push_raw(c.as_str());
    let body = l.finish_array();
    digest_text(body.as_str())
}

// ---------------------------------------------------------------------------
// Construction.
// ---------------------------------------------------------------------------

pub open spec fn tag_identity_error(t: FinalTagIdentityV1) -> Option<Seq<char>> {
    if t.version@ != FINAL_TAG_VERSION@ || t.tag@ != FINAL_TAG_TAG@ || t.channel@
        != FINAL_TAG_CHANNEL@ || t.github_prerelease {
        Some("tag transaction requires the exact 0.2.0 stable identity"@)
    } else if !git_sha_shape(t.commit@) || !git_sha_shape(t.tree@) {
        Some("tag transaction requires canonical commit and tree SHAs"@)
    } else if !git_sha_shape(t.tag_object_id@) {
        Some("tag transaction requires a canonical tag object id"@)
    } else if !digest_shape(t.tagger_digest@) || !digest_shape(t.message_digest@) {
        Some("tag transaction requires well-formed tagger and message digests"@)
    } else {
        None
    }
}

/// The first reason construction refuses, in the order it is checked.
pub open spec fn begin_error(i: FinalTagTransactionInitV1) -> Option<Seq<char>> {
    if tag_identity_error(i.tag) is Some {
        tag_identity_error(i.tag)
    } else if i.lease_holder_generation < 1 {
        Some("tag transaction requires a positive lease holder generation"@)
    } else if i.created_at_unix_seconds < 1 {
        Some("tag transaction requires a positive construction time"@)
    } else if !git_sha_shape(i.custody_commit@) || !git_sha_shape(i.custody_tree@) {
        Some("tag transaction requires canonical custody commit and tree SHAs"@)
    } else if i.tag.commit@ != i.custody_commit@ || i.tag.tree@ != i.custody_tree@ {
        Some("tag must peel to the exact custody subject, not moving main"@)
    } else if blank(i.transaction_id@) {
        Some("tag transaction requires an identity"@)
    } else if !i.remote_preflight.provider_reachable {
        Some("tag transaction requires a reachable provider"@)
    } else if i.remote_preflight.ref_exists {
        Some("remote tag already exists; reconcile before any local creation"@)
    } else if i.lease_observed_state@ != FINAL_TAG_REQUIRED_LEASE_STATE@ {
        Some("tag transaction requires a pre-irreversible held lease"@)
    } else if i.authorization_observed_state@ != FINAL_TAG_REQUIRED_AUTHORIZATION_STATE@ {
        Some("tag transaction requires a selected authorization"@)
    } else if !digest_shape(i.operation_identity_digest@) || !digest_shape(
        i.authorization_digest@,
    ) || !digest_shape(i.lease_key_digest@) || !digest_shape(i.freeze_digest@) || !digest_shape(
        i.custody_digest@,
    ) || !digest_shape(i.replay_digest@) || !digest_shape(i.evidence_digest@) {
        Some("tag transaction requires well-formed authority digests"@)
    } else if blank(i.remote_repository@) || blank(i.remote_ref@) || blank(i.journal_prefix@) {
        Some("tag transaction requires remote, ref, and journal identities"@)
    } else if blank(i.workflow@) || blank(i.run@) || blank(i.attempt@) || blank(i.job@) {
        Some("tag transaction requires workflow/run/attempt/job identity"@)
    } else {
        None
    }
}

fn tag_identity_check(t: &FinalTagIdentityV1) -> (r: Option<&'static str>)
    ensures
        match r {
            None => tag_identity_error(*t) is None,
            Some(e) => tag_identity_error(*t) == Some(e@),
        },
{
    if !str_eq(t.version.as_str(), FINAL_TAG_VERSION) || !str_eq(t.tag.as_str(), FINAL_TAG_TAG)
        || !str_eq(t.channel.as_str(), FINAL_TAG_CHANNEL) || t.github_prerelease {
        return Some("tag transaction requires the exact 0.2.0 stable identity");
    }
    if !is_lower_git_sha_str(t.commit.as_str()) || !is_lower_git_sha_str(t.tree.as_str()) {
        return Some("tag transaction requires canonical commit and tree SHAs");
    }
    if !is_lower_git_sha_str(t.tag_object_id.as_str()) {
        return Some("tag transaction requires a canonical tag object id");
    }
    if !is_lower_sha256_digest_str(t.tagger_digest.as_str()) || !is_lower_sha256_digest_str(
        t.message_digest.as_str(),
    ) {
        return Some("tag transaction requires well-formed tagger and message digests");
    }
    None
}

fn begin_check(i: &FinalTagTransactionInitV1) -> (r: Option<&'static str>)
    ensures
        match r {
            None => begin_error(*i) is None,
            Some(e) => begin_error(*i) == Some(e@),
        },
{
    let e = tag_identity_check(&i.tag);
    if e.is_some() {
        return e;
    }
    if i.lease_holder_generation < 1 {
        return Some("tag transaction requires a positive lease holder generation");
    }
    if i.created_at_unix_seconds < 1 {
        return Some("tag transaction requires a positive construction time");
    }
    if !is_lower_git_sha_str(i.custody_commit.as_str()) || !is_lower_git_sha_str(
        i.custody_tree.as_str(),
    ) {
        return Some("tag transaction requires canonical custody commit and tree SHAs");
    }
    if !str_eq(i.tag.commit.as_str(), i.custody_commit.as_str()) || !str_eq(
        i.tag.tree.as_str(),
        i.custody_tree.as_str(),
    ) {
        return Some("tag must peel to the exact custody subject, not moving main");
    }
    if is_blank(i.transaction_id.as_str()) {
        return Some("tag transaction requires an identity");
    }
    if !i.remote_preflight.provider_reachable {
        return Some("tag transaction requires a reachable provider");
    }
    if i.remote_preflight.ref_exists {
        return Some("remote tag already exists; reconcile before any local creation");
    }
    if !str_eq(i.lease_observed_state.as_str(), FINAL_TAG_REQUIRED_LEASE_STATE) {
        return Some("tag transaction requires a pre-irreversible held lease");
    }
    if !str_eq(i.authorization_observed_state.as_str(), FINAL_TAG_REQUIRED_AUTHORIZATION_STATE) {
        return Some("tag transaction requires a selected authorization");
    }
    if !is_lower_sha256_digest_str(i.operation_identity_digest.as_str())
        || !is_lower_sha256_digest_str(i.authorization_digest.as_str())
        || !is_lower_sha256_digest_str(i.lease_key_digest.as_str())
        || !is_lower_sha256_digest_str(i.freeze_digest.as_str())
        || !is_lower_sha256_digest_str(i.custody_digest.as_str())
        || !is_lower_sha256_digest_str(i.replay_digest.as_str())
        || !is_lower_sha256_digest_str(i.evidence_digest.as_str()) {
        return Some("tag transaction requires well-formed authority digests");
    }
    if is_blank(i.remote_repository.as_str()) || is_blank(i.remote_ref.as_str()) || is_blank(
        i.journal_prefix.as_str(),
    ) {
        return Some("tag transaction requires remote, ref, and journal identities");
    }
    if is_blank(i.workflow.as_str()) || is_blank(i.run.as_str()) || is_blank(i.attempt.as_str())
        || is_blank(i.job.as_str()) {
        return Some("tag transaction requires workflow/run/attempt/job identity");
    }
    None
}

/// The record built from a valid initializer: the caller's identities and
/// attestations, empty durability bindings, no attempts, no transitions.
pub open spec fn begun_from(r: CargoAllowFinalTagTransactionV1, i: FinalTagTransactionInitV1) -> bool {
    &&& r.schema_id@ == FINAL_TAG_TRANSACTION_SCHEMA_ID@
    &&& r.schema_version == FINAL_TAG_TRANSACTION_SCHEMA_VERSION
    &&& r.transaction_id == i.transaction_id
    &&& r.operation@ == FINAL_TAG_OPERATION@
    &&& r.operation_identity_digest == i.operation_identity_digest
    &&& r.authorization_digest == i.authorization_digest
    &&& r.authorization_observed_state == i.authorization_observed_state
    &&& r.lease_key_digest == i.lease_key_digest
    &&& r.lease_observed_state == i.lease_observed_state
    &&& r.lease_holder_generation == i.lease_holder_generation
    &&& r.custody_commit == i.custody_commit
    &&& r.custody_tree == i.custody_tree
    &&& r.freeze_digest == i.freeze_digest
    &&& r.custody_digest == i.custody_digest
    &&& r.replay_digest == i.replay_digest
    &&& r.evidence_digest == i.evidence_digest
    &&& r.tag == i.tag
    &&& r.remote_repository == i.remote_repository
    &&& r.remote_ref == i.remote_ref
    &&& r.journal_prefix == i.journal_prefix
    &&& r.journal_head_digest@.len() == 0
    &&& r.checkpoint_digest@.len() == 0
    &&& r.intent_digest@.len() == 0
    &&& r.push_attempts == 0
    &&& r.created_at_unix_seconds == i.created_at_unix_seconds
    &&& r.workflow == i.workflow
    &&& r.run == i.run
    &&& r.attempt == i.attempt
    &&& r.job == i.job
    &&& r.state == TagTransactionStateV1::CreatedLocally
    &&& r.transitions@.len() == 0
    &&& r.claim_boundary@ == FINAL_TAG_CLAIM_BOUNDARY@
    &&& views(r.limitations@) == seq![
        "does_not_create_or_push_tags"@,
        "does_not_read_credentials"@,
        "does_not_authorize_package_publication"@,
    ]
}

/// Constructs the local tag transaction after observing the remote
/// preflight. Refuses on unreachable providers, on any pre-existing ref
/// (resume, never overwrite), and on foreign lease or authorization
/// bindings. No tag object is created here.
pub fn begin_tag_transaction_v1(init: FinalTagTransactionInitV1) -> (r: Result<
    CargoAllowFinalTagTransactionV1,
    &'static str,
>)
    ensures
        match r {
            Ok(t) => begin_error(init) is None && begun_from(t, init),
            Err(e) => begin_error(init) == Some(e@),
        },
{
    match begin_check(&init) {
        Some(e) => {
            return Err(e);
        },
        None => {},
    }
    let mut limitations: Vec<String> = Vec::new();
    limitations.push("does_not_create_or_push_tags".to_string());
    limitations.push("does_not_read_credentials".to_string());
    limitations.push("does_not_authorize_package_publication".to_string());
    assert(views(limitations@) =~= seq![
        "does_not_create_or_push_tags"@,
        "does_not_read_credentials"@,
        "does_not_authorize_package_publication"@,
    ]);
    Ok(
        CargoAllowFinalTagTransactionV1 {
            schema_id: FINAL_TAG_TRANSACTION_SCHEMA_ID.to_string(),
            schema_version: FINAL_TAG_TRANSACTION_SCHEMA_VERSION,
            transaction_id: init.transaction_id,
            operation: FINAL_TAG_OPERATION.to_string(),
            operation_identity_digest: init.operation_identity_digest,
            authorization_digest: init.authorization_digest,
            authorization_observed_state: init.authorization_observed_state,
            lease_key_digest: init.lease_key_digest,
            lease_observed_state: init.lease_observed_state,
            lease_holder_generation: init.lease_holder_generation,
            custody_commit: init.custody_commit,
            custody_tree: init.custody_tree,
            freeze_digest: init.freeze_digest,
            custody_digest: init.custody_digest,
            replay_digest: init.replay_digest,
            evidence_digest: init.evidence_digest,
            tag: init.tag,
            remote_repository: init.remote_repository,
            remote_ref: init.remote_ref,
            journal_prefix: init.journal_prefix,
            journal_head_digest: String::new(),
            checkpoint_digest: String::new(),
            intent_digest: String::new(),
            push_attempts: 0,
            created_at_unix_seconds: init.created_at_unix_seconds,
            workflow: init.workflow,
            run: init.run,
            attempt: init.attempt,
            job: init.job,
            state: TagTransactionStateV1::CreatedLocally,
            transitions: Vec::new(),
            claim_boundary: FINAL_TAG_CLAIM_BOUNDARY.to_string(),
            limitations,
        },
    )
}

// ---------------------------------------------------------------------------
// The lifecycle.
// ---------------------------------------------------------------------------

/// The legal lifecycle steps: intent from construction or an absent
/// reconciliation (and a re-affirmed intent), start after intent, a
/// response after start, reconciliation after a response, and provider
/// loss at construction.
pub open spec fn tag_step_legal(from: TagTransactionStateV1, to: TagTransactionStateV1) -> bool {
    ||| from == TagTransactionStateV1::CreatedLocally && to == TagTransactionStateV1::PushIntentDurable
    ||| from == TagTransactionStateV1::PushResponseUnknown && to == TagTransactionStateV1::PushIntentDurable
    ||| from == TagTransactionStateV1::PushIntentDurable && to == TagTransactionStateV1::PushIntentDurable
    ||| from == TagTransactionStateV1::PushIntentDurable && to == TagTransactionStateV1::PushStarted
    ||| from == TagTransactionStateV1::PushStarted && to == TagTransactionStateV1::PushResponseObserved
    ||| from == TagTransactionStateV1::PushStarted && to == TagTransactionStateV1::PushResponseUnknown
    ||| (from == TagTransactionStateV1::PushResponseUnknown || from
        == TagTransactionStateV1::PushResponseObserved) && (to
        == TagTransactionStateV1::RemoteObservedExact || to == TagTransactionStateV1::RemoteConflict
        || to == TagTransactionStateV1::ProviderUnavailable)
    ||| from == TagTransactionStateV1::CreatedLocally && to == TagTransactionStateV1::ProviderUnavailable
}

pub type TransitionView = (TagTransactionStateV1, TagTransactionStateV1, u64, Seq<char>);

pub open spec fn transitions_view(v: Seq<TagTransactionTransitionV1>) -> Seq<TransitionView> {
    v.map_values(|t: TagTransactionTransitionV1| (t.from, t.to, t.at_unix_seconds, t.reason@))
}

/// The earliest time the next transition may carry.
pub open spec fn baseline(r: CargoAllowFinalTagTransactionV1) -> u64 {
    if r.transitions@.len() > 0 {
        r.transitions@.last().at_unix_seconds
    } else {
        r.created_at_unix_seconds
    }
}

/// Everything but the lifecycle (state, transitions, durability bindings
/// and attempt count) is equal.
pub open spec fn same_subject(a: CargoAllowFinalTagTransactionV1, b: CargoAllowFinalTagTransactionV1) -> bool {
    &&& a.schema_id == b.schema_id
    &&& a.schema_version == b.schema_version
    &&& a.transaction_id == b.transaction_id
    &&& a.operation == b.operation
    &&& a.operation_identity_digest == b.operation_identity_digest
    &&& a.authorization_digest == b.authorization_digest
    &&& a.authorization_observed_state == b.authorization_observed_state
    &&& a.lease_key_digest == b.lease_key_digest
    &&& a.lease_observed_state == b.lease_observed_state
    &&& a.lease_holder_generation == b.lease_holder_generation
    &&& a.custody_commit == b.custody_commit
    &&& a.custody_tree == b.custody_tree
    &&& a.freeze_digest == b.freeze_digest
    &&& a.custody_digest == b.custody_digest
    &&& a.replay_digest == b.replay_digest
    &&& a.evidence_digest == b.evidence_digest
    &&& a.tag == b.tag
    &&& a.remote_repository == b.remote_repository
    &&& a.remote_ref == b.remote_ref
    &&& a.journal_prefix == b.journal_prefix
    &&& a.created_at_unix_seconds == b.created_at_unix_seconds
    &&& a.workflow == b.workflow
    &&& a.run == b.run
    &&& a.attempt == b.attempt
    &&& a.job == b.job
    &&& a.claim_boundary == b.claim_boundary
    &&& a.limitations == b.limitations
}

/// `new` is `old` advanced to `next` at `at` for `reason`: one transition
/// appended, durability bindings and attempts untouched.
pub open spec fn advanced(
    old: CargoAllowFinalTagTransactionV1,
    new: CargoAllowFinalTagTransactionV1,
    next: TagTransactionStateV1,
    at: u64,
    reason: Seq<char>,
) -> bool {
    &&& same_subject(old, new)
    &&& new.journal_head_digest == old.journal_head_digest
    &&& new.checkpoint_digest == old.checkpoint_digest
    &&& new.intent_digest == old.intent_digest
    &&& new.push_attempts == old.push_attempts
    &&& new.state == next
    &&& transitions_view(new.transitions@) == transitions_view(old.transitions@).push(
        (old.state, next, at, reason),
    )
}

/// One attempted step: refused (record unchanged) when illegal or earlier
/// than the baseline, applied otherwise.
pub open spec fn step_outcome(
    old: CargoAllowFinalTagTransactionV1,
    new: CargoAllowFinalTagTransactionV1,
    r: Result<(), &str>,
    next: TagTransactionStateV1,
    at: u64,
    reason: Seq<char>,
) -> bool {
    if !tag_step_legal(old.state, next) {
        r is Err && r->Err_0@ == "invalid tag transaction transition"@ && new == old
    } else if at < baseline(old) {
        r is Err && r->Err_0@ == "tag transitions must not predate construction or predecessors"@
            && new == old
    } else {
        r is Ok && advanced(old, new, next, at, reason)
    }
}

fn advance_tag_state(
    record: &mut CargoAllowFinalTagTransactionV1,
    next: TagTransactionStateV1,
    at_unix_seconds: u64,
    reason: &str,
) -> (r: Result<(), &'static str>)
    ensures
        step_outcome(*old(record), *final(record), r, next, at_unix_seconds, reason@),
{
    let from = record.state;
    let legal = match (from, next) {
        (TagTransactionStateV1::CreatedLocally, TagTransactionStateV1::PushIntentDurable)
        | (TagTransactionStateV1::PushResponseUnknown, TagTransactionStateV1::PushIntentDurable)
        | (TagTransactionStateV1::PushIntentDurable, TagTransactionStateV1::PushIntentDurable)
        | (TagTransactionStateV1::PushIntentDurable, TagTransactionStateV1::PushStarted)
        | (TagTransactionStateV1::PushStarted, TagTransactionStateV1::PushResponseObserved)
        | (TagTransactionStateV1::PushStarted, TagTransactionStateV1::PushResponseUnknown)
        | (TagTransactionStateV1::PushResponseUnknown, TagTransactionStateV1::RemoteObservedExact)
        | (TagTransactionStateV1::PushResponseUnknown, TagTransactionStateV1::RemoteConflict)
        | (TagTransactionStateV1::PushResponseUnknown, TagTransactionStateV1::ProviderUnavailable)
        | (TagTransactionStateV1::PushResponseObserved, TagTransactionStateV1::RemoteObservedExact)
        | (TagTransactionStateV1::PushResponseObserved, TagTransactionStateV1::RemoteConflict)
        | (TagTransactionStateV1::PushResponseObserved, TagTransactionStateV1::ProviderUnavailable)
        | (TagTransactionStateV1::CreatedLocally, TagTransactionStateV1::ProviderUnavailable) => true,
        _ => false,
    };
    if !legal {
        return Err("invalid tag transaction transition");
    }
    let n = record.transitions.len();
    let base = if n > 0 {
        record.transitions[n - 1].at_unix_seconds
    } else {
        record.created_at_unix_seconds
    };
    if at_unix_seconds < base {
        return Err("tag transitions must not predate construction or predecessors");
    }
    let ghost before = record.transitions@;
    record.transitions.push(
        TagTransactionTransitionV1 {
            from,
            to: next,
            at_unix_seconds,
            reason: reason.to_string(),
        },
    );
    record.state = next;
    assert(transitions_view(record.transitions@) =~= transitions_view(before).push(
        (from, next, at_unix_seconds, reason@),
    ));
    Ok(())
}

/// A fresh intent is recorded at construction, or exactly once after an
/// observed-absent reconciliation that authorized a careful retry.
pub open spec fn retry_authorized(r: CargoAllowFinalTagTransactionV1) -> bool {
    r.state == TagTransactionStateV1::PushIntentDurable && r.transitions@.len() > 0
        && r.transitions@.last().reason@ == "observed-absent-retry-authorized"@
        && r.transitions@.last().to == TagTransactionStateV1::PushIntentDurable
}

/// Why a push intent cannot be recorded before any binding is made.
pub open spec fn intent_error(r: CargoAllowFinalTagTransactionV1, d: FinalTagDurabilityV1) -> Option<
    Seq<char>,
> {
    if r.state != TagTransactionStateV1::CreatedLocally && !retry_authorized(r) {
        Some("push intent belongs to construction or reconciled retry only"@)
    } else if !digest_shape(d.journal_head_digest@) || !digest_shape(d.checkpoint_digest@)
        || !digest_shape(d.checkpoint_bound_intent_digest@) {
        Some("push intent requires well-formed journal and checkpoint digests"@)
    } else if d.checkpoint_bound_intent_digest@ != intent_digest(
        r.transaction_id@,
        r.tag.tag_object_id@,
        d.journal_head_digest@,
    ) {
        Some("checkpoint and journal disagree on the push intent"@)
    } else {
        None
    }
}

/// Records durable push intent: the journal head and the independently
/// read-back checkpoint must bind the same intent before the push may
/// begin; disagreement refuses. Once both agree the bindings are recorded
/// and the transaction steps to `PushIntentDurable` (the step itself may
/// still be refused for an earlier time, leaving the bindings recorded).
pub fn record_tag_push_intent_v1(
    record: &mut CargoAllowFinalTagTransactionV1,
    durability: FinalTagDurabilityV1,
    at_unix_seconds: u64,
) -> (r: Result<(), &'static str>)
    ensures
        match intent_error(*old(record), durability) {
            Some(e) => r is Err && r->Err_0@ == e && *final(record) == *old(record),
            None => {
                &&& final(record).journal_head_digest == durability.journal_head_digest
                &&& final(record).checkpoint_digest == durability.checkpoint_digest
                &&& final(record).intent_digest@ == durability.checkpoint_bound_intent_digest@
                &&& same_subject(*old(record), *final(record))
                &&& final(record).push_attempts == old(record).push_attempts
                &&& if at_unix_seconds < baseline(*old(record)) {
                    &&& r is Err
                    &&& r->Err_0@ == "tag transitions must not predate construction or predecessors"@
                    &&& final(record).state == old(record).state
                    &&& final(record).transitions == old(record).transitions
                } else {
                    &&& r is Ok
                    &&& final(record).state == TagTransactionStateV1::PushIntentDurable
                    &&& transitions_view(final(record).transitions@) == transitions_view(
                        old(record).transitions@,
                    ).push(
                        (
                            old(record).state,
                            TagTransactionStateV1::PushIntentDurable,
                            at_unix_seconds,
                            "push-intent-durable"@,
                        ),
                    )
                }
            },
        },
{
    let n = record.transitions.len();
    let retry = record.state == TagTransactionStateV1::PushIntentDurable && n > 0 && str_eq(
        record.transitions[n - 1].reason.as_str(),
        "observed-absent-retry-authorized",
    ) && record.transitions[n - 1].to == TagTransactionStateV1::PushIntentDurable;
    if record.state != TagTransactionStateV1::CreatedLocally && !retry {
        return Err("push intent belongs to construction or reconciled retry only");
    }
    if !is_lower_sha256_digest_str(durability.journal_head_digest.as_str())
        || !is_lower_sha256_digest_str(durability.checkpoint_digest.as_str())
        || !is_lower_sha256_digest_str(durability.checkpoint_bound_intent_digest.as_str()) {
        return Err("push intent requires well-formed journal and checkpoint digests");
    }
    let intent = tag_push_intent_digest_v1(
        record.transaction_id.as_str(),
        record.tag.tag_object_id.as_str(),
        durability.journal_head_digest.as_str(),
    );
    if !str_eq(durability.checkpoint_bound_intent_digest.as_str(), intent.as_str()) {
        return Err("checkpoint and journal disagree on the push intent");
    }
    record.journal_head_digest = durability.journal_head_digest;
    record.checkpoint_digest = durability.checkpoint_digest;
    record.intent_digest = intent;
    advance_tag_state(
        record,
        TagTransactionStateV1::PushIntentDurable,
        at_unix_seconds,
        "push-intent-durable",
    )
}

/// Begins the push: only a durable intent may start, attempts are bounded,
/// and a started push counts one attempt.
pub fn record_tag_push_started_v1(
    record: &mut CargoAllowFinalTagTransactionV1,
    at_unix_seconds: u64,
) -> (r: Result<(), &'static str>)
    ensures
        if old(record).state != TagTransactionStateV1::PushIntentDurable {
            r is Err && r->Err_0@ == "only a durable push intent may start"@ && *final(record)
                == *old(record)
        } else if old(record).push_attempts >= FINAL_TAG_MAX_PUSH_ATTEMPTS {
            r is Err && r->Err_0@ == "push attempt bound reached; operator decision required"@
                && *final(record) == *old(record)
        } else if at_unix_seconds < baseline(*old(record)) {
            r is Err && r->Err_0@ == "tag transitions must not predate construction or predecessors"@
                && *final(record) == *old(record)
        } else {
            &&& r is Ok
            &&& final(record).push_attempts == old(record).push_attempts + 1
            &&& same_subject(*old(record), *final(record))
            &&& final(record).journal_head_digest == old(record).journal_head_digest
            &&& final(record).checkpoint_digest == old(record).checkpoint_digest
            &&& final(record).intent_digest == old(record).intent_digest
            &&& final(record).state == TagTransactionStateV1::PushStarted
            &&& transitions_view(final(record).transitions@) == transitions_view(
                old(record).transitions@,
            ).push(
                (
                    TagTransactionStateV1::PushIntentDurable,
                    TagTransactionStateV1::PushStarted,
                    at_unix_seconds,
                    "push-started"@,
                ),
            )
        },
{
    if record.state != TagTransactionStateV1::PushIntentDurable {
        return Err("only a durable push intent may start");
    }
    if record.push_attempts >= FINAL_TAG_MAX_PUSH_ATTEMPTS {
        return Err("push attempt bound reached; operator decision required");
    }
    match advance_tag_state(record, TagTransactionStateV1::PushStarted, at_unix_seconds, "push-started") {
        Err(e) => {
            return Err(e);
        },
        Ok(()) => {},
    }
    record.push_attempts = record.push_attempts + 1;
    Ok(())
}

/// Records the push response when available; otherwise the unknown outcome
/// for read-only reconciliation. A response is never inferred.
pub fn record_tag_push_response_v1(
    record: &mut CargoAllowFinalTagTransactionV1,
    response_observed: bool,
    at_unix_seconds: u64,
) -> (r: Result<(), &'static str>)
    ensures
        if old(record).state != TagTransactionStateV1::PushStarted {
            r is Err && r->Err_0@ == "a push response belongs to a started push only"@
                && *final(record) == *old(record)
        } else {
            step_outcome(
                *old(record),
                *final(record),
                r,
                if response_observed {
                    TagTransactionStateV1::PushResponseObserved
                } else {
                    TagTransactionStateV1::PushResponseUnknown
                },
                at_unix_seconds,
                if response_observed {
                    "push-response-observed"@
                } else {
                    "push-response-unknown"@
                },
            )
        },
{
    if record.state != TagTransactionStateV1::PushStarted {
        return Err("a push response belongs to a started push only");
    }
    if response_observed {
        advance_tag_state(
            record,
            TagTransactionStateV1::PushResponseObserved,
            at_unix_seconds,
            "push-response-observed",
        )
    } else {
        advance_tag_state(
            record,
            TagTransactionStateV1::PushResponseUnknown,
            at_unix_seconds,
            "push-response-unknown",
        )
    }
}

/// What a read-only remote observation decides for an uncertain push: the
/// step it takes (state and reason), or a refusal.
pub open spec fn reconcile_decision(
    r: CargoAllowFinalTagTransactionV1,
    o: FinalTagRemoteObservationV1,
) -> Result<(TagTransactionStateV1, Seq<char>), Seq<char>> {
    if !o.provider_reachable {
        Ok((TagTransactionStateV1::ProviderUnavailable, "provider-unreachable-during-reconcile"@))
    } else if !o.ref_exists {
        if r.state == TagTransactionStateV1::PushResponseObserved {
            Err("observed success with an absent ref requires operator decision; retry refused"@)
        } else if r.push_attempts >= FINAL_TAG_MAX_PUSH_ATTEMPTS {
            Err("push attempt bound reached; operator decision required"@)
        } else {
            Ok((TagTransactionStateV1::PushIntentDurable, "observed-absent-retry-authorized"@))
        }
    } else if !o.remote_is_annotated {
        Ok((TagTransactionStateV1::RemoteConflict, "remote-lightweight-tag-conflict"@))
    } else if o.remote_object_id@ != r.tag.tag_object_id@ || o.remote_peeled_commit@
        != r.tag.commit@ || o.remote_peeled_tree@ != r.tag.tree@ {
        Ok((TagTransactionStateV1::RemoteConflict, "remote-tag-object-conflict"@))
    } else {
        Ok((TagTransactionStateV1::RemoteObservedExact, "remote-observed-exact"@))
    }
}

/// Reconciles an unknown (or observed-ambiguous) push by read-only remote
/// observation: exact observation continues without another push; conflict
/// is an incident that stops; absence authorizes one more careful attempt
/// within the bound; unreachability is provider state, never absence.
pub fn reconcile_tag_push_unknown_v1(
    record: &mut CargoAllowFinalTagTransactionV1,
    observation: FinalTagRemoteObservationV1,
    at_unix_seconds: u64,
) -> (r: Result<(), &'static str>)
    ensures
        if old(record).state != TagTransactionStateV1::PushResponseUnknown && old(record).state
            != TagTransactionStateV1::PushResponseObserved {
            r is Err && r->Err_0@ == "reconciliation belongs to an uncertain push only"@
                && *final(record) == *old(record)
        } else {
            match reconcile_decision(*old(record), observation) {
                Err(e) => r is Err && r->Err_0@ == e && *final(record) == *old(record),
                Ok((next, reason)) => step_outcome(
                    *old(record),
                    *final(record),
                    r,
                    next,
                    at_unix_seconds,
                    reason,
                ),
            }
        },
{
    if record.state != TagTransactionStateV1::PushResponseUnknown && record.state
        != TagTransactionStateV1::PushResponseObserved {
        return Err("reconciliation belongs to an uncertain push only");
    }
    if !observation.provider_reachable {
        return advance_tag_state(
            record,
            TagTransactionStateV1::ProviderUnavailable,
            at_unix_seconds,
            "provider-unreachable-during-reconcile",
        );
    }
    if !observation.ref_exists {
        if record.state == TagTransactionStateV1::PushResponseObserved {
            return Err(
                "observed success with an absent ref requires operator decision; retry refused",
            );
        }
        if record.push_attempts >= FINAL_TAG_MAX_PUSH_ATTEMPTS {
            return Err("push attempt bound reached; operator decision required");
        }
        return advance_tag_state(
            record,
            TagTransactionStateV1::PushIntentDurable,
            at_unix_seconds,
            "observed-absent-retry-authorized",
        );
    }
    if !observation.remote_is_annotated {
        return advance_tag_state(
            record,
            TagTransactionStateV1::RemoteConflict,
            at_unix_seconds,
            "remote-lightweight-tag-conflict",
        );
    }
    if !str_eq(observation.remote_object_id.as_str(), record.tag.tag_object_id.as_str()) || !str_eq(
        observation.remote_peeled_commit.as_str(),
        record.tag.commit.as_str(),
    ) || !str_eq(observation.remote_peeled_tree.as_str(), record.tag.tree.as_str()) {
        return advance_tag_state(
            record,
            TagTransactionStateV1::RemoteConflict,
            at_unix_seconds,
            "remote-tag-object-conflict",
        );
    }
    advance_tag_state(
        record,
        TagTransactionStateV1::RemoteObservedExact,
        at_unix_seconds,
        "remote-observed-exact",
    )
}

/// Release gate for package and token work: open only after the exact
/// remote annotated tag is observed.
pub fn tag_release_gate_open_v1(record: &CargoAllowFinalTagTransactionV1) -> (r: bool)
    ensures
        r == (record.state == TagTransactionStateV1::RemoteObservedExact),
{
    record.state == TagTransactionStateV1::RemoteObservedExact
}

// ---------------------------------------------------------------------------
// Laws.
// ---------------------------------------------------------------------------

/// The tag is never deleted, recreated, moved or blindly retried: exact
/// observation, conflict and provider loss admit no further lifecycle step.
pub proof fn lemma_terminal_states_are_final(from: TagTransactionStateV1, to: TagTransactionStateV1)
    requires
        from == TagTransactionStateV1::RemoteObservedExact || from == TagTransactionStateV1::RemoteConflict
            || from == TagTransactionStateV1::ProviderUnavailable,
    ensures
        !tag_step_legal(from, to),
{
}

/// Push attempts stay within the bound: a started push never raises the
/// count past `FINAL_TAG_MAX_PUSH_ATTEMPTS` when it started within it.
pub proof fn lemma_push_attempts_bounded(
    before: CargoAllowFinalTagTransactionV1,
    after: CargoAllowFinalTagTransactionV1,
)
    requires
        before.push_attempts <= FINAL_TAG_MAX_PUSH_ATTEMPTS,
        before.state == TagTransactionStateV1::PushIntentDurable,
        before.push_attempts < FINAL_TAG_MAX_PUSH_ATTEMPTS,
        after.push_attempts == before.push_attempts + 1,
    ensures
        after.push_attempts <= FINAL_TAG_MAX_PUSH_ATTEMPTS,
{
}

/// Reconciliation never treats silence as absence and retries only within
/// the bound: a retry is authorized only by a reachable provider that
/// reports the ref absent after an unknown response, with attempts left.
pub proof fn lemma_retry_only_after_observed_absence(
    r: CargoAllowFinalTagTransactionV1,
    o: FinalTagRemoteObservationV1,
)
    requires
        reconcile_decision(r, o) is Ok,
        reconcile_decision(r, o)->Ok_0.0 == TagTransactionStateV1::PushIntentDurable,
    ensures
        o.provider_reachable,
        !o.ref_exists,
        r.state != TagTransactionStateV1::PushResponseObserved,
        r.push_attempts < FINAL_TAG_MAX_PUSH_ATTEMPTS,
{
}

/// The release gate opens only at an exact remote observation, which only
/// an annotated remote tag naming this tag object, commit and tree yields.
pub proof fn lemma_gate_opens_only_on_exact_remote(
    r: CargoAllowFinalTagTransactionV1,
    o: FinalTagRemoteObservationV1,
)
    requires
        reconcile_decision(r, o) is Ok,
        reconcile_decision(r, o)->Ok_0.0 == TagTransactionStateV1::RemoteObservedExact,
    ensures
        o.provider_reachable && o.ref_exists && o.remote_is_annotated,
        o.remote_object_id@ == r.tag.tag_object_id@,
        o.remote_peeled_commit@ == r.tag.commit@,
        o.remote_peeled_tree@ == r.tag.tree@,
{
}

} // verus!
