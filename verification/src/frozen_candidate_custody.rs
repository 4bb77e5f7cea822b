//! Frozen candidate custody and independent readback authority.

use vstd::prelude::*;
use crate::text::{has_forbidden, has_forbidden_tokens, seq_lt, str_eq, str_lt, views};

verus! {

#[derive(Debug, Clone, Copy, PartialEq, Eq, Structural)]
pub enum CustodyDispositionV1 {
    Complete,
    Missing,
    Expiring,
    Stale,
    Mismatch,
    ProviderUnavailable,
    InstrumentFailure,
}

#[derive(Debug, Clone, Copy, PartialEq, Eq, Structural)]
pub enum ConfidentialityClassV1 {
    Public,
    InternalTelemetry,
    Restricted,
}

#[derive(Debug, Clone, PartialEq, Eq)]
pub struct CustodyFileV1 {
    pub path: String,
    pub size_bytes: u64,
    pub sha256: String,
}

#[derive(Debug, Clone, PartialEq, Eq)]
pub struct RetainedCustodyItemV1 {
    pub role: String,
    pub artifact_id: String,
    pub files: Vec<CustodyFileV1>,
    pub storage_locator: String,
    pub retention_expiry_utc: String,
    pub readback_verified: bool,
    pub readback_sha256: Option<String>,
    pub confidentiality_class: ConfidentialityClassV1,
}

#[derive(Debug, Clone, PartialEq, Eq)]
pub struct CandidateCustodyInitV1 {
    pub custody_id: String,
    pub candidate_version: String,
    pub git_commit: String,
    pub git_tree: String,
    pub items: Vec<RetainedCustodyItemV1>,
    pub created_at_utc: String,
}

#[derive(Debug, Clone, PartialEq, Eq)]
pub struct CargoAllowFrozenCandidateCustodyV1 {
    pub schema_id: String,
    pub schema_version: u32,
    pub custody_id: String,
    pub candidate_version: String,
    pub git_commit: String,
    pub git_tree: String,
    pub items: Vec<RetainedCustodyItemV1>,
    pub created_at_utc: String,
    pub claim_boundary: Vec<String>,
    pub limitations: Vec<String>,
}

pub const FROZEN_CANDIDATE_CUSTODY_SCHEMA_ID: &'static str = "cargo-allow.frozen-candidate-custody.v1";

pub const FROZEN_CANDIDATE_CUSTODY_SCHEMA_VERSION: u32 = 1;

/// The first failing check of one retained item, if any: a missing locator
/// is a provider outage; an item not read back is missing; a readback digest
/// that is absent or differs from the first file's digest is a mismatch; a
/// retention expiry at or before `now` (both non-empty, compared as text) is
/// expiring.
pub open spec fn item_failure(item: RetainedCustodyItemV1, now: Seq<char>) -> Option<
    CustodyDispositionV1,
> {
    if item.storage_locator@.len() == 0 {
        Some(CustodyDispositionV1::ProviderUnavailable)
    } else if !item.readback_verified {
        Some(CustodyDispositionV1::Missing)
    } else if item.readback_sha256 is None || item.files@.len() == 0
        || item.files@[0].sha256@ != item.readback_sha256->0@ {
        Some(CustodyDispositionV1::Mismatch)
    } else if item.retention_expiry_utc@.len() > 0 && now.len() > 0 && !seq_lt(
        now,
        item.retention_expiry_utc@,
    ) {
        Some(CustodyDispositionV1::Expiring)
    } else {
        None
    }
}

/// The first item failure in order, or `Complete`.
pub open spec fn items_disposition(items: Seq<RetainedCustodyItemV1>, now: Seq<char>) -> CustodyDispositionV1
    decreases items.len(),
{
    if items.len() == 0 {
        CustodyDispositionV1::Complete
    } else {
        match item_failure(items[0], now) {
            Some(d) => d,
            None => items_disposition(items.drop_first(), now),
        }
    }
}

pub open spec fn custody_disposition(
    c: CargoAllowFrozenCandidateCustodyV1,
    expected_commit: Seq<char>,
    expected_version: Seq<char>,
    now: Seq<char>,
) -> CustodyDispositionV1 {
    if c.schema_id@ != FROZEN_CANDIDATE_CUSTODY_SCHEMA_ID@ || c.schema_version
        != FROZEN_CANDIDATE_CUSTODY_SCHEMA_VERSION || c.custody_id@.len() == 0
        || c.git_commit@.len() == 0 || c.items@.len() == 0 {
        CustodyDispositionV1::InstrumentFailure
    } else if has_forbidden(c.custody_id@) || has_forbidden(c.candidate_version@) || has_forbidden(
        c.git_commit@,
    ) || exists|i: int| 0 <= i < c.items@.len() && item_forbidden(#[trigger] c.items@[i]) {
        CustodyDispositionV1::InstrumentFailure
    } else if c.candidate_version@ != expected_version {
        CustodyDispositionV1::Mismatch
    } else if c.git_commit@ != expected_commit {
        CustodyDispositionV1::Stale
    } else {
        items_disposition(c.items@, now)
    }
}

/// The role or storage locator of an item carries a forbidden character.
pub open spec fn item_forbidden(item: RetainedCustodyItemV1) -> bool {
    has_forbidden(item.role@) || has_forbidden(item.storage_locator@)
}

fn any_item_forbidden(items: &Vec<RetainedCustodyItemV1>) -> (r: bool)
    ensures
        r == exists|i: int| 0 <= i < items@.len() && item_forbidden(#[trigger] items@[i]),
{
    let mut k: usize = 0;
    while k < items.len()
        invariant
            k <= items.len(),
            forall|i: int| 0 <= i < k ==> !item_forbidden(#[trigger] items@[i]),
        decreases items.len() - k,
    {
        let item = &items[k];
        if has_forbidden_tokens(item.role.as_str()) || has_forbidden_tokens(
            item.storage_locator.as_str(),
        ) {
            assert(item_forbidden(items@[k as int]));
            return true;
        }
        assert(!item_forbidden(items@[k as int]));
        k = k + 1;
    }
    false
}

fn text_is_empty(s: &str) -> (r: bool)
    ensures
        r == (s@.len() == 0),
{
    s.unicode_len() == 0
}

fn item_check(item: &RetainedCustodyItemV1, now: &str) -> (r: Option<CustodyDispositionV1>)
    ensures
        r == item_failure(*item, now@),
{
    if text_is_empty(item.storage_locator.as_str()) {
        return Some(CustodyDispositionV1::ProviderUnavailable);
    }
    if !item.readback_verified {
        return Some(CustodyDispositionV1::Missing);
    }
    match &item.readback_sha256 {
        Some(readback) => {
            if item.files.len() == 0 {
                return Some(CustodyDispositionV1::Mismatch);
            }
            if !str_eq(item.files[0].sha256.as_str(), readback.as_str()) {
                return Some(CustodyDispositionV1::Mismatch);
            }
        },
        None => {
            return Some(CustodyDispositionV1::Mismatch);
        },
    }
    if !text_is_empty(item.retention_expiry_utc.as_str()) && !text_is_empty(now) && !str_lt(
        now,
        item.retention_expiry_utc.as_str(),
    ) {
        return Some(CustodyDispositionV1::Expiring);
    }
    None
}

impl CargoAllowFrozenCandidateCustodyV1 {
    /// A fresh custody record at the current schema, with its fixed claim
    /// boundary and limitations.
    pub fn new(init: CandidateCustodyInitV1) -> (r: Self)
        ensures
            r.schema_id@ == FROZEN_CANDIDATE_CUSTODY_SCHEMA_ID@,
            r.schema_version == FROZEN_CANDIDATE_CUSTODY_SCHEMA_VERSION,
            r.custody_id == init.custody_id,
            r.candidate_version == init.candidate_version,
            r.git_commit == init.git_commit,
            r.git_tree == init.git_tree,
            r.items == init.items,
            r.created_at_utc == init.created_at_utc,
            views(r.claim_boundary@) == seq![
                "frozen_candidate_bytes_retained"@,
                "independent_readback_verified"@,
                "strict_digest_and_size_binding"@,
                "no_unauthorized_state_mutation"@,
            ],
            views(r.limitations@) == seq![
                "does_not_execute_live_release"@,
                "does_not_replace_formal_authorization"@,
            ],
    {
        let mut claim_boundary: Vec<String> = Vec::new();
        claim_boundary.push("frozen_candidate_bytes_retained".to_string());
        claim_boundary.push("independent_readback_verified".to_string());
        claim_boundary.push("strict_digest_and_size_binding".to_string());
        claim_boundary.push("no_unauthorized_state_mutation".to_string());
        let mut limitations: Vec<String> = Vec::new();
        limitations.push("does_not_execute_live_release".to_string());
        limitations.push("does_not_replace_formal_authorization".to_string());
        assert(views(claim_boundary@) =~= seq![
            "frozen_candidate_bytes_retained"@,
            "independent_readback_verified"@,
            "strict_digest_and_size_binding"@,
            "no_unauthorized_state_mutation"@,
        ]);
        assert(views(limitations@) =~= seq![
            "does_not_execute_live_release"@,
            "does_not_replace_formal_authorization"@,
        ]);
        CargoAllowFrozenCandidateCustodyV1 {
            schema_id: FROZEN_CANDIDATE_CUSTODY_SCHEMA_ID.to_string(),
            schema_version: FROZEN_CANDIDATE_CUSTODY_SCHEMA_VERSION,
            custody_id: init.custody_id,
            candidate_version: init.candidate_version,
            git_commit: init.git_commit,
            git_tree: init.git_tree,
            items: init.items,
            created_at_utc: init.created_at_utc,
            claim_boundary,
            limitations,
        }
    }

    #[verifier::loop_isolation(false)]
    /// Grades custody against the expected commit and version at `now`
    /// (text timestamps compared lexicographically): structural and
    /// injection failures first, then version mismatch, commit staleness,
    /// and the first failing item.
    pub fn evaluate_custody(
        &self,
        expected_commit: &str,
        expected_version: &str,
        current_time_utc: &str,
    ) -> (r: CustodyDispositionV1)
        ensures
            r == custody_disposition(*self, expected_commit@, expected_version@, current_time_utc@),
    {
        if !str_eq(self.schema_id.as_str(), FROZEN_CANDIDATE_CUSTODY_SCHEMA_ID)
            || self.schema_version != FROZEN_CANDIDATE_CUSTODY_SCHEMA_VERSION || text_is_empty(
            self.custody_id.as_str(),
        ) || text_is_empty(self.git_commit.as_str()) || self.items.len() == 0 {
            return CustodyDispositionV1::InstrumentFailure;
        }
        if has_forbidden_tokens(self.custody_id.as_str()) || has_forbidden_tokens(
            self.candidate_version.as_str(),
        ) || has_forbidden_tokens(self.git_commit.as_str()) {
            return CustodyDispositionV1::InstrumentFailure;
        }
        if any_item_forbidden(&self.items) {
            return CustodyDispositionV1::InstrumentFailure;
        }
        if !str_eq(self.candidate_version.as_str(), expected_version) {
            return CustodyDispositionV1::Mismatch;
        }
        if !str_eq(self.git_commit.as_str(), expected_commit) {
            return CustodyDispositionV1::Stale;
        }
        let mut j: usize = 0;
        assert(self.items@.skip(0) =~= self.items@);
        while j < self.items.len()
            invariant
                j <= self.items.len(),
                items_disposition(self.items@, current_time_utc@) == items_disposition(
                    self.items@.skip(j as int),
                    current_time_utc@,
                ),
            decreases self.items.len() - j,
        {
            assert(self.items@.skip(j as int)[0] == self.items@[j as int]);
            assert(self.items@.skip(j as int).drop_first() =~= self.items@.skip(j + 1));
            match item_check(&self.items[j], current_time_utc) {
                Some(d) => {
                    return d;
                },
                None => {},
            }
            j = j + 1;
        }
        CustodyDispositionV1::Complete
    }
}

proof fn lemma_items_complete(items: Seq<RetainedCustodyItemV1>, now: Seq<char>)
    requires
        items_disposition(items, now) == CustodyDispositionV1::Complete,
    ensures
        forall|j: int| 0 <= j < items.len() ==> item_failure(#[trigger] items[j], now) is None,
    decreases items.len(),
{
    if items.len() > 0 {
        lemma_items_complete(items.drop_first(), now);
        assert forall|j: int| 0 <= j < items.len() implies item_failure(#[trigger] items[j], now) is None by {
            if j > 0 {
                assert(items.drop_first()[j - 1] == items[j]);
            }
        }
    }
}

/// Custody is `Complete` only for the expected candidate version and
/// commit, with at least one retained item, and every item stored at a
/// locator, independently read back, with a readback digest equal to its
/// first file's digest, and not past its retention expiry.
pub proof fn lemma_complete_custody_is_read_back(
    c: CargoAllowFrozenCandidateCustodyV1,
    expected_commit: Seq<char>,
    expected_version: Seq<char>,
    now: Seq<char>,
)
    requires
        custody_disposition(c, expected_commit, expected_version, now) == CustodyDispositionV1::Complete,
    ensures
        c.candidate_version@ == expected_version,
        c.git_commit@ == expected_commit,
        c.items@.len() > 0,
        forall|j: int|
            0 <= j < c.items@.len() ==> {
                let item = #[trigger] c.items@[j];
                &&& item.storage_locator@.len() > 0
                &&& item.readback_verified
                &&& item.readback_sha256 is Some
                &&& item.files@.len() > 0
                &&& item.files@[0].sha256@ == item.readback_sha256->0@
            },
{
    lemma_items_complete(c.items@, now);
    assert forall|j: int| 0 <= j < c.items@.len() implies {
        let item = #[trigger] c.items@[j];
        &&& item.storage_locator@.len() > 0
        &&& item.readback_verified
        &&& item.readback_sha256 is Some
        &&& item.files@.len() > 0
        &&& item.files@[0].sha256@ == item.readback_sha256->0@
    } by {
        assert(item_failure(c.items@[j], now) is None);
    }
}

} // verus!
