//! Typed reconciled package publication for release manifest construction.
//!
//! Each manifest package row is built from a reconciled publication result,
//! never from a state string alone. The row class separates cargo-allow
//! candidate rows (expected checksum: the candidate's local package bytes)
//! from published shared prerequisites (expected checksum: the retained
//! namespace authority). Classification follows expected/observed equality,
//! so a same-version registry row from another candidate never passes as
//! exact.

use vstd::prelude::*;
use crate::text::{is_sha256_digest, is_sha256_digest_str, str_eq};

verus! {

pub const RECONCILED_PACKAGE_PUBLICATION_SCHEMA: &'static str = "cargo-allow.reconciled-package-publication.v1";

/// The role a package plays in the selected release closure.
#[derive(Debug, Clone, Copy, PartialEq, Eq, Structural)]
pub enum PackageRowClassV1 {
    /// Final cargo-allow candidate row: the expected checksum authority is
    /// this candidate's local package bytes.
    CargoAllowCandidate,
    /// Published shared prerequisite: the expected checksum authority is the
    /// retained namespace registry checksum, not a local repackage.
    PublishedSharedPrerequisite,
}

/// Registry/publication state as observed at reconciliation time.
#[derive(Debug, Clone, Copy, PartialEq, Eq, Structural)]
pub enum PublicationStateV1 {
    /// The row is absent from the registry.
    Missing,
    /// The registry row exists and was verified against this candidate.
    PublishedVerified,
    /// The registry row pre-existed and was verified existing.
    VerifiedExisting,
    /// Provider could not be reached; observation is incomplete.
    ProviderUnavailable,
}

/// The reconciled classification of one package row.
#[derive(Debug, Clone, Copy, PartialEq, Eq, Structural)]
pub enum PublicationClassificationV1 {
    CompleteExact,
    Missing,
    Conflict,
    Unavailable,
    Stale,
    Mismatch,
}

/// One reconciled package publication for manifest construction.
#[derive(Debug, Clone, PartialEq, Eq)]
pub struct ReconciledPackagePublicationV1 {
    pub logical_id: String,
    pub package_name: String,
    pub package_version: String,
    pub release_order: u32,
    pub row_class: PackageRowClassV1,
    pub state: PublicationStateV1,
    /// The expected checksum for this row per its class authority.
    pub expected_checksum: String,
    /// The observed registry checksum, when the registry was reachable.
    pub observed_registry_checksum: Option<String>,
}

/// The classification of one row: an absent observation is missing (or
/// unavailable under a provider outage); malformed evidence is a mismatch;
/// otherwise exact equality with the class-correct expectation is complete,
/// a pre-existing candidate row with other bytes is stale, and anything else
/// is a conflict.
pub open spec fn classification(p: ReconciledPackagePublicationV1) -> PublicationClassificationV1 {
    match p.observed_registry_checksum {
        None => if p.state == PublicationStateV1::ProviderUnavailable {
            PublicationClassificationV1::Unavailable
        } else {
            PublicationClassificationV1::Missing
        },
        Some(observed) => if !is_sha256_digest(observed@) || !is_sha256_digest(
            p.expected_checksum@,
        ) {
            PublicationClassificationV1::Mismatch
        } else if observed@ == p.expected_checksum@ {
            PublicationClassificationV1::CompleteExact
        } else if p.row_class == PackageRowClassV1::CargoAllowCandidate && p.state
            == PublicationStateV1::VerifiedExisting {
            PublicationClassificationV1::Stale
        } else {
            PublicationClassificationV1::Conflict
        },
    }
}

impl ReconciledPackagePublicationV1 {
    /// Classifies this row; it is `CompleteExact` only when the observed
    /// registry checksum equals the class-correct expected checksum.
    pub fn classify(&self) -> (r: PublicationClassificationV1)
        ensures
            r == classification(*self),
    {
        let observed = match &self.observed_registry_checksum {
            Some(value) => {
                if !is_sha256_digest_str(value.as_str()) {
                    return PublicationClassificationV1::Mismatch;
                }
                value
            },
            None => {
                return if self.state == PublicationStateV1::ProviderUnavailable {
                    PublicationClassificationV1::Unavailable
                } else {
                    PublicationClassificationV1::Missing
                };
            },
        };
        if !is_sha256_digest_str(self.expected_checksum.as_str()) {
            return PublicationClassificationV1::Mismatch;
        }
        let exact = str_eq(observed.as_str(), self.expected_checksum.as_str());
        match self.row_class {
            PackageRowClassV1::CargoAllowCandidate => {
                if self.state == PublicationStateV1::VerifiedExisting && !exact {
                    PublicationClassificationV1::Stale
                } else if exact {
                    PublicationClassificationV1::CompleteExact
                } else {
                    PublicationClassificationV1::Conflict
                }
            },
            PackageRowClassV1::PublishedSharedPrerequisite => {
                if exact {
                    PublicationClassificationV1::CompleteExact
                } else {
                    PublicationClassificationV1::Conflict
                }
            },
        }
    }

    /// A row may enter the manifest only as exact.
    pub fn is_manifest_ready(&self) -> (r: bool)
        ensures
            r == (classification(*self) == PublicationClassificationV1::CompleteExact),
    {
        self.classify() == PublicationClassificationV1::CompleteExact
    }
}

/// A row is `CompleteExact`, and so may enter a manifest, exactly when the
/// registry was observed with a well-formed checksum equal to the
/// well-formed class-correct expected checksum; a same-version row with
/// other bytes can never pass as exact.
pub proof fn lemma_exact_iff_observed_equals_expected(p: ReconciledPackagePublicationV1)
    ensures
        classification(p) == PublicationClassificationV1::CompleteExact <==> {
            &&& p.observed_registry_checksum is Some
            &&& p.observed_registry_checksum->Some_0@ == p.expected_checksum@
            &&& is_sha256_digest(p.expected_checksum@)
        },
{
}

} // verus!
