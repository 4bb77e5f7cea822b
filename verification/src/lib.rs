//! Verified release-evidence artifact evaluators for cargo-allow reports.

pub mod text;
pub mod json;
pub mod digest;
pub mod release_identity;
pub mod final_registry_preflight;
pub mod final_tag_transaction;
pub mod frozen_candidate_custody;
pub mod frozen_subject_lock;
pub mod github_pr_check;
pub mod isolated_install_receipt;
pub mod minimum_direct_version;
pub mod minimum_version_drift;
pub mod rc_publication_incident;
pub mod reconciled_package_publication;
pub mod release_artifact_transfer;
pub mod release_authorization;
pub mod release_authorization_custody;
pub mod release_experience;
pub mod package_candidate;
pub mod post_merge_qualification;
pub mod publication_journal;
pub mod publication_checkpoint;
pub mod post_merge_reconciliation;
pub mod github_release_journal;
pub mod publication_recovery;
pub mod github_release_checkpoint;
pub mod release_closeout;
pub mod list;
pub mod prune;
pub mod refresh;
pub mod final_readiness;
pub mod final_support_selection;
