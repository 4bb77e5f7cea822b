use allow_report::frozen_subject_lock::{
    classify_frozen_subject_path, evaluate_frozen_subject_lock, FrozenSubjectChangeV1,
    FrozenSubjectInvalidationV1, FrozenSubjectLockInputV1, FrozenSubjectPathKindV1,
    FrozenSubjectReceiptIdentityV1, FrozenSubjectStateV1, FrozenSubjectVerdictV1,
    LoadBearingOwnerV1, NonLoadBearingOwnerV1,
};

fn receipt() -> FrozenSubjectReceiptIdentityV1 {
    FrozenSubjectReceiptIdentityV1 {
        commit: "63248416c2bd73edd63e22f064a1f242afcc0622".to_string(),
        tree: "c0031b8e290f4ad16615971c9ff3f93bb5093b79".to_string(),
        version: "0.2.0".to_string(),
        tag: "v0.2.0".to_string(),
        freeze_state: "Complete".to_string(),
        receipt_digest:
            "sha256:v1:0724777b6864811a72048780fdea09c9f98aa34afe971ce853e875ae5b43017d"
                .to_string(),
    }
}

fn change(status: &str, path: &str) -> FrozenSubjectChangeV1 {
    FrozenSubjectChangeV1 {
        status: status.to_string(),
        path: path.to_string(),
        append_only: false,
    }
}

fn input(paths: &[(&str, &str)]) -> FrozenSubjectLockInputV1 {
    FrozenSubjectLockInputV1 {
        receipt: Some(receipt()),
        current_head: "aaaaaaaaaaaaaaaaaaaaaaaaaaaaaaaaaaaaaaaa".to_string(),
        changed_paths: paths
            .iter()
            .map(|(status, path)| change(status, path))
            .collect(),
        invalidations: Vec::new(),
    }
}

fn invalidate() -> FrozenSubjectInvalidationV1 {
    FrozenSubjectInvalidationV1 {
        reason: "load-bearing repair required".to_string(),
        recorded_by: "core/release".to_string(),
        recorded_at_utc: "2026-09-04T00:00:00Z".to_string(),
        frozen_commit: "63248416c2bd73edd63e22f064a1f242afcc0622".to_string(),
    }
}

#[test]
fn control_1_package_readme_change_requires_invalidation() {
    let lock = evaluate_frozen_subject_lock(&input(&[("A", "README.md")]));
    assert_eq!(lock.verdict, FrozenSubjectVerdictV1::RequiresInvalidation);
    assert_eq!(
        lock.state,
        FrozenSubjectStateV1::FreezeCompleteAwaitingAuthorization
    );
}

#[test]
fn control_2_workflow_permission_change_is_never_docs_only() {
    // The lock's own machinery file is the only non-load-bearing
    // workflow, and it is classified as machinery, never as prose.
    let machinery =
        classify_frozen_subject_path(".github/workflows/frozen-subject-lock.yml", "A", false);
    assert_eq!(machinery.kind, FrozenSubjectPathKindV1::NonLoadBearing);
    assert_eq!(machinery.owner, "frozen_subject_lock_machinery");
    let release = classify_frozen_subject_path(".github/workflows/release.yml", "A", false);
    assert_eq!(release.kind, FrozenSubjectPathKindV1::LoadBearing);
    let ci = classify_frozen_subject_path(".github/workflows/ci.yml", "A", false);
    assert_eq!(ci.kind, FrozenSubjectPathKindV1::LoadBearing);
}

#[test]
fn control_3_lockfile_changes_are_never_ignored() {
    let lock = evaluate_frozen_subject_lock(&input(&[("A", "Cargo.lock")]));
    assert_eq!(lock.verdict, FrozenSubjectVerdictV1::RequiresInvalidation);
    // Even a lock change that only touches a sibling product's rows is
    // load-bearing: the lockfile is one shared artifact.
    let sibling_only = evaluate_frozen_subject_lock(&input(&[
        ("A", "crates/cargo-intent/src/lib.rs"),
        ("A", "Cargo.lock"),
    ]));
    assert_eq!(
        sibling_only.verdict,
        FrozenSubjectVerdictV1::RequiresInvalidation
    );
}

#[test]
fn control_4_comment_only_source_changes_are_load_bearing() {
    let lock = evaluate_frozen_subject_lock(&input(&[("A", "crates/allow-core/src/lib.rs")]));
    assert_eq!(lock.verdict, FrozenSubjectVerdictV1::RequiresInvalidation);
}

#[test]
fn control_5_repository_prose_is_allowed_with_a_typed_result() {
    let lock = evaluate_frozen_subject_lock(&input(&[
        ("A", "docs/adr/0009-record-decision.md"),
        ("A", "docs/source-of-truth/README.md"),
    ]));
    assert_eq!(lock.verdict, FrozenSubjectVerdictV1::AllowedNonLoadBearing);
    assert!(
        lock.classified_paths
            .iter()
            .all(|c| c.kind == FrozenSubjectPathKindV1::NonLoadBearing)
    );
}

#[test]
fn control_6_schema_producer_movement_is_load_bearing() {
    let lock = evaluate_frozen_subject_lock(&input(&[(
        "A",
        "docs/schemas/candidate-preparation-plan-v1.schema.json",
    )]));
    assert_eq!(lock.verdict, FrozenSubjectVerdictV1::RequiresInvalidation);
}

#[test]
fn invalidation_stales_the_freeze_instead_of_blocking() {
    let mut input = input(&[("A", "crates/allow-core/src/lib.rs")]);
    input.invalidations.push(invalidate());
    let lock = evaluate_frozen_subject_lock(&input);
    assert_eq!(lock.state, FrozenSubjectStateV1::InvalidatedForRefreeze);
    assert_eq!(lock.verdict, FrozenSubjectVerdictV1::Stale);
}

#[test]
fn unbound_select_inputs_are_outside_the_frozen_closure() {
    let lock = evaluate_frozen_subject_lock(&input(&[
        ("A", "crates/cargo-intent/src/plan.rs"),
        ("A", "crates/proof-orchestrator/src/run.rs"),
    ]));
    assert_eq!(lock.verdict, FrozenSubjectVerdictV1::AllowedNonLoadBearing);
    assert!(lock.load_bearing_moved.is_empty());
}

#[test]
fn moving_the_retained_lock_records_is_conflict() {
    // Modification/deletion of the retained receipt is tampering.
    let lock = evaluate_frozen_subject_lock(&input(&[(
        "M",
        "docs/dogfood/receipts/final-freeze/final-freeze.receipt.json",
    )]));
    assert_eq!(lock.verdict, FrozenSubjectVerdictV1::Conflict);
    assert_eq!(lock.state, FrozenSubjectStateV1::InvalidatedForRefreeze);
    // Creation is the records' own admission and stays allowed.
    let created = evaluate_frozen_subject_lock(&input(&[(
        "A",
        "docs/dogfood/receipts/final-freeze/final-freeze.receipt.json",
    )]));
    assert_eq!(
        created.verdict,
        FrozenSubjectVerdictV1::AllowedNonLoadBearing
    );
}

#[test]
fn no_movement_is_complete() {
    let lock = evaluate_frozen_subject_lock(&input(&[]));
    assert_eq!(lock.verdict, FrozenSubjectVerdictV1::Complete);
    assert_eq!(
        lock.state,
        FrozenSubjectStateV1::FreezeCompleteAwaitingAuthorization
    );
}

#[test]
fn missing_receipt_is_stale_never_allowed() {
    let mut input = input(&[("A", "README.md")]);
    input.receipt = None;
    let lock = evaluate_frozen_subject_lock(&input);
    assert_eq!(lock.state, FrozenSubjectStateV1::Inactive);
    assert_eq!(lock.verdict, FrozenSubjectVerdictV1::Stale);
}

#[test]
fn non_complete_receipt_is_stale_never_allowed() {
    let mut input = input(&[("A", "README.md")]);
    input.receipt.as_mut().expect("receipt").freeze_state = "Stale".to_string();
    let lock = evaluate_frozen_subject_lock(&input);
    assert_eq!(lock.verdict, FrozenSubjectVerdictV1::RequiresInvalidation);
    assert!(!lock.blocking_rows.is_empty());
}

#[test]
fn unclassified_paths_are_recorded_non_load_bearing() {
    // A path no typed pattern claims is still recorded, with the
    // unclassified owner visible.
    let classified = classify_frozen_subject_path("notes/scratch/new-note.md", "A", false);
    assert_eq!(classified.kind, FrozenSubjectPathKindV1::NonLoadBearing);
    assert_eq!(classified.owner, "unclassified");
}


fn receipt_for(commit: &str) -> FrozenSubjectReceiptIdentityV1 {
    FrozenSubjectReceiptIdentityV1 {
        commit: commit.to_string(),
        tree: "tree".to_string(),
        version: "0.2.0".to_string(),
        tag: "v0.2.0".to_string(),
        freeze_state: "Complete".to_string(),
        receipt_digest: "sha256:v1:digest".to_string(),
    }
}

fn invalidation_for(commit: &str) -> FrozenSubjectInvalidationV1 {
    FrozenSubjectInvalidationV1 {
        reason: "test".to_string(),
        recorded_by: "test".to_string(),
        recorded_at_utc: "2026-09-04T00:00:00Z".to_string(),
        frozen_commit: commit.to_string(),
    }
}

#[test]
fn invalidations_apply_only_to_the_commit_they_name() {
    let input = FrozenSubjectLockInputV1 {
        receipt: Some(receipt_for("aaaa")),
        current_head: "bbbb".to_string(),
        changed_paths: Vec::new(),
        invalidations: vec![invalidation_for("cccc"), invalidation_for("dddd")],
    };
    let lock = evaluate_frozen_subject_lock(&input);
    assert_eq!(
        lock.state,
        FrozenSubjectStateV1::FreezeCompleteAwaitingAuthorization
    );
    assert_eq!(lock.invalidation_count, 0);

    let input = FrozenSubjectLockInputV1 {
        receipt: Some(receipt_for("aaaa")),
        current_head: "bbbb".to_string(),
        changed_paths: Vec::new(),
        invalidations: vec![invalidation_for("cccc"), invalidation_for("aaaa")],
    };
    let lock = evaluate_frozen_subject_lock(&input);
    assert_eq!(lock.state, FrozenSubjectStateV1::InvalidatedForRefreeze);
    assert_eq!(lock.invalidation_count, 1);
    // An invalidation with no movement still stales the freeze.
    assert_eq!(lock.verdict, FrozenSubjectVerdictV1::Stale);
}


#[test]
fn every_load_bearing_owner_has_patterns_and_a_label() {
    for owner in LoadBearingOwnerV1::patterns_owned() {
        assert!(!owner.patterns().is_empty());
        assert!(!owner.label().is_empty());
    }
}

#[test]
fn every_non_load_bearing_owner_has_patterns_and_a_label() {
    for owner in NonLoadBearingOwnerV1::patterns_owned() {
        assert!(!owner.patterns().is_empty());
        assert!(!owner.label().is_empty());
    }
}

#[test]
fn display_renders_the_verdict_label() {
    for (verdict, text) in [
        (FrozenSubjectVerdictV1::Complete, "complete"),
        (FrozenSubjectVerdictV1::AllowedNonLoadBearing, "allowed_non_load_bearing"),
        (FrozenSubjectVerdictV1::RequiresInvalidation, "requires_invalidation"),
        (FrozenSubjectVerdictV1::Conflict, "conflict"),
        (FrozenSubjectVerdictV1::Stale, "stale"),
        (FrozenSubjectVerdictV1::InstrumentFailure, "instrument_failure"),
    ] {
        assert_eq!(verdict.label(), text);
    }
}

#[test]
fn load_bearing_patterns_classify_canonical_paths() {
    let cases = [
        ("docs/dogfood/receipts/final-freeze/x.json", "frozen_lock_records"),
        ("crates/allow-core/src/lib.rs", "shipped_source"),
        ("Cargo.lock", "manifests_lockfile"),
        ("rust-toolchain.toml", "toolchain"),
        ("policy/allow.toml", "policy"),
        ("docs/schemas/x.json", "schemas"),
        ("README.md", "package_docs_assets"),
        ("docs/support-matrix.toml", "support_channel_truth"),
        (".changes/x.yaml", "release_records"),
        (".github/workflows/release.yml", "workflows_actions"),
        ("scripts/release-topology-publisher.py", "release_evidence_producers"),
    ];
    for (path, owner) in cases {
        let classified = classify_frozen_subject_path(path, "M", false);
        assert_eq!(classified.kind, FrozenSubjectPathKindV1::LoadBearing, "{path}");
        assert_eq!(classified.owner, owner, "{path}");
    }
}

#[test]
fn non_load_bearing_patterns_classify_canonical_paths() {
    let cases = [
        (".github/workflows/frozen-subject-lock.yml", "frozen_subject_lock_machinery"),
        ("crates/cargo-intent/src/lib.rs", "sibling_products"),
        ("docs/dogfood/receipts/old-lane/x.json", "campaign_records"),
        ("docs/source-of-truth/x.md", "repository_prose"),
    ];
    for (path, owner) in cases {
        let classified = classify_frozen_subject_path(path, "M", false);
        assert_eq!(classified.kind, FrozenSubjectPathKindV1::NonLoadBearing, "{path}");
        assert_eq!(classified.owner, owner, "{path}");
    }
}

