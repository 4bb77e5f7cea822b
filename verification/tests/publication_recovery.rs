use allow_report::publication_journal::{
    CargoAllowPublicationJournalEntryV1, CargoAllowPublicationJournalV1, PublicationJournalClassV1,
    PublicationJournalEventV1, PublicationJournalRowV1,
};
use allow_report::publication_recovery::{
    decide_unknown_upload_recovery_v1, recovery_dependant_may_begin_v1, PublicationCheckpointKindV1,
    RecoveryAuthorizationV1, RecoveryAuthorizationsV1, RecoveryCheckpointPositionV1, RecoveryCustodyV1,
    RecoveryRegistryObservationsV1, RecoverySurfaceObservationV1, UnknownUploadRecoveryClassV1,
    PUBLICATION_RECOVERY_MAX_OBSERVATION_ROUNDS,
};

fn digest(byte: u8) -> String {
    format!("sha256:{:064x}", byte)
}

fn row() -> PublicationJournalRowV1 {
    PublicationJournalRowV1 {
        package_name: "allow-core".to_string(),
        version: "0.2.0".to_string(),
        row_order: 1,
        candidate_archive_digest: digest(1),
        depends_on: Vec::new(),
    }
}

fn dependant() -> PublicationJournalRowV1 {
    PublicationJournalRowV1 {
        package_name: "allow-report".to_string(),
        version: "0.2.0".to_string(),
        row_order: 2,
        candidate_archive_digest: digest(2),
        depends_on: vec!["allow-core".to_string()],
    }
}

fn entry(sequence: u64, kind: PublicationJournalEventV1, package: Option<&str>) -> CargoAllowPublicationJournalEntryV1 {
    CargoAllowPublicationJournalEntryV1 {
        sequence,
        previous_digest: digest(100 + sequence as u8 - 1),
        entry_digest: digest(100 + sequence as u8),
        kind,
        package_name: package.map(|p| p.to_string()),
        row_order: package.map(|_| 1),
        candidate_archive_digest: package.map(|_| digest(1)),
        at_unix_seconds: 10 + sequence,
        reason: "step".to_string(),
        response_class: None,
        workflow: "release.yml".to_string(),
        run: "42".to_string(),
        attempt: "1".to_string(),
        job: "publish".to_string(),
    }
}

fn journal(entries: Vec<CargoAllowPublicationJournalEntryV1>) -> CargoAllowPublicationJournalV1 {
    CargoAllowPublicationJournalV1 {
        schema_id: "cargo-allow.publication-journal.v1".to_string(),
        schema_version: 1,
        journal_id: "journal-1".to_string(),
        operation_id: "publish_cargo_allow_final_0_2_0".to_string(),
        operation_identity_digest: digest(50),
        operation_class: PublicationJournalClassV1::CleanFinalPublication,
        authorization_digest: digest(51),
        custody_digest: digest(52),
        freeze_digest: digest(53),
        prior_journal_digest: None,
        created_at_unix_seconds: 1,
        workflow: "release.yml".to_string(),
        run: "42".to_string(),
        attempt: "1".to_string(),
        job: "publish".to_string(),
        rows: vec![row(), dependant()],
        entries,
        claim_boundary: String::new(),
        limitations: Vec::new(),
    }
}

fn started_journal() -> CargoAllowPublicationJournalV1 {
    journal(vec![
        entry(1, PublicationJournalEventV1::UploadIntentDurable, Some("allow-core")),
        entry(2, PublicationJournalEventV1::UploadRequestStarted, Some("allow-core")),
        entry(3, PublicationJournalEventV1::UploadResponseUnknown, Some("allow-core")),
    ])
}

fn custody() -> RecoveryCustodyV1 {
    RecoveryCustodyV1 { candidate_archive_digest: digest(1), custody_digest: digest(52), freeze_digest: digest(53) }
}

fn authorizations(recovery: bool) -> RecoveryAuthorizationsV1 {
    RecoveryAuthorizationsV1 {
        clean_authorization_digest: digest(51),
        recovery: if recovery {
            Some(RecoveryAuthorizationV1 {
                authorization_digest: digest(60),
                plan_digest: digest(61),
                bound_candidate_digest: digest(1),
            })
        } else {
            None
        },
    }
}

fn surface(reachable: bool, visible: bool, digest_matches: Option<bool>) -> RecoverySurfaceObservationV1 {
    RecoverySurfaceObservationV1 { reachable, visible, digest_matches }
}

fn all(s: RecoverySurfaceObservationV1, rounds: u32) -> RecoveryRegistryObservationsV1 {
    RecoveryRegistryObservationsV1 { api: s, index: s, download: s, resolver: s, rounds, instrument_failure: false }
}

fn pre_intent() -> Vec<RecoveryCheckpointPositionV1> {
    vec![RecoveryCheckpointPositionV1 {
        operation_id: "publish_cargo_allow_final_0_2_0".to_string(),
        operation_identity_digest: digest(50),
        checkpoint_sequence: 1,
        journal_head_sequence: 1,
        journal_head_digest: digest(101),
        kind: PublicationCheckpointKindV1::PreIntentDurable,
        readback_complete: true,
    }]
}

#[test]
fn exact_visibility_skips_and_conflict_is_an_incident() {
    let j = started_journal();
    let d = decide_unknown_upload_recovery_v1(&j, &vec![], &row(), &custody(), &authorizations(false), &all(surface(true, true, Some(true)), 1)).unwrap();
    assert_eq!(d.class, UnknownUploadRecoveryClassV1::VisibleExactSkipAndContinue);
    assert!(!d.requires_recovery_authorization);
    assert_eq!(d.decided_journal_head_sequence, 3);
    assert_eq!(d.decided_journal_head_digest, digest(103));
    let mut obs = all(surface(true, true, Some(true)), 1);
    obs.index = surface(true, true, Some(false));
    let d = decide_unknown_upload_recovery_v1(&j, &vec![], &row(), &custody(), &authorizations(false), &obs).unwrap();
    assert_eq!(d.class, UnknownUploadRecoveryClassV1::VisibleConflictIncident);
}

#[test]
fn outage_is_never_absence() {
    let j = started_journal();
    let d = decide_unknown_upload_recovery_v1(&j, &pre_intent(), &row(), &custody(), &authorizations(true), &all(surface(false, false, None), 9)).unwrap();
    assert_eq!(d.class, UnknownUploadRecoveryClassV1::ProviderUnavailableStop);
    let mut obs = all(surface(true, false, None), 2);
    obs.download = surface(false, false, None);
    let d = decide_unknown_upload_recovery_v1(&j, &pre_intent(), &row(), &custody(), &authorizations(true), &obs).unwrap();
    assert_eq!(d.class, UnknownUploadRecoveryClassV1::ResponseUnknownObservationRequired);
}

#[test]
fn bounded_absence_needs_recovery_authority_and_pre_intent() {
    let j = started_journal();
    let absent = all(surface(true, false, None), PUBLICATION_RECOVERY_MAX_OBSERVATION_ROUNDS);
    let d = decide_unknown_upload_recovery_v1(&j, &pre_intent(), &row(), &custody(), &authorizations(false), &absent).unwrap();
    assert_eq!(d.class, UnknownUploadRecoveryClassV1::RecoveryAuthorizationRequired);
    assert!(d.requires_recovery_authorization);
    assert_eq!(
        decide_unknown_upload_recovery_v1(&j, &vec![], &row(), &custody(), &authorizations(true), &absent).unwrap_err(),
        "recovery uploads require a verified pre-intent checkpoint position"
    );
    let d = decide_unknown_upload_recovery_v1(&j, &pre_intent(), &row(), &custody(), &authorizations(true), &absent).unwrap();
    assert_eq!(d.class, UnknownUploadRecoveryClassV1::MissingAfterBoundedObservationRecoveryMayUpload);
    assert!(d.requires_recovery_authorization);
    assert!(!d.preserved_incident);
}

#[test]
fn never_attempted_rows_start_fresh_unless_an_incident_exists() {
    let j = journal(vec![entry(1, PublicationJournalEventV1::UploadIntentDurable, Some("allow-core"))]);
    let absent = all(surface(true, false, None), 1);
    let d = decide_unknown_upload_recovery_v1(&j, &vec![], &row(), &custody(), &authorizations(false), &absent).unwrap();
    assert_eq!(d.class, UnknownUploadRecoveryClassV1::NotAttemptedSafeToStart);
    let j = journal(vec![
        entry(1, PublicationJournalEventV1::UploadIntentDurable, Some("allow-core")),
        entry(2, PublicationJournalEventV1::OperationIncident, None),
    ]);
    let d = decide_unknown_upload_recovery_v1(&j, &vec![], &row(), &custody(), &authorizations(false), &absent).unwrap();
    assert_eq!(d.class, UnknownUploadRecoveryClassV1::RecoveryAuthorizationRequired);
    assert!(d.preserved_incident);
}

#[test]
fn foreign_custody_and_inconsistent_surfaces_are_refused() {
    let j = started_journal();
    let mut c = custody();
    c.candidate_archive_digest = digest(9);
    assert_eq!(
        decide_unknown_upload_recovery_v1(&j, &vec![], &row(), &c, &authorizations(false), &all(surface(true, false, None), 1)).unwrap_err(),
        "recovery continues from the original custody bytes only"
    );
    assert_eq!(
        decide_unknown_upload_recovery_v1(&j, &vec![], &row(), &custody(), &authorizations(false), &all(surface(false, true, None), 1)).unwrap_err(),
        "recovery surfaces must be internally consistent"
    );
    let mut foreign = row();
    foreign.version = "0.1.0".to_string();
    assert_eq!(
        decide_unknown_upload_recovery_v1(&j, &vec![], &foreign, &custody(), &authorizations(false), &all(surface(true, false, None), 1)).unwrap_err(),
        "recovery rows must match the bound journal row set exactly"
    );
}

#[test]
fn dependants_wait_for_exact_reconciliation() {
    let j = started_journal();
    assert_eq!(
        recovery_dependant_may_begin_v1(&j, &dependant()),
        Err("dependants remain blocked until prerequisites are registry-visible exact")
    );
    let mut j = started_journal();
    j.entries.push(entry(4, PublicationJournalEventV1::RegistryVisibleExact, Some("allow-core")));
    assert_eq!(recovery_dependant_may_begin_v1(&j, &dependant()), Ok(()));
}
