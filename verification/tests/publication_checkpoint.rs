use allow_report::publication_checkpoint::{
    begin_publication_checkpoint_v1, checkpoint_permits_dependant_v1, checkpoint_permits_upload_v1,
    digest_publication_checkpoint_body_v1, digest_publication_checkpoint_link_v1, digest_publication_checkpoint_v1,
    record_checkpoint_readback_v1, select_checkpoint_by_exact_identity_v1, verify_checkpoint_against_journal_v1,
    CargoAllowPublicationCheckpointV1, CheckpointProviderOutcomeV1, PublicationCheckpointClassV1,
    PublicationCheckpointInitV1, PublicationCheckpointKindV1, PublicationCheckpointProducerV1,
    PublicationCheckpointProviderObjectV1, PublicationCheckpointProviderV1, PublicationCheckpointReadbackV1,
    PublicationCheckpointRowStateV1, PublicationCheckpointRowV1, PUBLICATION_CHECKPOINT_SCHEMA_ID,
};
use allow_report::publication_journal::{
    append_journal_event_v1, begin_publication_journal_v1, CargoAllowPublicationJournalV1, PublicationJournalAppendV1,
    PublicationJournalClassV1, PublicationJournalEventV1, PublicationJournalInitV1, PublicationJournalRowV1,
};
use allow_report::publication_journal::PublicationJournalEventV1 as E;

fn digest(c: char) -> String {
    format!("sha256:{}", std::iter::repeat(c).take(64).collect::<String>())
}

fn journal_row() -> PublicationJournalRowV1 {
    PublicationJournalRowV1 {
        package_name: "allow-core".to_string(),
        version: "0.2.0".to_string(),
        row_order: 1,
        candidate_archive_digest: digest('a'),
        depends_on: vec![],
    }
}

fn event(kind: PublicationJournalEventV1, row: Option<PublicationJournalRowV1>, at: u64) -> PublicationJournalAppendV1 {
    PublicationJournalAppendV1 { kind, row, response: None, observation: None, at_unix_seconds: at, reason: "recorded".to_string() }
}

/// A clean journal whose fifth entry is the durable upload intent of `allow-core`.
fn journal() -> CargoAllowPublicationJournalV1 {
    let mut j = begin_publication_journal_v1(PublicationJournalInitV1 {
        journal_id: "journal-1".to_string(),
        operation_id: "publish_cargo_allow_final_0_2_0".to_string(),
        operation_identity_digest: digest('0'),
        operation_class: PublicationJournalClassV1::CleanFinalPublication,
        authorization_digest: digest('1'),
        custody_digest: digest('2'),
        freeze_digest: digest('3'),
        prior_journal_digest: None,
        rows: vec![journal_row()],
        created_at_unix_seconds: 100,
        workflow: "release".to_string(),
        run: "7".to_string(),
        attempt: "1".to_string(),
        job: "publish".to_string(),
    })
    .unwrap();
    append_journal_event_v1(&mut j, event(E::OperationSelected, None, 101)).unwrap();
    append_journal_event_v1(&mut j, event(E::AuthorizationConsumed, None, 102)).unwrap();
    append_journal_event_v1(&mut j, event(E::TagObservedExact, None, 103)).unwrap();
    append_journal_event_v1(&mut j, event(E::RowPreflightComplete, Some(journal_row()), 110)).unwrap();
    append_journal_event_v1(&mut j, event(E::UploadIntentDurable, Some(journal_row()), 111)).unwrap();
    j
}

fn producer() -> PublicationCheckpointProducerV1 {
    PublicationCheckpointProducerV1 {
        workflow: "release".to_string(),
        run: "7".to_string(),
        attempt: "1".to_string(),
        job: "publish".to_string(),
        git_ref: "refs/tags/v0.2.0".to_string(),
        commit: "0123456789abcdef0123456789abcdef01234567".to_string(),
    }
}

fn init(j: &CargoAllowPublicationJournalV1, sequence: u64, object_id: &str) -> PublicationCheckpointInitV1 {
    PublicationCheckpointInitV1 {
        checkpoint_id: format!("checkpoint-{}", sequence),
        operation_id: "publish_cargo_allow_final_0_2_0".to_string(),
        operation_class: PublicationCheckpointClassV1::CleanFinalPublication,
        authorization_digest: digest('1'),
        custody_digest: digest('2'),
        freeze_digest: digest('3'),
        journal_head_sequence: 5,
        journal_head_digest: j.entries[4].entry_digest.clone(),
        checkpoint_sequence: sequence,
        kind: PublicationCheckpointKindV1::PreIntentDurable,
        row: PublicationCheckpointRowV1 {
            package_name: "allow-core".to_string(),
            row_order: 1,
            state: PublicationCheckpointRowStateV1::IntentDurable,
        },
        first_irreversible_row: None,
        incident_recorded: false,
        provider: PublicationCheckpointProviderObjectV1 {
            provider: PublicationCheckpointProviderV1::GithubActionsArtifact,
            object_id: object_id.to_string(),
            object_name: "publication-checkpoint".to_string(),
            object_digest: digest('f'),
            object_size_bytes: 64,
        },
        producer: producer(),
        retention_days: 7,
        created_at_unix_seconds: 100 + sequence * 100,
        note: "before allow-core upload".to_string(),
    }
}

/// Binds the provider object to the checkpoint body, as the producer does
/// before storing it.
fn stored(mut c: CargoAllowPublicationCheckpointV1) -> CargoAllowPublicationCheckpointV1 {
    c.provider.object_digest = digest_publication_checkpoint_body_v1(&c);
    c
}

fn read_back(c: &mut CargoAllowPublicationCheckpointV1, at: u64) -> Result<PublicationCheckpointReadbackV1, &'static str> {
    let parsed = Some(c.clone());
    let bytes = vec![b'x'; c.provider.object_size_bytes as usize];
    record_checkpoint_readback_v1(c, CheckpointProviderOutcomeV1::Delivered(bytes), at, parsed)
}

#[test]
fn fresh_checkpoint_reads_missing_and_never_authorizes() {
    let j = journal();
    let c = begin_publication_checkpoint_v1(init(&j, 1, "9001"), None).unwrap();
    assert_eq!(c.schema_id, PUBLICATION_CHECKPOINT_SCHEMA_ID);
    assert_eq!(c.readback, PublicationCheckpointReadbackV1::Missing);
    assert_eq!(c.readback_at_unix_seconds, None);
    assert_eq!(c.prior_checkpoint_digest, None);
    assert_eq!(c.expires_at_unix_seconds, 200 + 7 * 86_400);
    assert_eq!(
        c.limitations,
        vec!["does_not_upload_packages", "does_not_observe_registry", "does_not_authorize_operation"]
    );
    assert_eq!(
        verify_checkpoint_against_journal_v1(&c, &j, &producer(), 300),
        Err("provider success without readback is never clean")
    );
    assert_eq!(
        checkpoint_permits_upload_v1(&c, &j, &producer(), 300),
        Err("provider success without readback is never clean")
    );
}

#[test]
fn complete_readback_verifies_and_gates_exactly_one_upload() {
    let j = journal();
    let mut c = stored(begin_publication_checkpoint_v1(init(&j, 1, "9001"), None).unwrap());
    assert_eq!(read_back(&mut c, 250), Ok(PublicationCheckpointReadbackV1::Complete));
    assert_eq!(c.readback_at_unix_seconds, Some(250));
    assert_eq!(verify_checkpoint_against_journal_v1(&c, &j, &producer(), 300), Ok(()));
    assert_eq!(checkpoint_permits_upload_v1(&c, &j, &producer(), 300), Ok(()));
    assert_eq!(
        checkpoint_permits_dependant_v1(&c, &j, &producer(), 300),
        Err("dependants begin only from a verified exact-visibility checkpoint")
    );
    let mut other = producer();
    other.run = "8".to_string();
    assert_eq!(
        verify_checkpoint_against_journal_v1(&c, &j, &other, 300),
        Err("checkpoint producer must match the expected release producer")
    );
    assert_eq!(
        verify_checkpoint_against_journal_v1(&c, &j, &producer(), 200 + 7 * 86_400),
        Err("expired or premature checkpoints never authorize progress")
    );
    assert_eq!(
        verify_checkpoint_against_journal_v1(&c, &j, &producer(), 240),
        Err("checkpoint readback time is outside its trusted window")
    );
}

#[test]
fn delivered_bytes_fail_closed() {
    let j = journal();
    let base = stored(begin_publication_checkpoint_v1(init(&j, 1, "9001"), None).unwrap());
    let mut c = base.clone();
    assert_eq!(
        record_checkpoint_readback_v1(&mut c, CheckpointProviderOutcomeV1::Delivered(vec![]), 250, Some(base.clone())),
        Ok(PublicationCheckpointReadbackV1::Mismatch)
    );
    assert_eq!(
        record_checkpoint_readback_v1(&mut c, CheckpointProviderOutcomeV1::Delivered(vec![b'x'; 64]), 251, None),
        Ok(PublicationCheckpointReadbackV1::Mismatch)
    );
    assert_eq!(
        record_checkpoint_readback_v1(&mut c, CheckpointProviderOutcomeV1::Delivered(vec![b'x'; 63]), 252, Some(base.clone())),
        Ok(PublicationCheckpointReadbackV1::Mismatch)
    );
    let mut edited = base.clone();
    edited.note = "rewritten".to_string();
    assert_eq!(
        record_checkpoint_readback_v1(&mut c, CheckpointProviderOutcomeV1::Delivered(vec![b'x'; 64]), 253, Some(edited)),
        Ok(PublicationCheckpointReadbackV1::Mismatch)
    );
    let mut unbound = base.clone();
    unbound.provider.object_digest = digest('e');
    let mut d = unbound.clone();
    assert_eq!(read_back(&mut d, 254), Ok(PublicationCheckpointReadbackV1::Mismatch));
    assert_eq!(
        record_checkpoint_readback_v1(&mut c, CheckpointProviderOutcomeV1::Unavailable, 255, None),
        Ok(PublicationCheckpointReadbackV1::ProviderUnavailable)
    );
    assert_eq!(c.readback, PublicationCheckpointReadbackV1::ProviderUnavailable);
    assert_eq!(
        record_checkpoint_readback_v1(&mut c, CheckpointProviderOutcomeV1::InstrumentFailure, 256, None),
        Ok(PublicationCheckpointReadbackV1::InstrumentFailure)
    );
    let before = c.clone();
    assert_eq!(
        record_checkpoint_readback_v1(&mut c, CheckpointProviderOutcomeV1::Unavailable, 255, None),
        Err("checkpoint readback observation time never moves backward")
    );
    assert_eq!(
        record_checkpoint_readback_v1(&mut c, CheckpointProviderOutcomeV1::Unavailable, 199, None),
        Err("readbacks must not predate checkpoint construction")
    );
    assert_eq!(c, before);
}

#[test]
fn linkage_advances_within_one_operation() {
    let j = journal();
    let mut first = stored(begin_publication_checkpoint_v1(init(&j, 1, "9001"), None).unwrap());
    assert_eq!(
        begin_publication_checkpoint_v1(init(&j, 2, "9002"), Some(&first)),
        Err("checkpoint linkage requires a verified predecessor readback")
    );
    assert_eq!(
        begin_publication_checkpoint_v1(init(&j, 2, "9002"), None),
        Err("the first checkpoint of an operation starts at sequence one")
    );
    let link_before = digest_publication_checkpoint_link_v1(&first);
    let record_before = digest_publication_checkpoint_v1(&first);
    read_back(&mut first, 250).unwrap();
    assert_eq!(digest_publication_checkpoint_link_v1(&first), link_before);
    assert_ne!(digest_publication_checkpoint_v1(&first), record_before);
    assert_eq!(
        begin_publication_checkpoint_v1(init(&j, 3, "9002"), Some(&first)),
        Err("checkpoint sequence must advance by exactly one")
    );
    assert_eq!(
        begin_publication_checkpoint_v1(init(&j, 2, "9001"), Some(&first)),
        Err("later checkpoints require new checkpoint and provider object identities")
    );
    let second = begin_publication_checkpoint_v1(init(&j, 2, "9002"), Some(&first)).unwrap();
    assert_eq!(second.prior_checkpoint_digest, Some(link_before));
    let mut stale = stored(second.clone());
    let parsed = Some(first.clone());
    let parsed = parsed.map(|mut p| {
        p.readback = PublicationCheckpointReadbackV1::Missing;
        p.readback_at_unix_seconds = None;
        p
    });
    assert_eq!(
        record_checkpoint_readback_v1(&mut stale, CheckpointProviderOutcomeV1::Delivered(vec![b'x'; 64]), 310, parsed),
        Ok(PublicationCheckpointReadbackV1::Stale)
    );
}

#[test]
fn incident_history_is_never_overwritten() {
    let j = journal();
    let mut i = init(&j, 1, "9001");
    i.incident_recorded = true;
    assert_eq!(
        begin_publication_checkpoint_v1(i.clone(), None),
        Err("incident posture requires a first irreversible row")
    );
    i.first_irreversible_row = Some("allow-core".to_string());
    let mut first = stored(begin_publication_checkpoint_v1(i, None).unwrap());
    read_back(&mut first, 250).unwrap();
    let mut next = init(&j, 2, "9002");
    next.first_irreversible_row = Some("allow-core".to_string());
    assert_eq!(
        begin_publication_checkpoint_v1(next.clone(), Some(&first)),
        Err("incident history is never overwritten by later checkpoints")
    );
    next.incident_recorded = true;
    next.first_irreversible_row = Some("cargo-allow".to_string());
    assert_eq!(
        begin_publication_checkpoint_v1(next, Some(&first)),
        Err("the first irreversible row never changes")
    );
    assert_eq!(
        verify_checkpoint_against_journal_v1(&first, &j, &producer(), 300),
        Err("checkpoint incident posture must match its bound journal prefix")
    );
}

#[test]
fn construction_refuses_bad_identity() {
    let j = journal();
    let mut i = init(&j, 1, "9001");
    i.operation_id = "recover_cargo_allow_final_publication".to_string();
    assert_eq!(
        begin_publication_checkpoint_v1(i, None),
        Err("checkpoint operation identity must match its class")
    );
    let mut i = init(&j, 1, "9001");
    i.custody_digest = "sha256:ABC".to_string();
    assert_eq!(
        begin_publication_checkpoint_v1(i, None),
        Err("checkpoints require canonical operation identity digests")
    );
    let mut i = init(&j, 1, "9001");
    i.producer.commit = "0123456789ABCDEF0123456789abcdef01234567".to_string();
    assert_eq!(
        begin_publication_checkpoint_v1(i, None),
        Err("checkpoint producer commit must be a canonical Git SHA")
    );
    let mut i = init(&j, 1, "9001");
    i.retention_days = 91;
    assert_eq!(
        begin_publication_checkpoint_v1(i, None),
        Err("checkpoint retention must fit the provider window")
    );
    let mut i = init(&j, 1, "9001");
    i.note = "token=abc".to_string();
    assert_eq!(
        begin_publication_checkpoint_v1(i, None),
        Err("secret material must never enter checkpoint records")
    );
    let mut i = init(&j, 1, "9001");
    i.created_at_unix_seconds = u64::MAX - 10;
    assert_eq!(begin_publication_checkpoint_v1(i, None), Err("checkpoint expiry overflowed"));
}

#[test]
fn rewritten_journal_prefix_is_refused() {
    let j = journal();
    let mut i = init(&j, 1, "9001");
    i.journal_head_digest = digest('9');
    let mut c = stored(begin_publication_checkpoint_v1(i, None).unwrap());
    read_back(&mut c, 250).unwrap();
    assert_eq!(
        verify_checkpoint_against_journal_v1(&c, &j, &producer(), 300),
        Err("checkpoint journal prefix does not match the live journal")
    );
    let mut tampered = j.clone();
    tampered.entries[1].reason = "rewritten".to_string();
    let mut good = stored(begin_publication_checkpoint_v1(init(&j, 1, "9001"), None).unwrap());
    read_back(&mut good, 250).unwrap();
    assert!(verify_checkpoint_against_journal_v1(&good, &tampered, &producer(), 300).is_err());
}

#[test]
fn selection_uses_exact_identity_only() {
    let j = journal();
    let a = begin_publication_checkpoint_v1(init(&j, 1, "9001"), None).unwrap();
    let mut b = a.clone();
    b.provider.object_id = "9002".to_string();
    let mut foreign = a.clone();
    foreign.producer.run = "8".to_string();
    foreign.provider.object_id = "9003".to_string();
    let candidates = vec![a.clone(), b.clone(), foreign];
    assert_eq!(
        select_checkpoint_by_exact_identity_v1(&candidates, "9002", &producer(), "publish_cargo_allow_final_0_2_0"),
        Ok(Some(&b))
    );
    assert_eq!(
        select_checkpoint_by_exact_identity_v1(&candidates, "9003", &producer(), "publish_cargo_allow_final_0_2_0"),
        Ok(None)
    );
    let doubled = vec![a.clone(), a.clone()];
    assert_eq!(
        select_checkpoint_by_exact_identity_v1(&doubled, "9001", &producer(), "publish_cargo_allow_final_0_2_0"),
        Err("checkpoint discovery by exact identity is ambiguous")
    );
}
