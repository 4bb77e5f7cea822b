use allow_report::publication_journal::{
    append_journal_event_v1, begin_publication_journal_v1, verify_publication_journal_v1,
    CargoAllowPublicationJournalV1, PublicationJournalAppendV1, PublicationJournalClassV1,
    PublicationJournalEventV1, PublicationJournalInitV1, PublicationJournalRowV1,
    PublicationRegistryObservationV1, PublicationUploadResponseV1, UploadResponseClassV1,
    PUBLICATION_JOURNAL_GENESIS_DIGEST,
};
use allow_report::publication_journal::PublicationJournalEventV1 as E;

fn digest(c: char) -> String {
    format!("sha256:{}", std::iter::repeat(c).take(64).collect::<String>())
}

fn row(name: &str, order: u32, depends_on: &[&str]) -> PublicationJournalRowV1 {
    PublicationJournalRowV1 {
        package_name: name.to_string(),
        version: "0.2.0".to_string(),
        row_order: order,
        candidate_archive_digest: digest('a'),
        depends_on: depends_on.iter().map(|d| d.to_string()).collect(),
    }
}

fn init() -> PublicationJournalInitV1 {
    PublicationJournalInitV1 {
        journal_id: "journal-1".to_string(),
        operation_id: "publish_cargo_allow_final_0_2_0".to_string(),
        operation_identity_digest: digest('0'),
        operation_class: PublicationJournalClassV1::CleanFinalPublication,
        authorization_digest: digest('1'),
        custody_digest: digest('2'),
        freeze_digest: digest('3'),
        prior_journal_digest: None,
        rows: vec![row("allow-core", 1, &[]), row("cargo-allow", 2, &["allow-core"])],
        created_at_unix_seconds: 100,
        workflow: "release".to_string(),
        run: "7".to_string(),
        attempt: "1".to_string(),
        job: "publish".to_string(),
    }
}

fn event(kind: PublicationJournalEventV1, row: Option<PublicationJournalRowV1>, at: u64) -> PublicationJournalAppendV1 {
    PublicationJournalAppendV1 {
        kind,
        row,
        response: None,
        observation: None,
        at_unix_seconds: at,
        reason: "recorded".to_string(),
    }
}

fn publish_row(j: &mut CargoAllowPublicationJournalV1, r: PublicationJournalRowV1, at: u64) {
    append_journal_event_v1(j, event(E::RowPreflightComplete, Some(r.clone()), at)).unwrap();
    append_journal_event_v1(j, event(E::UploadIntentDurable, Some(r.clone()), at + 1)).unwrap();
    append_journal_event_v1(j, event(E::UploadRequestStarted, Some(r.clone()), at + 2)).unwrap();
    let mut response = event(E::UploadResponseObserved, Some(r.clone()), at + 3);
    response.response = Some(PublicationUploadResponseV1 {
        class: UploadResponseClassV1::Success,
        detail: "201".to_string(),
    });
    append_journal_event_v1(j, response).unwrap();
    let mut exact = event(E::RegistryVisibleExact, Some(r), at + 4);
    exact.observation = Some(PublicationRegistryObservationV1 {
        provider_reachable: true,
        row_visible: true,
        archive_digest_matches: true,
    });
    append_journal_event_v1(j, exact).unwrap();
}

fn opened() -> CargoAllowPublicationJournalV1 {
    let mut j = begin_publication_journal_v1(init()).unwrap();
    append_journal_event_v1(&mut j, event(E::OperationSelected, None, 101)).unwrap();
    append_journal_event_v1(&mut j, event(E::AuthorizationConsumed, None, 102)).unwrap();
    append_journal_event_v1(&mut j, event(E::TagObservedExact, None, 103)).unwrap();
    j
}

#[test]
fn clean_publication_chains_and_completes() {
    let mut j = opened();
    assert_eq!(j.entries[0].previous_digest, PUBLICATION_JOURNAL_GENESIS_DIGEST);
    assert_eq!(j.entries[1].previous_digest, j.entries[0].entry_digest);
    publish_row(&mut j, row("allow-core", 1, &[]), 110);
    publish_row(&mut j, row("cargo-allow", 2, &["allow-core"]), 120);
    append_journal_event_v1(&mut j, event(E::OperationComplete, None, 130)).unwrap();
    assert_eq!(j.entries.len(), 14);
    assert_eq!(verify_publication_journal_v1(&j), Ok(()));
}

#[test]
fn dependants_wait_and_completion_needs_every_row() {
    let mut j = opened();
    assert_eq!(
        append_journal_event_v1(&mut j, event(E::RowPreflightComplete, Some(row("cargo-allow", 2, &["allow-core"])), 110))
            .unwrap_err(),
        "dependent rows wait for exact dependency visibility"
    );
    publish_row(&mut j, row("allow-core", 1, &[]), 110);
    assert_eq!(
        append_journal_event_v1(&mut j, event(E::OperationComplete, None, 130)).unwrap_err(),
        "completion requires every declared row terminally resolved"
    );
}

#[test]
fn incidents_stop_clean_uploads_and_tampering_breaks_the_chain() {
    let mut j = opened();
    append_journal_event_v1(&mut j, event(E::RowPreflightComplete, Some(row("allow-core", 1, &[])), 110)).unwrap();
    append_journal_event_v1(&mut j, event(E::OperationIncident, None, 111)).unwrap();
    let before = j.clone();
    assert_eq!(
        append_journal_event_v1(&mut j, event(E::UploadIntentDurable, Some(row("allow-core", 1, &[])), 112)).unwrap_err(),
        "clean authorization cannot continue after an incident; recovery starts a new journal"
    );
    assert_eq!(j, before);
    assert_eq!(verify_publication_journal_v1(&j), Ok(()));
    j.entries[1].reason = "rewritten".to_string();
    assert!(verify_publication_journal_v1(&j).is_err());
}

#[test]
fn construction_refuses_unbound_recovery_and_empty_rows() {
    let mut i = init();
    i.operation_class = PublicationJournalClassV1::IncidentRecovery;
    assert_eq!(
        begin_publication_journal_v1(i).unwrap_err(),
        "recovery journals require the original journal digest"
    );
    let mut i = init();
    i.rows.clear();
    assert_eq!(
        begin_publication_journal_v1(i).unwrap_err(),
        "journal requires a non-empty bound row set"
    );
}
