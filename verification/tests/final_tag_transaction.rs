use allow_report::final_tag_transaction::{
    begin_tag_transaction_v1, reconcile_tag_push_unknown_v1, record_tag_push_intent_v1,
    record_tag_push_response_v1, record_tag_push_started_v1, tag_push_intent_digest_v1,
    tag_release_gate_open_v1, FinalTagDurabilityV1, FinalTagIdentityV1,
    FinalTagRemoteObservationV1, FinalTagTransactionInitV1, TagTransactionStateV1,
};

fn sha(c: char) -> String {
    std::iter::repeat(c).take(40).collect()
}

fn digest(c: char) -> String {
    format!("sha256:{}", std::iter::repeat(c).take(64).collect::<String>())
}

fn absent_remote() -> FinalTagRemoteObservationV1 {
    FinalTagRemoteObservationV1 {
        provider_reachable: true,
        ref_exists: false,
        remote_is_annotated: false,
        remote_object_id: String::new(),
        remote_peeled_commit: String::new(),
        remote_peeled_tree: String::new(),
    }
}

fn exact_remote() -> FinalTagRemoteObservationV1 {
    FinalTagRemoteObservationV1 {
        provider_reachable: true,
        ref_exists: true,
        remote_is_annotated: true,
        remote_object_id: sha('c'),
        remote_peeled_commit: sha('a'),
        remote_peeled_tree: sha('b'),
    }
}

fn init() -> FinalTagTransactionInitV1 {
    FinalTagTransactionInitV1 {
        transaction_id: "tag-0.2.0-1".to_string(),
        operation_identity_digest: digest('1'),
        authorization_digest: digest('2'),
        authorization_observed_state: "selected_for_run".to_string(),
        lease_key_digest: digest('3'),
        lease_observed_state: "held_pre_irreversible".to_string(),
        lease_holder_generation: 1,
        custody_commit: sha('a'),
        custody_tree: sha('b'),
        freeze_digest: digest('4'),
        custody_digest: digest('5'),
        replay_digest: digest('6'),
        evidence_digest: digest('7'),
        tag: FinalTagIdentityV1 {
            version: "0.2.0".to_string(),
            tag: "v0.2.0".to_string(),
            channel: "stable".to_string(),
            github_prerelease: false,
            commit: sha('a'),
            tree: sha('b'),
            tag_object_id: sha('c'),
            tagger_digest: digest('8'),
            message_digest: digest('9'),
        },
        remote_repository: "example/cargo-allow".to_string(),
        remote_ref: "refs/tags/v0.2.0".to_string(),
        journal_prefix: "journal/tag".to_string(),
        workflow: "release".to_string(),
        run: "7".to_string(),
        attempt: "1".to_string(),
        job: "tag".to_string(),
        remote_preflight: absent_remote(),
        created_at_unix_seconds: 100,
    }
}

fn durability(tid: &str) -> FinalTagDurabilityV1 {
    let head = digest('d');
    FinalTagDurabilityV1 {
        checkpoint_bound_intent_digest: tag_push_intent_digest_v1(tid, &sha('c'), &head),
        journal_head_digest: head,
        checkpoint_digest: digest('e'),
    }
}

#[test]
fn exact_remote_observation_opens_the_gate() {
    let mut t = begin_tag_transaction_v1(init()).unwrap();
    assert_eq!(t.state, TagTransactionStateV1::CreatedLocally);
    assert!(!tag_release_gate_open_v1(&t));
    record_tag_push_intent_v1(&mut t, durability("tag-0.2.0-1"), 110).unwrap();
    assert_eq!(t.state, TagTransactionStateV1::PushIntentDurable);
    record_tag_push_started_v1(&mut t, 120).unwrap();
    assert_eq!(t.push_attempts, 1);
    record_tag_push_response_v1(&mut t, false, 130).unwrap();
    assert_eq!(t.state, TagTransactionStateV1::PushResponseUnknown);
    reconcile_tag_push_unknown_v1(&mut t, exact_remote(), 140).unwrap();
    assert_eq!(t.state, TagTransactionStateV1::RemoteObservedExact);
    assert!(tag_release_gate_open_v1(&t));
    assert_eq!(t.transitions.len(), 4);
}

#[test]
fn construction_refuses_existing_remote_and_moving_main() {
    let mut i = init();
    i.remote_preflight = exact_remote();
    assert_eq!(
        begin_tag_transaction_v1(i).unwrap_err(),
        "remote tag already exists; reconcile before any local creation"
    );
    let mut i = init();
    i.custody_commit = sha('f');
    assert_eq!(
        begin_tag_transaction_v1(i).unwrap_err(),
        "tag must peel to the exact custody subject, not moving main"
    );
    let mut i = init();
    i.tag.github_prerelease = true;
    assert_eq!(
        begin_tag_transaction_v1(i).unwrap_err(),
        "tag transaction requires the exact 0.2.0 stable identity"
    );
}

#[test]
fn disagreeing_checkpoint_refuses_intent_and_absent_remote_authorizes_one_retry() {
    let mut t = begin_tag_transaction_v1(init()).unwrap();
    let before = t.clone();
    assert_eq!(
        record_tag_push_intent_v1(&mut t, durability("another-transaction"), 110).unwrap_err(),
        "checkpoint and journal disagree on the push intent"
    );
    assert_eq!(t, before);
    record_tag_push_intent_v1(&mut t, durability("tag-0.2.0-1"), 110).unwrap();
    record_tag_push_started_v1(&mut t, 120).unwrap();
    record_tag_push_response_v1(&mut t, false, 130).unwrap();
    reconcile_tag_push_unknown_v1(&mut t, absent_remote(), 140).unwrap();
    assert_eq!(t.state, TagTransactionStateV1::PushIntentDurable);
    assert_eq!(t.transitions.last().unwrap().reason, "observed-absent-retry-authorized");
    assert_eq!(
        record_tag_push_response_v1(&mut t, true, 150).unwrap_err(),
        "a push response belongs to a started push only"
    );
}

#[test]
fn lightweight_remote_tag_is_a_conflict() {
    let mut t = begin_tag_transaction_v1(init()).unwrap();
    record_tag_push_intent_v1(&mut t, durability("tag-0.2.0-1"), 110).unwrap();
    record_tag_push_started_v1(&mut t, 120).unwrap();
    record_tag_push_response_v1(&mut t, false, 130).unwrap();
    let mut lightweight = exact_remote();
    lightweight.remote_is_annotated = false;
    reconcile_tag_push_unknown_v1(&mut t, lightweight, 140).unwrap();
    assert_eq!(t.state, TagTransactionStateV1::RemoteConflict);
    assert!(!tag_release_gate_open_v1(&t));
}
