use allow_report::rc_publication_incident::{
    ChannelPostureV1, FinalCandidateEligibilityV1, GitHubReleaseObservationV1,
    ObservationCompletenessV1, RcPublicationIncidentV1, RegistryObservationV1, ReleaseAttemptV1,
    RowReconciliationV1, TagObservationV1, RC_PUBLICATION_INCIDENT_SCHEMA,
};

fn exact_candidate_row(package: &str) -> RowReconciliationV1 {
    RowReconciliationV1::PublishedExactCandidate {
        package: package.to_string(),
        version: "0.2.0-rc.1".to_string(),
        candidate_commit: "f8bbd3a83b6286cf00693cfdb951c4c21ae24ace".to_string(),
        candidate_tree: "73e98378d9053445cde2adfbc806c11a6cad6a67".to_string(),
        candidate_receipt_artifact_id: 9506518765,
        expected_checksum:
            "sha256:a3f6c99da45120b96968349bc51c83ddf81e6d7a2c49e06e8727d3ab4195a3b2"
                .to_string(),
        observed_checksum:
            "sha256:a3f6c99da45120b96968349bc51c83ddf81e6d7a2c49e06e8727d3ab4195a3b2"
                .to_string(),
    }
}

fn across_candidate_row(package: &str) -> RowReconciliationV1 {
    RowReconciliationV1::PublishedAcrossCandidateHistory {
        package: package.to_string(),
        version: "0.2.0-rc.1".to_string(),
        registry_checksum:
            "sha256:ae3f4ed17b8877640c00e8fabd1e4e1778eff52dc102cc5103ee49ca92c5a488"
                .to_string(),
        retained_candidate_checksums: vec![
            "sha256:86fe2512fda53f78468273d5829876cf16c9c55e2f39d41652644fdd2fb22afd"
                .to_string(),
        ],
        note: "registry bytes match no retained candidate".to_string(),
    }
}

fn incident(rows: Vec<RowReconciliationV1>) -> RcPublicationIncidentV1 {
    RcPublicationIncidentV1 {
        schema: RC_PUBLICATION_INCIDENT_SCHEMA.to_string(),
        incident_id: "rc1-moved-tag".to_string(),
        channel_version: "0.2.0-rc.1".to_string(),
        channel_tag: "v0.2.0-rc.1".to_string(),
        attempts: vec![ReleaseAttemptV1 {
            run_id: 32688128233,
            commit: "f8bbd3a83b6286cf00693cfdb951c4c21ae24ace".to_string(),
            tree: "73e98378d9053445cde2adfbc806c11a6cad6a67".to_string(),
            conclusion: "failure".to_string(),
            result_class: "partial".to_string(),
            retained_publish_receipt_artifact_id: 9506518765,
        }],
        tag_observation: TagObservationV1 {
            current_tag_object: "994343d6c5357f6bd4530f9ed1fd95424624e48f".to_string(),
            current_target_commit: "8bdabcd18723e36bbcfada423fa44779eefa599c".to_string(),
            events: Vec::new(),
            observation_limit: Some("tag event history unretained".to_string()),
        },
        row_reconciliations: rows,
        github_release: GitHubReleaseObservationV1 {
            name: "v0.2.0-rc.1".to_string(),
            draft: false,
            prerelease: false,
            asset_count: 7,
            observed_note: "RC published with a stable release posture".to_string(),
        },
        registry_observation: RegistryObservationV1 {
            observed_at: "2026-08-30".to_string(),
            rows_present: 10,
            yanked_count: 0,
        },
        observation_completeness: ObservationCompletenessV1::PartialObservation,
        observation_limits: vec!["tag event history unretained".to_string()],
        channel_posture: ChannelPostureV1::PublicPrereleaseWithIncident,
        final_candidate_eligibility: FinalCandidateEligibilityV1::NotReusable,
        claim_boundary: "retained evidence only".to_string(),
    }
}

#[test]
fn valid_reconciliation_passes() {
    let rows = (0..8)
        .map(|index| exact_candidate_row(&format!("allow-{index}")))
        .chain([
            across_candidate_row("allow-diff"),
            across_candidate_row("cargo-allow"),
        ])
        .collect();
    let record = incident(rows);
    assert_eq!(record.validate(), Ok(()));
}

#[test]
fn wrong_row_count_or_mismatched_exact_checksums_fail() {
    let short = incident(vec![exact_candidate_row("allow-core")]);
    assert!(
        short.validate().is_err(),
        "a non-10-row record must be rejected"
    );
    let mismatch = RowReconciliationV1::PublishedExactCandidate {
        package: "allow-core".to_string(),
        version: "0.2.0-rc.1".to_string(),
        candidate_commit: "f8bbd3a83b6286cf00693cfdb951c4c21ae24ace".to_string(),
        candidate_tree: "73e98378d9053445cde2adfbc806c11a6cad6a67".to_string(),
        candidate_receipt_artifact_id: 9506518765,
        expected_checksum:
            "sha256:86fe2512fda53f78468273d5829876cf16c9c55e2f39d41652644fdd2fb22afd"
                .to_string(),
        observed_checksum:
            "sha256:ae3f4ed17b8877640c00e8fabd1e4e1778eff52dc102cc5103ee49ca92c5a488"
                .to_string(),
    };
    let mut rows: Vec<RowReconciliationV1> = (0..8)
        .map(|index| exact_candidate_row(&format!("allow-{index}")))
        .collect();
    rows.push(mismatch);
    rows.push(across_candidate_row("cargo-allow"));
    let record = incident(rows);
    assert!(
        record.validate().is_err(),
        "a mismatched exact-candidate row must be rejected"
    );
}

#[test]
fn every_row_state_carries_its_required_evidence() {
    let digest = |hex: &str| format!("sha256:{hex}");
    let checksum_a = digest(&"ab".repeat(32));
    let rows = vec![
        RowReconciliationV1::PublishedExactCandidate {
            package: "allow-0".to_string(),
            version: "0.2.0-rc.1".to_string(),
            candidate_commit: "f8bbd3a83b6286cf00693cfdb951c4c21ae24ace".to_string(),
            candidate_tree: "73e98378d9053445cde2adfbc806c11a6cad6a67".to_string(),
            candidate_receipt_artifact_id: 1,
            expected_checksum: checksum_a.clone(),
            observed_checksum: checksum_a.clone(),
        },
        RowReconciliationV1::PublishedButCandidateEvidenceUnavailable {
            package: "allow-1".to_string(),
            version: "0.2.0-rc.1".to_string(),
            registry_checksum: checksum_a.clone(),
            note: "receipt unretained".to_string(),
        },
        RowReconciliationV1::Missing {
            package: "allow-2".to_string(),
            version: "0.2.0-rc.1".to_string(),
        },
        RowReconciliationV1::Yanked {
            package: "allow-3".to_string(),
            version: "0.2.0-rc.1".to_string(),
            registry_checksum: checksum_a.clone(),
        },
        RowReconciliationV1::ChecksumConflict {
            package: "allow-4".to_string(),
            version: "0.2.0-rc.1".to_string(),
            expected_checksum: checksum_a.clone(),
            observed_checksum: digest(&"cd".repeat(32)),
        },
        RowReconciliationV1::ProviderUnavailable {
            package: "allow-5".to_string(),
        },
        RowReconciliationV1::InstrumentFailure {
            package: "allow-6".to_string(),
            note: "scanner failed mid-observation".to_string(),
        },
        RowReconciliationV1::PublishedExactCandidate {
            package: "allow-7".to_string(),
            version: "0.2.0-rc.1".to_string(),
            candidate_commit: "f8bbd3a83b6286cf00693cfdb951c4c21ae24ace".to_string(),
            candidate_tree: "73e98378d9053445cde2adfbc806c11a6cad6a67".to_string(),
            candidate_receipt_artifact_id: 2,
            expected_checksum: checksum_a.clone(),
            observed_checksum: checksum_a.clone(),
        },
        RowReconciliationV1::PublishedExactCandidate {
            package: "allow-8".to_string(),
            version: "0.2.0-rc.1".to_string(),
            candidate_commit: "f8bbd3a83b6286cf00693cfdb951c4c21ae24ace".to_string(),
            candidate_tree: "73e98378d9053445cde2adfbc806c11a6cad6a67".to_string(),
            candidate_receipt_artifact_id: 3,
            expected_checksum: checksum_a.clone(),
            observed_checksum: checksum_a.clone(),
        },
        RowReconciliationV1::Missing {
            package: "allow-9".to_string(),
            version: "0.2.0-rc.1".to_string(),
        },
    ];
    let mut record = incident(rows);
    record.observation_limits = vec!["mixed-state fixture".to_string()];
    assert_eq!(record.validate(), Ok(()));

    record.row_reconciliations[3] = RowReconciliationV1::Yanked {
        package: "allow-3".to_string(),
        version: "0.2.0-rc.1".to_string(),
        registry_checksum: "not-a-digest".to_string(),
    };
    assert!(
        record.validate().is_err(),
        "yanked rows with malformed checksums must be rejected"
    );
    record.row_reconciliations[3] = RowReconciliationV1::ChecksumConflict {
        package: "allow-3".to_string(),
        version: "0.2.0-rc.1".to_string(),
        expected_checksum: "short".to_string(),
        observed_checksum: checksum_a.clone(),
    };
    assert!(
        record.validate().is_err(),
        "checksum-conflict rows with malformed checksums must be rejected"
    );
    record.row_reconciliations[3] = RowReconciliationV1::InstrumentFailure {
        package: "allow-3".to_string(),
        note: String::new(),
    };
    assert!(
        record.validate().is_err(),
        "instrument-failure rows without a note must be rejected"
    );
    record.row_reconciliations[1] =
        RowReconciliationV1::PublishedButCandidateEvidenceUnavailable {
            package: "allow-1".to_string(),
            version: "0.2.0-rc.1".to_string(),
            registry_checksum: checksum_a.clone(),
            note: String::new(),
        };
    assert!(
        record.validate().is_err(),
        "unavailable-evidence rows without a note must be rejected"
    );
}

#[test]
fn validation_law_rejects_each_violation() {
    let rows: Vec<RowReconciliationV1> = (0..8)
        .map(|index| exact_candidate_row(&format!("allow-{index}")))
        .chain([
            across_candidate_row("allow-diff"),
            across_candidate_row("cargo-allow"),
        ])
        .collect();
    let base = incident(rows);

    let mut record = base.clone();
    record.schema = "wrong.schema".to_string();
    assert!(record.validate().is_err(), "wrong schema must be rejected");

    let mut record = base.clone();
    record.attempts.clear();
    assert!(record.validate().is_err(), "no attempts must be rejected");

    let mut record = base.clone();
    record.attempts.push(record.attempts[0].clone());
    assert!(
        record.validate().is_err(),
        "duplicate run ids must be rejected"
    );

    let mut record = base.clone();
    record.attempts[0].commit = "not-hex".to_string();
    assert!(
        record.validate().is_err(),
        "malformed attempt commits must be rejected"
    );

    let mut record = base.clone();
    record.tag_observation.observation_limit = None;
    assert!(
        record.validate().is_err(),
        "tag history without events or a limit must be rejected"
    );

    let mut record = base.clone();
    record.tag_observation.current_target_commit = "xyz".to_string();
    assert!(
        record.validate().is_err(),
        "malformed tag target commits must be rejected"
    );

    let mut record = base.clone();
    record.row_reconciliations[8] = across_candidate_row("allow-0");
    assert!(
        record.validate().is_err(),
        "duplicate package rows must be rejected"
    );

    let mut record = base.clone();
    record.row_reconciliations[0] = RowReconciliationV1::PublishedExactCandidate {
        package: "allow-0".to_string(),
        version: "0.2.0-rc.1".to_string(),
        candidate_commit: "f8bbd3a83b6286cf00693cfdb951c4c21ae24ace".to_string(),
        candidate_tree: "73e98378d9053445cde2adfbc806c11a6cad6a67".to_string(),
        candidate_receipt_artifact_id: 9506518765,
        expected_checksum: "sha256:short".to_string(),
        observed_checksum: "sha256:short".to_string(),
    };
    assert!(
        record.validate().is_err(),
        "malformed exact-candidate checksums must be rejected"
    );

    let bad_across = RowReconciliationV1::PublishedAcrossCandidateHistory {
        package: "allow-diff".to_string(),
        version: "0.2.0-rc.1".to_string(),
        registry_checksum:
            "sha256:ae3f4ed17b8877640c00e8fabd1e4e1778eff52dc102cc5103ee49ca92c5a488"
                .to_string(),
        retained_candidate_checksums: vec![
            "sha256:ae3f4ed17b8877640c00e8fabd1e4e1778eff52dc102cc5103ee49ca92c5a488"
                .to_string(),
        ],
        note: "registry matches a retained candidate".to_string(),
    };
    let mut record = base.clone();
    record.row_reconciliations[8] = bad_across.clone();
    assert!(
        record.validate().is_err(),
        "across-candidate rows whose registry bytes match a retained candidate must be rejected"
    );

    let mut record = base.clone();
    record.row_reconciliations[8] = RowReconciliationV1::PublishedAcrossCandidateHistory {
        package: "allow-diff".to_string(),
        version: "0.2.0-rc.1".to_string(),
        registry_checksum:
            "sha256:ae3f4ed17b8877640c00e8fabd1e4e1778eff52dc102cc5103ee49ca92c5a488"
                .to_string(),
        retained_candidate_checksums: Vec::new(),
        note: "registry matches a retained candidate".to_string(),
    };
    assert!(
        record.validate().is_err(),
        "across-candidate rows without retained comparisons must be rejected"
    );

    let mut record = base.clone();
    record.row_reconciliations[8] = RowReconciliationV1::PublishedAcrossCandidateHistory {
        package: "allow-diff".to_string(),
        version: "0.2.0-rc.1".to_string(),
        registry_checksum:
            "sha256:ae3f4ed17b8877640c00e8fabd1e4e1778eff52dc102cc5103ee49ca92c5a488"
                .to_string(),
        retained_candidate_checksums: vec![
            "sha256:86fe2512fda53f78468273d5829876cf16c9c55e2f39d41652644fdd2fb22afd"
                .to_string(),
        ],
        note: String::new(),
    };
    assert!(
        record.validate().is_err(),
        "across-candidate rows without a provenance note must be rejected"
    );
}

#[test]
fn posture_eligibility_and_limits_are_lawful() {
    let rows: Vec<RowReconciliationV1> = (0..8)
        .map(|index| exact_candidate_row(&format!("allow-{index}")))
        .chain([
            across_candidate_row("allow-diff"),
            across_candidate_row("cargo-allow"),
        ])
        .collect();
    let mut record = incident(rows);
    assert_eq!(record.validate(), Ok(()));
    record.observation_limits.clear();
    assert!(
        record.validate().is_err(),
        "partial observation without limits must be rejected"
    );
    record.observation_limits = vec!["unobserved facet".to_string()];
    record.observation_completeness = ObservationCompletenessV1::CompleteObservation;
    assert!(
        record.validate().is_err(),
        "complete observation carrying limits must be rejected"
    );
    record.observation_limits.clear();
    assert!(
        record.validate().is_err(),
        "complete observation is false while across-candidate rows lack retained provenance"
    );
}

