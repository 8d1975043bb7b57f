use omnifrons_shell::domain::{
    ApprovalId, ApprovalSource, Id64, LaunchProvenance,
    ArtifactState, Attribution, CandidateEntry, CandidateProbe, CandidateState, CatalogRecord,
    EpochOffset, JournalEntry, JournalStep, ListedCandidate, PendingRegistration, ProviderState,
    Sha256Digest, StepOutcome,
};
use omnifrons_shell::failures::{
    BlobStoreError, CatalogStoreError, DestinationError, JournalError, PrepareError, PublishError,
    WorkAreaError,
};
use omnifrons_shell::ipc::commands::RunLookup;
use omnifrons_shell::ipc::dto::{ArtifactStateTag, AvailabilityTag, ShellError, ShellErrorCode, ShellErrorDetail};
use omnifrons_shell::ipc::publication::{
    approvable_class, approval_digest, approve_listed_entry, availability_of, entry_directory_outcome,
    entry_file_name, publication_listing, publish_approval_id, reopen_decision, reopened_for_approval,
    request_refusal, run_active, whole_outbox_location, approval_next, recovery_approval_next, ApprovalAction, ApprovalFailure, ApprovalStep, RecoveryApprovalStep, listed_approval, whole_outbox_approval, RegularFacts, EntryLocation, RequestRefusal,
};

#[test]
fn publish_errors_map_to_their_codes_with_slash_free_messages() {
    let cases = [
        (PublishError::WorkAreaInvalid, ShellErrorCode::WorkAreaInvalid),
        (PublishError::OutboxEscape { recovery_written: false }, ShellErrorCode::OutboxEscape),
        (PublishError::OutboxLinked, ShellErrorCode::OutboxLinked),
        (PublishError::IntegrityMismatch, ShellErrorCode::IntegrityMismatch),
        (PublishError::Journal(JournalError::Corrupt), ShellErrorCode::WorkAreaInvalid),
        (PublishError::Catalog(CatalogStoreError::Corrupt), ShellErrorCode::CatalogUnavailable),
        (PublishError::Provider(BlobStoreError::WriteFailed), ShellErrorCode::DestinationInvalid),
    ];
    for (error, code) in cases {
        let mapped = ShellError::from(error);
        assert_eq!(mapped.code, code);
        assert!(!mapped.message.contains('/'), "{}", mapped.message);
    }
}

#[test]
fn a_duplicate_publication_carries_the_existing_ids() {
    let mapped = ShellError::from(PublishError::DuplicatePublication {
        publication_id: Sha256Digest([0x11; 32]),
        catalog_id: "cat-1".to_string(),
    });
    assert_eq!(mapped.code, ShellErrorCode::DuplicatePublication);
    assert_eq!(
        mapped.detail,
        Some(ShellErrorDetail::DuplicatePublication {
            publication_id: "11".repeat(32),
            catalog_id: "cat-1".to_string(),
        })
    );
}

#[test]
fn work_area_journal_and_destination_failures_keep_their_codes() {
    assert_eq!(ShellError::from(WorkAreaError::NotOwnerOnly).code, ShellErrorCode::WorkAreaInvalid);
    assert_eq!(ShellError::from(JournalError::WriteFailed).code, ShellErrorCode::WorkAreaInvalid);
    let unconfigured = ShellError::from(DestinationError::Unconfigured);
    assert_eq!(unconfigured.code, ShellErrorCode::DestinationInvalid);
    assert_eq!(unconfigured.message, "the project declares no asset root");
}

fn listed(name: &str, state: CandidateState, digest: u8, class: &str) -> ListedCandidate {
    ListedCandidate {
        entry: CandidateEntry {
            name: name.to_string(),
            size: 11,
            digest: Sha256Digest([digest; 32]),
            detected_type: "pdf".to_string(),
            class: class.to_string(),
            attribution: Attribution::Run("run-a".to_string()),
        },
        state,
        handle_held: true,
    }
}

fn provenance() -> LaunchProvenance {
    LaunchProvenance { adapter_id: Some("line-agent".to_string()), executable_approval: Some(ApprovalId(4)) }
}

fn now() -> EpochOffset {
    EpochOffset::AfterEpoch { millis: 1_725_782_400_000 }
}

fn run_a() -> RunLookup {
    RunLookup::Ended(vec![
        listed("run-a/report.pdf", CandidateState::Candidate, 7, "generated-heavy"),
        listed("run-a/notes.md", CandidateState::Candidate, 8, "source"),
        listed("run-a/linked.pdf", CandidateState::OutboxLinked, 9, "generated-heavy"),
    ])
}

#[test]
fn approving_an_attributed_candidate_records_and_returns_its_facts() {
    let facts = approve_listed_entry("run-a", &run_a(), &Some("main".to_string()), &provenance(), now(), "run-a/report.pdf", &Sha256Digest([7; 32]))
        .expect("approvable");
    assert_eq!(facts.run_id, "run-a");
    assert_eq!(facts.name, "run-a/report.pdf");
    assert_eq!(facts.file_name, "report.pdf");
    assert!(matches!(&facts.attribution, Attribution::Run(run) if run == "run-a"));
    assert_eq!(facts.adapter_id.as_deref(), Some("line-agent"));
    assert_eq!(facts.executable_approval, Some(ApprovalId(4)));
    assert_eq!(facts.approved_at, now());
    assert_eq!(facts.size, 11);
    assert_eq!(facts.class, "generated-heavy");
    assert_eq!(facts.asset_root_id, "main");
    assert!(facts.handle_held);
}

#[test]
fn approving_with_a_mismatched_digest_is_refused() {
    let error = approve_listed_entry("run-a", &run_a(), &Some("main".to_string()), &provenance(), now(), "run-a/report.pdf", &Sha256Digest([1; 32]))
        .err().expect("refused");
    assert_eq!(error.code, ShellErrorCode::Refused);
    assert_eq!(error.message, "the candidate's digest does not match the approval request");
}

#[test]
fn approving_a_non_heavy_entry_is_refused() {
    let error = approve_listed_entry("run-a", &run_a(), &Some("main".to_string()), &provenance(), now(), "run-a/notes.md", &Sha256Digest([8; 32]))
        .err().expect("refused");
    assert_eq!(error.code, ShellErrorCode::Refused);
}

#[test]
fn approving_an_entry_refused_at_validation_is_refused() {
    let error = approve_listed_entry("run-a", &run_a(), &Some("main".to_string()), &provenance(), now(), "run-a/linked.pdf", &Sha256Digest([9; 32]))
        .err().expect("refused");
    assert_eq!(error.message, "the entry was refused at validation and cannot be approved");
}

#[test]
fn approving_without_a_declared_asset_root_is_destination_invalid() {
    let error = approve_listed_entry("run-a", &run_a(), &None, &provenance(), now(), "run-a/report.pdf", &Sha256Digest([7; 32]))
        .err().expect("refused");
    assert_eq!(error.code, ShellErrorCode::DestinationInvalid);
}

#[test]
fn approving_an_unknown_run_name_or_digest_is_invalid_request() {
    for (lookup, name) in [
        (RunLookup::Unknown, "run-a/report.pdf"),
        (RunLookup::InvalidRunId, "run-a/report.pdf"),
        (RunLookup::NotEnded, "run-a/report.pdf"),
        (run_a(), "run-a/missing.pdf"),
    ] {
        let error = approve_listed_entry("run-a", &lookup, &Some("main".to_string()), &provenance(), now(), name, &Sha256Digest([7; 32]))
            .err().expect("refused");
        assert_eq!(error.code, ShellErrorCode::InvalidRequest);
    }
    let error = approval_digest(false, "not-hex").unwrap_err();
    assert_eq!(error.code, ShellErrorCode::InvalidRequest);
    assert_eq!(error.message, "the digest is not 64 hex characters");
}

#[test]
fn approving_and_publishing_are_refused_while_a_run_is_active() {
    let error = approval_digest(true, &"ab".repeat(32)).unwrap_err();
    assert_eq!(error, run_active());
    assert_eq!(error.code, ShellErrorCode::RunActive);
    let error = publish_approval_id(true, "0011223344556677").unwrap_err();
    assert_eq!(error.code, ShellErrorCode::RunActive);
}

#[test]
fn publishing_an_unknown_approval_is_invalid_request() {
    let error = publish_approval_id(false, "xyz").unwrap_err();
    assert_eq!(error.message, "the approval id is not 16 hex characters");
    assert!(publish_approval_id(false, "0011223344556677").is_ok());
    let unknown = request_refusal(RequestRefusal::UnknownApproval);
    assert_eq!(unknown.code, ShellErrorCode::InvalidRequest);
    assert_eq!(unknown.message, "no approval with that id is recorded");
}

/// The run-id verdict the fixture's runs meet: `run-<n>` tokens of
/// letters, digits, and `-`.
fn is_fixture_run_id(prefix: &str) -> bool {
    !prefix.is_empty() && prefix.chars().all(|c| c.is_ascii_alphanumeric() || c == '-')
}

#[test]
fn approving_with_no_run_refuses_a_remembered_runs_entry_and_malformed_names() {
    // `run-1` is remembered with its inventory; the outbox holds no
    // `missing.pdf`.
    let digest = Sha256Digest([0x5a; 32]);
    for name in [
        "run-1/report.pdf",
        "../report.pdf",
        "run-1/deeper/report.pdf",
        "missing.pdf",
        ".",
        "..",
        "",
        "run-1/",
        "/report.pdf",
        "run-1\\report.pdf",
    ] {
        let prefix = EntryLocation::run_prefix(name);
        let verdict = prefix.as_deref().map_or(true, is_fixture_run_id);
        let remembered = prefix.as_deref() == Some("run-1");
        let error = match whole_outbox_location(name, verdict, remembered) {
            Err(error) => error,
            Ok(_) => reopened_for_approval(CandidateProbe::Unreadable, &digest)
                .err()
                .expect(name),
        };
        assert_eq!(error.code, ShellErrorCode::InvalidRequest, "{name}: {}", error.message);
        assert!(!error.message.contains('/'), "{}", error.message);
    }
}

#[test]
fn a_traversal_or_empty_prefix_is_never_taken_whatever_the_run_id_verdict() {
    for name in ["../report.pdf", "/report.pdf", "./report.pdf", "a\\b/report.pdf"] {
        assert!(EntryLocation::parse(name, true).is_none(), "{name:?}");
    }
    assert!(EntryLocation::parse("run-a/report.pdf", false).is_none());
    assert_eq!(EntryLocation::run_prefix("run-a/report.pdf").as_deref(), Some("run-a"));
    assert_eq!(EntryLocation::run_prefix("report.pdf"), None);
    assert_eq!(
        EntryLocation::parse("run-a/report.pdf", true),
        Some(EntryLocation { under_run: Some("run-a".to_string()), file_name: "report.pdf".to_string() })
    );
    assert_eq!(
        EntryLocation::parse("report.pdf", false),
        Some(EntryLocation { under_run: None, file_name: "report.pdf".to_string() })
    );
    let refusal = whole_outbox_location("run-a/report.pdf", true, true).unwrap_err();
    assert_eq!(refusal.message, "the entry belongs to a remembered run; approve it through that run id");
    assert_eq!(
        whole_outbox_location("run-b/report.pdf", true, false),
        Ok(EntryLocation { under_run: Some("run-b".to_string()), file_name: "report.pdf".to_string() })
    );
}

#[test]
fn an_approved_entry_sits_under_its_listing_run() {
    assert_eq!(entry_file_name("run-a", "run-a/report.pdf"), "report.pdf");
    assert_eq!(entry_file_name("run-a", "run-b/report.pdf"), "run-b/report.pdf");
    assert_eq!(entry_file_name("run-a", "run-a"), "run-a");
    assert_eq!(
        EntryLocation::of(&Some("run-a".to_string()), "run-a/x.pdf", true),
        Some(EntryLocation { under_run: Some("run-a".to_string()), file_name: "x.pdf".to_string() })
    );
}

#[test]
fn approving_with_no_run_refuses_a_digest_that_changed_since_the_listing() {
    let probe = CandidateProbe::Regular { digest: Sha256Digest([3; 32]), size: 1, detected_type: "pdf".to_string() };
    let error = reopened_for_approval(probe, &Sha256Digest([4; 32])).err().expect("refused");
    assert_eq!(error.code, ShellErrorCode::IntegrityMismatch);
    let linked = reopened_for_approval(CandidateProbe::Linked, &Sha256Digest([4; 32])).err().expect("refused");
    assert_eq!(linked.code, ShellErrorCode::OutboxLinked);
    let escape = reopened_for_approval(CandidateProbe::Escape, &Sha256Digest([4; 32])).err().expect("refused");
    assert_eq!(escape.code, ShellErrorCode::OutboxEscape);
    let facts = reopened_for_approval(
        CandidateProbe::Regular { digest: Sha256Digest([4; 32]), size: 5, detected_type: "png".to_string() },
        &Sha256Digest([4; 32]),
    )
    .ok()
    .expect("the same digest");
    assert_eq!((facts.size, facts.detected_type.as_str()), (5, "png"));
    assert!(approvable_class(&"generated-heavy".to_string()).is_ok());
    assert_eq!(approvable_class(&"source".to_string()).unwrap_err().code, ShellErrorCode::Refused);
}

#[test]
fn a_re_opened_entry_whose_facts_changed_is_refused() {
    let digest = Sha256Digest([6; 32]);
    let same = CandidateProbe::Regular { digest, size: 10, detected_type: "pdf".to_string() };
    assert!(reopen_decision(Some(same), &digest, 10, &"pdf".to_string()).is_ok());
    let grown = CandidateProbe::Regular { digest, size: 11, detected_type: "pdf".to_string() };
    let refusal = reopen_decision(Some(grown), &digest, 10, &"pdf".to_string()).err().expect("refused");
    assert_eq!(refusal.step, JournalStep::Refused);
    assert_eq!(refusal.state, ArtifactState::Refused);
    assert_eq!(refusal.reason, "identity-facts-changed-at-re-open");
    assert_eq!(refusal.error.code, ShellErrorCode::Refused);
    let gone = reopen_decision(None, &digest, 10, &"pdf".to_string()).err().expect("refused");
    assert_eq!(gone.reason, "entry-not-reopenable");
    let escaped = reopen_decision(Some(CandidateProbe::Escape), &digest, 10, &"pdf".to_string()).err().expect("refused");
    assert_eq!((escaped.step, escaped.reason.as_str()), (JournalStep::OutboxEscape, "not-a-regular-file-at-re-open"));
}

#[test]
fn opening_a_missing_outbox_names_no_entry() {
    let error = entry_directory_outcome(Err(PrepareError::OutboxMissing)).unwrap_err();
    assert_eq!(error.message, "the outbox does not exist yet, so no entry can be listed in it");
    assert!(entry_directory_outcome(Ok(())).is_ok());
}

fn record(id: u8) -> CatalogRecord {
    CatalogRecord {
        publication_id: Sha256Digest([id; 32]),
        state: ArtifactState::Registered,
        reference: None,
        provider_state: ProviderState::Pending,
        catalog_id: format!("cat-{id}"),
        names: vec!["report.pdf".to_string()],
    }
}

fn step(id: u8, step: JournalStep, outcome: StepOutcome) -> JournalEntry {
    JournalEntry::Step {
        publication_id: Sha256Digest([id; 32]),
        step,
        outcome,
        recovery: None,
        at: EpochOffset::AfterEpoch { millis: 1 },
    }
}

#[test]
fn publications_list_resumes_a_pending_registration_from_the_journal() {
    let project = Sha256Digest([0xaa; 32]);
    let entries = vec![
        step(1, JournalStep::PublishedLocal, StepOutcome::Succeeded),
        step(2, JournalStep::PublishedLocal, StepOutcome::Failed),
        step(3, JournalStep::PublishedLocal, StepOutcome::Succeeded),
    ];
    let pending = vec![
        PendingRegistration { publication_id: Sha256Digest([3; 32]), scope_id: project, names: vec!["late.pdf".to_string()] },
        PendingRegistration { publication_id: Sha256Digest([1; 32]), scope_id: project, names: vec![] },
        PendingRegistration { publication_id: Sha256Digest([4; 32]), scope_id: Sha256Digest([0xbb; 32]), names: vec![] },
    ];
    let listed = publication_listing(&vec![record(1), record(2)], &entries, &pending, &project);
    assert_eq!(listed.len(), 3);
    assert_eq!(listed[0].availability, AvailabilityTag::Local);
    assert_eq!(listed[1].availability, AvailabilityTag::Unknown);
    assert_eq!(listed[0].catalog_id.as_deref(), Some("cat-1"));
    assert_eq!(listed[2].state, ArtifactStateTag::RegistrationPending);
    assert_eq!(listed[2].names, vec!["late.pdf".to_string()]);
    assert_eq!(listed[2].availability, AvailabilityTag::Local);
    assert!(listed[2].catalog_id.is_none() && listed[2].provider_state.is_none());
}

#[test]
fn publications_list_of_a_fresh_project_is_empty_and_writes_nothing() {
    let listed = publication_listing(&vec![], &vec![], &vec![], &Sha256Digest([0; 32]));
    assert!(listed.is_empty());
    assert_eq!(availability_of(&vec![], &Sha256Digest([0; 32])), AvailabilityTag::Unknown);
}

#[test]
fn the_approvals_bind_their_ids_facts_and_provenance() {
    let facts = approve_listed_entry("run-a", &run_a(), &Some("main".to_string()), &provenance(), now(), "run-a/report.pdf", &Sha256Digest([7; 32]))
        .expect("approvable");
    let listed = listed_approval(Id64([9; 8]), Sha256Digest([0x10; 32]), Sha256Digest([7; 32]), "report.pdf".to_string(), facts);
    assert_eq!(listed.run_id.as_deref(), Some("run-a"));
    assert_eq!(listed.name, "run-a/report.pdf");
    assert_eq!(listed.adapter_id.as_deref(), Some("line-agent"));
    assert_eq!(listed.executable_approval, Some(ApprovalId(4)));
    assert!(matches!(listed.source, ApprovalSource::Outbox));
    assert_eq!(listed.size, 11);

    let whole = whole_outbox_approval(
        Id64([8; 8]),
        Sha256Digest([0x11; 32]),
        "dropped.pdf".to_string(),
        "dropped.pdf".to_string(),
        RegularFacts { digest: Sha256Digest([3; 32]), size: 4, detected_type: "pdf".to_string() },
        "generated-heavy".to_string(),
        "main".to_string(),
        now(),
    );
    assert_eq!(whole.run_id, None);
    assert!(matches!(whole.attribution, Attribution::Unattributed));
    assert_eq!(whole.adapter_id, None);
    assert_eq!(whole.executable_approval, None);
    assert_eq!(whole.digest.0, [3; 32]);
    assert!(matches!(whole.source, ApprovalSource::Outbox));
}

#[test]
fn an_approval_runs_its_steps_in_order_and_records_only_after_the_work_area_check() {
    let mut step = ApprovalStep::CheckRun;
    let mut seen = vec![step];
    loop {
        match approval_next(step, Ok(())) {
            ApprovalAction::Run(next) => {
                step = next;
                seen.push(step);
            }
            ApprovalAction::Approved => break,
            ApprovalAction::Refuse(error) => panic!("unexpected refusal {error:?}"),
        }
    }
    let work_area = seen.iter().position(|s| *s == ApprovalStep::OpenWorkArea).expect("checked");
    let record = seen.iter().position(|s| *s == ApprovalStep::Record).expect("recorded");
    assert!(work_area < record);
    assert_eq!(seen.len(), 7);

    match approval_next(ApprovalStep::OpenWorkArea, Err(ApprovalFailure::WorkArea(WorkAreaError::InsideWorkspace))) {
        ApprovalAction::Refuse(error) => assert_eq!(error.code, ShellErrorCode::WorkAreaInvalid),
        _ => panic!("expected a refusal"),
    }
    match approval_next(ApprovalStep::CheckDuplicate, Err(ApprovalFailure::Duplicate)) {
        ApprovalAction::Refuse(error) => {
            assert_eq!(error.code, ShellErrorCode::InvalidRequest);
            assert_eq!(error.message, "an approval with this derived id is already recorded");
        }
        _ => panic!("expected a refusal"),
    }
    match approval_next(ApprovalStep::CheckRun, Err(ApprovalFailure::RunActive)) {
        ApprovalAction::Refuse(error) => assert_eq!(error, run_active()),
        _ => panic!("expected a refusal"),
    }
}

#[test]
fn a_recovery_approval_reads_the_journal_only_after_the_work_area_check() {
    let mut step = RecoveryApprovalStep::CheckRun;
    let mut seen = vec![step];
    while let ApprovalAction::Run(next) = recovery_approval_next(step, Ok(())) {
        step = next;
        seen.push(step);
    }
    assert_eq!(seen.len(), 10);
    let work_area = seen.iter().position(|s| *s == RecoveryApprovalStep::OpenWorkArea).expect("checked");
    let journal = seen.iter().position(|s| *s == RecoveryApprovalStep::ReplayJournal).expect("read");
    assert!(work_area < journal);
    assert!(matches!(recovery_approval_next(RecoveryApprovalStep::Record, Ok(())), ApprovalAction::Approved));
    match recovery_approval_next(RecoveryApprovalStep::ReplayJournal, Err(ApprovalFailure::Journal(JournalError::Corrupt))) {
        ApprovalAction::Refuse(error) => assert_eq!(error.code, ShellErrorCode::WorkAreaInvalid),
        _ => panic!("expected a refusal"),
    }
}
