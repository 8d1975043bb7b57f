use omnifrons_shell::domain::{
    ApprovalSource,
    AdapterEvent, ApprovalId, ApprovalRecord, ApprovalStatus, Attribution, CandidateEntry,
    CandidateState, EpochOffset, ExecutableIdentity, FramePayload, OutputDiscipline, OutputFrame,
    OutputStream, PlatformEvidence, ScopeMode, Sha256Digest, MisplacedFinding, Id64, ArtifactApproval,
};
use omnifrons_shell::failures::ProbeOutcome;
use omnifrons_shell::ipc::dto::{
    count_u32, system_time_to_millis, AdapterEventDto, ApprovalDto, ApprovalIdDto,
    ApprovalStatusTag, ArtifactApprovalDto, AttributionDto, CandidateDto, CandidateStateTag,
    EvidenceDto, HarnessFrame, MisplacedDto, OutputDisciplineTag, PlatformEvidenceDto, ProcessIdDto,
    ScopeModeDto, ShellError, ShellErrorCode, WrongRootStatusDto,
};

fn identity() -> ExecutableIdentity {
    ExecutableIdentity {
        canonical_path: "/opt/tool/app".to_string(),
        size: 4096,
        sha256: Sha256Digest([0xab; 32]),
        modified_at: Some(EpochOffset::AfterEpoch { millis: 1_700_000_000_000 }),
        platform: PlatformEvidence::Unix { mode: 0o755 },
    }
}

#[test]
fn harness_frame_from_domain_carries_a_split_frames_continued_flag() {
    let frame = HarnessFrame::from_domain(
        ProcessIdDto(7),
        OutputFrame {
            seq: 4,
            dropped_before: 0,
            payload: FramePayload::Text {
                stream: OutputStream::Stdout,
                text: "first half of a long line".to_string(),
                continued: true,
            },
        },
    );
    match frame {
        HarnessFrame::Stdout { id, seq, text, continued, .. } => {
            assert_eq!(id, ProcessIdDto(7));
            assert_eq!(seq, 4);
            assert_eq!(text, "first half of a long line");
            assert!(continued);
        }
        other => panic!("expected a stdout frame, got {other:?}"),
    }
}

#[test]
fn harness_frame_event_unknown_carries_truncated_flag() {
    let frame = HarnessFrame::event(
        ProcessIdDto(1),
        0,
        0,
        AdapterEvent::Unknown { raw: b"not json".to_vec(), truncated: true },
    );
    match frame {
        HarnessFrame::Event { event: AdapterEventDto::Unknown { raw, truncated }, .. } => {
            assert_eq!(raw, "not json");
            assert!(truncated);
        }
        other => panic!("expected an unknown event, got {other:?}"),
    }
}

#[test]
fn invalid_utf8_in_an_unknown_event_is_replaced_not_dropped() {
    let dto = AdapterEventDto::from_domain(AdapterEvent::Unknown { raw: vec![b'a', 0xff, b'b'], truncated: false });
    assert_eq!(dto, AdapterEventDto::Unknown { raw: "a\u{fffd}b".to_string(), truncated: false });
}

#[test]
fn every_new_shell_error_code_message_has_no_slash() {
    let messages = [
        ShellError::new(ShellErrorCode::NoCandidate, "no file was selected").message,
        ShellError::from_probe_failure(ProbeOutcome::Unreadable).message,
        ShellError::from_probe_failure(ProbeOutcome::NotRegularFile).message,
        ShellError::from_probe_failure(ProbeOutcome::NotExecutable).message,
        ShellError::from_probe_failure(ProbeOutcome::TooLarge).message,
        ShellError::new(ShellErrorCode::Unapproved, "this executable has not been approved").message,
        ShellError::new(ShellErrorCode::Revoked, "the approval for this executable was revoked").message,
        ShellError::new(ShellErrorCode::ShadowedPath, "the approved path now resolves somewhere else").message,
        ShellError::new(ShellErrorCode::ApprovalStoreUnavailable, "the approval store is unavailable").message,
    ];
    for message in messages {
        assert!(!message.contains('/'), "catalogue message must contain no '/', got: {message}");
    }
}

#[test]
fn a_refused_candidate_row_carries_no_digest_facts() {
    let entry = CandidateEntry {
        name: "run-a/linked.pdf".to_string(),
        size: 3,
        digest: Sha256Digest([1; 32]),
        detected_type: "pdf".to_string(),
        class: "generated-heavy".to_string(),
        attribution: Attribution::Run("run-a".to_string()),
    };
    let refused = CandidateDto::from_candidate(&entry, CandidateState::OutboxLinked);
    assert_eq!(refused.state, CandidateStateTag::OutboxLinked);
    assert!(refused.size.is_none() && refused.sha256.is_none() && refused.sha256_short.is_none());
    assert!(refused.detected_type.is_none() && refused.class.is_none());
    assert_eq!(refused.attribution, AttributionDto::Run { run_id: "run-a".to_string() });

    let listed = CandidateDto::from_candidate(&entry, CandidateState::Candidate);
    assert_eq!(listed.size, Some(3));
    assert_eq!(listed.sha256.as_deref(), Some("0101010101010101010101010101010101010101010101010101010101010101"));
    assert_eq!(listed.sha256_short.as_deref(), Some("01010101"));
    assert_eq!(listed.class.as_deref(), Some("generated-heavy"));
}

#[test]
fn evidence_and_approval_dtos_carry_the_identity_facts() {
    let evidence = EvidenceDto::from_identity(&identity());
    assert_eq!(evidence.sha256_short, "abababab");
    assert_eq!(evidence.modified_at, Some(1_700_000_000_000));
    assert_eq!(evidence.platform, PlatformEvidenceDto::Unix { mode: 0o755 });

    let active = ApprovalDto::from_record(&ApprovalRecord {
        approval_id: ApprovalId(5),
        identity: identity(),
        approved_at: EpochOffset::AfterEpoch { millis: 10 },
        status: ApprovalStatus::Active,
    });
    assert_eq!(active.approval_id, ApprovalIdDto(5));
    assert_eq!(active.status, ApprovalStatusTag::Active);
    assert!(active.revoked_at.is_none());

    let revoked = ApprovalDto::from_record(&ApprovalRecord {
        approval_id: ApprovalId(6),
        identity: identity(),
        approved_at: EpochOffset::AfterEpoch { millis: 10 },
        status: ApprovalStatus::Revoked { revoked_at: EpochOffset::BeforeEpoch },
    });
    assert_eq!(revoked.status, ApprovalStatusTag::Revoked);
    assert_eq!(revoked.revoked_at, Some(0));
}

#[test]
fn instants_saturate_at_both_ends() {
    assert_eq!(system_time_to_millis(EpochOffset::BeforeEpoch), 0);
    assert_eq!(system_time_to_millis(EpochOffset::AfterEpoch { millis: 42 }), 42);
    assert_eq!(system_time_to_millis(EpochOffset::AfterEpoch { millis: u128::MAX }), u64::MAX);
    assert_eq!(count_u32(7), 7);
    assert_eq!(count_u32(u64::MAX), u32::MAX);
}

#[test]
fn wrong_root_status_dto_json_shape() {
    let dto = WrongRootStatusDto::of(OutputDiscipline::Advisory, ScopeMode::Advisory, false, 0);
    assert_eq!(dto.output_discipline, OutputDisciplineTag::Advisory);
    assert_eq!(dto.scope_mode, ScopeModeDto::Advisory);
    assert_eq!(
        dto.disclosures,
        vec![
            "a write inside the project but outside the outbox is detected after the run, never prevented".to_string(),
            "a write outside the project is possible and is detected after the run, not prevented".to_string(),
        ]
    );
    assert!(!dto.scanned);
    assert_eq!(dto.findings, 0);
    let enforced = WrongRootStatusDto::of(OutputDiscipline::Enforced, ScopeMode::SandboxEnforced, true, 2);
    assert_eq!(enforced.output_discipline, OutputDisciplineTag::Enforced);
    assert_eq!(enforced.disclosures.len(), 1, "the in-project disclosure rides even an enforced report");
}

#[test]
fn misplaced_dto_json_shape() {
    let dto = MisplacedDto::from_finding(&MisplacedFinding {
        name: "stray/report.pdf".to_string(),
        size: 9,
        digest: Sha256Digest([0x0f; 32]),
        detected_type: "pdf".to_string(),
        class: "generated-heavy".to_string(),
        reason: "outside-outbox".to_string(),
    });
    assert_eq!(dto.name, "stray/report.pdf");
    assert_eq!(dto.sha256_short, "0f0f0f0f");
    assert_eq!(dto.remedies, vec!["quarantine", "publish", "ignore"]);
}

#[test]
fn artifact_approval_dto_json_shape_for_a_whole_outbox_approval_has_a_null_run() {
    let approval = ArtifactApproval {
        approval_id: Id64([0, 0, 0, 0, 0, 0, 0x12, 0x34]),
        publication_id: Sha256Digest([0xcd; 32]),
        run_id: None,
        name: "report.pdf".to_string(),
        display_name: "report.pdf".to_string(),
        digest: Sha256Digest([0xee; 32]),
        size: 3,
        detected_type: "pdf".to_string(),
        class: "generated-heavy".to_string(),
        attribution: Attribution::Unattributed,
        asset_root_id: "main".to_string(),
        adapter_id: None,
        executable_approval: None,
        approved_at: EpochOffset::AfterEpoch { millis: 1_725_782_401_000 },
        source: ApprovalSource::Outbox,
    };
    let dto = ArtifactApprovalDto::from_approval(&approval, false);
    assert_eq!(dto.approval_id, "0000000000001234");
    assert_eq!(dto.publication_id.len(), 64);
    assert!(dto.run_id.is_none());
    assert!(dto.recovered_from.is_none());
    assert_eq!(dto.sha256_short, "eeeeeeee");
    assert_eq!(dto.attribution, AttributionDto::Unattributed);
    assert_eq!(dto.approved_at, 1_725_782_401_000);
    assert!(!dto.handle_held);
}
