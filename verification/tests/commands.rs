use omnifrons_shell::domain::{
    AdapterEvent, CandidateEntry, CandidateState, CandidateSummary, DropCounts, ExecutableIdentity,
    ListedCandidate, PlatformEvidence, ProcessTerminalState, ProposedEntry, Sha256Digest,
    TerminalAction, TerminalChunk, ToolCallProposal, TransportClass, Attribution,
};
use omnifrons_shell::executable_state::CandidateTable;
use omnifrons_shell::failures::{
    DenialReason, LaunchPlanError, OutboxDeclarationError, PolicyError, PrepareError, ProbeOutcome,
    SupervisorError, WorkAreaError,
};
use omnifrons_shell::ipc::commands::{
    activate_workspace, active_workspace, adapter_launch_next, adapter_wire_frames,
    candidates_for_run, find_candidate, forwarder_for, inventory_failed_diagnostic,
    outbox_open_outcome, outbox_status_for, pick_and_probe, pty_wire_frames, run_end_events,
    validate_deadline_ms, whole_outbox_rows, work_area_state, AdapterLaunchStep,
    AdapterWireSequencer, AssembledLine, ForwarderKind, LaunchAction, LaunchFailure, LineInput,
    OutboxCheck, OutboxLocation, OutboxPolicyFacts, PickedExecutable, PtyForwarder, PtyInput,
    RunEnd, RunEndReport, RunLookup,
};
use omnifrons_shell::ipc::dto::{
    AdapterEventDto, AttributionDto, CandidateIdDto, HarnessFrame, OutboxReasonTag,
    OutboxStateTag, ProcessIdDto, ShellError, ShellErrorCode, ShellErrorDetail, WorkAreaStateTag,
};

fn summarize(frame: &HarnessFrame) -> (u64, u64, &'static str) {
    match frame {
        HarnessFrame::Event { seq, dropped_before, event, .. } => {
            let kind = match event {
                AdapterEventDto::State { .. } => "state",
                AdapterEventDto::Message { .. } => "message",
                AdapterEventDto::ToolCall { .. } => "tool-call",
                AdapterEventDto::Diagnostic { .. } => "diagnostic",
                AdapterEventDto::Unknown { .. } => "unknown",
                AdapterEventDto::TerminalText { .. } => "terminal-text",
                AdapterEventDto::TerminalAction { .. } => "terminal-action",
                AdapterEventDto::TerminalDrops { .. } => "terminal-drops",
                AdapterEventDto::ArtifactPublish { .. } => "artifact-publish",
                AdapterEventDto::Candidates { .. } => "candidates",
                AdapterEventDto::Misplaced { .. } => "misplaced",
            };
            (*seq, *dropped_before, kind)
        }
        HarnessFrame::State { seq, dropped_before, .. } => (*seq, *dropped_before, "terminal"),
        HarnessFrame::Stdout { .. } | HarnessFrame::Stderr { .. } => {
            panic!("an adapter launch must never emit a raw stdout/stderr frame, got {frame:?}")
        }
    }
}

fn exited() -> ProcessTerminalState {
    ProcessTerminalState::Exited { code: Some(0) }
}

fn two_events() -> Vec<AdapterEvent> {
    vec![
        AdapterEvent::Message { text: "first".to_string() },
        AdapterEvent::ToolCall(ToolCallProposal {
            name: "write_file".to_string(),
            arguments_text: "{}".to_string(),
        }),
    ]
}

fn identity(n: u8) -> ExecutableIdentity {
    ExecutableIdentity {
        canonical_path: format!("/opt/tool/app-{n}"),
        size: 4096,
        sha256: Sha256Digest([n; 32]),
        modified_at: None,
        platform: PlatformEvidence::Unix { mode: 0o755 },
    }
}

#[test]
fn spawn_error_maps_to_a_catalogue_message_with_no_path() {
    let mapped = ShellError::from(SupervisorError::Spawn);
    assert_eq!(mapped.code, ShellErrorCode::SpawnFailed);
    assert!(!mapped.message.contains('/'), "got: {}", mapped.message);
}

#[test]
fn unknown_process_maps_to_its_own_code() {
    let mapped = ShellError::from(SupervisorError::UnknownProcess);
    assert_eq!(mapped.code, ShellErrorCode::UnknownProcess);
}

#[test]
fn already_subscribed_maps_to_its_own_code() {
    let mapped = ShellError::from(SupervisorError::AlreadySubscribed);
    assert_eq!(mapped.code, ShellErrorCode::AlreadySubscribed);
}

#[test]
fn too_many_processes_maps_to_its_own_code() {
    let mapped = ShellError::from(SupervisorError::TooManyProcesses);
    assert_eq!(mapped.code, ShellErrorCode::TooManyProcesses);
}

#[test]
fn pty_unsupported_maps_to_its_own_code() {
    let mapped = ShellError::from(SupervisorError::PtyUnsupported);
    assert_eq!(mapped.code, ShellErrorCode::PtyUnsupported);
    assert!(!mapped.message.contains('/'));
}

#[test]
fn prompt_not_typeable_maps_to_its_own_code() {
    let mapped = ShellError::from(LaunchPlanError::PromptNotTypeable);
    assert_eq!(mapped.code, ShellErrorCode::PromptNotTypeable);
    assert_eq!(mapped.message, "prompt contains control characters a terminal would interpret");
    assert!(!mapped.message.contains('/'));
}

#[test]
fn forwarder_kind_follows_the_transport_class() {
    assert_eq!(forwarder_for(TransportClass::Pty), ForwarderKind::Pty);
    assert_eq!(forwarder_for(TransportClass::StructuredStreamingCli), ForwarderKind::Line);
}

#[test]
fn deadline_ms_zero_is_rejected_as_invalid_request() {
    let error = validate_deadline_ms(0).unwrap_err();
    assert_eq!(error.code, ShellErrorCode::InvalidRequest);
}

#[test]
fn deadline_ms_above_30_000_is_rejected_as_invalid_request() {
    let error = validate_deadline_ms(30_001).unwrap_err();
    assert_eq!(error.code, ShellErrorCode::InvalidRequest);
}

#[test]
fn deadline_ms_boundaries_are_accepted() {
    assert!(validate_deadline_ms(1).is_ok());
    assert!(validate_deadline_ms(30_000).is_ok());
}

#[test]
fn a_valid_deadline_is_returned_unchanged_and_a_refusal_names_the_range() {
    assert_eq!(validate_deadline_ms(2_500).unwrap(), 2_500);
    let error = validate_deadline_ms(u64::MAX).unwrap_err();
    assert_eq!(error.message, "deadlineMs must be between 1 and 30000");
    assert!(error.detail.is_none());
}

#[test]
fn approve_with_unknown_candidate_is_no_candidate() {
    let candidates = CandidateTable::default();
    let error = find_candidate(&candidates, CandidateIdDto(999)).unwrap_err();
    assert_eq!(error.code, ShellErrorCode::NoCandidate);
}

#[test]
fn approve_with_an_evicted_candidate_is_no_candidate() {
    let mut candidates = CandidateTable::default();
    let evicted_id = candidates.insert(identity(0));
    for n in 1..=32u8 {
        candidates.insert(identity(n));
    }
    let error = find_candidate(&candidates, CandidateIdDto(evicted_id.raw())).unwrap_err();
    assert_eq!(error.code, ShellErrorCode::NoCandidate);
}

#[test]
fn a_known_candidate_is_found_with_its_identity() {
    let mut candidates = CandidateTable::default();
    let id = candidates.insert(identity(9));
    let found = find_candidate(&candidates, CandidateIdDto(id.raw())).expect("known");
    assert_eq!(found.sha256.0, [9; 32]);
}

#[test]
fn adapter_forwarder_sums_dropped_before_across_coalesced_frames() {
    let mut sequencer = AdapterWireSequencer::new(ProcessIdDto(7));
    // The first (continued) frame completes nothing yet.
    let first = adapter_wire_frames(&mut sequencer, 2, LineInput::Stdout { completed: None });
    assert!(first.is_empty(), "a continued frame completes nothing yet");
    // The second completes "abcdef", carrying the summed count of both.
    let second = adapter_wire_frames(
        &mut sequencer,
        2,
        LineInput::Stdout {
            completed: Some(AssembledLine::Parsed {
                line: "abcdef".to_string(),
                events: vec![AdapterEvent::Message { text: "abcdef".to_string() }],
            }),
        },
    );
    assert_eq!(second.len(), 1);
    assert_eq!(summarize(&second[0]), (0, 2, "message"));
    match &second[0] {
        HarnessFrame::Event { event: AdapterEventDto::Message { text }, .. } => {
            assert_eq!(text, "abcdef")
        }
        other => panic!("expected the assembled message, got {other:?}"),
    }
}

#[test]
fn adapter_forwarder_emits_one_wire_frame_per_event_with_a_contiguous_seq() {
    let mut sequencer = AdapterWireSequencer::new(ProcessIdDto(7));
    let mut emitted = adapter_wire_frames(
        &mut sequencer,
        1,
        LineInput::Stdout {
            completed: Some(AssembledLine::Parsed { line: "two".to_string(), events: two_events() }),
        },
    );
    emitted.extend(adapter_wire_frames(
        &mut sequencer,
        3,
        LineInput::Stderr { text: "diagnostic: hello".to_string() },
    ));
    emitted.extend(adapter_wire_frames(
        &mut sequencer,
        0,
        LineInput::State { pending: None, state: exited(), run_end: Vec::new() },
    ));
    let summary: Vec<_> = emitted.iter().map(summarize).collect();
    assert_eq!(
        summary,
        vec![(0, 1, "message"), (1, 0, "tool-call"), (2, 3, "diagnostic"), (3, 0, "terminal")]
    );
}

#[test]
fn adapter_forwarder_flushes_a_pending_partial_line_before_the_state_frame() {
    let mut sequencer = AdapterWireSequencer::new(ProcessIdDto(7));
    let pending = adapter_wire_frames(&mut sequencer, 0, LineInput::Stdout { completed: None });
    assert!(pending.is_empty());
    let emitted = adapter_wire_frames(
        &mut sequencer,
        0,
        LineInput::State {
            pending: Some((AssembledLine::Truncated { raw: b"head".to_vec() }, 0)),
            state: exited(),
            run_end: Vec::new(),
        },
    );
    let summary: Vec<_> = emitted.iter().map(summarize).collect();
    assert_eq!(summary, vec![(0, 0, "unknown"), (1, 0, "terminal")]);
    match &emitted[0] {
        HarnessFrame::Event { event: AdapterEventDto::Unknown { raw, truncated }, .. } => {
            assert_eq!(raw, "head");
            assert!(truncated);
        }
        other => panic!("expected the flushed partial line, got {other:?}"),
    }
}

#[test]
fn a_flushed_partial_line_keeps_its_own_drop_count_and_the_state_frame_the_raw_one() {
    let mut sequencer = AdapterWireSequencer::new(ProcessIdDto(7));
    let emitted = adapter_wire_frames(
        &mut sequencer,
        2,
        LineInput::State {
            pending: Some((AssembledLine::Truncated { raw: b"par".to_vec() }, 3)),
            state: exited(),
            run_end: Vec::new(),
        },
    );
    let summary: Vec<_> = emitted.iter().map(summarize).collect();
    assert_eq!(summary, vec![(0, 3, "unknown"), (1, 2, "terminal")]);
}

#[test]
fn a_line_the_adapter_parses_to_nothing_is_kept_as_an_unknown_event() {
    let mut sequencer = AdapterWireSequencer::new(ProcessIdDto(7));
    let emitted = adapter_wire_frames(
        &mut sequencer,
        4,
        LineInput::Stdout {
            completed: Some(AssembledLine::Parsed { line: "odd line".to_string(), events: Vec::new() }),
        },
    );
    assert_eq!(emitted.iter().map(summarize).collect::<Vec<_>>(), vec![(0, 4, "unknown")]);
    match &emitted[0] {
        HarnessFrame::Event { event: AdapterEventDto::Unknown { raw, truncated }, .. } => {
            assert_eq!(raw, "odd line");
            assert!(!truncated);
        }
        other => panic!("expected the unknown event, got {other:?}"),
    }
}

fn text(t: &str) -> TerminalChunk {
    TerminalChunk::Text(t.to_string())
}

fn stdout_normalized(chunks: Vec<TerminalChunk>, drops: DropCounts) -> PtyInput {
    PtyInput::Normalized { chunks, drops, terminal: None }
}

fn no_drops() -> DropCounts {
    DropCounts { layout: 0, hyperlink: 0, clipboard: 0, file_transfer: 0, string: 0, unknown: 0, malformed: 0 }
}

fn terminal_texts(frames: &[HarnessFrame]) -> String {
    frames
        .iter()
        .filter_map(|frame| match frame {
            HarnessFrame::Event { event: AdapterEventDto::TerminalText { text }, .. } => {
                Some(text.as_str())
            }
            _ => None,
        })
        .collect()
}

fn kinds(frames: &[HarnessFrame]) -> Vec<&'static str> {
    frames.iter().map(|frame| summarize(frame).2).collect()
}

#[test]
fn pty_forwarder_emits_text_then_actions_then_at_most_one_drops_per_raw_frame() {
    let mut forwarder = PtyForwarder::new();
    let mut sequencer = AdapterWireSequencer::new(ProcessIdDto(7));

    let plain = pty_wire_frames(&mut forwarder, &mut sequencer, 0, stdout_normalized(vec![text("plain\n")], no_drops()));
    assert_eq!(kinds(&plain), vec!["terminal-text"]);
    assert_eq!(terminal_texts(&plain), "plain\n");

    // "a\x1b[1mb\x1b]0;t\x07c\x1b]8;;x\x07d": text around one title and
    // two dropped sequences (one layout, one hyperlink).
    let mixed = pty_wire_frames(
        &mut forwarder,
        &mut sequencer,
        0,
        stdout_normalized(
            vec![
                text("a"),
                text("b"),
                TerminalChunk::Action(TerminalAction::Title("t".to_string())),
                text("c"),
                text("d"),
                text("\n"),
            ],
            DropCounts { layout: 1, hyperlink: 1, ..no_drops() },
        ),
    );
    assert_eq!(
        kinds(&mixed),
        vec!["terminal-text", "terminal-action", "terminal-text", "terminal-drops"]
    );
    assert_eq!(terminal_texts(&mixed), "abcd\n");
    match mixed.last() {
        Some(HarnessFrame::Event { event: AdapterEventDto::TerminalDrops { layout, hyperlink, clipboard, .. }, .. }) => {
            assert_eq!((*layout, *hyperlink, *clipboard), (1, 1, 0));
        }
        other => panic!("expected the drops event, got {other:?}"),
    }
    let seqs: Vec<u64> = plain.iter().chain(mixed.iter()).map(|f| summarize(f).0).collect();
    assert_eq!(seqs, vec![0, 1, 2, 3, 4]);
}

#[test]
fn pty_forwarder_carries_dropped_before_onto_the_first_wire_frame_and_across_silent_frames() {
    let mut forwarder = PtyForwarder::new();
    let mut sequencer = AdapterWireSequencer::new(ProcessIdDto(7));
    let silent = pty_wire_frames(&mut forwarder, &mut sequencer, 3, stdout_normalized(Vec::new(), no_drops()));
    assert!(silent.is_empty(), "nothing completes yet, got {silent:?}");
    let completed = pty_wire_frames(
        &mut forwarder,
        &mut sequencer,
        4,
        stdout_normalized(
            vec![
                TerminalChunk::Action(TerminalAction::Title("pending title".to_string())),
                text("after\n"),
            ],
            no_drops(),
        ),
    );
    let summary: Vec<_> = completed.iter().map(summarize).collect();
    assert_eq!(summary, vec![(0, 7, "terminal-action"), (1, 0, "terminal-text")]);
}

#[test]
fn pty_forwarder_finishes_the_normalizer_before_the_state_frame() {
    let mut forwarder = PtyForwarder::new();
    let mut sequencer = AdapterWireSequencer::new(ProcessIdDto(7));
    let pending = pty_wire_frames(&mut forwarder, &mut sequencer, 0, stdout_normalized(vec![text("tail")], no_drops()));
    assert_eq!(kinds(&pending), vec!["terminal-text"]);
    assert_eq!(terminal_texts(&pending), "tail");
    let ended = pty_wire_frames(
        &mut forwarder,
        &mut sequencer,
        5,
        PtyInput::Normalized {
            chunks: Vec::new(),
            drops: DropCounts { malformed: 1, ..no_drops() },
            terminal: Some((exited(), Vec::new())),
        },
    );
    let summary: Vec<_> = ended.iter().map(summarize).collect();
    assert_eq!(summary, vec![(1, 5, "terminal-drops"), (2, 0, "terminal")]);
}

#[test]
fn pty_forwarder_maps_a_stderr_frame_to_a_diagnostic_event() {
    let mut forwarder = PtyForwarder::new();
    let mut sequencer = AdapterWireSequencer::new(ProcessIdDto(7));
    let emitted = pty_wire_frames(
        &mut forwarder,
        &mut sequencer,
        1,
        PtyInput::Stderr { text: "stdin write failed".to_string() },
    );
    assert_eq!(emitted.iter().map(summarize).collect::<Vec<_>>(), vec![(0, 1, "diagnostic")]);
}

#[test]
fn a_drop_count_on_a_silent_frame_reaches_the_state_frame() {
    let mut forwarder = PtyForwarder::new();
    let mut sequencer = AdapterWireSequencer::new(ProcessIdDto(3));
    assert!(pty_wire_frames(&mut forwarder, &mut sequencer, u64::MAX, stdout_normalized(Vec::new(), no_drops())).is_empty());
    let ended = pty_wire_frames(
        &mut forwarder,
        &mut sequencer,
        9,
        PtyInput::Normalized { chunks: Vec::new(), drops: no_drops(), terminal: Some((exited(), Vec::new())) },
    );
    assert_eq!(ended.iter().map(summarize).collect::<Vec<_>>(), vec![(0, u64::MAX, "terminal")]);
}

#[test]
fn prepare_error_maps_to_outbox_unavailable_with_a_slash_free_message() {
    for error in [
        PrepareError::Declaration(OutboxDeclarationError::IsLink),
        PrepareError::Declaration(OutboxDeclarationError::OutsideProject),
        PrepareError::OutboxMissing,
        PrepareError::OutboxUnopenable,
        PrepareError::AlreadyExists,
        PrepareError::CreateFailed,
        PrepareError::OpenFailed,
        PrepareError::Verification,
    ] {
        let mapped = ShellError::from(error);
        assert_eq!(mapped.code, ShellErrorCode::OutboxUnavailable, "{error:?}");
        assert!(!mapped.message.contains('/'), "{}", mapped.message);
        assert!(mapped.detail.is_none());
    }
}

#[test]
fn policy_error_maps_to_outbox_invalid() {
    for error in [
        PolicyError::Unreadable,
        PolicyError::Corrupt,
        PolicyError::Invalid,
        PolicyError::InvalidOutboxPath,
        PolicyError::TooLarge,
    ] {
        let mapped = ShellError::from(error);
        assert_eq!(mapped.code, ShellErrorCode::OutboxInvalid, "{error:?}");
        assert!(!mapped.message.contains('/'), "{}", mapped.message);
    }
}

#[test]
fn changed_since_approval_denial_carries_both_short_digests() {
    let recorded = Sha256Digest([1; 32]);
    let observed = Sha256Digest([2; 32]);
    let mapped = ShellError::from(DenialReason::ChangedSinceApproval { recorded, observed });
    assert_eq!(mapped.code, ShellErrorCode::ChangedSinceApproval);
    let detail = mapped.detail.expect("changed-since-approval must carry a structured detail");
    assert_eq!(
        detail,
        ShellErrorDetail::ChangedSinceApproval {
            recorded_sha256_short: recorded.short_hex(),
            observed_sha256_short: observed.short_hex(),
        }
    );
    assert_eq!(recorded.short_hex(), "01010101");
}

#[test]
fn a_probe_failure_denial_maps_as_the_probe_does() {
    let mapped = ShellError::from(DenialReason::ProbeFailed(ProbeOutcome::TooLarge));
    assert_eq!(mapped.code, ShellErrorCode::TooLarge);
    assert_eq!(mapped.message, "the executable exceeds the size limit");
    assert!(mapped.detail.is_none());
}

fn report(run_id: &str, dropped: u64, unmatched: Vec<ProposedEntry>, not_retained: Option<u64>) -> RunEndReport {
    RunEndReport {
        run_id: run_id.to_string(),
        recorded_entries: 64,
        dropped_entries: dropped,
        entry_cap: 64,
        unmatched_proposals: unmatched,
        summary: CandidateSummary {
            total: 0,
            candidate: 0,
            outbox_escape: 0,
            outbox_linked: 0,
            attributed: 0,
            unattributed: 0,
            unreadable: 0,
            unmatched_proposals: 1,
        },
        not_retained,
    }
}

#[test]
fn an_unmatched_proposal_is_surfaced_as_a_diagnostic_before_the_summary() {
    let ghost = Sha256Digest([0x77; 32]);
    let mut sequencer = AdapterWireSequencer::new(ProcessIdDto(8));
    let mut emitted = adapter_wire_frames(
        &mut sequencer,
        0,
        LineInput::Stdout {
            completed: Some(AssembledLine::Parsed {
                line: format!("publish:{}", ghost.to_hex()),
                events: vec![AdapterEvent::ArtifactPublish {
                    entries: vec![ProposedEntry { name: "report.pdf".to_string(), sha256: ghost }],
                }],
            }),
        },
    );
    let run_end = run_end_events(RunEnd::Inventoried(report(
        "run-unmatched",
        0,
        vec![ProposedEntry { name: "report.pdf".to_string(), sha256: ghost }],
        None,
    )));
    emitted.extend(adapter_wire_frames(&mut sequencer, 0, LineInput::State { pending: None, state: exited(), run_end }));
    let summary: Vec<_> = emitted.iter().map(summarize).collect();
    assert_eq!(
        summary,
        vec![(0, 0, "artifact-publish"), (1, 0, "diagnostic"), (2, 0, "candidates"), (3, 0, "terminal")]
    );
    match &emitted[1] {
        HarnessFrame::Event { event: AdapterEventDto::Diagnostic { text }, .. } => {
            assert!(text.contains("report.pdf"), "got {text}");
            assert!(text.contains(&ghost.short_hex()), "got {text}");
            assert!(!text.contains(&ghost.to_hex()), "only the short prefix, got {text}");
            assert_eq!(
                text,
                "artifact.publish names report.pdf by a digest not found in the run subdirectory (77777777)"
            );
        }
        other => panic!("expected the diagnostic, got {other:?}"),
    }
    match &emitted[2] {
        HarnessFrame::Event { event: AdapterEventDto::Candidates { total, unmatched_proposals, .. }, .. } => {
            assert_eq!((*total, *unmatched_proposals), (0, 1));
        }
        other => panic!("expected the candidates event, got {other:?}"),
    }
}

#[test]
fn a_sequencer_without_a_tracker_emits_only_the_state_frame() {
    let mut sequencer = AdapterWireSequencer::new(ProcessIdDto(9));
    let emitted = adapter_wire_frames(
        &mut sequencer,
        0,
        LineInput::State { pending: None, state: exited(), run_end: run_end_events(RunEnd::NoRecord) },
    );
    assert_eq!(emitted.iter().map(summarize).collect::<Vec<_>>(), vec![(0, 0, "terminal")]);
}

#[test]
fn proposal_entries_beyond_the_cap_are_counted_and_surfaced_as_one_diagnostic() {
    let events = run_end_events(RunEnd::Inventoried(report("run-proposals", 1, Vec::new(), None)));
    assert_eq!(events.len(), 2);
    match &events[0] {
        AdapterEventDto::Diagnostic { text } => {
            assert!(text.contains("1 "), "the dropped count is named, got {text}");
            assert!(text.contains("beyond"), "got {text}");
            assert_eq!(
                text,
                "artifact.publish named 1 entries beyond the 64 recorded for this run (the cap is 64 per run); they were not recorded and took no part in attribution"
            );
        }
        other => panic!("expected the cap diagnostic first, got {other:?}"),
    }
    assert!(matches!(events[1], AdapterEventDto::Candidates { .. }));
}

#[test]
fn the_state_frames_dropped_before_rides_on_the_first_run_end_frame() {
    let mut sequencer = AdapterWireSequencer::new(ProcessIdDto(26));
    let run_end = run_end_events(RunEnd::Inventoried(report("run-dropped", 0, Vec::new(), None)));
    let emitted = adapter_wire_frames(&mut sequencer, 5, LineInput::State { pending: None, state: exited(), run_end });
    assert_eq!(emitted.iter().map(summarize).collect::<Vec<_>>(), vec![(0, 5, "candidates"), (1, 0, "terminal")]);
}

#[test]
fn a_record_evicted_during_the_inventory_is_reported_not_silently_dropped() {
    let events = run_end_events(RunEnd::Inventoried(report("run-evicted", 0, Vec::new(), Some(3))));
    assert_eq!(events.len(), 2);
    match &events[1] {
        AdapterEventDto::Diagnostic { text } => {
            assert_eq!(
                text,
                "the record of run run-evicted was no longer remembered when its inventory completed; 3 candidates were not retained and their handles were released"
            );
        }
        other => panic!("expected the not-retained diagnostic last, got {other:?}"),
    }
}

#[test]
fn an_inventory_that_fails_is_one_fixed_diagnostic() {
    for run_end in [RunEnd::HandleUnavailable, RunEnd::InventoryFailed] {
        let events = run_end_events(run_end);
        assert_eq!(events, vec![inventory_failed_diagnostic()]);
    }
    assert_eq!(
        inventory_failed_diagnostic(),
        AdapterEventDto::Diagnostic { text: "the run subdirectory could not be inventoried".to_string() }
    );
}

fn listed(name: &str, state: CandidateState) -> ListedCandidate {
    ListedCandidate {
        entry: CandidateEntry {
            name: name.to_string(),
            size: 12,
            digest: Sha256Digest([5; 32]),
            detected_type: "pdf".to_string(),
            class: "generated-heavy".to_string(),
            attribution: Attribution::Unattributed,
        },
        state,
        handle_held: true,
    }
}

#[test]
fn candidates_for_run_refuses_invalid_unknown_and_unfinished_runs() {
    let invalid = candidates_for_run(RunLookup::InvalidRunId).unwrap_err();
    assert_eq!(invalid.code, ShellErrorCode::InvalidRequest);
    assert!(!invalid.message.contains('/'));
    let unknown = candidates_for_run(RunLookup::Unknown).unwrap_err();
    assert_eq!(unknown.code, ShellErrorCode::InvalidRequest);
    let unfinished = candidates_for_run(RunLookup::NotEnded).unwrap_err();
    assert_eq!(unfinished.code, ShellErrorCode::InvalidRequest);
    assert!(unfinished.message.contains("not ended"), "got {}", unfinished.message);

    let rows = candidates_for_run(RunLookup::Ended(vec![listed("run-listed/one.pdf", CandidateState::Candidate)]))
        .expect("a finished run lists");
    assert_eq!(rows.len(), 1);
    assert_eq!(rows[0].name, "run-listed/one.pdf");
    assert_eq!(rows[0].attribution, AttributionDto::Unattributed);
}

#[test]
fn whole_outbox_inventory_lists_root_and_run_entries_unattributed() {
    let rows = whole_outbox_rows(
        vec![listed("root.pdf", CandidateState::Candidate)],
        vec![Some(vec![listed("run-a/inner.pdf", CandidateState::Candidate)])],
    )
    .expect("listed");
    assert_eq!(rows.iter().map(|r| r.name.as_str()).collect::<Vec<_>>(), vec!["root.pdf", "run-a/inner.pdf"]);
    assert!(rows.iter().all(|r| r.attribution == AttributionDto::Unattributed));

    let failed = whole_outbox_rows(Vec::new(), vec![Some(Vec::new()), None]).unwrap_err();
    assert_eq!(failed.code, ShellErrorCode::OutboxUnavailable);
    assert_eq!(failed.message, "the outbox could not be listed");
}

#[test]
fn whole_outbox_inventory_of_a_missing_outbox_is_empty_and_a_corrupt_policy_is_invalid() {
    assert_eq!(outbox_open_outcome(Err(PrepareError::OutboxMissing)).unwrap(), false);
    assert_eq!(outbox_open_outcome(Ok(())).unwrap(), true);
    let declaration = outbox_open_outcome(Err(PrepareError::Declaration(OutboxDeclarationError::IsLink))).unwrap_err();
    assert_eq!(declaration.code, ShellErrorCode::OutboxInvalid);
    let corrupt = ShellError::from(PolicyError::Corrupt);
    assert_eq!(corrupt.code, ShellErrorCode::OutboxInvalid);
}

fn policy(asset_root: Option<&str>) -> OutboxPolicyFacts {
    OutboxPolicyFacts { outbox: "outbox".to_string(), asset_root_id: asset_root.map(str::to_string) }
}

#[test]
fn outbox_status_for_a_fresh_project_is_valid_and_not_yet_existing() {
    let status = outbox_status_for(
        ".omnifrons/asset-policy.json".to_string(),
        OutboxCheck::Checked { policy: policy(None), location: Ok(OutboxLocation::Missing) },
    );
    assert_eq!(status.state, OutboxStateTag::Valid);
    assert_eq!(status.declared.as_deref(), Some("outbox"));
    assert!(!status.exists);
    assert!(status.outbox.is_none());
    assert!(status.reason.is_none());
}

#[test]
fn outbox_status_for_an_existing_outbox_shows_its_canonical_path() {
    let status = outbox_status_for(
        "policy".to_string(),
        OutboxCheck::Checked { policy: policy(Some("main")), location: Ok(OutboxLocation::Present("/p/outbox".to_string())) },
    );
    assert_eq!(status.state, OutboxStateTag::Valid);
    assert!(status.exists);
    assert_eq!(status.outbox.as_deref(), Some("/p/outbox"));
    assert_eq!(status.asset_root_id.as_deref(), Some("main"));
}

#[test]
fn outbox_status_for_a_corrupt_policy_names_the_reason_and_declares_nothing() {
    let status = outbox_status_for("policy".to_string(), OutboxCheck::PolicyFailed(PolicyError::Corrupt));
    assert_eq!(status.state, OutboxStateTag::OutboxInvalid);
    assert_eq!(status.reason, Some(OutboxReasonTag::PolicyCorrupt));
    assert!(status.declared.is_none());
    assert!(status.outbox.is_none());
    assert!(status.asset_root_id.is_none());
}

#[test]
fn outbox_status_for_a_linked_outbox_is_invalid_with_no_device_path() {
    let status = outbox_status_for(
        "policy".to_string(),
        OutboxCheck::Checked { policy: policy(None), location: Err(OutboxDeclarationError::IsLink) },
    );
    assert_eq!(status.state, OutboxStateTag::OutboxInvalid);
    assert_eq!(status.reason, Some(OutboxReasonTag::Link));
    assert!(status.outbox.is_none());
    assert!(status.exists);
    let unreadable = outbox_status_for(
        "policy".to_string(),
        OutboxCheck::Checked { policy: policy(None), location: Err(OutboxDeclarationError::Unreadable) },
    );
    assert_eq!(unreadable.state, OutboxStateTag::OutboxUnavailable);
}

#[test]
fn outbox_status_for_an_oversized_policy_is_invalid_with_a_fixed_reason() {
    let status = outbox_status_for("policy".to_string(), OutboxCheck::PolicyFailed(PolicyError::TooLarge));
    assert_eq!(status.reason, Some(OutboxReasonTag::PolicyInvalid));
    assert!(status.declared.is_none());
}

#[test]
fn picking_a_different_workspace_forgets_the_previous_workspaces_runs() {
    let mut active = None;
    let (dto, forget) = activate_workspace(&mut active, "/work/a".to_string(), WorkAreaStateTag::Valid);
    assert_eq!(dto.display_path, "/work/a");
    assert!(forget, "nothing was active before");
    let (_, forget) = activate_workspace(&mut active, "/work/b".to_string(), WorkAreaStateTag::Valid);
    assert!(forget, "the previous workspace's runs are forgotten");
    assert_eq!(active.as_deref(), Some("/work/b"));
}

#[test]
fn re_picking_the_active_workspace_keeps_its_runs() {
    let mut active = Some("/work/a".to_string());
    let (_, forget) = activate_workspace(&mut active, "/work/a".to_string(), WorkAreaStateTag::Valid);
    assert!(!forget, "a re-pick keeps the runs");
}

#[test]
fn activating_a_workspace_over_the_work_area_reports_work_area_invalid() {
    let mut active = None;
    let (dto, _) = activate_workspace(&mut active, "/work/a".to_string(), work_area_state(Err(WorkAreaError::InsideWorkspace)));
    assert_eq!(dto.work_area, WorkAreaStateTag::WorkAreaInvalid);
    let (dto, _) = activate_workspace(&mut active, "/work/a".to_string(), work_area_state(Ok(())));
    assert_eq!(dto.work_area, WorkAreaStateTag::Valid);
}

#[test]
fn no_active_workspace_is_workspace_unavailable() {
    let error = active_workspace(&None).unwrap_err();
    assert_eq!(error.code, ShellErrorCode::WorkspaceUnavailable);
    assert_eq!(active_workspace(&Some("/w".to_string())).unwrap(), "/w");
}

#[test]
fn an_adapter_launch_runs_its_steps_in_order_and_cleans_up_only_after_preparing() {
    let mut step = AdapterLaunchStep::ParseAdapter;
    let mut count = 0;
    loop {
        match adapter_launch_next(step, Ok(())) {
            LaunchAction::Run(next) => {
                step = next;
                count += 1;
            }
            LaunchAction::Launched => break,
            LaunchAction::Refuse { .. } => panic!("no step failed"),
        }
    }
    assert_eq!(count, 9);
    match adapter_launch_next(AdapterLaunchStep::Spawn, Err(LaunchFailure::Supervisor(SupervisorError::Spawn))) {
        LaunchAction::Refuse { error, remove_subdirectory } => {
            assert_eq!(error.code, ShellErrorCode::SpawnFailed);
            assert!(remove_subdirectory);
        }
        _ => panic!("a failed spawn refuses"),
    }
    match adapter_launch_next(AdapterLaunchStep::ParseAdapter, Err(LaunchFailure::UnknownAdapter)) {
        LaunchAction::Refuse { error, remove_subdirectory } => {
            assert_eq!(error.code, ShellErrorCode::UnknownAdapter);
            assert_eq!(error.message, "the requested adapter is not recognized");
            assert!(!remove_subdirectory);
        }
        _ => panic!("an unknown adapter refuses"),
    }
    match adapter_launch_next(AdapterLaunchStep::LoadPolicy, Err(LaunchFailure::PolicyUnloadable)) {
        LaunchAction::Refuse { error, .. } => assert_eq!(error.code, ShellErrorCode::OutboxUnavailable),
        _ => panic!("an unloadable policy refuses"),
    }
}

#[test]
fn a_probed_executable_is_remembered_and_a_failed_probe_is_its_catalogue_error() {
    let mut table = CandidateTable::new();
    let result = pick_and_probe(&mut table, PickedExecutable::Probed(Ok(identity(4)))).expect("probed");
    assert_eq!(result.candidate_id, CandidateIdDto(1));
    assert_eq!(result.evidence.sha256_short, "04040404");
    assert!(find_candidate(&table, CandidateIdDto(1)).is_ok());
    let error = pick_and_probe(&mut table, PickedExecutable::Probed(Err(ProbeOutcome::NotExecutable))).unwrap_err();
    assert_eq!(error.code, ShellErrorCode::NotExecutable);
    let error = pick_and_probe(&mut table, PickedExecutable::NothingSelected).unwrap_err();
    assert_eq!(error.code, ShellErrorCode::NoCandidate);
    assert_eq!(error.message, "no file was selected");
}

#[test]
fn a_launch_refused_for_changed_content_carries_both_short_digests() {
    let recorded = Sha256Digest([0xab; 32]);
    let observed = Sha256Digest([0xcd; 32]);
    match adapter_launch_next(
        AdapterLaunchStep::DecideGate,
        Err(LaunchFailure::Denied(DenialReason::ChangedSinceApproval { recorded, observed })),
    ) {
        LaunchAction::Refuse { error, remove_subdirectory } => {
            assert_eq!(error.code, ShellErrorCode::ChangedSinceApproval);
            assert_eq!(
                error.detail,
                Some(ShellErrorDetail::ChangedSinceApproval {
                    recorded_sha256_short: "abababab".to_string(),
                    observed_sha256_short: "cdcdcdcd".to_string(),
                })
            );
            assert!(!remove_subdirectory);
        }
        _ => panic!("expected a refusal"),
    }
}
