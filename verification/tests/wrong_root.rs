use omnifrons_shell::domain::{
    AdapterDescriptor, MisplacedFinding, PromptChannel, ScopeMode, Sha256Digest, TransportClass, Remedy,
};
use omnifrons_shell::failures::{CopyInError, IgnoreLedgerError, OpenMisplacedError, QuarantineError, ScanError};
use omnifrons_shell::ipc::dto::{OutputDisciplineTag, RemedyOutcomeTag, RemedyTag, ScopeModeDto, ShellError, ShellErrorCode};
use omnifrons_shell::ipc::wrong_root::{
    copied_payload, display_name_of, ignored_payload, misplaced_list_for, quarantine_detail,
    quarantined_payload, remedy_digest, remedy_of, reported_scope_mode, scan_summary,
    unknown_finding, wrong_root_status_for, FallbackReason, QuarantineMove, ScanCounts,
};

fn descriptor(mode: ScopeMode) -> AdapterDescriptor {
    AdapterDescriptor {
        id: "stream-json-cli".to_string(),
        display_name: "fixture".to_string(),
        transport_class: TransportClass::StructuredStreamingCli,
        prompt_channel: PromptChannel::StdinThenClose,
        scope_mode: mode,
        notes: String::new(),
    }
}

fn finding(name: &str) -> MisplacedFinding {
    MisplacedFinding {
        name: name.to_string(),
        size: 4,
        digest: Sha256Digest([0x44; 32]),
        detected_type: "pdf".to_string(),
        class: "generated-heavy".to_string(),
        reason: "outside-outbox".to_string(),
    }
}

#[test]
fn the_enforced_branch_runs_through_the_real_scope_mode_derivation() {
    let sandboxed = vec![descriptor(ScopeMode::SandboxEnforced)];
    assert_eq!(reported_scope_mode(&sandboxed), ScopeMode::SandboxEnforced);
    let status = wrong_root_status_for(&sandboxed, false, 0);
    assert_eq!(status.output_discipline, OutputDisciplineTag::Enforced);
    assert_eq!(status.scope_mode, ScopeModeDto::SandboxEnforced);
    assert_eq!(
        status.disclosures,
        vec!["a write inside the project but outside the outbox is detected after the run, never prevented".to_string()]
    );
    let mixed = vec![descriptor(ScopeMode::SandboxEnforced), descriptor(ScopeMode::Advisory)];
    assert_eq!(reported_scope_mode(&mixed), ScopeMode::Advisory);
    assert_eq!(wrong_root_status_for(&mixed, false, 0).output_discipline, OutputDisciplineTag::Advisory);
    let harness_only = vec![descriptor(ScopeMode::HarnessEnforced)];
    assert_eq!(reported_scope_mode(&harness_only), ScopeMode::HarnessEnforced);
    assert_eq!(wrong_root_status_for(&harness_only, false, 0).output_discipline, OutputDisciplineTag::Advisory);
}

#[test]
fn the_status_reports_the_discipline_its_disclosures_and_whether_a_scan_has_run() {
    let advisory = vec![descriptor(ScopeMode::Advisory), descriptor(ScopeMode::Advisory)];
    let status = wrong_root_status_for(&advisory, false, 0);
    assert_eq!(status.disclosures.len(), 2);
    assert!(!status.scanned);
    assert_eq!(status.findings, 0);
    let after = wrong_root_status_for(&advisory, true, 1);
    assert!(after.scanned);
    assert_eq!(after.findings, 1);
    assert_eq!(reported_scope_mode(&vec![]), ScopeMode::Advisory);
}

#[test]
fn every_quarantine_detail_token_the_wire_fixes_is_pinned() {
    let cases = [
        (QuarantineMove::Renamed, false, "renamed"),
        (QuarantineMove::RenamedUnverified, false, "renamed-unverified"),
        (QuarantineMove::CopiedAndUnlinked { fallback: FallbackReason::DifferentVolume }, false, "different-volume"),
        (QuarantineMove::CopiedAndUnlinked { fallback: FallbackReason::Unsupported }, false, "rename-unsupported"),
        (QuarantineMove::CopiedAndUnlinked { fallback: FallbackReason::Failed }, false, "rename-failed"),
        (
            QuarantineMove::CopiedOriginalKept { fallback: FallbackReason::DifferentVolume, reason: "unlink-failed".to_string() },
            true,
            "unlink-failed",
        ),
        (
            QuarantineMove::CopiedOriginalKept { fallback: FallbackReason::DifferentVolume, reason: "original-already-gone".to_string() },
            true,
            "original-already-gone",
        ),
        (
            QuarantineMove::CopiedOriginalKept {
                fallback: FallbackReason::DifferentVolume,
                reason: "original-changed-during-the-move".to_string(),
            },
            true,
            "original-changed-during-the-move",
        ),
        (
            QuarantineMove::CopiedOriginalKept { fallback: FallbackReason::Unsupported, reason: "identity-check-unavailable".to_string() },
            true,
            "identity-check-unavailable",
        ),
    ];
    for (outcome, original_kept, token) in cases {
        assert_eq!(quarantine_detail(&outcome), (original_kept, token.to_string()), "{outcome:?}");
    }
}

#[test]
fn the_quarantine_remedy_reports_its_detail_token() {
    let dto = quarantined_payload("report.pdf".to_string(), &Sha256Digest([0x44; 32]), &QuarantineMove::Renamed);
    assert_eq!(dto.remedy, RemedyTag::Quarantine);
    assert_eq!(dto.outcome, RemedyOutcomeTag::Quarantined);
    assert_eq!(dto.original_kept, Some(false));
    assert_eq!(dto.detail.as_deref(), Some("renamed"));
    assert_eq!(dto.sha256.as_deref(), Some("44".repeat(32).as_str()));
}

#[test]
fn the_publish_remedy_leaves_an_unattributed_candidate_and_approves_nothing() {
    let dto = copied_payload("report.pdf".to_string(), &Sha256Digest([0x44; 32]));
    assert_eq!(dto.outcome, RemedyOutcomeTag::CopiedToOutbox);
    assert_eq!(dto.original_kept, Some(true));
    assert!(dto.detail.is_none());
    let ignored = ignored_payload(&Sha256Digest([0x44; 32]));
    assert_eq!(ignored.outcome, RemedyOutcomeTag::Ignored);
    assert!(ignored.name.is_none());
    assert_eq!(remedy_of(RemedyTag::Publish), Remedy::Publish);
}

#[test]
fn a_remedy_for_a_finding_this_scan_never_reported_is_refused() {
    let error = unknown_finding();
    assert_eq!(error.code, ShellErrorCode::MisplacedUnknown);
    assert!(!error.message.contains('/'));
    let malformed = remedy_digest(false, "nope").unwrap_err();
    assert_eq!(malformed.code, ShellErrorCode::InvalidRequest);
}

#[test]
fn a_remedy_is_refused_while_a_run_is_active() {
    let error = remedy_digest(true, &"44".repeat(32)).unwrap_err();
    assert_eq!(error.code, ShellErrorCode::RunActive);
}

#[test]
fn a_scan_lists_the_misplaced_file_by_a_relative_name_and_never_a_path() {
    let rows = misplaced_list_for(&vec![finding("docs/report.pdf")]);
    assert_eq!(rows.len(), 1);
    assert_eq!(rows[0].name, "docs/report.pdf");
    assert_eq!(rows[0].remedies, vec!["quarantine", "publish", "ignore"]);
    let summary = scan_summary(ScanCounts { scanned: 10, excluded: 2, unreadable: 0, truncated: false }, 1, 0);
    assert_eq!((summary.scanned, summary.findings, summary.excluded), (10, 1, 2));
}

#[test]
fn a_remedy_acts_on_the_last_component_of_the_name() {
    assert_eq!(display_name_of(&finding("docs/sub/report.pdf")), "report.pdf");
    assert_eq!(display_name_of(&finding("report.pdf")), "report.pdf");
    assert_eq!(display_name_of(&finding("dir/")), "");
}

#[test]
fn wrong_root_failures_map_to_their_codes_with_slash_free_messages() {
    let cases = [
        ShellError::from(ScanError::Unreadable),
        ShellError::from(IgnoreLedgerError::Corrupt),
        ShellError::from(QuarantineError::DestinationLinked),
        ShellError::from(QuarantineError::DigestChanged),
        ShellError::from(CopyInError::Linked),
        ShellError::from(OpenMisplacedError::NotFound),
    ];
    let codes: Vec<_> = cases.iter().map(|e| e.code).collect();
    assert_eq!(
        codes,
        vec![
            ShellErrorCode::ScanFailed,
            ShellErrorCode::WorkAreaInvalid,
            ShellErrorCode::QuarantineUnavailable,
            ShellErrorCode::Refused,
            ShellErrorCode::OutboxLinked,
            ShellErrorCode::MisplacedUnknown,
        ]
    );
    assert!(cases.iter().all(|e| !e.message.contains('/')));
}
