use omnifrons_shell::domain::{ApprovalSource, Attribution, Id64, CandidateProbe, EpochOffset, JournalEntry, JournalStep, Sha256Digest, StepOutcome};
use omnifrons_shell::ipc::dto::{ArtifactApprovalDto, AttributionDto, ShellErrorCode};
use omnifrons_shell::ipc::publication::RegularFacts;
use omnifrons_shell::ipc::recovery::{
    approvable_recovery_class, journaled_recovery, recovered_display_name, recovery_digest,
    recovery_approval, recovery_provenance, recovery_row, verified_recovery_entry, RecoveryProvenance,
};

fn escape(publication: u8, recovery: u8, at: u128) -> JournalEntry {
    JournalEntry::Step {
        publication_id: Sha256Digest([publication; 32]),
        step: JournalStep::OutboxEscape,
        outcome: StepOutcome::Failed,
        recovery: Some(Sha256Digest([recovery; 32])),
        at: EpochOffset::AfterEpoch { millis: at },
    }
}

#[test]
fn the_listing_reads_each_entrys_provenance_from_the_journal() {
    let entries = vec![
        escape(1, 0xa0, 10),
        JournalEntry::Approved { publication_id: Sha256Digest([2; 32]), display_name: "x".to_string() },
        escape(2, 0xb0, 20),
        escape(3, 0xa0, 30),
    ];
    let found = journaled_recovery(&entries);
    assert_eq!(found.len(), 2, "one entry per digest");
    assert_eq!(found[0].0 .0, [0xa0; 32]);
    assert_eq!(found[0].1.recovered_from.0, [1; 32], "the earliest escape is reported");
    assert_eq!(found[1].0 .0, [0xb0; 32]);
    let provenance = recovery_provenance(&found, &Sha256Digest([0xb0; 32])).expect("journaled");
    assert_eq!(provenance.recovered_from.0, [2; 32]);
}

#[test]
fn a_digest_the_journal_never_recorded_is_recovery_unknown() {
    let found = journaled_recovery(&vec![escape(1, 0xa0, 10)]);
    let error = recovery_provenance(&found, &Sha256Digest([0xcc; 32])).unwrap_err();
    assert_eq!(error.code, ShellErrorCode::RecoveryUnknown);
    assert_eq!(error.message, "no recovery entry with that digest is recorded for this device");
}

#[test]
fn the_display_name_is_the_escaped_publications_when_the_journal_has_its_approval() {
    let entries = vec![
        JournalEntry::Approved { publication_id: Sha256Digest([1; 32]), display_name: "report.pdf".to_string() },
        JournalEntry::Approved { publication_id: Sha256Digest([1; 32]), display_name: "later.pdf".to_string() },
    ];
    assert_eq!(recovered_display_name(&entries, &Sha256Digest([1; 32]), "fallback".to_string()), "report.pdf");
}

#[test]
fn the_display_name_falls_back_to_the_digest_when_the_journal_has_no_approval() {
    let digest = Sha256Digest([0xa0; 32]);
    let name = recovered_display_name(&vec![], &Sha256Digest([1; 32]), digest.to_hex());
    assert_eq!(name, digest.to_hex());
}

#[test]
fn a_digest_that_is_not_64_hex_characters_is_invalid_request() {
    let error = recovery_digest(false, "abc").unwrap_err();
    assert_eq!(error.code, ShellErrorCode::InvalidRequest);
    assert_eq!(error.message, "the recovery entry's digest is not 64 hex characters");
    assert_eq!(recovery_digest(true, "abc").unwrap_err().code, ShellErrorCode::RunActive);
}

#[test]
fn bytes_that_are_not_the_name_they_are_filed_under_are_refused() {
    let named = Sha256Digest([0xa0; 32]);
    let other = CandidateProbe::Regular { digest: Sha256Digest([0xa1; 32]), size: 3, detected_type: "pdf".to_string() };
    assert_eq!(verified_recovery_entry(other, &named).err().expect("refused").code, ShellErrorCode::IntegrityMismatch);
    assert_eq!(verified_recovery_entry(CandidateProbe::Escape, &named).err().expect("refused").code, ShellErrorCode::Refused);
    assert_eq!(verified_recovery_entry(CandidateProbe::Linked, &named).err().expect("refused").code, ShellErrorCode::Refused);
    assert_eq!(verified_recovery_entry(CandidateProbe::Unreadable, &named).err().expect("refused").code, ShellErrorCode::RecoveryUnknown);
    let same = CandidateProbe::Regular { digest: named, size: 3, detected_type: "pdf".to_string() };
    assert_eq!(verified_recovery_entry(same, &named).ok().expect("verified").size, 3);
}

#[test]
fn an_entry_whose_bytes_are_not_its_name_is_listed_as_unusable() {
    let named = Sha256Digest([0xa0; 32]);
    let provenance = RecoveryProvenance { recovered_from: Sha256Digest([1; 32]), recovered_at: EpochOffset::AfterEpoch { millis: 9 } };
    let probe = CandidateProbe::Regular { digest: Sha256Digest([0xa1; 32]), size: 3, detected_type: "pdf".to_string() };
    let row = recovery_row(&named, provenance, "x.pdf".to_string(), &probe, "generated-heavy".to_string());
    assert_eq!(row.class.as_deref(), Some("generated-heavy"));
    assert!(!row.usable);
    assert_eq!(row.size, Some(3));
    assert_eq!(row.recovered_at, 9);
    assert_eq!(row.sha256, named.to_hex());
}

#[test]
fn an_entry_that_yielded_no_facts_carries_no_class() {
    let named = Sha256Digest([0xa0; 32]);
    let provenance = RecoveryProvenance { recovered_from: Sha256Digest([1; 32]), recovered_at: EpochOffset::BeforeEpoch };
    let row = recovery_row(&named, provenance, "x".to_string(), &CandidateProbe::Unreadable, "ignored".to_string());
    assert!(row.class.is_none() && row.size.is_none() && !row.usable);
}

#[test]
fn a_recovered_display_name_that_classifies_as_executable_is_refused() {
    let error = approvable_recovery_class(&"executable".to_string()).unwrap_err();
    assert_eq!(error.code, ShellErrorCode::Refused);
    assert_eq!(error.message, "only a generated-heavy recovery entry can be approved for publication");
    assert!(approvable_recovery_class(&"generated-heavy".to_string()).is_ok());
}

#[test]
fn a_recovery_approval_names_no_run_and_reports_the_publication_it_was_recovered_from() {
    let named = Sha256Digest([0x42; 32]);
    let escaped_from = Sha256Digest([0x99; 32]);
    let approval = recovery_approval(
        Id64([1, 2, 3, 4, 5, 6, 7, 8]),
        Sha256Digest([0x77; 32]),
        &named,
        "report.pdf".to_string(),
        RegularFacts { digest: named, size: 5, detected_type: "pdf".to_string() },
        "generated-heavy".to_string(),
        "main".to_string(),
        EpochOffset::AfterEpoch { millis: 10 },
        RecoveryProvenance { recovered_from: escaped_from, recovered_at: EpochOffset::AfterEpoch { millis: 9 } },
    );
    assert_eq!(approval.run_id, None);
    assert_eq!(approval.name, named.to_hex());
    assert!(matches!(approval.attribution, Attribution::Unattributed));
    assert!(matches!(approval.source, ApprovalSource::Recovery { recovered_from } if recovered_from.0 == [0x99; 32]));
    let dto = ArtifactApprovalDto::from_approval(&approval, true);
    assert_eq!(dto.run_id, None);
    assert_eq!(dto.recovered_from.as_deref(), Some(escaped_from.to_hex().as_str()));
    assert_eq!(dto.publication_id, "77".repeat(32));
    assert_eq!(dto.attribution, AttributionDto::Unattributed);
    assert!(dto.handle_held);
}
