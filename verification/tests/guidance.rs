use omnifrons_shell::domain::{EpochOffset, Id64, ManagedFileKind, Sha256Digest, SnapshotManifest};
use omnifrons_shell::failures::{GuidanceError, ProjectTextFileError, SnapshotStoreError};
use omnifrons_shell::ipc::dto::{GuidanceActionTag, GuidanceAppliedDto, ManagedFileKindDto, ShellError, ShellErrorCode};
use omnifrons_shell::ipc::guidance::{parse_expected, parse_snapshot_id, pinned_snapshot, GuidanceRequest};

#[test]
fn guidance_errors_map_to_their_codes_with_slash_free_messages() {
    let cases = [
        (GuidanceError::WorkAreaInvalid, ShellErrorCode::WorkAreaInvalid),
        (GuidanceError::FileInvalid(ProjectTextFileError::NotAFile), ShellErrorCode::GuidanceFileInvalid),
        (GuidanceError::FileInvalid(ProjectTextFileError::TooLarge), ShellErrorCode::GuidanceFileInvalid),
        (GuidanceError::FileInvalid(ProjectTextFileError::NotUtf8), ShellErrorCode::GuidanceFileInvalid),
        (GuidanceError::FileInvalid(ProjectTextFileError::Unreadable), ShellErrorCode::GuidanceFileInvalid),
        (GuidanceError::FileInvalid(ProjectTextFileError::WriteFailed), ShellErrorCode::GuidanceFileInvalid),
        (GuidanceError::FileChanged, ShellErrorCode::GuidanceFileChanged),
        (GuidanceError::BlockModified, ShellErrorCode::GuidanceBlockModified),
        (GuidanceError::BlockMalformed, ShellErrorCode::GuidanceBlockMalformed),
        (GuidanceError::Unmanaged, ShellErrorCode::GuidanceUnmanaged),
        (GuidanceError::Snapshot(SnapshotStoreError::Unknown), ShellErrorCode::GuidanceUnmanaged),
        (GuidanceError::Snapshot(SnapshotStoreError::Corrupt), ShellErrorCode::SnapshotUnavailable),
        (GuidanceError::Snapshot(SnapshotStoreError::Unreadable), ShellErrorCode::SnapshotUnavailable),
        (GuidanceError::Snapshot(SnapshotStoreError::WriteFailed), ShellErrorCode::SnapshotUnavailable),
        (GuidanceError::VerifyFailed, ShellErrorCode::GuidanceFileInvalid),
    ];
    for (error, code) in cases {
        let mapped = ShellError::from(error);
        assert_eq!(mapped.code, code, "{error:?}");
        assert!(!mapped.message.contains('/'), "{}", mapped.message);
        assert!(mapped.detail.is_none());
    }
}

#[test]
fn a_file_that_changed_under_the_store_reads_as_a_stale_binding() {
    assert_eq!(
        ShellError::from(GuidanceError::FileInvalid(ProjectTextFileError::Changed)),
        ShellError::from(GuidanceError::FileChanged)
    );
}

#[test]
fn apply_refuses_a_malformed_file_digest() {
    assert!(parse_expected(None).unwrap().is_none());
    let digest = Sha256Digest([0x3c; 32]);
    assert!(parse_expected(Some(&digest.to_hex())).unwrap().expect("bound").same_as(&digest));
    let error = parse_expected(Some("zz")).unwrap_err();
    assert_eq!(error.code, ShellErrorCode::InvalidRequest);
    assert_eq!(error.message, "the file digest is not 64 hex characters");
    let error = parse_snapshot_id("123").unwrap_err();
    assert_eq!(error.message, "the snapshot id is not 16 hex characters");
    assert!(parse_snapshot_id("00000000000000ff").is_ok());
}

#[test]
fn the_guidance_kind_defaults_to_agents_md_and_the_ignore_kind_names_no_file() {
    assert_eq!(GuidanceRequest { kind: ManagedFileKind::Guidance, file: None }.guidance_file().as_deref(), Some("AGENTS.md"));
    assert_eq!(
        GuidanceRequest { kind: ManagedFileKind::Guidance, file: Some("NOTES.md".to_string()) }.guidance_file().as_deref(),
        Some("NOTES.md")
    );
    assert!(GuidanceRequest { kind: ManagedFileKind::Ignore, file: Some("x".to_string()) }.guidance_file().is_none());
}

#[test]
fn a_write_reports_its_snapshot_and_result_digest() {
    let dto = GuidanceAppliedDto::of(
        ManagedFileKind::Guidance,
        "AGENTS.md".to_string(),
        GuidanceActionTag::Insert,
        Some(Id64([0xff; 8])),
        Some(Sha256Digest([0x12; 32])),
    );
    assert_eq!(dto.kind, ManagedFileKindDto::Guidance);
    assert_eq!(dto.snapshot_id.as_deref(), Some("ffffffffffffffff"));
    assert_eq!(dto.result_sha256_short.as_deref(), Some("12121212"));
    let removed = GuidanceAppliedDto::of(ManagedFileKind::Ignore, ".gitignore".to_string(), GuidanceActionTag::Remove, Some(Id64([1; 8])), None);
    assert!(removed.result_sha256_short.is_none());
}

#[test]
fn pinning_an_unknown_snapshot_is_guidance_unmanaged() {
    let manifest = SnapshotManifest {
        id: Id64([2; 8]),
        kind: ManagedFileKind::Guidance,
        file: "AGENTS.md".to_string(),
        existed: true,
        sha256: Sha256Digest([9; 32]),
        size: 40,
        taken_at: EpochOffset::AfterEpoch { millis: 5 },
        pinned: true,
    };
    let found = pinned_snapshot(&vec![manifest], &Id64([2; 8])).expect("known");
    assert_eq!(found.id, "0202020202020202");
    assert!(found.pinned);
    assert_eq!(found.taken_at, 5);
    let error = pinned_snapshot(&vec![], &Id64([3; 8])).unwrap_err();
    assert_eq!(error.code, ShellErrorCode::GuidanceUnmanaged);
    assert_eq!(error.message, "no snapshot with that id is recorded for this project");
}
