use omnifrons_shell::domain::Sha256Digest;
use omnifrons_shell::failures::{CatalogRepairError, CatalogStoreError};
use omnifrons_shell::ipc::catalog_repair::repair_digest;
use omnifrons_shell::ipc::dto::{CatalogRepairedDto, ShellError, ShellErrorCode};

#[test]
fn a_corrupt_catalog_is_distinct_from_an_unavailable_one() {
    assert_eq!(ShellError::from(CatalogStoreError::Corrupt).code, ShellErrorCode::CatalogCorrupt);
    assert_eq!(ShellError::from(CatalogStoreError::Unreadable).code, ShellErrorCode::CatalogUnavailable);
    assert_eq!(ShellError::from(CatalogStoreError::WriteFailed).code, ShellErrorCode::CatalogUnavailable);
}

#[test]
fn every_catalog_repair_error_maps_to_its_code_with_a_slash_free_message() {
    for (error, code, message) in [
        (CatalogRepairError::Absent, ShellErrorCode::CatalogUnavailable, "the project has no catalog to repair"),
        (CatalogRepairError::Unreadable, ShellErrorCode::CatalogUnavailable, "the catalog could not be read"),
        (CatalogRepairError::WriteFailed, ShellErrorCode::CatalogUnavailable, "the catalog could not be written"),
        (CatalogRepairError::Changed, ShellErrorCode::CatalogChanged, "the catalog changed since it was previewed; preview it again"),
        (
            CatalogRepairError::Refused,
            ShellErrorCode::RepairRefused,
            "a line of the catalog registers an artifact and needs an owner decision, not a repair",
        ),
        (CatalogRepairError::NothingToRepair, ShellErrorCode::RepairRefused, "the catalog needs no repair"),
        (CatalogRepairError::Unrepairable, ShellErrorCode::RepairRefused, "these rules would not yield a readable catalog"),
        (
            CatalogRepairError::CopyFailed,
            ShellErrorCode::WorkAreaInvalid,
            "the pre-repair copy could not be written to the product work area",
        ),
    ] {
        let rendered = ShellError::from(error);
        assert_eq!(rendered.code, code, "{error:?}");
        assert_eq!(rendered.message, message, "{error:?}");
        assert!(!rendered.message.contains('/'), "{}", rendered.message);
        assert!(rendered.detail.is_none(), "{error:?}");
    }
}

#[test]
fn a_repair_is_refused_while_a_run_is_active() {
    assert_eq!(repair_digest(true, &"00".repeat(32)).unwrap_err().code, ShellErrorCode::RunActive);
    assert_eq!(repair_digest(false, "0").unwrap_err().code, ShellErrorCode::InvalidRequest);
    assert!(repair_digest(false, &"00".repeat(32)).unwrap().same_as(&Sha256Digest([0; 32])));
}

#[test]
fn a_repair_reports_its_digests_and_saturated_counts() {
    let dto = CatalogRepairedDto::of(&Sha256Digest([1; 32]), &Sha256Digest([2; 32]), 3, u64::MAX);
    assert_eq!(dto.original_sha256, "01".repeat(32));
    assert_eq!(dto.sha256, "02".repeat(32));
    assert_eq!(dto.dropped_lines, 3);
    assert_eq!(dto.kept_records, u32::MAX);
}
