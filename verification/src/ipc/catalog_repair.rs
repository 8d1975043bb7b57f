//! The Catalog repair command's decisions: preview, digest binding,
//! explicit apply. A repair is refused while a run is active, bound to the
//! bytes its preview was taken from, and reported as counts and digests.

use vstd::prelude::*;

use crate::domain::Sha256Digest;
use crate::failures::CatalogRepairError;
use crate::hex::{bytes_of_hex, hex_of, is_hex_of_width};
use crate::ipc::dto::{
    names_no_path,
    count_u32, fails_with, is_catalogue_error, saturating_u32, CatalogRepairedDto, ShellError,
    ShellErrorCode,
};
use crate::ipc::publication::run_active;

verus! {

/// The code a [`CatalogRepairError`] is reported under.
pub open spec fn repair_error_code(error: CatalogRepairError) -> ShellErrorCode {
    match error {
        CatalogRepairError::Absent => ShellErrorCode::CatalogUnavailable,
        CatalogRepairError::Unreadable => ShellErrorCode::CatalogUnavailable,
        CatalogRepairError::WriteFailed => ShellErrorCode::CatalogUnavailable,
        CatalogRepairError::Changed => ShellErrorCode::CatalogChanged,
        CatalogRepairError::Refused => ShellErrorCode::RepairRefused,
        CatalogRepairError::NothingToRepair => ShellErrorCode::RepairRefused,
        CatalogRepairError::Unrepairable => ShellErrorCode::RepairRefused,
        CatalogRepairError::CopyFailed => ShellErrorCode::WorkAreaInvalid,
    }
}

/// The catalogue message a [`CatalogRepairError`] is reported with.
pub open spec fn repair_error_message(error: CatalogRepairError) -> Seq<char> {
    match error {
        CatalogRepairError::Absent => "the project has no catalog to repair"@,
        CatalogRepairError::Unreadable => "the catalog could not be read"@,
        CatalogRepairError::WriteFailed => "the catalog could not be written"@,
        CatalogRepairError::Changed => "the catalog changed since it was previewed; preview it again"@,
        CatalogRepairError::Refused => "a line of the catalog registers an artifact and needs an owner decision, not a repair"@,
        CatalogRepairError::NothingToRepair => "the catalog needs no repair"@,
        CatalogRepairError::Unrepairable => "these rules would not yield a readable catalog"@,
        CatalogRepairError::CopyFailed => "the pre-repair copy could not be written to the product work area"@,
    }
}

impl From<CatalogRepairError> for ShellError {
    /// Every way a repair ends without a rewritten catalog, as its token with a fixed, path-free message.
    fn from(error: CatalogRepairError) -> (mapped: Self)
        ensures
            is_catalogue_error(mapped, repair_error_code(error), repair_error_message(error)),
    {
        match error {
            CatalogRepairError::Absent => ShellError::new(
                ShellErrorCode::CatalogUnavailable,
                "the project has no catalog to repair",
            ),
            CatalogRepairError::Unreadable => ShellError::new(
                ShellErrorCode::CatalogUnavailable,
                "the catalog could not be read",
            ),
            CatalogRepairError::WriteFailed => ShellError::new(
                ShellErrorCode::CatalogUnavailable,
                "the catalog could not be written",
            ),
            CatalogRepairError::Changed => ShellError::new(
                ShellErrorCode::CatalogChanged,
                "the catalog changed since it was previewed; preview it again",
            ),
            CatalogRepairError::Refused => ShellError::new(
                ShellErrorCode::RepairRefused,
                "a line of the catalog registers an artifact and needs an owner decision, not a repair",
            ),
            CatalogRepairError::NothingToRepair => ShellError::new(
                ShellErrorCode::RepairRefused,
                "the catalog needs no repair",
            ),
            CatalogRepairError::Unrepairable => ShellError::new(
                ShellErrorCode::RepairRefused,
                "these rules would not yield a readable catalog",
            ),
            CatalogRepairError::CopyFailed => ShellError::new(
                ShellErrorCode::WorkAreaInvalid,
                "the pre-repair copy could not be written to the product work area",
            ),
        }
    }
}

impl vstd::std_specs::convert::FromSpecImpl<CatalogRepairError> for ShellError {
    /// The mapping is stated on `from` itself: a catalogue message is a
    /// `String`, which no spec expression builds.
    open spec fn obeys_from_spec() -> bool {
        false
    }

    open spec fn from_spec(error: CatalogRepairError) -> Self {
        vstd::pervasive::arbitrary()
    }
}

/// The digest a repair is bound to: `run-active` while a run is live,
/// `invalid-request` unless it is 64 hex characters.
pub fn repair_digest(running: bool, sha256: &str) -> (expected: Result<Sha256Digest, ShellError>)
    ensures
        running ==> fails_with(
            expected,
            ShellErrorCode::RunActive,
            "a run is active; approve or publish once it has ended"@,
        ),
        !running && !is_hex_of_width(sha256@, 32) ==> fails_with(
            expected,
            ShellErrorCode::InvalidRequest,
            "the digest is not 64 hex characters"@,
        ),
        !running && is_hex_of_width(sha256@, 32) ==> (expected matches Ok(d) && d.bytes()
            == bytes_of_hex(sha256@)),
{
    if running {
        return Err(run_active());
    }
    match Sha256Digest::from_hex(sha256) {
        Some(digest) => Ok(digest),
        None => Err(ShellError::new(ShellErrorCode::InvalidRequest, "the digest is not 64 hex characters")),
    }
}

impl CatalogRepairedDto {
    /// What a repair did: the digests before and after, and the counts,
    /// saturating at `u32::MAX`.
    pub fn of(original_sha256: &Sha256Digest, sha256: &Sha256Digest, dropped_lines: u64, kept_records: u64) -> (dto: Self)
        ensures
            dto.original_sha256@ == hex_of(original_sha256.bytes()),
            dto.sha256@ == hex_of(sha256.bytes()),
            dto.dropped_lines == saturating_u32(dropped_lines),
            dto.kept_records == saturating_u32(kept_records),
    {
        CatalogRepairedDto {
            original_sha256: original_sha256.to_hex(),
            sha256: sha256.to_hex(),
            dropped_lines: count_u32(dropped_lines),
            kept_records: count_u32(kept_records),
        }
    }
}


/// No message a [`CatalogRepairError`] is reported with names a path.
pub proof fn lemma_repair_error_messages_name_no_path(error: CatalogRepairError)
    ensures
        names_no_path(repair_error_message(error)),
{
    reveal_strlit("the project has no catalog to repair");
    reveal_strlit("the catalog could not be read");
    reveal_strlit("the catalog could not be written");
    reveal_strlit("the catalog changed since it was previewed; preview it again");
    reveal_strlit("a line of the catalog registers an artifact and needs an owner decision, not a repair");
    reveal_strlit("the catalog needs no repair");
    reveal_strlit("these rules would not yield a readable catalog");
    reveal_strlit("the pre-repair copy could not be written to the product work area");
}

} // verus!
