//! The guidance installer commands' decisions: the installer's refusals
//! as fixed catalogue errors, the digests and snapshot ids a request binds
//! to, and the payloads a write reports. Every payload is a logical value
//! (a name at the workspace root, tokens, digests, ids), never a device
//! path.

use vstd::prelude::*;

use crate::domain::{Id64, ManagedFileKind, Sha256Digest, SnapshotManifest};
use crate::failures::{GuidanceError, ProjectTextFileError, SnapshotStoreError};
use crate::hex::{bytes_of_hex, hex_of, is_hex_of_width};
use vstd::std_specs::convert::FromSpec;
use crate::ipc::dto::{
    names_no_path,
    epoch_millis, fails_with, is_catalogue_error, GuidanceActionTag, GuidanceAppliedDto, ManagedFileKindDto,
    ShellError, ShellErrorCode, SnapshotDto,
};

verus! {

/// The code a [`GuidanceError`] is reported under.
pub open spec fn guidance_error_code(error: GuidanceError) -> ShellErrorCode {
    match error {
        GuidanceError::WorkAreaInvalid => ShellErrorCode::WorkAreaInvalid,
        GuidanceError::FileInvalid(ProjectTextFileError::NotAFile) => ShellErrorCode::GuidanceFileInvalid,
        GuidanceError::FileInvalid(ProjectTextFileError::TooLarge) => ShellErrorCode::GuidanceFileInvalid,
        GuidanceError::FileInvalid(ProjectTextFileError::NotUtf8) => ShellErrorCode::GuidanceFileInvalid,
        GuidanceError::FileInvalid(ProjectTextFileError::Unreadable) => ShellErrorCode::GuidanceFileInvalid,
        GuidanceError::FileInvalid(ProjectTextFileError::WriteFailed) => ShellErrorCode::GuidanceFileInvalid,
        GuidanceError::FileInvalid(ProjectTextFileError::Changed) | GuidanceError::FileChanged => ShellErrorCode::GuidanceFileChanged,
        GuidanceError::BlockModified => ShellErrorCode::GuidanceBlockModified,
        GuidanceError::BlockMalformed => ShellErrorCode::GuidanceBlockMalformed,
        GuidanceError::Unmanaged => ShellErrorCode::GuidanceUnmanaged,
        GuidanceError::Snapshot(SnapshotStoreError::Unknown) => ShellErrorCode::GuidanceUnmanaged,
        GuidanceError::Snapshot(SnapshotStoreError::Unreadable) => ShellErrorCode::SnapshotUnavailable,
        GuidanceError::Snapshot(SnapshotStoreError::Corrupt) => ShellErrorCode::SnapshotUnavailable,
        GuidanceError::Snapshot(SnapshotStoreError::WriteFailed) => ShellErrorCode::SnapshotUnavailable,
        GuidanceError::VerifyFailed => ShellErrorCode::GuidanceFileInvalid,
    }
}

/// The catalogue message a [`GuidanceError`] is reported with. A file
/// that changed under the file store's own re-check reads exactly as one that
/// changed against the digest binding.
pub open spec fn guidance_error_message(error: GuidanceError) -> Seq<char> {
    match error {
        GuidanceError::WorkAreaInvalid => "the product work area resolves inside a registered workspace root or cannot be used"@,
        GuidanceError::FileInvalid(ProjectTextFileError::NotAFile) => "the managed file is not a regular file"@,
        GuidanceError::FileInvalid(ProjectTextFileError::TooLarge) => "the managed file exceeds the size limit"@,
        GuidanceError::FileInvalid(ProjectTextFileError::NotUtf8) => "the managed file is not valid UTF-8"@,
        GuidanceError::FileInvalid(ProjectTextFileError::Unreadable) => "the managed file could not be read"@,
        GuidanceError::FileInvalid(ProjectTextFileError::WriteFailed) => "the managed file could not be written"@,
        GuidanceError::FileInvalid(ProjectTextFileError::Changed) | GuidanceError::FileChanged => "the managed file changed since it was shown; read its status again and retry"@,
        GuidanceError::BlockModified => "the managed block was modified inside its sentinels; resolve it by hand or restore a snapshot"@,
        GuidanceError::BlockMalformed => "the managed block's sentinels are not one intact pair; resolve it by hand or restore a snapshot"@,
        GuidanceError::Unmanaged => "the file carries no managed block"@,
        GuidanceError::Snapshot(SnapshotStoreError::Unknown) => "no snapshot with that id is recorded for this project"@,
        GuidanceError::Snapshot(SnapshotStoreError::Unreadable) => "the snapshot store could not be read"@,
        GuidanceError::Snapshot(SnapshotStoreError::Corrupt) => "a snapshot manifest is corrupt"@,
        GuidanceError::Snapshot(SnapshotStoreError::WriteFailed) => "the snapshot store could not be written"@,
        GuidanceError::VerifyFailed => "the managed file did not read back as written"@,
    }
}

impl From<GuidanceError> for ShellError {
    /// Every installer refusal and failure, as its closed code with a
    /// fixed, path-free message.
    fn from(error: GuidanceError) -> (mapped: Self)
        ensures
            is_catalogue_error(mapped, guidance_error_code(error), guidance_error_message(error)),
    {
        match error {
            GuidanceError::WorkAreaInvalid => ShellError::new(
                ShellErrorCode::WorkAreaInvalid,
                "the product work area resolves inside a registered workspace root or cannot be used",
            ),
            GuidanceError::FileInvalid(ProjectTextFileError::NotAFile) => ShellError::new(
                ShellErrorCode::GuidanceFileInvalid,
                "the managed file is not a regular file",
            ),
            GuidanceError::FileInvalid(ProjectTextFileError::TooLarge) => ShellError::new(
                ShellErrorCode::GuidanceFileInvalid,
                "the managed file exceeds the size limit",
            ),
            GuidanceError::FileInvalid(ProjectTextFileError::NotUtf8) => ShellError::new(
                ShellErrorCode::GuidanceFileInvalid,
                "the managed file is not valid UTF-8",
            ),
            GuidanceError::FileInvalid(ProjectTextFileError::Unreadable) => ShellError::new(
                ShellErrorCode::GuidanceFileInvalid,
                "the managed file could not be read",
            ),
            GuidanceError::FileInvalid(ProjectTextFileError::WriteFailed) => ShellError::new(
                ShellErrorCode::GuidanceFileInvalid,
                "the managed file could not be written",
            ),
            GuidanceError::FileInvalid(ProjectTextFileError::Changed) | GuidanceError::FileChanged => ShellError::new(
                ShellErrorCode::GuidanceFileChanged,
                "the managed file changed since it was shown; read its status again and retry",
            ),
            GuidanceError::BlockModified => ShellError::new(
                ShellErrorCode::GuidanceBlockModified,
                "the managed block was modified inside its sentinels; resolve it by hand or restore a snapshot",
            ),
            GuidanceError::BlockMalformed => ShellError::new(
                ShellErrorCode::GuidanceBlockMalformed,
                "the managed block's sentinels are not one intact pair; resolve it by hand or restore a snapshot",
            ),
            GuidanceError::Unmanaged => ShellError::new(
                ShellErrorCode::GuidanceUnmanaged,
                "the file carries no managed block",
            ),
            GuidanceError::Snapshot(SnapshotStoreError::Unknown) => ShellError::new(
                ShellErrorCode::GuidanceUnmanaged,
                "no snapshot with that id is recorded for this project",
            ),
            GuidanceError::Snapshot(SnapshotStoreError::Unreadable) => ShellError::new(
                ShellErrorCode::SnapshotUnavailable,
                "the snapshot store could not be read",
            ),
            GuidanceError::Snapshot(SnapshotStoreError::Corrupt) => ShellError::new(
                ShellErrorCode::SnapshotUnavailable,
                "a snapshot manifest is corrupt",
            ),
            GuidanceError::Snapshot(SnapshotStoreError::WriteFailed) => ShellError::new(
                ShellErrorCode::SnapshotUnavailable,
                "the snapshot store could not be written",
            ),
            GuidanceError::VerifyFailed => ShellError::new(
                ShellErrorCode::GuidanceFileInvalid,
                "the managed file did not read back as written",
            ),
        }
    }
}

impl vstd::std_specs::convert::FromSpecImpl<GuidanceError> for ShellError {
    /// The mapping is stated on `from` itself: a catalogue message is a
    /// `String`, which no spec expression builds.
    open spec fn obeys_from_spec() -> bool {
        false
    }

    open spec fn from_spec(error: GuidanceError) -> Self {
        vstd::pervasive::arbitrary()
    }
}

/// An `invalid-request` with `message`.
pub fn invalid(message: &str) -> (error: ShellError)
    ensures
        is_catalogue_error(error, ShellErrorCode::InvalidRequest, message@),
{
    ShellError::new(ShellErrorCode::InvalidRequest, message)
}

/// The guidance file a request names when it names none.
pub open spec fn default_guidance_file() -> Seq<char> {
    "AGENTS.md"@
}

/// A guidance command's target: the kind and, for the guidance kind, the
/// file the user named at the workspace root; ignored for the ignore
/// kind, which always manages `.gitignore`.
#[derive(Debug, Clone, PartialEq, Eq)]
pub struct GuidanceRequest {
    pub kind: ManagedFileKind,
    pub file: Option<String>,
}

impl GuidanceRequest {
    /// The guidance file name to validate: the named file, `AGENTS.md` by
    /// default; `None` for the ignore kind, whose file is fixed.
    pub fn guidance_file(&self) -> (name: Option<String>)
        ensures
            match self.kind {
                ManagedFileKind::Ignore => name is None,
                ManagedFileKind::Guidance => name matches Some(n) && n@ == (match self.file {
                    Some(f) => f@,
                    None => default_guidance_file(),
                }),
            },
    {
        match self.kind {
            ManagedFileKind::Ignore => None,
            ManagedFileKind::Guidance => match &self.file {
                Some(f) => Some(f.clone()),
                None => Some("AGENTS.md".to_owned()),
            },
        }
    }
}

/// The digest a write binds to: `None` for a file the surface showed as
/// absent, else its full 64-hex digest; `invalid-request` otherwise.
pub fn parse_expected(file_sha256: Option<&str>) -> (expected: Result<Option<Sha256Digest>, ShellError>)
    ensures
        match file_sha256 {
            None => expected matches Ok(None),
            Some(text) => if is_hex_of_width(text@, 32) {
                expected matches Ok(Some(d)) && d.bytes() == bytes_of_hex(text@)
            } else {
                fails_with(
                    expected,
                    ShellErrorCode::InvalidRequest,
                    "the file digest is not 64 hex characters"@,
                )
            },
        },
{
    match file_sha256 {
        None => Ok(None),
        Some(text) => match Sha256Digest::from_hex(text) {
            Some(digest) => Ok(Some(digest)),
            None => Err(invalid("the file digest is not 64 hex characters")),
        },
    }
}

/// The snapshot id a request names: 16 hex characters, else
/// `invalid-request`.
pub fn parse_snapshot_id(id: &str) -> (parsed: Result<Id64, ShellError>)
    ensures
        is_hex_of_width(id@, 8) ==> (parsed matches Ok(i) && i.bytes() == bytes_of_hex(id@)),
        !is_hex_of_width(id@, 8) ==> fails_with(
            parsed,
            ShellErrorCode::InvalidRequest,
            "the snapshot id is not 16 hex characters"@,
        ),
{
    match Id64::from_hex(id) {
        Some(parsed) => Ok(parsed),
        None => Err(invalid("the snapshot id is not 16 hex characters")),
    }
}

impl GuidanceAppliedDto {
    /// What a guidance write did: the kind and file, the action, the
    /// snapshot taken before the write (none for a no-op), and the short
    /// digest of the whole file afterwards (none when the file was
    /// removed).
    pub fn of(
        kind: ManagedFileKind,
        file: String,
        action: GuidanceActionTag,
        snapshot_id: Option<Id64>,
        result_sha256: Option<Sha256Digest>,
    ) -> (dto: Self)
        ensures
            dto.kind == ManagedFileKindDto::from_spec(kind),
            dto.file == file,
            dto.action == action,
            match snapshot_id {
                Some(id) => dto.snapshot_id matches Some(t) && t@ == hex_of(id.bytes()),
                None => dto.snapshot_id is None,
            },
            match result_sha256 {
                Some(d) => dto.result_sha256_short matches Some(t) && t@ == hex_of(d.bytes().take(4)),
                None => dto.result_sha256_short is None,
            },
    {
        GuidanceAppliedDto {
            kind: ManagedFileKindDto::from(kind),
            file,
            action,
            snapshot_id: match snapshot_id {
                Some(id) => Some(id.to_hex()),
                None => None,
            },
            result_sha256_short: match result_sha256 {
                Some(d) => Some(d.short_hex()),
                None => None,
            },
        }
    }
}

/// The snapshot `id` as it now stands, searched across every kind's
/// listing (the store knows the id, not its kind): the first manifest
/// with that id, or the unknown-snapshot refusal.
pub fn pinned_snapshot(manifests: &Vec<SnapshotManifest>, id: &Id64) -> (found: Result<SnapshotDto, ShellError>)
    ensures
        (exists|i: int| 0 <= i < manifests.len() && (#[trigger] manifests@[i]).id.bytes() == id.bytes())
            ==> (found matches Ok(dto) && dto.id@ == hex_of(id.bytes())),
        found matches Ok(dto) ==> exists|i: int|
            0 <= i < manifests.len() && (#[trigger] manifests@[i]).id.bytes() == id.bytes()
                && (forall|k: int| 0 <= k < i ==> manifests@[k].id.bytes() != id.bytes())
                && dto.pinned == manifests@[i].pinned
                && dto.kind == ManagedFileKindDto::from_spec(manifests@[i].kind)
                && dto.file == manifests@[i].file && dto.existed == manifests@[i].existed
                && dto.size == manifests@[i].size
                && dto.taken_at == epoch_millis(manifests@[i].taken_at)
                && dto.sha256_short@ == hex_of(manifests@[i].sha256.bytes().take(4)),
        !(exists|i: int| 0 <= i < manifests.len() && (#[trigger] manifests@[i]).id.bytes() == id.bytes())
            ==> fails_with(
            found,
            ShellErrorCode::GuidanceUnmanaged,
            "no snapshot with that id is recorded for this project"@,
        ),
{
    let mut i: usize = 0;
    while i < manifests.len()
        invariant
            i <= manifests@.len(),
            forall|k: int| 0 <= k < i ==> (#[trigger] manifests@[k]).id.bytes() != id.bytes(),
        decreases manifests@.len() - i,
    {
        if manifests[i].id.same_as(id) {
            let dto = SnapshotDto::from_manifest(&manifests[i]);
            assert(manifests@[i as int].id.bytes() == id.bytes());
            return Ok(dto);
        }
        i = i + 1;
    }
    Err(ShellError::from(GuidanceError::Snapshot(SnapshotStoreError::Unknown)))
}


/// No message a [`GuidanceError`] is reported with names a path.
pub proof fn lemma_guidance_error_messages_name_no_path(error: GuidanceError)
    ensures
        names_no_path(guidance_error_message(error)),
{
    reveal_strlit("the product work area resolves inside a registered workspace root or cannot be used");
    reveal_strlit("the managed file is not a regular file");
    reveal_strlit("the managed file exceeds the size limit");
    reveal_strlit("the managed file is not valid UTF-8");
    reveal_strlit("the managed file could not be read");
    reveal_strlit("the managed file could not be written");
    reveal_strlit("the managed file changed since it was shown; read its status again and retry");
    reveal_strlit("the managed block was modified inside its sentinels; resolve it by hand or restore a snapshot");
    reveal_strlit("the managed block's sentinels are not one intact pair; resolve it by hand or restore a snapshot");
    reveal_strlit("the file carries no managed block");
    reveal_strlit("no snapshot with that id is recorded for this project");
    reveal_strlit("the snapshot store could not be read");
    reveal_strlit("a snapshot manifest is corrupt");
    reveal_strlit("the snapshot store could not be written");
    reveal_strlit("the managed file did not read back as written");
}

} // verus!
