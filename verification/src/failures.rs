//! The closed failure sets the shell's services report, held as plain
//! tags: each carries exactly what the shell's error mapping reads, never
//! an underlying error's text (which can hold a device path).

use vstd::prelude::*;

use crate::domain::Sha256Digest;

verus! {

/// Why the process supervisor refused or failed an operation.
#[derive(Debug, Clone, Copy, PartialEq, Eq, Structural)]
pub enum SupervisorError {
    Spawn,
    UnknownProcess,
    AlreadySubscribed,
    TooManyProcesses,
    PtyUnsupported,
}

/// A demo-harness request whose `rate_hz` or `lines` is out of range.
#[derive(Debug, Clone, Copy, PartialEq, Eq, Structural)]
pub struct InvalidRequest;

/// Why the executable approval store could not be used.
#[derive(Debug, Clone, Copy, PartialEq, Eq, Structural)]
pub enum ApprovalStoreError {
    Unreadable,
    Corrupt,
    TornWrite,
    IdCollision,
}

/// A probe's outcome: an identity, or why none was taken.
#[derive(Debug, Clone, Copy, PartialEq, Eq, Structural)]
pub enum ProbeOutcome {
    Identity,
    Unreadable,
    NotRegularFile,
    NotExecutable,
    TooLarge,
}

/// Why the launch gate denied a launch.
#[derive(Debug, Clone, Copy)]
pub enum DenialReason {
    Unapproved,
    Revoked,
    ShadowedPath,
    ChangedSinceApproval { recorded: Sha256Digest, observed: Sha256Digest },
    ProbeFailed(ProbeOutcome),
}

/// Why an adapter's launch plan could not be built.
#[derive(Debug, Clone, Copy, PartialEq, Eq, Structural)]
pub enum LaunchPlanError {
    SecretShapedEnvKey,
    CwdOutsideWorkspace,
    PromptChannelUnsupported,
    PromptNotTypeable,
    AssignmentOnInheritedEnv,
}

/// Why a declared outbox failed validation.
#[derive(Debug, Clone, Copy, PartialEq, Eq, Structural)]
pub enum OutboxDeclarationError {
    OutsideProject,
    IsLink,
    NotADirectory,
    Unreadable,
}

/// The failure class a declaration error falls in.
#[derive(Debug, Clone, Copy, PartialEq, Eq, Structural)]
pub enum OutboxFailure {
    OutboxInvalid,
    OutboxUnavailable,
}

impl OutboxDeclarationError {
    /// The failure class: a link or an escape makes the outbox invalid, a
    /// non-directory or an unreadable one makes it unavailable.
    pub open spec fn spec_failure(self) -> OutboxFailure {
        match self {
            OutboxDeclarationError::OutsideProject => OutboxFailure::OutboxInvalid,
            OutboxDeclarationError::IsLink => OutboxFailure::OutboxInvalid,
            OutboxDeclarationError::NotADirectory => OutboxFailure::OutboxUnavailable,
            OutboxDeclarationError::Unreadable => OutboxFailure::OutboxUnavailable,
        }
    }

    /// The failure class of this declaration error.
    #[verifier::when_used_as_spec(spec_failure)]
    pub fn failure(self) -> (failure: OutboxFailure)
        ensures
            failure == self.spec_failure(),
    {
        match self {
            OutboxDeclarationError::OutsideProject => OutboxFailure::OutboxInvalid,
            OutboxDeclarationError::IsLink => OutboxFailure::OutboxInvalid,
            OutboxDeclarationError::NotADirectory => OutboxFailure::OutboxUnavailable,
            OutboxDeclarationError::Unreadable => OutboxFailure::OutboxUnavailable,
        }
    }
}

/// Why a run subdirectory could not be prepared.
#[derive(Debug, Clone, Copy, PartialEq, Eq, Structural)]
pub enum PrepareError {
    Declaration(OutboxDeclarationError),
    OutboxMissing,
    OutboxUnopenable,
    AlreadyExists,
    CreateFailed,
    OpenFailed,
    Verification,
}

/// Why the project's classification policy could not be loaded.
#[derive(Debug, Clone, Copy, PartialEq, Eq, Structural)]
pub enum PolicyError {
    Unreadable,
    Corrupt,
    Invalid,
    InvalidOutboxPath,
    TooLarge,
}

/// Why a prompt was rejected.
#[derive(Debug, Clone, Copy, PartialEq, Eq, Structural)]
pub enum PromptError {
    TooLarge,
    ContainsNul,
}

/// Why the product work area cannot be used.
#[derive(Debug, Clone, Copy, PartialEq, Eq, Structural)]
pub enum WorkAreaError {
    InsideWorkspace,
    Unusable,
    NotOwnerOnly,
}

/// Why the publication journal could not be used.
#[derive(Debug, Clone, Copy, PartialEq, Eq, Structural)]
pub enum JournalError {
    Unreadable,
    Corrupt,
    WriteFailed,
}

/// Why a publication's destination cannot be used.
#[derive(Debug, Clone, Copy, PartialEq, Eq, Structural)]
pub enum DestinationError {
    Unconfigured,
    InsideWorkspace,
    Unusable,
}

/// Why the project's Catalog could not be used.
#[derive(Debug, Clone, Copy, PartialEq, Eq, Structural)]
pub enum CatalogStoreError {
    Unreadable,
    Corrupt,
    WriteFailed,
    Duplicate,
    Unknown,
}

/// Why the provider's blob store failed.
#[derive(Debug, Clone, Copy, PartialEq, Eq, Structural)]
pub enum BlobStoreError {
    WriteFailed,
    ReadFailed,
    NotFound,
    ForeignLocator,
}

/// How a publication transaction ended with nothing registered.
#[derive(Debug, Clone)]
pub enum PublishError {
    WorkAreaInvalid,
    OutboxEscape { recovery_written: bool },
    OutboxLinked,
    IntegrityMismatch,
    /// The existing record's publication identity and Catalog identity.
    DuplicatePublication { publication_id: Sha256Digest, catalog_id: String },
    Journal(JournalError),
    Catalog(CatalogStoreError),
    Provider(BlobStoreError),
}

/// Why a managed project text file could not be used.
#[derive(Debug, Clone, Copy, PartialEq, Eq, Structural)]
pub enum ProjectTextFileError {
    NotAFile,
    TooLarge,
    NotUtf8,
    Unreadable,
    WriteFailed,
    Changed,
}

/// Why the snapshot store could not be used.
#[derive(Debug, Clone, Copy, PartialEq, Eq, Structural)]
pub enum SnapshotStoreError {
    Unknown,
    Unreadable,
    Corrupt,
    WriteFailed,
}

/// Every refusal and failure of the guidance installer.
#[derive(Debug, Clone, Copy, PartialEq, Eq, Structural)]
pub enum GuidanceError {
    WorkAreaInvalid,
    FileInvalid(ProjectTextFileError),
    FileChanged,
    BlockModified,
    BlockMalformed,
    Unmanaged,
    Snapshot(SnapshotStoreError),
    VerifyFailed,
}

/// Why a wrong-root scan failed.
#[derive(Debug, Clone, Copy, PartialEq, Eq, Structural)]
pub enum ScanError {
    Unreadable,
}

/// Why the ignore ledger could not be used.
#[derive(Debug, Clone, Copy, PartialEq, Eq, Structural)]
pub enum IgnoreLedgerError {
    Unreadable,
    Corrupt,
    WriteFailed,
}

/// Why a quarantine move failed.
#[derive(Debug, Clone, Copy, PartialEq, Eq, Structural)]
pub enum QuarantineError {
    Unusable,
    InsideWorkspace,
    NotOwnerOnly,
    CopyFailed,
    DestinationLinked,
    NotRegularFile,
    PathChanged,
    DigestChanged,
}

/// Why a copy into the outbox failed.
#[derive(Debug, Clone, Copy, PartialEq, Eq, Structural)]
pub enum CopyInError {
    NotRegularFile,
    PathChanged,
    DigestChanged,
    CopyFailed,
    EntryExists,
    Linked,
}

/// Why a misplaced file could not be opened.
#[derive(Debug, Clone, Copy, PartialEq, Eq, Structural)]
pub enum OpenMisplacedError {
    InvalidName,
    NotFound,
    NotRegularFile,
    Unreadable,
    Linked,
}

/// Every way a Catalog repair ends without a rewritten catalog.
#[derive(Debug, Clone, Copy, PartialEq, Eq, Structural)]
pub enum CatalogRepairError {
    Absent,
    Unreadable,
    WriteFailed,
    Changed,
    Refused,
    NothingToRepair,
    Unrepairable,
    CopyFailed,
}

} // verus!
