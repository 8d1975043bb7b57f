//! Typed IPC data shapes: the renderer only ever sees these, never a
//! domain value directly. Every closed-set discriminant is a fixed token;
//! the wire encoding itself (field names, tags) belongs to the serializing
//! layer around this library.

use vstd::prelude::*;

use crate::domain::{
    remedy_tokens, Attribution, ApprovalRecord, ApprovalSource, ApprovalStatus, ArtifactApproval, CandidateEntry,
    CatalogRecord, EpochOffset, ListedCandidate, ExecutableIdentity, GuidancePreview, GuidanceStatus,
    MisplacedFinding, PortableReference, Published, SnapshotManifest, StateEvent,
    AdapterDescriptor, AdapterEvent, AgentPhase, FramePayload, OutputFrame, OutputStream,
    ProposedEntry, TerminalAction, ApplyAction, ApprovalId, ArtifactState, CandidateState, ManagedFileKind, ManagedStatus,
    OutputDiscipline, PlatformEvidence, ProcessId, ProcessStatus, ProcessTerminalState,
    PromptChannel, ProviderState, Remedy, ScopeMode, TransportClass,
};
use crate::failures::ProbeOutcome;
use crate::hex::hex_of;
use vstd::std_specs::convert::FromSpec;

verus! {

/// The closed set of harness kinds a caller may request, each bundling
/// exactly the parameters that kind needs.
#[derive(Debug, Clone, PartialEq, Eq)]
pub enum HarnessKindDto {
    DemoLines { rate_hz: u16, lines: u32 },
    DemoIgnoresSigterm { rate_hz: u16, lines: u32 },
    /// Launch the real executable behind this approval id, subject to a
    /// launch-gate decision immediately before launch.
    Approved { approval_id: ApprovalIdDto },
    /// Launch the built-in adapter named by `adapter_id` against the
    /// executable behind `approval_id`, delivering `prompt`.
    Adapter { adapter_id: String, approval_id: ApprovalIdDto, prompt: String },
}

/// A workspace directory: its canonical path, shown for display only, and
/// whether the product work area still resolves outside it.
#[derive(Debug, Clone, PartialEq, Eq)]
pub struct WorkspaceDto {
    pub display_path: String,
    pub work_area: WorkAreaStateTag,
}

/// The product work area's state against the active workspace.
#[derive(Debug, Clone, Copy, PartialEq, Eq, Structural)]
pub enum WorkAreaStateTag {
    Valid,
    WorkAreaInvalid,
}

/// An adapter's transport class, as it crosses IPC.
#[derive(Debug, Clone, Copy, PartialEq, Eq, Structural)]
pub enum TransportClassDto {
    StructuredStreamingCli,
    Pty,
}

/// An adapter's prompt channel, as it crosses IPC.
#[derive(Debug, Clone, Copy, PartialEq, Eq, Structural)]
pub enum PromptChannelDto {
    StdinThenClose,
    Argv,
    PtyTyped,
}

/// A scope mode, as it crosses IPC.
#[derive(Debug, Clone, Copy, PartialEq, Eq, Structural)]
pub enum ScopeModeDto {
    SandboxEnforced,
    HarnessEnforced,
    Advisory,
}

/// One built-in adapter's descriptor, metadata only: never its argv
/// template or its declared environment's values.
#[derive(Debug, Clone, PartialEq, Eq)]
pub struct AdapterDescriptorDto {
    pub id: String,
    pub display_name: String,
    pub transport_class: TransportClassDto,
    pub prompt_channel: PromptChannelDto,
    pub scope_mode: ScopeModeDto,
    pub notes: String,
}

/// A process identifier crossing IPC: transparently the platform process
/// id.
#[derive(Debug, Clone, Copy, PartialEq, Eq, Structural)]
pub struct ProcessIdDto(pub u32);

/// The closed set of terminal-state tokens.
#[derive(Debug, Clone, Copy, PartialEq, Eq, Structural)]
pub enum ProcessTerminalStateTag {
    Exited,
    Killed,
    OrphanRiskUncertain,
}

/// A process's terminal state: `code` is `None` except when `state` is
/// `Exited` and the platform reported an exit code.
#[derive(Debug, Clone, Copy, PartialEq, Eq, Structural)]
pub struct ProcessTerminalStateDto {
    pub state: ProcessTerminalStateTag,
    pub code: Option<i32>,
}

/// A process's observed status: still running, or terminal.
#[derive(Debug, Clone, Copy, PartialEq, Eq, Structural)]
pub enum ProcessStatusDto {
    Running,
    Terminal { terminal: ProcessTerminalStateDto },
}

/// An agent phase's tag; `finished`'s subtype travels beside it.
#[derive(Debug, Clone, Copy, PartialEq, Eq, Structural)]
pub enum AgentPhaseTag {
    Init,
    Finished,
    Exited,
}

/// One named text observation accompanying a `state` event.
#[derive(Debug, Clone, PartialEq, Eq)]
pub struct ObservationDto {
    pub key: String,
    pub value: String,
}

/// The closed set of typed terminal actions a PTY launch may produce.
#[derive(Debug, Clone, Copy, PartialEq, Eq, Structural)]
pub enum TerminalActionKindDto {
    Title,
    Notification,
}

/// One entry an `artifact.publish` proposal names: the harness's own
/// claim, a name and the full digest it asserts.
#[derive(Debug, Clone, PartialEq, Eq)]
pub struct ProposedEntryDto {
    pub name: String,
    pub sha256: String,
}

/// An adapter event, as it crosses IPC. `Candidates` and `Misplaced` are
/// the shell's own run-end summaries, counts only.
#[derive(Debug, Clone, PartialEq)]
pub enum AdapterEventDto {
    State { phase: AgentPhaseTag, subtype: Option<String>, observations: Vec<ObservationDto> },
    Message { text: String },
    ToolCall { name: String, arguments_text: String },
    Diagnostic { text: String },
    Unknown { raw: String, truncated: bool },
    TerminalText { text: String },
    TerminalAction { action: TerminalActionKindDto, text: String },
    TerminalDrops {
        layout: u64,
        hyperlink: u64,
        clipboard: u64,
        file_transfer: u64,
        string: u64,
        unknown: u64,
        malformed: u64,
    },
    ArtifactPublish { entries: Vec<ProposedEntryDto> },
    Candidates {
        run_id: String,
        total: u32,
        candidate: u32,
        outbox_escape: u32,
        outbox_linked: u32,
        attributed: u32,
        unattributed: u32,
        unreadable: u32,
        unmatched_proposals: u32,
    },
    Misplaced {
        scanned: u32,
        findings: u32,
        ignored: u32,
        excluded: u32,
        unreadable: u32,
        truncated: bool,
    },
}

/// One streamed frame of a launch's output channel.
#[derive(Debug, Clone, PartialEq)]
pub enum HarnessFrame {
    Stdout { id: ProcessIdDto, seq: u64, dropped_before: u64, text: String, continued: bool },
    Stderr { id: ProcessIdDto, seq: u64, dropped_before: u64, text: String, continued: bool },
    State { id: ProcessIdDto, seq: u64, dropped_before: u64, terminal: ProcessTerminalStateDto },
    Event { id: ProcessIdDto, seq: u64, dropped_before: u64, event: AdapterEventDto },
}

/// The outbox's state for the active workspace.
#[derive(Debug, Clone, Copy, PartialEq, Eq, Structural)]
pub enum OutboxStateTag {
    Valid,
    OutboxInvalid,
    OutboxUnavailable,
}

/// Why the outbox status is not `valid`: a fixed token, never an error's
/// text.
#[derive(Debug, Clone, Copy, PartialEq, Eq, Structural)]
pub enum OutboxReasonTag {
    OutsideProject,
    Link,
    NotADirectory,
    Unreadable,
    PolicyUnreadable,
    PolicyCorrupt,
    PolicyInvalid,
}

/// The outbox status payload. `outbox` is the canonical path, present only
/// for a valid declaration whose directory exists.
#[derive(Debug, Clone, PartialEq, Eq)]
pub struct OutboxStatusDto {
    pub declared: Option<String>,
    pub outbox: Option<String>,
    pub exists: bool,
    pub state: OutboxStateTag,
    pub reason: Option<OutboxReasonTag>,
    pub policy_path: String,
    pub asset_root_id: Option<String>,
}

/// A candidate's state, as it crosses IPC.
#[derive(Debug, Clone, Copy, PartialEq, Eq, Structural)]
pub enum CandidateStateTag {
    Candidate,
    OutboxEscape,
    OutboxLinked,
}

/// A candidate's attribution: to the run that proposed it, or none.
#[derive(Debug, Clone, PartialEq, Eq)]
pub enum AttributionDto {
    Run { run_id: String },
    Unattributed,
}

/// One candidate entry: its outbox-relative name, the facts taken from its
/// handle (absent for a refused entry, where nothing was digested), its
/// attribution, and its state. Never a device path.
#[derive(Debug, Clone, PartialEq, Eq)]
pub struct CandidateDto {
    pub name: String,
    pub size: Option<u64>,
    pub sha256: Option<String>,
    pub sha256_short: Option<String>,
    pub detected_type: Option<String>,
    pub class: Option<String>,
    pub attribution: AttributionDto,
    pub state: CandidateStateTag,
}

/// An artifact's state, as it crosses IPC.
#[derive(Debug, Clone, Copy, PartialEq, Eq, Structural)]
pub enum ArtifactStateTag {
    Candidate,
    PublishedLocal,
    Registered,
    ProviderSynced,
    RegistrationPending,
    Refused,
    IntegrityMismatch,
    DuplicatePublication,
    OutboxEscape,
    OutboxLinked,
}

/// A record's provider state, as it crosses IPC.
#[derive(Debug, Clone, Copy, PartialEq, Eq, Structural)]
pub enum ProviderStateTag {
    Pending,
    Synced,
    Failed,
    Unavailable,
}

/// This device's own availability observation for a publication.
#[derive(Debug, Clone, Copy, PartialEq, Eq, Structural)]
pub enum AvailabilityTag {
    Local,
    Unknown,
}

/// The act-as identity an approval binds.
#[derive(Debug, Clone, Copy, PartialEq, Eq, Structural)]
pub enum ActAsTag {
    DeviceLocalUser,
}

/// The kind of a portable reference this shell issues.
#[derive(Debug, Clone, Copy, PartialEq, Eq, Structural)]
pub enum ReferenceKindTag {
    Artifact,
}

/// A portable reference to an artifact: its publication identity and its
/// Catalog identity. Never a device path.
#[derive(Debug, Clone, PartialEq, Eq)]
pub struct PortableReferenceDto {
    pub kind: ReferenceKindTag,
    pub id: String,
    pub locator: String,
}

/// An artifact approval's identity-bound facts and derived ids; for an
/// approval of a recovery entry, the publication it was recovered from.
#[derive(Debug, Clone, PartialEq, Eq)]
pub struct ArtifactApprovalDto {
    pub approval_id: String,
    pub publication_id: String,
    pub run_id: Option<String>,
    pub name: String,
    pub display_name: String,
    pub sha256_short: String,
    pub size: u64,
    pub detected_type: String,
    pub class: String,
    pub attribution: AttributionDto,
    pub asset_root_id: String,
    pub act_as: ActAsTag,
    pub approved_at: u64,
    pub handle_held: bool,
    pub recovered_from: Option<String>,
}

/// One publication: its identity, state, reference once registered, the
/// record's provider state and Catalog identity once a record exists, its
/// names, and this device's availability observation.
#[derive(Debug, Clone, PartialEq, Eq)]
pub struct PublicationDto {
    pub publication_id: String,
    pub state: ArtifactStateTag,
    pub reference: Option<PortableReferenceDto>,
    pub provider_state: Option<ProviderStateTag>,
    pub catalog_id: Option<String>,
    pub names: Vec<String>,
    pub availability: AvailabilityTag,
}

/// One `artifact.state` transition.
#[derive(Debug, Clone, PartialEq, Eq)]
pub enum ArtifactStateFrame {
    ArtifactState {
        publication_id: String,
        state: ArtifactStateTag,
        provider_state: Option<ProviderStateTag>,
    },
}

/// The kind of a managed file.
#[derive(Debug, Clone, Copy, PartialEq, Eq, Structural)]
pub enum ManagedFileKindDto {
    Guidance,
    Ignore,
}

/// A managed block's status token.
#[derive(Debug, Clone, Copy, PartialEq, Eq, Structural)]
pub enum ManagedStatusTag {
    Absent,
    Current,
    Outdated,
    Modified,
    Malformed,
}

/// What a guidance command did or would do.
#[derive(Debug, Clone, Copy, PartialEq, Eq, Structural)]
pub enum GuidanceActionTag {
    Insert,
    Replace,
    NoOp,
    Remove,
    Restore,
}

/// The managed file's state.
#[derive(Debug, Clone, PartialEq, Eq)]
pub struct GuidanceStatusDto {
    pub kind: ManagedFileKindDto,
    pub file: String,
    pub exists: bool,
    pub managed: ManagedStatusTag,
    pub template_version: String,
    pub file_sha256: Option<String>,
    pub file_sha256_short: Option<String>,
    pub snapshots: u32,
    pub pinned: u32,
}

/// The proposal a guidance apply would carry out.
#[derive(Debug, Clone, PartialEq, Eq)]
pub struct GuidancePreviewDto {
    pub kind: ManagedFileKindDto,
    pub file: String,
    pub action: GuidanceActionTag,
    pub proposed: String,
    pub file_sha256: Option<String>,
    pub file_sha256_short: Option<String>,
    pub result_sha256_short: String,
}

/// What a guidance write did.
#[derive(Debug, Clone, PartialEq, Eq)]
pub struct GuidanceAppliedDto {
    pub kind: ManagedFileKindDto,
    pub file: String,
    pub action: GuidanceActionTag,
    pub snapshot_id: Option<String>,
    pub result_sha256_short: Option<String>,
}

/// One snapshot of a managed file.
#[derive(Debug, Clone, PartialEq, Eq)]
pub struct SnapshotDto {
    pub id: String,
    pub kind: ManagedFileKindDto,
    pub file: String,
    pub existed: bool,
    pub sha256_short: String,
    pub size: u64,
    pub taken_at: u64,
    pub pinned: bool,
}

/// An output-discipline label.
#[derive(Debug, Clone, Copy, PartialEq, Eq, Structural)]
pub enum OutputDisciplineTag {
    Enforced,
    Advisory,
}

/// The wrong-root status payload.
#[derive(Debug, Clone, PartialEq, Eq)]
pub struct WrongRootStatusDto {
    pub output_discipline: OutputDisciplineTag,
    pub scope_mode: ScopeModeDto,
    pub disclosures: Vec<String>,
    pub scanned: bool,
    pub findings: u32,
}

/// One misplaced file: its project-relative name, the facts taken from its
/// handle, why it is misplaced, and the remedies offered.
#[derive(Debug, Clone, PartialEq, Eq)]
pub struct MisplacedDto {
    pub name: String,
    pub size: u64,
    pub sha256: String,
    pub sha256_short: String,
    pub detected_type: String,
    pub class: String,
    pub reason: String,
    pub remedies: Vec<String>,
}

/// What a wrong-root scan saw: counts only.
#[derive(Debug, Clone, Copy, PartialEq, Eq, Structural)]
pub struct MisplacedScanDto {
    pub scanned: u32,
    pub findings: u32,
    pub ignored: u32,
    pub excluded: u32,
    pub unreadable: u32,
    pub truncated: bool,
}

/// The closed set of three remedies.
#[derive(Debug, Clone, Copy, PartialEq, Eq, Structural)]
pub enum RemedyTag {
    Quarantine,
    Publish,
    Ignore,
}

/// What a remedy actually did.
#[derive(Debug, Clone, Copy, PartialEq, Eq, Structural)]
pub enum RemedyOutcomeTag {
    Quarantined,
    CopiedToOutbox,
    Ignored,
}

/// The remedy payload.
#[derive(Debug, Clone, PartialEq, Eq)]
pub struct MisplacedRemedyDto {
    pub remedy: RemedyTag,
    pub outcome: RemedyOutcomeTag,
    pub name: Option<String>,
    pub sha256: Option<String>,
    pub original_kept: Option<bool>,
    pub detail: Option<String>,
}

/// One recovery entry this device holds: the digest it is filed under,
/// the facts its own handle gave, where it was recovered from, and the
/// display name and class its approval would use.
#[derive(Debug, Clone, PartialEq, Eq)]
pub struct RecoveryEntryDto {
    pub sha256: String,
    pub size: Option<u64>,
    pub recovered_from: String,
    pub recovered_at: u64,
    pub display_name: String,
    pub class: Option<String>,
    pub usable: bool,
}

/// What a Catalog repair did.
#[derive(Debug, Clone, PartialEq, Eq)]
pub struct CatalogRepairedDto {
    pub original_sha256: String,
    pub sha256: String,
    pub dropped_lines: u32,
    pub kept_records: u32,
}

/// The closed set of error codes a failed IPC command reports.
#[derive(Debug, Clone, Copy, PartialEq, Eq, Structural)]
pub enum ShellErrorCode {
    UnknownProcess,
    SpawnFailed,
    AlreadySubscribed,
    InvalidRequest,
    TooManyProcesses,
    NoCandidate,
    NotExecutable,
    ProbeFailed,
    TooLarge,
    Unapproved,
    ChangedSinceApproval,
    ShadowedPath,
    Revoked,
    ApprovalStoreUnavailable,
    UnknownAdapter,
    PromptTooLarge,
    WorkspaceUnavailable,
    SecretShapedEnv,
    NoWorkspace,
    PtyUnsupported,
    PromptNotTypeable,
    OutboxInvalid,
    OutboxUnavailable,
    IntegrityMismatch,
    DuplicatePublication,
    WorkAreaInvalid,
    DestinationInvalid,
    OutboxEscape,
    OutboxLinked,
    Refused,
    CatalogUnavailable,
    RunActive,
    GuidanceFileInvalid,
    GuidanceFileChanged,
    GuidanceBlockModified,
    GuidanceBlockMalformed,
    GuidanceUnmanaged,
    SnapshotUnavailable,
    MisplacedUnknown,
    QuarantineUnavailable,
    ScanFailed,
    CatalogChanged,
    CatalogCorrupt,
    RepairRefused,
    RecoveryUnknown,
}

/// Structured detail for a [`ShellError`], carrying values a catalogue
/// message must not.
#[derive(Debug, Clone, PartialEq, Eq)]
pub enum ShellErrorDetail {
    /// Both digests of a changed executable, as short hex prefixes.
    ChangedSinceApproval { recorded_sha256_short: String, observed_sha256_short: String },
    /// The existing record's logical identities.
    DuplicatePublication { publication_id: String, catalog_id: String },
}

/// A failed IPC command's error payload. `message` is always a catalogue
/// string, never an underlying error's own text.
#[derive(Debug, Clone, PartialEq, Eq)]
pub struct ShellError {
    pub code: ShellErrorCode,
    pub message: String,
    pub detail: Option<ShellErrorDetail>,
}

impl ShellError {
    /// Build an error with no structured detail.
    pub fn new(code: ShellErrorCode, message: &str) -> (error: Self)
        ensures
            error.code == code,
            error.message@ == message@,
            error.detail is None,
    {
        ShellError { code, message: message.to_owned(), detail: None }
    }

    /// Build an error carrying structured `detail`.
    pub fn with_detail(code: ShellErrorCode, message: &str, detail: ShellErrorDetail) -> (error:
        Self)
        ensures
            error.code == code,
            error.message@ == message@,
            error.detail == Some(detail),
    {
        ShellError { code, message: message.to_owned(), detail: Some(detail) }
    }

    /// A failed probe's catalogue error (the `Identity` success case is
    /// mapped too, so the mapping stays total).
    pub fn from_probe_failure(outcome: ProbeOutcome) -> (error: Self)
        ensures
            is_catalogue_error(error, probe_failure_code(outcome), probe_failure_message(outcome)),
    {
        match outcome {
            ProbeOutcome::Unreadable => ShellError::new(
                ShellErrorCode::ProbeFailed,
                "the executable could not be read",
            ),
            ProbeOutcome::NotRegularFile | ProbeOutcome::NotExecutable => ShellError::new(
                ShellErrorCode::NotExecutable,
                "the target is not a regular, executable file",
            ),
            ProbeOutcome::TooLarge => ShellError::new(
                ShellErrorCode::TooLarge,
                "the executable exceeds the size limit",
            ),
            ProbeOutcome::Identity => ShellError::new(
                ShellErrorCode::ProbeFailed,
                "an unexpected probe result was returned",
            ),
        }
    }
}

/// `error` carries `code` and exactly the catalogue `message`, with no
/// structured detail.
pub open spec fn is_catalogue_error(error: ShellError, code: ShellErrorCode, message: Seq<char>) -> bool {
    &&& error.code == code
    &&& error.message@ == message
    &&& error.detail is None
}

/// `result` is the failure carrying `code` and exactly the catalogue
/// `message`, with no detail.
pub open spec fn fails_with<T>(result: Result<T, ShellError>, code: ShellErrorCode, message: Seq<char>) -> bool {
    result matches Err(error) && is_catalogue_error(error, code, message)
}

/// `text` carries no `/`, so it names no path.
pub open spec fn names_no_path(text: Seq<char>) -> bool {
    forall|i: int| 0 <= i < text.len() ==> text[i] != '/'
}

/// The code a failed probe is reported under.
pub open spec fn probe_failure_code(outcome: ProbeOutcome) -> ShellErrorCode {
    match outcome {
        ProbeOutcome::Unreadable => ShellErrorCode::ProbeFailed,
        ProbeOutcome::NotRegularFile | ProbeOutcome::NotExecutable => ShellErrorCode::NotExecutable,
        ProbeOutcome::TooLarge => ShellErrorCode::TooLarge,
        ProbeOutcome::Identity => ShellErrorCode::ProbeFailed,
    }
}

/// The catalogue message a failed probe is reported with.
pub open spec fn probe_failure_message(outcome: ProbeOutcome) -> Seq<char> {
    match outcome {
        ProbeOutcome::Unreadable => "the executable could not be read"@,
        ProbeOutcome::NotRegularFile | ProbeOutcome::NotExecutable => "the target is not a regular, executable file"@,
        ProbeOutcome::TooLarge => "the executable exceeds the size limit"@,
        ProbeOutcome::Identity => "an unexpected probe result was returned"@,
    }
}

/// A probed-but-not-yet-approved candidate's opaque handle, valid only for
/// this shell process's lifetime.
#[derive(Debug, Clone, Copy, PartialEq, Eq, Structural)]
pub struct CandidateIdDto(pub u64);

/// An executable approval id, as it crosses IPC.
#[derive(Debug, Clone, Copy, PartialEq, Eq, Structural)]
pub struct ApprovalIdDto(pub u64);

/// An executable's platform evidence, as it crosses IPC.
#[derive(Debug, Clone, PartialEq, Eq)]
pub enum PlatformEvidenceDto {
    Unix { mode: u32 },
    Windows { extension: String, attributes: u32 },
}

/// An executable identity's evidence: the canonical path is shown to the
/// user as identity evidence and never taken back as a reference.
#[derive(Debug, Clone, PartialEq, Eq)]
pub struct EvidenceDto {
    pub canonical_path: String,
    pub size: u64,
    pub sha256: String,
    pub sha256_short: String,
    pub modified_at: Option<u64>,
    pub platform: PlatformEvidenceDto,
}

/// A probe's success payload.
#[derive(Debug, Clone, PartialEq, Eq)]
pub struct ProbeResultDto {
    pub candidate_id: CandidateIdDto,
    pub evidence: EvidenceDto,
}

/// An approval's status tag; the revocation instant travels beside it.
#[derive(Debug, Clone, Copy, PartialEq, Eq, Structural)]
pub enum ApprovalStatusTag {
    Active,
    Revoked,
}

/// One executable approval on record.
#[derive(Debug, Clone, PartialEq, Eq)]
pub struct ApprovalDto {
    pub approval_id: ApprovalIdDto,
    pub evidence: EvidenceDto,
    pub approved_at: u64,
    pub status: ApprovalStatusTag,
    pub revoked_at: Option<u64>,
}

impl From<TransportClass> for TransportClassDto {
    fn from(value: TransportClass) -> (mapped: Self) {
        match value {
            TransportClass::StructuredStreamingCli => TransportClassDto::StructuredStreamingCli,
            TransportClass::Pty => TransportClassDto::Pty,
        }
    }
}

impl vstd::std_specs::convert::FromSpecImpl<TransportClass> for TransportClassDto {
    open spec fn obeys_from_spec() -> bool {
        true
    }

    open spec fn from_spec(value: TransportClass) -> Self {
        match value {
            TransportClass::StructuredStreamingCli => TransportClassDto::StructuredStreamingCli,
            TransportClass::Pty => TransportClassDto::Pty,
        }
    }
}

impl From<PromptChannel> for PromptChannelDto {
    fn from(value: PromptChannel) -> (mapped: Self) {
        match value {
            PromptChannel::StdinThenClose => PromptChannelDto::StdinThenClose,
            PromptChannel::Argv => PromptChannelDto::Argv,
            PromptChannel::PtyTyped => PromptChannelDto::PtyTyped,
        }
    }
}

impl vstd::std_specs::convert::FromSpecImpl<PromptChannel> for PromptChannelDto {
    open spec fn obeys_from_spec() -> bool {
        true
    }

    open spec fn from_spec(value: PromptChannel) -> Self {
        match value {
            PromptChannel::StdinThenClose => PromptChannelDto::StdinThenClose,
            PromptChannel::Argv => PromptChannelDto::Argv,
            PromptChannel::PtyTyped => PromptChannelDto::PtyTyped,
        }
    }
}

impl From<ScopeMode> for ScopeModeDto {
    fn from(value: ScopeMode) -> (mapped: Self) {
        match value {
            ScopeMode::SandboxEnforced => ScopeModeDto::SandboxEnforced,
            ScopeMode::HarnessEnforced => ScopeModeDto::HarnessEnforced,
            ScopeMode::Advisory => ScopeModeDto::Advisory,
        }
    }
}

impl vstd::std_specs::convert::FromSpecImpl<ScopeMode> for ScopeModeDto {
    open spec fn obeys_from_spec() -> bool {
        true
    }

    open spec fn from_spec(value: ScopeMode) -> Self {
        match value {
            ScopeMode::SandboxEnforced => ScopeModeDto::SandboxEnforced,
            ScopeMode::HarnessEnforced => ScopeModeDto::HarnessEnforced,
            ScopeMode::Advisory => ScopeModeDto::Advisory,
        }
    }
}

impl From<CandidateState> for CandidateStateTag {
    fn from(value: CandidateState) -> (mapped: Self) {
        match value {
            CandidateState::Candidate => CandidateStateTag::Candidate,
            CandidateState::OutboxEscape => CandidateStateTag::OutboxEscape,
            CandidateState::OutboxLinked => CandidateStateTag::OutboxLinked,
        }
    }
}

impl vstd::std_specs::convert::FromSpecImpl<CandidateState> for CandidateStateTag {
    open spec fn obeys_from_spec() -> bool {
        true
    }

    open spec fn from_spec(value: CandidateState) -> Self {
        match value {
            CandidateState::Candidate => CandidateStateTag::Candidate,
            CandidateState::OutboxEscape => CandidateStateTag::OutboxEscape,
            CandidateState::OutboxLinked => CandidateStateTag::OutboxLinked,
        }
    }
}

impl From<ArtifactState> for ArtifactStateTag {
    fn from(value: ArtifactState) -> (mapped: Self) {
        match value {
            ArtifactState::Candidate => ArtifactStateTag::Candidate,
            ArtifactState::PublishedLocal => ArtifactStateTag::PublishedLocal,
            ArtifactState::Registered => ArtifactStateTag::Registered,
            ArtifactState::ProviderSynced => ArtifactStateTag::ProviderSynced,
            ArtifactState::RegistrationPending => ArtifactStateTag::RegistrationPending,
            ArtifactState::Refused => ArtifactStateTag::Refused,
            ArtifactState::IntegrityMismatch => ArtifactStateTag::IntegrityMismatch,
            ArtifactState::DuplicatePublication => ArtifactStateTag::DuplicatePublication,
            ArtifactState::OutboxEscape => ArtifactStateTag::OutboxEscape,
            ArtifactState::OutboxLinked => ArtifactStateTag::OutboxLinked,
        }
    }
}

impl vstd::std_specs::convert::FromSpecImpl<ArtifactState> for ArtifactStateTag {
    open spec fn obeys_from_spec() -> bool {
        true
    }

    open spec fn from_spec(value: ArtifactState) -> Self {
        match value {
            ArtifactState::Candidate => ArtifactStateTag::Candidate,
            ArtifactState::PublishedLocal => ArtifactStateTag::PublishedLocal,
            ArtifactState::Registered => ArtifactStateTag::Registered,
            ArtifactState::ProviderSynced => ArtifactStateTag::ProviderSynced,
            ArtifactState::RegistrationPending => ArtifactStateTag::RegistrationPending,
            ArtifactState::Refused => ArtifactStateTag::Refused,
            ArtifactState::IntegrityMismatch => ArtifactStateTag::IntegrityMismatch,
            ArtifactState::DuplicatePublication => ArtifactStateTag::DuplicatePublication,
            ArtifactState::OutboxEscape => ArtifactStateTag::OutboxEscape,
            ArtifactState::OutboxLinked => ArtifactStateTag::OutboxLinked,
        }
    }
}

impl From<ProviderState> for ProviderStateTag {
    fn from(value: ProviderState) -> (mapped: Self) {
        match value {
            ProviderState::Pending => ProviderStateTag::Pending,
            ProviderState::Synced => ProviderStateTag::Synced,
            ProviderState::Failed => ProviderStateTag::Failed,
            ProviderState::Unavailable => ProviderStateTag::Unavailable,
        }
    }
}

impl vstd::std_specs::convert::FromSpecImpl<ProviderState> for ProviderStateTag {
    open spec fn obeys_from_spec() -> bool {
        true
    }

    open spec fn from_spec(value: ProviderState) -> Self {
        match value {
            ProviderState::Pending => ProviderStateTag::Pending,
            ProviderState::Synced => ProviderStateTag::Synced,
            ProviderState::Failed => ProviderStateTag::Failed,
            ProviderState::Unavailable => ProviderStateTag::Unavailable,
        }
    }
}

impl From<ManagedFileKind> for ManagedFileKindDto {
    fn from(value: ManagedFileKind) -> (mapped: Self) {
        match value {
            ManagedFileKind::Guidance => ManagedFileKindDto::Guidance,
            ManagedFileKind::Ignore => ManagedFileKindDto::Ignore,
        }
    }
}

impl vstd::std_specs::convert::FromSpecImpl<ManagedFileKind> for ManagedFileKindDto {
    open spec fn obeys_from_spec() -> bool {
        true
    }

    open spec fn from_spec(value: ManagedFileKind) -> Self {
        match value {
            ManagedFileKind::Guidance => ManagedFileKindDto::Guidance,
            ManagedFileKind::Ignore => ManagedFileKindDto::Ignore,
        }
    }
}

impl From<ManagedFileKindDto> for ManagedFileKind {
    fn from(value: ManagedFileKindDto) -> (mapped: Self) {
        match value {
            ManagedFileKindDto::Guidance => ManagedFileKind::Guidance,
            ManagedFileKindDto::Ignore => ManagedFileKind::Ignore,
        }
    }
}

impl vstd::std_specs::convert::FromSpecImpl<ManagedFileKindDto> for ManagedFileKind {
    open spec fn obeys_from_spec() -> bool {
        true
    }

    open spec fn from_spec(value: ManagedFileKindDto) -> Self {
        match value {
            ManagedFileKindDto::Guidance => ManagedFileKind::Guidance,
            ManagedFileKindDto::Ignore => ManagedFileKind::Ignore,
        }
    }
}

impl From<ManagedStatus> for ManagedStatusTag {
    fn from(value: ManagedStatus) -> (mapped: Self) {
        match value {
            ManagedStatus::Absent => ManagedStatusTag::Absent,
            ManagedStatus::Current => ManagedStatusTag::Current,
            ManagedStatus::Outdated => ManagedStatusTag::Outdated,
            ManagedStatus::Modified => ManagedStatusTag::Modified,
            ManagedStatus::Malformed => ManagedStatusTag::Malformed,
        }
    }
}

impl vstd::std_specs::convert::FromSpecImpl<ManagedStatus> for ManagedStatusTag {
    open spec fn obeys_from_spec() -> bool {
        true
    }

    open spec fn from_spec(value: ManagedStatus) -> Self {
        match value {
            ManagedStatus::Absent => ManagedStatusTag::Absent,
            ManagedStatus::Current => ManagedStatusTag::Current,
            ManagedStatus::Outdated => ManagedStatusTag::Outdated,
            ManagedStatus::Modified => ManagedStatusTag::Modified,
            ManagedStatus::Malformed => ManagedStatusTag::Malformed,
        }
    }
}

impl From<ApplyAction> for GuidanceActionTag {
    fn from(value: ApplyAction) -> (mapped: Self) {
        match value {
            ApplyAction::Insert => GuidanceActionTag::Insert,
            ApplyAction::Replace => GuidanceActionTag::Replace,
            ApplyAction::NoOp => GuidanceActionTag::NoOp,
        }
    }
}

impl vstd::std_specs::convert::FromSpecImpl<ApplyAction> for GuidanceActionTag {
    open spec fn obeys_from_spec() -> bool {
        true
    }

    open spec fn from_spec(value: ApplyAction) -> Self {
        match value {
            ApplyAction::Insert => GuidanceActionTag::Insert,
            ApplyAction::Replace => GuidanceActionTag::Replace,
            ApplyAction::NoOp => GuidanceActionTag::NoOp,
        }
    }
}

impl From<OutputDiscipline> for OutputDisciplineTag {
    fn from(value: OutputDiscipline) -> (mapped: Self) {
        match value {
            OutputDiscipline::Enforced => OutputDisciplineTag::Enforced,
            OutputDiscipline::Advisory => OutputDisciplineTag::Advisory,
        }
    }
}

impl vstd::std_specs::convert::FromSpecImpl<OutputDiscipline> for OutputDisciplineTag {
    open spec fn obeys_from_spec() -> bool {
        true
    }

    open spec fn from_spec(value: OutputDiscipline) -> Self {
        match value {
            OutputDiscipline::Enforced => OutputDisciplineTag::Enforced,
            OutputDiscipline::Advisory => OutputDisciplineTag::Advisory,
        }
    }
}

impl From<RemedyTag> for Remedy {
    fn from(value: RemedyTag) -> (mapped: Self) {
        match value {
            RemedyTag::Quarantine => Remedy::Quarantine,
            RemedyTag::Publish => Remedy::Publish,
            RemedyTag::Ignore => Remedy::Ignore,
        }
    }
}

impl vstd::std_specs::convert::FromSpecImpl<RemedyTag> for Remedy {
    open spec fn obeys_from_spec() -> bool {
        true
    }

    open spec fn from_spec(value: RemedyTag) -> Self {
        match value {
            RemedyTag::Quarantine => Remedy::Quarantine,
            RemedyTag::Publish => Remedy::Publish,
            RemedyTag::Ignore => Remedy::Ignore,
        }
    }
}

impl From<ProcessId> for ProcessIdDto {
    fn from(id: ProcessId) -> (mapped: Self) {
        ProcessIdDto(id.0)
    }
}

impl vstd::std_specs::convert::FromSpecImpl<ProcessId> for ProcessIdDto {
    open spec fn obeys_from_spec() -> bool {
        true
    }

    open spec fn from_spec(id: ProcessId) -> Self {
        ProcessIdDto(id.0)
    }
}

impl From<ProcessIdDto> for ProcessId {
    fn from(id: ProcessIdDto) -> (mapped: Self) {
        ProcessId(id.0)
    }
}

impl vstd::std_specs::convert::FromSpecImpl<ProcessIdDto> for ProcessId {
    open spec fn obeys_from_spec() -> bool {
        true
    }

    open spec fn from_spec(id: ProcessIdDto) -> Self {
        ProcessId(id.0)
    }
}

impl From<ApprovalId> for ApprovalIdDto {
    fn from(id: ApprovalId) -> (mapped: Self) {
        ApprovalIdDto(id.0)
    }
}

impl vstd::std_specs::convert::FromSpecImpl<ApprovalId> for ApprovalIdDto {
    open spec fn obeys_from_spec() -> bool {
        true
    }

    open spec fn from_spec(id: ApprovalId) -> Self {
        ApprovalIdDto(id.0)
    }
}

impl From<ApprovalIdDto> for ApprovalId {
    fn from(id: ApprovalIdDto) -> (mapped: Self) {
        ApprovalId(id.0)
    }
}

impl vstd::std_specs::convert::FromSpecImpl<ApprovalIdDto> for ApprovalId {
    open spec fn obeys_from_spec() -> bool {
        true
    }

    open spec fn from_spec(id: ApprovalIdDto) -> Self {
        ApprovalId(id.0)
    }
}

/// The wire shape of a terminal state.
pub open spec fn terminal_state_dto(state: ProcessTerminalState) -> ProcessTerminalStateDto {
    match state {
        ProcessTerminalState::Exited { code } => ProcessTerminalStateDto {
            state: ProcessTerminalStateTag::Exited,
            code,
        },
        ProcessTerminalState::Killed => ProcessTerminalStateDto {
            state: ProcessTerminalStateTag::Killed,
            code: None,
        },
        ProcessTerminalState::OrphanRiskUncertain => ProcessTerminalStateDto {
            state: ProcessTerminalStateTag::OrphanRiskUncertain,
            code: None,
        },
    }
}

impl From<ProcessTerminalState> for ProcessTerminalStateDto {
    fn from(state: ProcessTerminalState) -> (mapped: Self) {
        match state {
            ProcessTerminalState::Exited { code } => ProcessTerminalStateDto {
                state: ProcessTerminalStateTag::Exited,
                code,
            },
            ProcessTerminalState::Killed => ProcessTerminalStateDto {
                state: ProcessTerminalStateTag::Killed,
                code: None,
            },
            ProcessTerminalState::OrphanRiskUncertain => ProcessTerminalStateDto {
                state: ProcessTerminalStateTag::OrphanRiskUncertain,
                code: None,
            },
        }
    }
}

impl vstd::std_specs::convert::FromSpecImpl<ProcessTerminalState> for ProcessTerminalStateDto {
    open spec fn obeys_from_spec() -> bool {
        true
    }

    open spec fn from_spec(state: ProcessTerminalState) -> Self {
        terminal_state_dto(state)
    }
}

impl From<ProcessStatus> for ProcessStatusDto {
    fn from(status: ProcessStatus) -> (mapped: Self) {
        match status {
            ProcessStatus::Running => ProcessStatusDto::Running,
            ProcessStatus::Terminal(state) => ProcessStatusDto::Terminal {
                terminal: ProcessTerminalStateDto::from(state),
            },
        }
    }
}

impl vstd::std_specs::convert::FromSpecImpl<ProcessStatus> for ProcessStatusDto {
    open spec fn obeys_from_spec() -> bool {
        true
    }

    open spec fn from_spec(status: ProcessStatus) -> Self {
        match status {
            ProcessStatus::Running => ProcessStatusDto::Running,
            ProcessStatus::Terminal(state) => ProcessStatusDto::Terminal {
                terminal: terminal_state_dto(state),
            },
        }
    }
}

impl From<&PlatformEvidence> for PlatformEvidenceDto {
    fn from(evidence: &PlatformEvidence) -> (mapped: Self) {
        match evidence {
            PlatformEvidence::Unix { mode } => PlatformEvidenceDto::Unix { mode: *mode },
            PlatformEvidence::Windows { extension, attributes } => PlatformEvidenceDto::Windows {
                extension: extension.clone(),
                attributes: *attributes,
            },
        }
    }
}

impl vstd::std_specs::convert::FromSpecImpl<&PlatformEvidence> for PlatformEvidenceDto {
    open spec fn obeys_from_spec() -> bool {
        true
    }

    open spec fn from_spec(evidence: &PlatformEvidence) -> Self {
        match *evidence {
            PlatformEvidence::Unix { mode } => PlatformEvidenceDto::Unix { mode },
            PlatformEvidence::Windows { extension, attributes } => PlatformEvidenceDto::Windows {
                extension,
                attributes,
            },
        }
    }
}


/// What lossily decoding `bytes` as UTF-8 yields (each invalid sequence
/// replaced by U+FFFD).
pub uninterp spec fn utf8_lossy(bytes: Seq<u8>) -> Seq<char>;

/// Every byte of `bytes` is ASCII.
pub open spec fn all_ascii(bytes: Seq<u8>) -> bool {
    forall|i: int| 0 <= i < bytes.len() ==> bytes[i] < 128
}

/// The characters of ASCII `bytes`, one per byte.
pub open spec fn ascii_chars(bytes: Seq<u8>) -> Seq<char> {
    bytes.map_values(|b: u8| b as char)
}

/// Decode `bytes` as UTF-8, replacing every invalid sequence with U+FFFD:
/// `String::from_utf8_lossy`, taken as an owned string. Its result depends
/// on `bytes` alone, and valid UTF-8 (so ASCII, one character per byte)
/// comes back unchanged, as std documents.
#[verifier::external_body]
fn decode_utf8_lossy(bytes: &[u8]) -> (text: String)
    ensures
        text@ == utf8_lossy(bytes@),
        all_ascii(bytes@) ==> text@ == ascii_chars(bytes@),
{
    String::from_utf8_lossy(bytes).into_owned()
}

/// The tag of an agent phase.
pub open spec fn phase_tag(phase: AgentPhase) -> AgentPhaseTag {
    match phase {
        AgentPhase::Init => AgentPhaseTag::Init,
        AgentPhase::Finished { .. } => AgentPhaseTag::Finished,
        AgentPhase::Exited => AgentPhaseTag::Exited,
    }
}

/// The subtype riding beside a phase's tag: present for `finished` only.
pub open spec fn phase_subtype(phase: AgentPhase) -> Option<String> {
    match phase {
        AgentPhase::Finished { subtype } => Some(subtype),
        _ => None,
    }
}

/// `out` is the wire form of the proposal `entries`: names kept, digests
/// rendered as full hex, in order.
pub open spec fn proposed_entries_dto(entries: Seq<ProposedEntry>, out: Seq<ProposedEntryDto>) -> bool {
    &&& out.len() == entries.len()
    &&& forall|i: int|
        0 <= i < out.len() ==> #[trigger] out[i].name == entries[i].name && out[i].sha256@
            == hex_of(entries[i].sha256.bytes())
}

/// `out` is the wire form of the observations: each `(key, value)` pair in
/// order.
pub open spec fn observations_dto(observations: Seq<(String, String)>, out: Seq<ObservationDto>) -> bool {
    &&& out.len() == observations.len()
    &&& forall|i: int|
        0 <= i < out.len() ==> #[trigger] out[i].key == observations[i].0 && out[i].value
            == observations[i].1
}

/// `dto` is the wire form of `event`.
pub open spec fn is_event_dto(event: AdapterEvent, dto: AdapterEventDto) -> bool {
    match event {
        AdapterEvent::ArtifactPublish { entries } => dto matches AdapterEventDto::ArtifactPublish {
            entries: out,
        } && proposed_entries_dto(entries@, out@),
        AdapterEvent::State { phase, observations } => dto matches AdapterEventDto::State {
            phase: tag,
            subtype,
            observations: out,
        } && tag == phase_tag(phase) && subtype == phase_subtype(phase) && observations_dto(
            observations@,
            out@,
        ),
        AdapterEvent::Message { text } => dto == AdapterEventDto::Message { text },
        AdapterEvent::ToolCall(proposal) => dto == AdapterEventDto::ToolCall {
            name: proposal.name,
            arguments_text: proposal.arguments_text,
        },
        AdapterEvent::Diagnostic { text } => dto == AdapterEventDto::Diagnostic { text },
        AdapterEvent::Unknown { raw, truncated } => dto matches AdapterEventDto::Unknown {
            raw: text,
            truncated: t,
        } && text@ == utf8_lossy(raw@) && (all_ascii(raw@) ==> text@ == ascii_chars(raw@))
            && t == truncated,
        AdapterEvent::TerminalText { text } => dto == AdapterEventDto::TerminalText { text },
        AdapterEvent::TerminalAction(TerminalAction::Title(text)) => dto
            == AdapterEventDto::TerminalAction { action: TerminalActionKindDto::Title, text },
        AdapterEvent::TerminalAction(TerminalAction::Notification(text)) => dto
            == AdapterEventDto::TerminalAction { action: TerminalActionKindDto::Notification, text },
        AdapterEvent::TerminalDrops(counts) => dto == AdapterEventDto::TerminalDrops {
            layout: counts.layout,
            hyperlink: counts.hyperlink,
            clipboard: counts.clipboard,
            file_transfer: counts.file_transfer,
            string: counts.string,
            unknown: counts.unknown,
            malformed: counts.malformed,
        },
    }
}

impl AdapterEventDto {
    /// The wire form of an adapter event.
    pub fn from_domain(event: AdapterEvent) -> (dto: Self)
        ensures
            is_event_dto(event, dto),
    {
        match event {
            AdapterEvent::ArtifactPublish { entries } => {
                let mut out: Vec<ProposedEntryDto> = Vec::new();
                let mut i: usize = 0;
                while i < entries.len()
                    invariant
                        i <= entries@.len(),
                        proposed_entries_dto(entries@.take(i as int), out@),
                    decreases entries@.len() - i,
                {
                    out.push(
                        ProposedEntryDto {
                            name: entries[i].name.clone(),
                            sha256: entries[i].sha256.to_hex(),
                        },
                    );
                    i = i + 1;
                }
                assert(entries@.take(i as int) =~= entries@);
                AdapterEventDto::ArtifactPublish { entries: out }
            },
            AdapterEvent::State { phase, observations } => {
                let (tag, subtype) = match phase {
                    AgentPhase::Init => (AgentPhaseTag::Init, None),
                    AgentPhase::Finished { subtype } => (AgentPhaseTag::Finished, Some(subtype)),
                    AgentPhase::Exited => (AgentPhaseTag::Exited, None),
                };
                let mut out: Vec<ObservationDto> = Vec::new();
                let mut i: usize = 0;
                while i < observations.len()
                    invariant
                        i <= observations@.len(),
                        observations_dto(observations@.take(i as int), out@),
                    decreases observations@.len() - i,
                {
                    out.push(
                        ObservationDto {
                            key: observations[i].0.clone(),
                            value: observations[i].1.clone(),
                        },
                    );
                    i = i + 1;
                }
                assert(observations@.take(i as int) =~= observations@);
                AdapterEventDto::State { phase: tag, subtype, observations: out }
            },
            AdapterEvent::Message { text } => AdapterEventDto::Message { text },
            AdapterEvent::ToolCall(proposal) => AdapterEventDto::ToolCall {
                name: proposal.name,
                arguments_text: proposal.arguments_text,
            },
            AdapterEvent::Diagnostic { text } => AdapterEventDto::Diagnostic { text },
            AdapterEvent::Unknown { raw, truncated } => AdapterEventDto::Unknown {
                raw: decode_utf8_lossy(raw.as_slice()),
                truncated,
            },
            AdapterEvent::TerminalText { text } => AdapterEventDto::TerminalText { text },
            AdapterEvent::TerminalAction(action) => match action {
                TerminalAction::Title(text) => AdapterEventDto::TerminalAction {
                    action: TerminalActionKindDto::Title,
                    text,
                },
                TerminalAction::Notification(text) => AdapterEventDto::TerminalAction {
                    action: TerminalActionKindDto::Notification,
                    text,
                },
            },
            AdapterEvent::TerminalDrops(counts) => AdapterEventDto::TerminalDrops {
                layout: counts.layout,
                hyperlink: counts.hyperlink,
                clipboard: counts.clipboard,
                file_transfer: counts.file_transfer,
                string: counts.string,
                unknown: counts.unknown,
                malformed: counts.malformed,
            },
        }
    }
}

/// The wire frame of a raw captured frame of a plain (non-adapter) launch.
pub open spec fn raw_frame_wire(id: ProcessIdDto, frame: OutputFrame) -> HarnessFrame {
    match frame.payload {
        FramePayload::Text { stream: OutputStream::Stdout, text, continued } => HarnessFrame::Stdout {
            id,
            seq: frame.seq,
            dropped_before: frame.dropped_before,
            text,
            continued,
        },
        FramePayload::Text { stream: OutputStream::Stderr, text, continued } => HarnessFrame::Stderr {
            id,
            seq: frame.seq,
            dropped_before: frame.dropped_before,
            text,
            continued,
        },
        FramePayload::State(state) => HarnessFrame::State {
            id,
            seq: frame.seq,
            dropped_before: frame.dropped_before,
            terminal: terminal_state_dto(state),
        },
    }
}

/// A raw frame keeps its stream on the wire: stdout text is never shown as
/// stderr nor stderr as stdout, and text, `seq`, `dropped_before` and the
/// continuation flag pass through unchanged.
pub proof fn lemma_raw_frames_keep_their_stream(id: ProcessIdDto, frame: OutputFrame)
    ensures
        frame.payload matches FramePayload::Text { stream: OutputStream::Stderr, text, continued }
            ==> raw_frame_wire(id, frame) == (HarnessFrame::Stderr {
            id,
            seq: frame.seq,
            dropped_before: frame.dropped_before,
            text,
            continued,
        }),
        frame.payload matches FramePayload::Text { stream: OutputStream::Stdout, text, continued }
            ==> raw_frame_wire(id, frame) == (HarnessFrame::Stdout {
            id,
            seq: frame.seq,
            dropped_before: frame.dropped_before,
            text,
            continued,
        }),
        frame.payload is State ==> raw_frame_wire(id, frame) is State,
{
}

impl HarnessFrame {
    /// The wire frame for `id` of a captured frame of a plain (demo or
    /// approved) launch, whose output is always relayed raw: stdout text
    /// as a `stdout` frame, stderr text as a `stderr` frame, a terminal
    /// state as the `state` frame, each with the frame's `seq` and
    /// `dropped_before`.
    pub fn from_domain(id: ProcessIdDto, frame: OutputFrame) -> (wire: Self)
        ensures
            wire == raw_frame_wire(id, frame),
            match frame.payload {
                FramePayload::Text { stream, text, continued } => match stream {
                    OutputStream::Stdout => wire == (HarnessFrame::Stdout {
                        id,
                        seq: frame.seq,
                        dropped_before: frame.dropped_before,
                        text,
                        continued,
                    }),
                    OutputStream::Stderr => wire == (HarnessFrame::Stderr {
                        id,
                        seq: frame.seq,
                        dropped_before: frame.dropped_before,
                        text,
                        continued,
                    }),
                },
                FramePayload::State(state) => wire matches HarnessFrame::State {
                    id: i,
                    seq,
                    dropped_before,
                    terminal,
                } && i == id && seq == frame.seq && dropped_before == frame.dropped_before
                    && terminal == ProcessTerminalStateDto::from_spec(state),
            },
    {
        match frame.payload {
            FramePayload::Text { stream: OutputStream::Stdout, text, continued } => HarnessFrame::Stdout {
                id,
                seq: frame.seq,
                dropped_before: frame.dropped_before,
                text,
                continued,
            },
            FramePayload::Text { stream: OutputStream::Stderr, text, continued } => HarnessFrame::Stderr {
                id,
                seq: frame.seq,
                dropped_before: frame.dropped_before,
                text,
                continued,
            },
            FramePayload::State(state) => HarnessFrame::State {
                id,
                seq: frame.seq,
                dropped_before: frame.dropped_before,
                terminal: ProcessTerminalStateDto::from(state),
            },
        }
    }

    /// An `event` wire frame for `id` from an adapter event.
    pub fn event(id: ProcessIdDto, seq: u64, dropped_before: u64, event: AdapterEvent) -> (wire:
        Self)
        ensures
            wire matches HarnessFrame::Event { id: i, seq: s, dropped_before: d, event: dto } && i
                == id && s == seq && d == dropped_before && is_event_dto(event, dto),
    {
        Self::event_dto(id, seq, dropped_before, AdapterEventDto::from_domain(event))
    }

    /// An `event` wire frame for `id` from an already-shaped event: the
    /// shell's own run-end summaries and diagnostics.
    pub fn event_dto(id: ProcessIdDto, seq: u64, dropped_before: u64, event: AdapterEventDto) -> (wire: Self)
        ensures
            wire == (HarnessFrame::Event { id, seq, dropped_before, event }),
    {
        HarnessFrame::Event { id, seq, dropped_before, event }
    }
}

impl AdapterDescriptorDto {
    /// A descriptor's metadata, as it crosses IPC.
    pub fn from_descriptor(descriptor: &AdapterDescriptor) -> (dto: Self)
        ensures
            dto == (AdapterDescriptorDto {
                id: descriptor.id,
                display_name: descriptor.display_name,
                transport_class: TransportClassDto::from_spec(descriptor.transport_class),
                prompt_channel: PromptChannelDto::from_spec(descriptor.prompt_channel),
                scope_mode: ScopeModeDto::from_spec(descriptor.scope_mode),
                notes: descriptor.notes,
            }),
    {
        AdapterDescriptorDto {
            id: descriptor.id.clone(),
            display_name: descriptor.display_name.clone(),
            transport_class: TransportClassDto::from(descriptor.transport_class),
            prompt_channel: PromptChannelDto::from(descriptor.prompt_channel),
            scope_mode: ScopeModeDto::from(descriptor.scope_mode),
            notes: descriptor.notes.clone(),
        }
    }
}


/// Milliseconds since the Unix epoch: `0` for an instant before it, and
/// `u64::MAX` for one past what `u64` milliseconds hold.
pub open spec fn epoch_millis(at: EpochOffset) -> u64 {
    match at {
        EpochOffset::BeforeEpoch => 0,
        EpochOffset::AfterEpoch { millis } => if millis > u64::MAX as u128 {
            u64::MAX
        } else {
            millis as u64
        },
    }
}

/// An instant as milliseconds since the Unix epoch, saturating at both
/// ends.
pub fn system_time_to_millis(at: EpochOffset) -> (millis: u64)
    ensures
        millis == epoch_millis(at),
{
    match at {
        EpochOffset::BeforeEpoch => 0,
        EpochOffset::AfterEpoch { millis } => if millis > u64::MAX as u128 {
            u64::MAX
        } else {
            millis as u64
        },
    }
}

/// `count` as a `u32`, saturating at `u32::MAX`.
pub open spec fn saturating_u32(count: u64) -> u32 {
    if count > u32::MAX as u64 {
        u32::MAX
    } else {
        count as u32
    }
}

/// `count` as a `u32`, saturating at `u32::MAX`.
pub fn count_u32(count: u64) -> (narrowed: u32)
    ensures
        narrowed == saturating_u32(count),
{
    if count > u32::MAX as u64 {
        u32::MAX
    } else {
        count as u32
    }
}

impl WorkspaceDto {
    /// A workspace's payload: its canonical path, for display, and the
    /// work area's state against it.
    pub fn new(display_path: String, work_area: WorkAreaStateTag) -> (dto: Self)
        ensures
            dto == (WorkspaceDto { display_path, work_area }),
    {
        WorkspaceDto { display_path, work_area }
    }
}

/// The wire form of an attribution.
pub open spec fn attribution_dto(attribution: Attribution) -> AttributionDto {
    match attribution {
        Attribution::Run(run_id) => AttributionDto::Run { run_id },
        Attribution::Unattributed => AttributionDto::Unattributed,
    }
}

fn attribution_of(attribution: &Attribution) -> (dto: AttributionDto)
    ensures
        dto == attribution_dto(*attribution),
{
    match attribution {
        Attribution::Run(run_id) => AttributionDto::Run { run_id: run_id.clone() },
        Attribution::Unattributed => AttributionDto::Unattributed,
    }
}

/// `text` is `Some` full-hex rendering of `digest` exactly when `present`.
pub open spec fn hex_when(present: bool, text: Option<String>, bytes: Seq<u8>) -> bool {
    if present {
        text matches Some(t) && t@ == hex_of(bytes)
    } else {
        text is None
    }
}

/// `dto` is the row of `entry` in `state`: the facts taken from the
/// entry's handle appear only for an entry in the `Candidate` state.
pub open spec fn is_candidate_dto(entry: CandidateEntry, state: CandidateState, dto: CandidateDto) -> bool {
    let digested = state == CandidateState::Candidate;
    &&& dto.name == entry.name
    &&& dto.state == CandidateStateTag::from_spec(state)
    &&& dto.attribution == attribution_dto(entry.attribution)
    &&& dto.size == (if digested {
        Some(entry.size)
    } else {
        None
    })
    &&& hex_when(digested, dto.sha256, entry.digest.bytes())
    &&& hex_when(digested, dto.sha256_short, entry.digest.bytes().take(4))
    &&& dto.detected_type == (if digested {
        Some(entry.detected_type)
    } else {
        None
    })
    &&& dto.class == (if digested {
        Some(entry.class)
    } else {
        None
    })
}

/// `rows` are the rows of `listed`, one for one, in order.
pub open spec fn are_candidate_rows(listed: Seq<ListedCandidate>, rows: Seq<CandidateDto>) -> bool {
    &&& rows.len() == listed.len()
    &&& forall|i: int|
        0 <= i < rows.len() ==> is_candidate_dto(listed[i].entry, listed[i].state, #[trigger] rows[i])
}

/// The rows of `listed`, in order.
pub fn candidate_rows(listed: &Vec<ListedCandidate>) -> (rows: Vec<CandidateDto>)
    ensures
        are_candidate_rows(listed@, rows@),
{
    let mut rows: Vec<CandidateDto> = Vec::new();
    let mut i: usize = 0;
    while i < listed.len()
        invariant
            i <= listed.len(),
            are_candidate_rows(listed@.take(i as int), rows@),
        decreases listed.len() - i,
    {
        rows.push(CandidateDto::from_candidate(&listed[i].entry, listed[i].state));
        i = i + 1;
    }
    assert(listed@.take(i as int) =~= listed@);
    rows
}

impl CandidateDto {
    /// A candidate row. The facts taken from the entry's handle are shown
    /// only for an entry in the `Candidate` state: a refused entry was
    /// never digested.
    pub fn from_candidate(entry: &CandidateEntry, state: CandidateState) -> (dto: Self)
        ensures
            is_candidate_dto(*entry, state, dto),
    {
        let digested = match state {
            CandidateState::Candidate => true,
            _ => false,
        };
        CandidateDto {
            name: entry.name.clone(),
            size: if digested { Some(entry.size) } else { None },
            sha256: if digested { Some(entry.digest.to_hex()) } else { None },
            sha256_short: if digested { Some(entry.digest.short_hex()) } else { None },
            detected_type: if digested { Some(entry.detected_type.clone()) } else { None },
            class: if digested { Some(entry.class.clone()) } else { None },
            attribution: attribution_of(&entry.attribution),
            state: CandidateStateTag::from(state),
        }
    }
}

impl PortableReferenceDto {
    /// A reference's wire form: the publication identity as 64 hex
    /// characters and the Catalog identity.
    pub fn from_reference(reference: &PortableReference) -> (dto: Self)
        ensures
            dto.kind == ReferenceKindTag::Artifact,
            dto.id@ == hex_of(reference.id.bytes()),
            dto.locator == reference.locator,
    {
        PortableReferenceDto {
            kind: ReferenceKindTag::Artifact,
            id: reference.id.to_hex(),
            locator: reference.locator.clone(),
        }
    }
}

/// `dto` is the wire form of `reference`.
pub open spec fn is_reference_dto(reference: Option<PortableReference>, dto: Option<PortableReferenceDto>) -> bool {
    match reference {
        None => dto is None,
        Some(r) => dto matches Some(d) && d.kind == ReferenceKindTag::Artifact && d.id@ == hex_of(
            r.id.bytes(),
        ) && d.locator == r.locator,
    }
}

fn reference_of(reference: &Option<PortableReference>) -> (dto: Option<PortableReferenceDto>)
    ensures
        is_reference_dto(*reference, dto),
{
    match reference {
        Some(r) => Some(PortableReferenceDto::from_reference(r)),
        None => None,
    }
}

pub fn clone_names(names: &Vec<String>) -> (copy: Vec<String>)
    ensures
        copy@ == names@,
{
    let mut copy: Vec<String> = Vec::new();
    let mut i: usize = 0;
    while i < names.len()
        invariant
            i <= names.len(),
            copy@ == names@.take(i as int),
        decreases names.len() - i,
    {
        copy.push(names[i].clone());
        i = i + 1;
    }
    assert(copy@ =~= names@);
    copy
}

impl ArtifactApprovalDto {
    /// An approval's payload: its identity-bound facts, the derived ids as
    /// hex, and whether the entry's handle is held for the publication.
    pub fn from_approval(approval: &ArtifactApproval, handle_held: bool) -> (dto: Self)
        ensures
            dto.approval_id@ == hex_of(approval.approval_id.bytes()),
            dto.publication_id@ == hex_of(approval.publication_id.bytes()),
            dto.run_id == approval.run_id,
            dto.name == approval.name,
            dto.display_name == approval.display_name,
            dto.sha256_short@ == hex_of(approval.digest.bytes().take(4)),
            dto.size == approval.size,
            dto.detected_type == approval.detected_type,
            dto.class == approval.class,
            dto.attribution == attribution_dto(approval.attribution),
            dto.asset_root_id == approval.asset_root_id,
            dto.act_as == ActAsTag::DeviceLocalUser,
            dto.approved_at == epoch_millis(approval.approved_at),
            dto.handle_held == handle_held,
            match approval.source {
                ApprovalSource::Outbox => dto.recovered_from is None,
                ApprovalSource::Recovery { recovered_from } => dto.recovered_from matches Some(p)
                    && p@ == hex_of(recovered_from.bytes()),
            },
    {
        ArtifactApprovalDto {
            approval_id: approval.approval_id.to_hex(),
            publication_id: approval.publication_id.to_hex(),
            run_id: match &approval.run_id {
                Some(run_id) => Some(run_id.clone()),
                None => None,
            },
            name: approval.name.clone(),
            display_name: approval.display_name.clone(),
            sha256_short: approval.digest.short_hex(),
            size: approval.size,
            detected_type: approval.detected_type.clone(),
            class: approval.class.clone(),
            attribution: attribution_of(&approval.attribution),
            asset_root_id: approval.asset_root_id.clone(),
            act_as: ActAsTag::DeviceLocalUser,
            approved_at: system_time_to_millis(approval.approved_at),
            handle_held,
            recovered_from: match approval.source {
                ApprovalSource::Outbox => None,
                ApprovalSource::Recovery { recovered_from } => Some(recovered_from.to_hex()),
            },
        }
    }
}

/// `dto` lists the registered `record` with `availability`.
pub open spec fn is_record_dto(record: CatalogRecord, availability: AvailabilityTag, dto: PublicationDto) -> bool {
    &&& dto.publication_id@ == hex_of(record.publication_id.bytes())
    &&& dto.state == ArtifactStateTag::from_spec(record.state)
    &&& is_reference_dto(record.reference, dto.reference)
    &&& dto.provider_state == Some(ProviderStateTag::from_spec(record.provider_state))
    &&& dto.catalog_id == Some(record.catalog_id)
    &&& dto.names@ == record.names@
    &&& dto.availability == availability
}

impl PublicationDto {
    /// A registered record, as listed.
    pub fn from_record(record: &CatalogRecord, availability: AvailabilityTag) -> (dto: Self)
        ensures
            is_record_dto(*record, availability, dto),
    {
        PublicationDto {
            publication_id: record.publication_id.to_hex(),
            state: ArtifactStateTag::from(record.state),
            reference: reference_of(&record.reference),
            provider_state: Some(ProviderStateTag::from(record.provider_state)),
            catalog_id: Some(record.catalog_id.clone()),
            names: clone_names(&record.names),
            availability,
        }
    }

    /// A publication as the transaction left it: `registered` with its
    /// record's provider state and Catalog identity, or
    /// `registration-pending` with neither yet.
    pub fn from_published(published: &Published, availability: AvailabilityTag) -> (dto: Self)
        ensures
            dto.publication_id@ == hex_of(published.record.publication_id.bytes()),
            dto.state == ArtifactStateTag::from_spec(published.state),
            is_reference_dto(published.reference, dto.reference),
            dto.provider_state == (if published.state == ArtifactState::Registered {
                Some(ProviderStateTag::from_spec(published.record.provider_state))
            } else {
                None
            }),
            dto.catalog_id == (if published.state == ArtifactState::Registered {
                Some(published.record.catalog_id)
            } else {
                None
            }),
            dto.names@ == published.record.names@,
            dto.availability == availability,
    {
        let registered = match published.state {
            ArtifactState::Registered => true,
            _ => false,
        };
        PublicationDto {
            publication_id: published.record.publication_id.to_hex(),
            state: ArtifactStateTag::from(published.state),
            reference: reference_of(&published.reference),
            provider_state: if registered {
                Some(ProviderStateTag::from(published.record.provider_state))
            } else {
                None
            },
            catalog_id: if registered {
                Some(published.record.catalog_id.clone())
            } else {
                None
            },
            names: clone_names(&published.record.names),
            availability,
        }
    }
}

impl ArtifactStateFrame {
    /// One `artifact.state` transition's wire frame.
    pub fn from_event(event: &StateEvent) -> (frame: Self)
        ensures
            frame matches ArtifactStateFrame::ArtifactState { publication_id, state, provider_state }
                && publication_id@ == hex_of(event.publication_id.bytes()) && state
                == ArtifactStateTag::from_spec(event.state) && provider_state == (match event.provider_state {
                Some(p) => Some(ProviderStateTag::from_spec(p)),
                None => None,
            }),
    {
        ArtifactStateFrame::ArtifactState {
            publication_id: event.publication_id.to_hex(),
            state: ArtifactStateTag::from(event.state),
            provider_state: match event.provider_state {
                Some(p) => Some(ProviderStateTag::from(p)),
                None => None,
            },
        }
    }
}

/// `text` is the full and `short` the short hex of `digest`, or both are
/// absent with it.
pub open spec fn digest_texts(digest: Option<crate::domain::Sha256Digest>, text: Option<String>, short: Option<String>) -> bool {
    match digest {
        Some(d) => (text matches Some(t) && t@ == hex_of(d.bytes())) && (short matches Some(s)
            && s@ == hex_of(d.bytes().take(4))),
        None => text is None && short is None,
    }
}

impl GuidanceStatusDto {
    /// A managed file's status payload; counts beyond `u32` saturate.
    pub fn from_status(kind: ManagedFileKind, status: &GuidanceStatus) -> (dto: Self)
        ensures
            dto.kind == ManagedFileKindDto::from_spec(kind),
            dto.file == status.file,
            dto.exists == status.exists,
            dto.managed == ManagedStatusTag::from_spec(status.managed),
            dto.template_version == status.template_version,
            digest_texts(status.file_sha256, dto.file_sha256, dto.file_sha256_short),
            dto.snapshots == saturating_u32(status.snapshots),
            dto.pinned == saturating_u32(status.pinned),
    {
        GuidanceStatusDto {
            kind: ManagedFileKindDto::from(kind),
            file: status.file.clone(),
            exists: status.exists,
            managed: ManagedStatusTag::from(status.managed),
            template_version: status.template_version.clone(),
            file_sha256: match status.file_sha256 {
                Some(d) => Some(d.to_hex()),
                None => None,
            },
            file_sha256_short: match status.file_sha256 {
                Some(d) => Some(d.short_hex()),
                None => None,
            },
            snapshots: count_u32(status.snapshots),
            pinned: count_u32(status.pinned),
        }
    }
}

impl GuidancePreviewDto {
    /// A guidance apply's proposal payload.
    pub fn from_preview(kind: ManagedFileKind, preview: &GuidancePreview) -> (dto: Self)
        ensures
            dto.kind == ManagedFileKindDto::from_spec(kind),
            dto.file == preview.file,
            dto.action == GuidanceActionTag::from_spec(preview.action),
            dto.proposed == preview.proposed_block,
            digest_texts(preview.file_sha256, dto.file_sha256, dto.file_sha256_short),
            dto.result_sha256_short@ == hex_of(preview.result_sha256.bytes().take(4)),
    {
        GuidancePreviewDto {
            kind: ManagedFileKindDto::from(kind),
            file: preview.file.clone(),
            action: GuidanceActionTag::from(preview.action),
            proposed: preview.proposed_block.clone(),
            file_sha256: match preview.file_sha256 {
                Some(d) => Some(d.to_hex()),
                None => None,
            },
            file_sha256_short: match preview.file_sha256 {
                Some(d) => Some(d.short_hex()),
                None => None,
            },
            result_sha256_short: preview.result_sha256.short_hex(),
        }
    }
}

impl SnapshotDto {
    /// One snapshot's row.
    pub fn from_manifest(manifest: &SnapshotManifest) -> (dto: Self)
        ensures
            dto.id@ == hex_of(manifest.id.bytes()),
            dto.kind == ManagedFileKindDto::from_spec(manifest.kind),
            dto.file == manifest.file,
            dto.existed == manifest.existed,
            dto.sha256_short@ == hex_of(manifest.sha256.bytes().take(4)),
            dto.size == manifest.size,
            dto.taken_at == epoch_millis(manifest.taken_at),
            dto.pinned == manifest.pinned,
    {
        SnapshotDto {
            id: manifest.id.to_hex(),
            kind: ManagedFileKindDto::from(manifest.kind),
            file: manifest.file.clone(),
            existed: manifest.existed,
            sha256_short: manifest.sha256.short_hex(),
            size: manifest.size,
            taken_at: system_time_to_millis(manifest.taken_at),
            pinned: manifest.pinned,
        }
    }
}

impl WrongRootStatusDto {
    /// The status for `discipline` under `mode`, with the disclosures the
    /// discipline carries.
    pub fn of(discipline: OutputDiscipline, mode: ScopeMode, scanned: bool, findings: u32) -> (dto:
        Self)
        ensures
            dto.output_discipline == OutputDisciplineTag::from_spec(discipline),
            dto.scope_mode == ScopeModeDto::from_spec(mode),
            dto.disclosures@.map_values(|text: String| text@) == discipline.spec_disclosures(),
            dto.scanned == scanned,
            dto.findings == findings,
    {
        WrongRootStatusDto {
            output_discipline: OutputDisciplineTag::from(discipline),
            scope_mode: ScopeModeDto::from(mode),
            disclosures: discipline.disclosures(),
            scanned,
            findings,
        }
    }
}

/// `dto` is the row of `finding`: its facts, both renderings of its
/// digest, and the three remedies offered.
pub open spec fn is_misplaced_dto(finding: MisplacedFinding, dto: MisplacedDto) -> bool {
    &&& dto.name == finding.name
    &&& dto.size == finding.size
    &&& dto.sha256@ == hex_of(finding.digest.bytes())
    &&& dto.sha256_short@ == hex_of(finding.digest.bytes().take(4))
    &&& dto.detected_type == finding.detected_type
    &&& dto.class == finding.class
    &&& dto.reason == finding.reason
    &&& dto.remedies@.map_values(|text: String| text@) == remedy_tokens()
}

impl MisplacedDto {
    /// The row for `finding`, offering the three remedies.
    pub fn from_finding(finding: &MisplacedFinding) -> (dto: Self)
        ensures
            is_misplaced_dto(*finding, dto),
    {
        let mut remedies: Vec<String> = Vec::new();
        remedies.push(Remedy::Quarantine.as_str().to_owned());
        remedies.push(Remedy::Publish.as_str().to_owned());
        remedies.push(Remedy::Ignore.as_str().to_owned());
        assert(remedies@.map_values(|text: String| text@) =~= remedy_tokens());
        MisplacedDto {
            name: finding.name.clone(),
            size: finding.size,
            sha256: finding.digest.to_hex(),
            sha256_short: finding.digest.short_hex(),
            detected_type: finding.detected_type.clone(),
            class: finding.class.clone(),
            reason: finding.reason.clone(),
            remedies,
        }
    }
}

/// `dto` is the evidence of `identity`.
pub open spec fn is_evidence_dto(identity: ExecutableIdentity, dto: EvidenceDto) -> bool {
    &&& dto.canonical_path == identity.canonical_path
    &&& dto.size == identity.size
    &&& dto.sha256@ == hex_of(identity.sha256.bytes())
    &&& dto.sha256_short@ == hex_of(identity.sha256.bytes().take(4))
    &&& dto.modified_at == (match identity.modified_at {
        Some(at) => Some(epoch_millis(at)),
        None => None,
    })
    &&& dto.platform == PlatformEvidenceDto::from_spec(&identity.platform)
}

impl EvidenceDto {
    /// An executable identity's evidence.
    pub fn from_identity(identity: &ExecutableIdentity) -> (dto: Self)
        ensures
            is_evidence_dto(*identity, dto),
    {
        EvidenceDto {
            canonical_path: identity.canonical_path.clone(),
            size: identity.size,
            sha256: identity.sha256.to_hex(),
            sha256_short: identity.sha256.short_hex(),
            modified_at: match identity.modified_at {
                Some(at) => Some(system_time_to_millis(at)),
                None => None,
            },
            platform: PlatformEvidenceDto::from(&identity.platform),
        }
    }
}

impl ApprovalDto {
    /// One executable approval on record; the revocation instant rides
    /// beside a revoked status only.
    pub fn from_record(record: &ApprovalRecord) -> (dto: Self)
        ensures
            dto.approval_id == ApprovalIdDto::from_spec(record.approval_id),
            is_evidence_dto(record.identity, dto.evidence),
            dto.approved_at == epoch_millis(record.approved_at),
            match record.status {
                ApprovalStatus::Active => dto.status == ApprovalStatusTag::Active && dto.revoked_at is None,
                ApprovalStatus::Revoked { revoked_at } => dto.status == ApprovalStatusTag::Revoked
                    && dto.revoked_at == Some(epoch_millis(revoked_at)),
            },
    {
        let (status, revoked_at) = match record.status {
            ApprovalStatus::Active => (ApprovalStatusTag::Active, None),
            ApprovalStatus::Revoked { revoked_at } => (
                ApprovalStatusTag::Revoked,
                Some(system_time_to_millis(revoked_at)),
            ),
        };
        ApprovalDto {
            approval_id: ApprovalIdDto::from(record.approval_id),
            evidence: EvidenceDto::from_identity(&record.identity),
            approved_at: system_time_to_millis(record.approved_at),
            status,
            revoked_at,
        }
    }
}


/// No message a [`ProbeOutcome`] is reported with names a path.
pub proof fn lemma_probe_failure_messages_name_no_path(outcome: ProbeOutcome)
    ensures
        names_no_path(probe_failure_message(outcome)),
{
    reveal_strlit("the executable could not be read");
    reveal_strlit("the target is not a regular, executable file");
    reveal_strlit("the executable exceeds the size limit");
    reveal_strlit("an unexpected probe result was returned");
}

} // verus!
