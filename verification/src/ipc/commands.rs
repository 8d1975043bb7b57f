//! The harness, executable-approval, workspace, and outbox commands'
//! decisions: every error a failed command reports is a fixed catalogue
//! message, never the underlying error's own text, and every wire frame of
//! an adapter launch is numbered contiguously with the terminal `state`
//! frame last.

use vstd::prelude::*;

use crate::domain::{
    AdapterEvent, CandidateSummary, ListedCandidate, ProposedEntry, DropCounts, ProcessTerminalState, TerminalAction, TerminalChunk, TransportClass,
};
use crate::executable_state::{inserted, CandidateId, CandidateTable};
use crate::failures::{
    ProbeOutcome, WorkAreaError, ApprovalStoreError, DenialReason, InvalidRequest, LaunchPlanError, OutboxDeclarationError,
    OutboxFailure, PolicyError, PrepareError, PromptError, SupervisorError,
};
use crate::domain::ExecutableIdentity;
use crate::hex::hex_of;
use crate::text::{decimal, decimal_string};
use crate::ipc::dto::{
    names_no_path,
    is_event_dto, terminal_state_dto, AdapterEventDto, CandidateDto, HarnessFrame, OutboxReasonTag,
    OutboxStateTag, OutboxStatusDto, ProcessIdDto, ProcessTerminalStateDto, WorkAreaStateTag,
    WorkspaceDto,
    are_candidate_rows, candidate_rows, fails_with, is_catalogue_error, is_evidence_dto, probe_failure_code, EvidenceDto, ProbeResultDto, probe_failure_message, CandidateIdDto, ShellError,
    ShellErrorCode, ShellErrorDetail,
};

verus! {

/// The code a [`SupervisorError`] is reported under.
pub open spec fn supervisor_error_code(error: SupervisorError) -> ShellErrorCode {
    match error {
        SupervisorError::Spawn => ShellErrorCode::SpawnFailed,
        SupervisorError::UnknownProcess => ShellErrorCode::UnknownProcess,
        SupervisorError::AlreadySubscribed => ShellErrorCode::AlreadySubscribed,
        SupervisorError::TooManyProcesses => ShellErrorCode::TooManyProcesses,
        SupervisorError::PtyUnsupported => ShellErrorCode::PtyUnsupported,
    }
}

/// The catalogue message a [`SupervisorError`] is reported with.
pub open spec fn supervisor_error_message(error: SupervisorError) -> Seq<char> {
    match error {
        SupervisorError::Spawn => "failed to start the requested process"@,
        SupervisorError::UnknownProcess => "no process with that id is known"@,
        SupervisorError::AlreadySubscribed => "output for that process id is already subscribed"@,
        SupervisorError::TooManyProcesses => "too many processes are already running"@,
        SupervisorError::PtyUnsupported => "pseudo-terminal launches are not available on this platform"@,
    }
}

impl From<SupervisorError> for ShellError {
    /// Every supervisor failure, as its own code and a fixed message; never the spawn error's text, which can hold the program's path.
    fn from(error: SupervisorError) -> (mapped: Self)
        ensures
            is_catalogue_error(mapped, supervisor_error_code(error), supervisor_error_message(error)),
    {
        match error {
            SupervisorError::Spawn => ShellError::new(ShellErrorCode::SpawnFailed, "failed to start the requested process"),
            SupervisorError::UnknownProcess => ShellError::new(ShellErrorCode::UnknownProcess, "no process with that id is known"),
            SupervisorError::AlreadySubscribed => ShellError::new(ShellErrorCode::AlreadySubscribed, "output for that process id is already subscribed"),
            SupervisorError::TooManyProcesses => ShellError::new(ShellErrorCode::TooManyProcesses, "too many processes are already running"),
            SupervisorError::PtyUnsupported => ShellError::new(ShellErrorCode::PtyUnsupported, "pseudo-terminal launches are not available on this platform"),
        }
    }
}

impl vstd::std_specs::convert::FromSpecImpl<SupervisorError> for ShellError {
    /// The mapping is stated on `from` itself: a catalogue message is a
    /// `String`, which no spec expression builds.
    open spec fn obeys_from_spec() -> bool {
        false
    }

    open spec fn from_spec(error: SupervisorError) -> Self {
        vstd::pervasive::arbitrary()
    }
}

/// The code a [`InvalidRequest`] is reported under.
pub open spec fn invalid_request_code(error: InvalidRequest) -> ShellErrorCode {
    ShellErrorCode::InvalidRequest
}

/// The catalogue message a [`InvalidRequest`] is reported with.
pub open spec fn invalid_request_message(error: InvalidRequest) -> Seq<char> {
    "the requested rate_hz or lines value is out of the accepted range"@
}

impl From<InvalidRequest> for ShellError {
    /// An out-of-range demo request.
    fn from(error: InvalidRequest) -> (mapped: Self)
        ensures
            is_catalogue_error(mapped, invalid_request_code(error), invalid_request_message(error)),
    {
        ShellError::new(ShellErrorCode::InvalidRequest, "the requested rate_hz or lines value is out of the accepted range")
    }
}

impl vstd::std_specs::convert::FromSpecImpl<InvalidRequest> for ShellError {
    /// The mapping is stated on `from` itself: a catalogue message is a
    /// `String`, which no spec expression builds.
    open spec fn obeys_from_spec() -> bool {
        false
    }

    open spec fn from_spec(error: InvalidRequest) -> Self {
        vstd::pervasive::arbitrary()
    }
}

/// The code a [`ApprovalStoreError`] is reported under.
pub open spec fn approval_store_error_code(error: ApprovalStoreError) -> ShellErrorCode {
    ShellErrorCode::ApprovalStoreUnavailable
}

/// The catalogue message a [`ApprovalStoreError`] is reported with.
pub open spec fn approval_store_error_message(error: ApprovalStoreError) -> Seq<char> {
    "the approval store is unavailable"@
}

impl From<ApprovalStoreError> for ShellError {
    /// Every approval-store failure is the one `approval-store-unavailable`: none is actionable differently by a caller.
    fn from(error: ApprovalStoreError) -> (mapped: Self)
        ensures
            is_catalogue_error(mapped, approval_store_error_code(error), approval_store_error_message(error)),
    {
        ShellError::new(ShellErrorCode::ApprovalStoreUnavailable, "the approval store is unavailable")
    }
}

impl vstd::std_specs::convert::FromSpecImpl<ApprovalStoreError> for ShellError {
    /// The mapping is stated on `from` itself: a catalogue message is a
    /// `String`, which no spec expression builds.
    open spec fn obeys_from_spec() -> bool {
        false
    }

    open spec fn from_spec(error: ApprovalStoreError) -> Self {
        vstd::pervasive::arbitrary()
    }
}

/// The code a [`LaunchPlanError`] is reported under.
pub open spec fn launch_plan_error_code(error: LaunchPlanError) -> ShellErrorCode {
    match error {
        LaunchPlanError::SecretShapedEnvKey => ShellErrorCode::SecretShapedEnv,
        LaunchPlanError::CwdOutsideWorkspace => ShellErrorCode::WorkspaceUnavailable,
        LaunchPlanError::PromptChannelUnsupported => ShellErrorCode::InvalidRequest,
        LaunchPlanError::PromptNotTypeable => ShellErrorCode::PromptNotTypeable,
        LaunchPlanError::AssignmentOnInheritedEnv => ShellErrorCode::InvalidRequest,
    }
}

/// The catalogue message a [`LaunchPlanError`] is reported with.
pub open spec fn launch_plan_error_message(error: LaunchPlanError) -> Seq<char> {
    match error {
        LaunchPlanError::SecretShapedEnvKey => "the adapter declared an environment variable that looks secret-shaped"@,
        LaunchPlanError::CwdOutsideWorkspace => "the working directory resolves outside the workspace"@,
        LaunchPlanError::PromptChannelUnsupported => "this adapter's prompt channel is not supported"@,
        LaunchPlanError::PromptNotTypeable => "prompt contains control characters a terminal would interpret"@,
        LaunchPlanError::AssignmentOnInheritedEnv => "this launch plan cannot declare an output directory"@,
    }
}

impl From<LaunchPlanError> for ShellError {
    /// A launch plan that could not be built, as its catalogue error.
    fn from(error: LaunchPlanError) -> (mapped: Self)
        ensures
            is_catalogue_error(mapped, launch_plan_error_code(error), launch_plan_error_message(error)),
    {
        match error {
            LaunchPlanError::SecretShapedEnvKey => ShellError::new(ShellErrorCode::SecretShapedEnv, "the adapter declared an environment variable that looks secret-shaped"),
            LaunchPlanError::CwdOutsideWorkspace => ShellError::new(ShellErrorCode::WorkspaceUnavailable, "the working directory resolves outside the workspace"),
            LaunchPlanError::PromptChannelUnsupported => ShellError::new(ShellErrorCode::InvalidRequest, "this adapter's prompt channel is not supported"),
            LaunchPlanError::PromptNotTypeable => ShellError::new(ShellErrorCode::PromptNotTypeable, "prompt contains control characters a terminal would interpret"),
            LaunchPlanError::AssignmentOnInheritedEnv => ShellError::new(ShellErrorCode::InvalidRequest, "this launch plan cannot declare an output directory"),
        }
    }
}

impl vstd::std_specs::convert::FromSpecImpl<LaunchPlanError> for ShellError {
    /// The mapping is stated on `from` itself: a catalogue message is a
    /// `String`, which no spec expression builds.
    open spec fn obeys_from_spec() -> bool {
        false
    }

    open spec fn from_spec(error: LaunchPlanError) -> Self {
        vstd::pervasive::arbitrary()
    }
}

/// The code a [`PrepareError`] is reported under.
pub open spec fn prepare_error_code(error: PrepareError) -> ShellErrorCode {
    match error {
        PrepareError::Declaration(_) => ShellErrorCode::OutboxUnavailable,
        PrepareError::OutboxMissing | PrepareError::OutboxUnopenable => ShellErrorCode::OutboxUnavailable,
        PrepareError::AlreadyExists => ShellErrorCode::OutboxUnavailable,
        PrepareError::CreateFailed | PrepareError::OpenFailed => ShellErrorCode::OutboxUnavailable,
        PrepareError::Verification => ShellErrorCode::OutboxUnavailable,
    }
}

/// The catalogue message a [`PrepareError`] is reported with.
pub open spec fn prepare_error_message(error: PrepareError) -> Seq<char> {
    match error {
        PrepareError::Declaration(_) => "the declared outbox is invalid or unavailable, so no run subdirectory can be declared"@,
        PrepareError::OutboxMissing | PrepareError::OutboxUnopenable => "the outbox could not be created or opened"@,
        PrepareError::AlreadyExists => "something already sits at the run subdirectory path; remove it and relaunch"@,
        PrepareError::CreateFailed | PrepareError::OpenFailed => "the run subdirectory could not be created"@,
        PrepareError::Verification => "the run subdirectory could not be verified by handle"@,
    }
}

impl From<PrepareError> for ShellError {
    /// Every run-subdirectory preparation failure is `outbox-unavailable`; the message names the step, never a path.
    fn from(error: PrepareError) -> (mapped: Self)
        ensures
            is_catalogue_error(mapped, prepare_error_code(error), prepare_error_message(error)),
    {
        match error {
            PrepareError::Declaration(_) => ShellError::new(ShellErrorCode::OutboxUnavailable, "the declared outbox is invalid or unavailable, so no run subdirectory can be declared"),
            PrepareError::OutboxMissing | PrepareError::OutboxUnopenable => ShellError::new(ShellErrorCode::OutboxUnavailable, "the outbox could not be created or opened"),
            PrepareError::AlreadyExists => ShellError::new(ShellErrorCode::OutboxUnavailable, "something already sits at the run subdirectory path; remove it and relaunch"),
            PrepareError::CreateFailed | PrepareError::OpenFailed => ShellError::new(ShellErrorCode::OutboxUnavailable, "the run subdirectory could not be created"),
            PrepareError::Verification => ShellError::new(ShellErrorCode::OutboxUnavailable, "the run subdirectory could not be verified by handle"),
        }
    }
}

impl vstd::std_specs::convert::FromSpecImpl<PrepareError> for ShellError {
    /// The mapping is stated on `from` itself: a catalogue message is a
    /// `String`, which no spec expression builds.
    open spec fn obeys_from_spec() -> bool {
        false
    }

    open spec fn from_spec(error: PrepareError) -> Self {
        vstd::pervasive::arbitrary()
    }
}

/// The code a [`PolicyError`] is reported under.
pub open spec fn policy_error_code(error: PolicyError) -> ShellErrorCode {
    ShellErrorCode::OutboxInvalid
}

/// The catalogue message a [`PolicyError`] is reported with.
pub open spec fn policy_error_message(error: PolicyError) -> Seq<char> {
    "the classification policy could not be loaded"@
}

impl From<PolicyError> for ShellError {
    /// A policy that cannot be loaded leaves the declaration unknowable: `outbox-invalid`.
    fn from(error: PolicyError) -> (mapped: Self)
        ensures
            is_catalogue_error(mapped, policy_error_code(error), policy_error_message(error)),
    {
        ShellError::new(ShellErrorCode::OutboxInvalid, "the classification policy could not be loaded")
    }
}

impl vstd::std_specs::convert::FromSpecImpl<PolicyError> for ShellError {
    /// The mapping is stated on `from` itself: a catalogue message is a
    /// `String`, which no spec expression builds.
    open spec fn obeys_from_spec() -> bool {
        false
    }

    open spec fn from_spec(error: PolicyError) -> Self {
        vstd::pervasive::arbitrary()
    }
}

/// The code a [`OutboxDeclarationError`] is reported under.
pub open spec fn declaration_error_code(error: OutboxDeclarationError) -> ShellErrorCode {
    match error {
        OutboxDeclarationError::OutsideProject | OutboxDeclarationError::IsLink => ShellErrorCode::OutboxInvalid,
        OutboxDeclarationError::NotADirectory | OutboxDeclarationError::Unreadable => ShellErrorCode::OutboxUnavailable,
    }
}

/// The catalogue message a [`OutboxDeclarationError`] is reported with.
pub open spec fn declaration_error_message(error: OutboxDeclarationError) -> Seq<char> {
    match error {
        OutboxDeclarationError::OutsideProject | OutboxDeclarationError::IsLink => "the declared outbox resolves outside the project or is a link"@,
        OutboxDeclarationError::NotADirectory | OutboxDeclarationError::Unreadable => "the declared outbox is not a readable directory"@,
    }
}

impl From<OutboxDeclarationError> for ShellError {
    /// A declaration failure, by its failure class.
    fn from(error: OutboxDeclarationError) -> (mapped: Self)
        ensures
            is_catalogue_error(mapped, declaration_error_code(error), declaration_error_message(error)),
    {
        match error {
            OutboxDeclarationError::OutsideProject | OutboxDeclarationError::IsLink => ShellError::new(ShellErrorCode::OutboxInvalid, "the declared outbox resolves outside the project or is a link"),
            OutboxDeclarationError::NotADirectory | OutboxDeclarationError::Unreadable => ShellError::new(ShellErrorCode::OutboxUnavailable, "the declared outbox is not a readable directory"),
        }
    }
}

impl vstd::std_specs::convert::FromSpecImpl<OutboxDeclarationError> for ShellError {
    /// The mapping is stated on `from` itself: a catalogue message is a
    /// `String`, which no spec expression builds.
    open spec fn obeys_from_spec() -> bool {
        false
    }

    open spec fn from_spec(error: OutboxDeclarationError) -> Self {
        vstd::pervasive::arbitrary()
    }
}

/// The code a [`PromptError`] is reported under.
pub open spec fn prompt_error_code(error: PromptError) -> ShellErrorCode {
    match error {
        PromptError::TooLarge => ShellErrorCode::PromptTooLarge,
        PromptError::ContainsNul => ShellErrorCode::InvalidRequest,
    }
}

/// The catalogue message a [`PromptError`] is reported with.
pub open spec fn prompt_error_message(error: PromptError) -> Seq<char> {
    match error {
        PromptError::TooLarge => "the prompt exceeds the size limit"@,
        PromptError::ContainsNul => "the prompt contains an interior NUL byte"@,
    }
}

impl From<PromptError> for ShellError {
    /// A rejected prompt, as its catalogue error.
    fn from(error: PromptError) -> (mapped: Self)
        ensures
            is_catalogue_error(mapped, prompt_error_code(error), prompt_error_message(error)),
    {
        match error {
            PromptError::TooLarge => ShellError::new(ShellErrorCode::PromptTooLarge, "the prompt exceeds the size limit"),
            PromptError::ContainsNul => ShellError::new(ShellErrorCode::InvalidRequest, "the prompt contains an interior NUL byte"),
        }
    }
}

impl vstd::std_specs::convert::FromSpecImpl<PromptError> for ShellError {
    /// The mapping is stated on `from` itself: a catalogue message is a
    /// `String`, which no spec expression builds.
    open spec fn obeys_from_spec() -> bool {
        false
    }

    open spec fn from_spec(error: PromptError) -> Self {
        vstd::pervasive::arbitrary()
    }
}


/// The code a launch-gate denial is reported under.
pub open spec fn denial_code(reason: DenialReason) -> ShellErrorCode {
    match reason {
        DenialReason::Unapproved => ShellErrorCode::Unapproved,
        DenialReason::Revoked => ShellErrorCode::Revoked,
        DenialReason::ShadowedPath => ShellErrorCode::ShadowedPath,
        DenialReason::ChangedSinceApproval { .. } => ShellErrorCode::ChangedSinceApproval,
        DenialReason::ProbeFailed(outcome) => probe_failure_code(outcome),
    }
}

/// The catalogue message a launch-gate denial is reported with.
pub open spec fn denial_message(reason: DenialReason) -> Seq<char> {
    match reason {
        DenialReason::Unapproved => "this executable has not been approved"@,
        DenialReason::Revoked => "the approval for this executable was revoked"@,
        DenialReason::ShadowedPath => "the approved path now resolves somewhere else"@,
        DenialReason::ChangedSinceApproval { .. } => "the executable's content has changed since it was approved"@,
        DenialReason::ProbeFailed(outcome) => probe_failure_message(outcome),
    }
}

impl From<DenialReason> for ShellError {
    /// A launch-gate denial, as its catalogue error. `ChangedSinceApproval`
    /// alone carries detail: both digests as short hex prefixes, never in
    /// the message.
    fn from(reason: DenialReason) -> (mapped: Self)
        ensures
            mapped.code == denial_code(reason),
            mapped.message@ == denial_message(reason),
            match reason {
                DenialReason::ChangedSinceApproval { recorded, observed } => mapped.detail matches Some(
                    ShellErrorDetail::ChangedSinceApproval {
                        recorded_sha256_short: r,
                        observed_sha256_short: o,
                    },
                ) && r@ == hex_of(recorded.bytes().take(4)) && o@ == hex_of(observed.bytes().take(4)),
                _ => mapped.detail is None,
            },
    {
        match reason {
            DenialReason::Unapproved => ShellError::new(
                ShellErrorCode::Unapproved,
                "this executable has not been approved",
            ),
            DenialReason::Revoked => ShellError::new(
                ShellErrorCode::Revoked,
                "the approval for this executable was revoked",
            ),
            DenialReason::ShadowedPath => ShellError::new(
                ShellErrorCode::ShadowedPath,
                "the approved path now resolves somewhere else",
            ),
            DenialReason::ChangedSinceApproval { recorded, observed } => ShellError::with_detail(
                ShellErrorCode::ChangedSinceApproval,
                "the executable's content has changed since it was approved",
                ShellErrorDetail::ChangedSinceApproval {
                    recorded_sha256_short: recorded.short_hex(),
                    observed_sha256_short: observed.short_hex(),
                },
            ),
            DenialReason::ProbeFailed(outcome) => ShellError::from_probe_failure(outcome),
        }
    }
}

impl vstd::std_specs::convert::FromSpecImpl<DenialReason> for ShellError {
    /// The mapping is stated on `from` itself: a catalogue message is a
    /// `String`, which no spec expression builds.
    open spec fn obeys_from_spec() -> bool {
        false
    }

    open spec fn from_spec(reason: DenialReason) -> Self {
        vstd::pervasive::arbitrary()
    }
}

/// The shortest deadline `harness_stop` accepts, in milliseconds.
pub const MIN_DEADLINE_MS: u64 = 1;

/// The longest deadline `harness_stop` accepts, in milliseconds: an
/// unbounded one would let one call hold its blocking slot indefinitely.
pub const MAX_DEADLINE_MS: u64 = 30000;

/// Validate `harness_stop`'s `deadline_ms`: the same number of
/// milliseconds back when it lies in `1..=30000`, else `invalid-request`.
pub fn validate_deadline_ms(deadline_ms: u64) -> (validated: Result<u64, ShellError>)
    ensures
        validated is Ok <==> MIN_DEADLINE_MS <= deadline_ms <= MAX_DEADLINE_MS,
        validated matches Ok(ms) ==> ms == deadline_ms,
        validated matches Err(error) ==> is_catalogue_error(
            error,
            ShellErrorCode::InvalidRequest,
            "deadlineMs must be between 1 and 30000"@,
        ),
{
    if MIN_DEADLINE_MS <= deadline_ms && deadline_ms <= MAX_DEADLINE_MS {
        Ok(deadline_ms)
    } else {
        Err(ShellError::new(ShellErrorCode::InvalidRequest, "deadlineMs must be between 1 and 30000"))
    }
}

/// The two ways an adapter launch's raw frames are mapped to wire frames.
#[derive(Debug, Clone, Copy, PartialEq, Eq, Structural)]
pub enum ForwarderKind {
    /// A line assembler plus the adapter's own line parser.
    Line,
    /// A terminal normalizer over the raw text.
    Pty,
}

/// Which forwarder a launch gets: decided by the transport class alone.
pub fn forwarder_for(transport: TransportClass) -> (kind: ForwarderKind)
    ensures
        kind == (match transport {
            TransportClass::StructuredStreamingCli => ForwarderKind::Line,
            TransportClass::Pty => ForwarderKind::Pty,
        }),
{
    match transport {
        TransportClass::StructuredStreamingCli => ForwarderKind::Line,
        TransportClass::Pty => ForwarderKind::Pty,
    }
}

/// Look up `candidate_id` among the probed candidates, or `no-candidate`
/// if it was never probed or has been evicted.
pub fn find_candidate(candidates: &CandidateTable, candidate_id: CandidateIdDto) -> (found: Result<
    ExecutableIdentity,
    ShellError,
>)
    requires
        candidates.wf(),
    ensures
        match candidates.lookup(candidate_id.0) {
            Some(identity) => found == Ok::<ExecutableIdentity, ShellError>(identity),
            None => found matches Err(error) && is_catalogue_error(
                error,
                ShellErrorCode::NoCandidate,
                "no probed candidate with that id is known"@,
            ),
        },
{
    match candidates.get(CandidateId::from_raw(candidate_id.0)) {
        Some(identity) => Ok(identity.clone()),
        None => Err(ShellError::new(ShellErrorCode::NoCandidate, "no probed candidate with that id is known")),
    }
}


/// The `seq` a wire frame carries.
pub open spec fn frame_seq(frame: HarnessFrame) -> u64 {
    match frame {
        HarnessFrame::Stdout { seq, .. } => seq,
        HarnessFrame::Stderr { seq, .. } => seq,
        HarnessFrame::State { seq, .. } => seq,
        HarnessFrame::Event { seq, .. } => seq,
    }
}

/// The `dropped_before` a wire frame carries.
pub open spec fn frame_dropped_before(frame: HarnessFrame) -> u64 {
    match frame {
        HarnessFrame::Stdout { dropped_before, .. } => dropped_before,
        HarnessFrame::Stderr { dropped_before, .. } => dropped_before,
        HarnessFrame::State { dropped_before, .. } => dropped_before,
        HarnessFrame::Event { dropped_before, .. } => dropped_before,
    }
}

/// The process id a wire frame carries.
pub open spec fn frame_id(frame: HarnessFrame) -> ProcessIdDto {
    match frame {
        HarnessFrame::Stdout { id, .. } => id,
        HarnessFrame::Stderr { id, .. } => id,
        HarnessFrame::State { id, .. } => id,
        HarnessFrame::Event { id, .. } => id,
    }
}

/// `frames` are numbered `start`, `start + 1`, ... with no gap and no
/// repeat.
pub open spec fn numbered_from(frames: Seq<HarnessFrame>, start: int) -> bool {
    forall|i: int| 0 <= i < frames.len() ==> #[trigger] frame_seq(frames[i]) == start + i
}

/// `dropped` rides on the first of `frames`, and `0` on every other.
pub open spec fn dropped_on_first(frames: Seq<HarnessFrame>, dropped: u64) -> bool {
    forall|i: int|
        0 <= i < frames.len() ==> #[trigger] frame_dropped_before(frames[i]) == (if i == 0 {
            dropped
        } else {
            0
        })
}

/// Every one of `frames` belongs to launch `id`.
pub open spec fn all_of(frames: Seq<HarnessFrame>, id: ProcessIdDto) -> bool {
    forall|i: int| 0 <= i < frames.len() ==> #[trigger] frame_id(frames[i]) == id
}

/// `frames` are `event` frames carrying the wire forms of `events`, in
/// order.
pub open spec fn carry_events(frames: Seq<HarnessFrame>, events: Seq<AdapterEvent>) -> bool {
    &&& frames.len() == events.len()
    &&& forall|i: int|
        0 <= i < frames.len() ==> (#[trigger] frames[i] matches HarnessFrame::Event { event: dto, .. }
            && is_event_dto(events[i], dto))
}

/// Frames emitted by consecutive calls of one sequencer, each numbered
/// from where the last left off, are numbered without a gap or a repeat
/// across the calls.
pub proof fn lemma_consecutive_frames_contiguous(
    first: Seq<HarnessFrame>,
    second: Seq<HarnessFrame>,
    start: int,
)
    requires
        numbered_from(first, start),
        numbered_from(second, start + first.len()),
    ensures
        numbered_from(first + second, start),
{
    assert forall|i: int| 0 <= i < (first + second).len() implies #[trigger] frame_seq(
        (first + second)[i],
    ) == start + i by {
        if i < first.len() {
            assert((first + second)[i] == first[i]);
        } else {
            assert((first + second)[i] == second[i - first.len()]);
        }
    }
}

/// The sum of the `dropped_before` counts `frames` carry.
pub open spec fn dropped_total(frames: Seq<HarnessFrame>) -> int
    decreases frames.len(),
{
    if frames.len() == 0 {
        0
    } else {
        dropped_total(frames.drop_last()) + frame_dropped_before(frames.last())
    }
}

/// No drop count is lost or counted twice: what rides on the frames a raw
/// frame produced, plus what stays pending for the next, is exactly the
/// count carried in.
pub proof fn lemma_drops_conserved(frames: Seq<HarnessFrame>, carried: u64, left_pending: u64)
    requires
        dropped_on_first(frames, carried),
        left_pending == (if frames.len() > 0 {
            0
        } else {
            carried
        }),
    ensures
        dropped_total(frames) + left_pending == carried,
    decreases frames.len(),
{
    if frames.len() > 1 {
        let rest = frames.drop_last();
        assert forall|i: int| 0 <= i < rest.len() implies #[trigger] frame_dropped_before(rest[i])
            == (if i == 0 {
            carried
        } else {
            0
        }) by {
            assert(rest[i] == frames[i]);
        }
        lemma_drops_conserved(rest, carried, 0);
        assert(frame_dropped_before(frames[frames.len() - 1]) == 0);
        assert(dropped_total(frames) == dropped_total(rest) + frame_dropped_before(frames.last()));
    } else if frames.len() == 1 {
        assert(frames.drop_last().len() == 0);
        assert(dropped_total(frames.drop_last()) == 0);
        assert(frame_dropped_before(frames[0]) == carried);
        assert(dropped_total(frames) == dropped_total(frames.drop_last()) + frame_dropped_before(
            frames.last(),
        ));
    }
}

/// The frames of consecutive calls, in call order.
pub open spec fn joined(calls: Seq<Seq<HarnessFrame>>) -> Seq<HarnessFrame>
    decreases calls.len(),
{
    if calls.len() == 0 {
        Seq::empty()
    } else {
        joined(calls.drop_last()) + calls.last()
    }
}

/// Over any number of consecutive calls of one sequencer, each numbering
/// its frames from where the frames before it left off, the frames are
/// numbered from the start without a gap or a repeat.
pub proof fn lemma_calls_numbered(calls: Seq<Seq<HarnessFrame>>, start: int)
    requires
        forall|k: int|
            0 <= k < calls.len() ==> numbered_from(
                #[trigger] calls[k],
                start + joined(calls.take(k)).len(),
            ),
    ensures
        numbered_from(joined(calls), start),
    decreases calls.len(),
{
    if calls.len() > 0 {
        let before = calls.drop_last();
        assert forall|k: int| 0 <= k < before.len() implies numbered_from(
            #[trigger] before[k],
            start + joined(before.take(k)).len(),
        ) by {
            assert(before.take(k) =~= calls.take(k));
            assert(before[k] == calls[k]);
        }
        lemma_calls_numbered(before, start);
        assert(calls.take(calls.len() - 1) =~= before);
        lemma_consecutive_frames_contiguous(joined(before), calls.last(), start);
    }
}

/// What stays pending after `calls`, each a raw frame's wire frames and
/// the `dropped_before` it carried in: the carried counts of frames that
/// produced nothing, summed until a frame produces something.
pub open spec fn pending_after(calls: Seq<(Seq<HarnessFrame>, u64)>) -> int
    decreases calls.len(),
{
    if calls.len() == 0 {
        0
    } else {
        let carried = pending_after(calls.drop_last()) + calls.last().1;
        if calls.last().0.len() > 0 {
            0
        } else {
            carried
        }
    }
}

/// The `dropped_before` counts carried in by `calls`.
pub open spec fn dropped_in(calls: Seq<(Seq<HarnessFrame>, u64)>) -> int
    decreases calls.len(),
{
    if calls.len() == 0 {
        0
    } else {
        dropped_in(calls.drop_last()) + calls.last().1
    }
}

/// The `dropped_before` counts the frames of `calls` carry out.
pub open spec fn dropped_out(calls: Seq<(Seq<HarnessFrame>, u64)>) -> int
    decreases calls.len(),
{
    if calls.len() == 0 {
        0
    } else {
        dropped_out(calls.drop_last()) + dropped_total(calls.last().0)
    }
}

/// Call `k` of `calls` put what was pending before it plus its own count
/// on its first wire frame, and that sum fits a `u64`.
pub open spec fn carries_pending(calls: Seq<(Seq<HarnessFrame>, u64)>, k: int) -> bool {
    &&& pending_after(calls.take(k)) + calls[k].1 <= u64::MAX
    &&& dropped_on_first(calls[k].0, (pending_after(calls.take(k)) + calls[k].1) as u64)
}

proof fn lemma_carries_pending_prefix(calls: Seq<(Seq<HarnessFrame>, u64)>, k: int)
    requires
        0 <= k < calls.len() - 1,
        carries_pending(calls, k),
    ensures
        carries_pending(calls.drop_last(), k),
{
    assert(calls.drop_last().take(k) =~= calls.take(k));
    assert(calls.drop_last()[k] == calls[k]);
}

/// Over any number of raw frames of one launch, each call putting what
/// was pending plus its own count on its first wire frame (or keeping it
/// pending when it produced none): what the wire frames carry plus what
/// is still pending is exactly what the raw frames carried. No drop count
/// is lost or counted twice.
pub proof fn lemma_calls_conserve_drops(calls: Seq<(Seq<HarnessFrame>, u64)>)
    requires
        forall|k: int| 0 <= k < calls.len() ==> #[trigger] carries_pending(calls, k),
    ensures
        dropped_out(calls) + pending_after(calls) == dropped_in(calls),
        pending_after(calls) >= 0,
    decreases calls.len(),
{
    if calls.len() > 0 {
        let before = calls.drop_last();
        let last = calls.len() - 1;
        assert forall|k: int| 0 <= k < before.len() implies #[trigger] carries_pending(before, k) by {
            lemma_carries_pending_prefix(calls, k);
        }
        lemma_calls_conserve_drops(before);
        assert(carries_pending(calls, last));
        assert(calls.take(last) =~= before);
        let carried = (pending_after(before) + calls.last().1) as u64;
        let left: u64 = if calls.last().0.len() > 0 {
            0
        } else {
            carried
        };
        assert(carried == pending_after(before) + calls.last().1);
        lemma_drops_conserved(calls.last().0, carried, left);
        assert(pending_after(calls) == left);
        assert(dropped_out(calls) == dropped_out(before) + dropped_total(calls.last().0));
        assert(dropped_in(calls) == dropped_in(before) + calls.last().1);
    }
}

/// The shell's own numbering of one adapter launch's wire frames: a
/// contiguous count of the `event` and `state` frames actually emitted,
/// from `0`. A raw frame can yield no wire frame, one, or several, so the
/// raw frame's own `seq` would leave gaps and repeats.
pub struct AdapterWireSequencer {
    id: ProcessIdDto,
    next_seq: u64,
}

impl AdapterWireSequencer {
    /// The launch this sequencer numbers frames for.
    pub closed spec fn id(&self) -> ProcessIdDto {
        self.id
    }

    /// The `seq` the next frame gets.
    pub closed spec fn next(&self) -> u64 {
        self.next_seq
    }

    /// A sequencer for launch `id`, numbering from `0`.
    pub fn new(id: ProcessIdDto) -> (sequencer: Self)
        ensures
            sequencer.id() == id,
            sequencer.next() == 0,
    {
        AdapterWireSequencer { id, next_seq: 0 }
    }

    fn next_seq(&mut self) -> (seq: u64)
        requires
            old(self).next() < u64::MAX,
        ensures
            seq == old(self).next(),
            final(self).next() == old(self).next() + 1,
            final(self).id() == old(self).id(),
    {
        let seq = self.next_seq;
        self.next_seq = self.next_seq + 1;
        seq
    }

    /// The `event` frame for `event`, numbered next.
    pub fn event(&mut self, dropped_before: u64, event: AdapterEvent) -> (frame: HarnessFrame)
        requires
            old(self).next() < u64::MAX,
        ensures
            final(self).id() == old(self).id(),
            final(self).next() == old(self).next() + 1,
            frame_id(frame) == old(self).id(),
            frame_seq(frame) == old(self).next(),
            frame_dropped_before(frame) == dropped_before,
            frame matches HarnessFrame::Event { event: dto, .. } && is_event_dto(event, dto),
    {
        let seq = self.next_seq();
        HarnessFrame::event(self.id, seq, dropped_before, event)
    }

    /// The `event` frames for `events`, numbered next, in order, with
    /// `dropped_before` on the first.
    fn emit_events(&mut self, events: Vec<AdapterEvent>, dropped_before: u64) -> (frames: Vec<
        HarnessFrame,
    >)
        requires
            old(self).next() + events.len() <= u64::MAX,
        ensures
            final(self).id() == old(self).id(),
            final(self).next() == old(self).next() + events.len(),
            carry_events(frames@, events@),
            numbered_from(frames@, old(self).next() as int),
            dropped_on_first(frames@, dropped_before),
            all_of(frames@, old(self).id()),
    {
        let mut frames: Vec<HarnessFrame> = Vec::new();
        let mut rest = events;
        let mut i: usize = 0;
        let ghost start = self.next_seq;
        while rest.len() > 0
            invariant
                i <= events.len(),
                rest@ == events@.skip(i as int),
                start == old(self).next(),
                self.id == old(self).id(),
                self.next_seq == start + i,
                start + events.len() <= u64::MAX,
                frames.len() == i,
                forall|k: int|
                    0 <= k < i ==> (#[trigger] frames@[k] matches HarnessFrame::Event {
                        event: dto,
                        ..
                    } && is_event_dto(events@[k], dto)),
                numbered_from(frames@, start as int),
                dropped_on_first(frames@, dropped_before),
                all_of(frames@, self.id),
            decreases rest.len(),
        {
            let dropped = if i == 0 { dropped_before } else { 0 };
            let event = rest.remove(0);
            let frame = self.event(dropped, event);
            frames.push(frame);
            i = i + 1;
        }
        frames
    }

    /// The frames a terminal state produces: the run-end events the
    /// launch's outbox tracker reported (`run_end`, possibly none), then
    /// the `state` frame, always last. `dropped_before` rides on the first
    /// of them.
    pub fn state(
        &mut self,
        dropped_before: u64,
        state: ProcessTerminalState,
        run_end: Vec<AdapterEventDto>,
    ) -> (frames: Vec<HarnessFrame>)
        requires
            old(self).next() + run_end.len() < u64::MAX,
        ensures
            final(self).id() == old(self).id(),
            final(self).next() == old(self).next() + run_end.len() + 1,
            frames.len() == run_end.len() + 1,
            numbered_from(frames@, old(self).next() as int),
            dropped_on_first(frames@, dropped_before),
            all_of(frames@, old(self).id()),
            forall|i: int|
                0 <= i < run_end.len() ==> (#[trigger] frames@[i] matches HarnessFrame::Event {
                    event,
                    ..
                } && event == run_end@[i]),
            frames@.last() matches HarnessFrame::State { terminal, .. } && terminal
                == terminal_state_dto(state),
    {
        let mut frames: Vec<HarnessFrame> = Vec::new();
        let mut rest = run_end;
        let mut i: usize = 0;
        let ghost start = self.next_seq;
        while rest.len() > 0
            invariant
                i <= run_end.len(),
                rest@ == run_end@.skip(i as int),
                start == old(self).next(),
                self.id == old(self).id(),
                self.next_seq == start + i,
                start + run_end.len() < u64::MAX,
                frames.len() == i,
                numbered_from(frames@, start as int),
                dropped_on_first(frames@, dropped_before),
                all_of(frames@, self.id),
                forall|k: int|
                    0 <= k < i ==> (#[trigger] frames@[k] matches HarnessFrame::Event { event, .. }
                        && event == run_end@[k]),
            decreases rest.len(),
        {
            let seq = self.next_seq();
            let dropped = if i == 0 { dropped_before } else { 0 };
            let event = rest.remove(0);
            frames.push(HarnessFrame::event_dto(self.id, seq, dropped, event));
            i = i + 1;
        }
        let seq = self.next_seq();
        let dropped = if i == 0 { dropped_before } else { 0 };
        frames.push(HarnessFrame::State {
            id: self.id,
            seq,
            dropped_before: dropped,
            terminal: ProcessTerminalStateDto::from(state),
        });
        frames
    }
}


/// One completed line of a structured launch's output, as the shell
/// received it: the line and the events the adapter parsed from it, or a
/// line cut off before its terminator, as raw bytes.
pub enum AssembledLine {
    Parsed { line: String, events: Vec<AdapterEvent> },
    Truncated { raw: Vec<u8> },
}

/// How many `event` frames a completed line yields.
pub open spec fn line_frame_count(line: AssembledLine) -> nat {
    match line {
        AssembledLine::Parsed { events, .. } => if events@.len() > 0 {
            events@.len()
        } else {
            1
        },
        AssembledLine::Truncated { .. } => 1,
    }
}

/// `events` are what a completed line stands for: the adapter's own
/// events; one non-truncated `Unknown` carrying the line's bytes when the
/// adapter returned none (so the line is never silently lost); one
/// truncated `Unknown` carrying the raw bytes of a cut-off line.
pub open spec fn line_events(line: AssembledLine, events: Seq<AdapterEvent>) -> bool {
    match line {
        AssembledLine::Parsed { line, events: parsed } => if parsed@.len() > 0 {
            events == parsed@
        } else {
            &&& events.len() == 1
            &&& events[0] matches AdapterEvent::Unknown { raw, truncated }
            &&& raw@ == vstd::utf8::encode_utf8(line@)
            &&& !truncated
        },
        AssembledLine::Truncated { raw } => events == seq![
            AdapterEvent::Unknown { raw, truncated: true },
        ],
    }
}

/// The events a completed line stands for.
fn assembled_events(assembled: AssembledLine) -> (events: Vec<AdapterEvent>)
    ensures
        line_events(assembled, events@),
        events.len() == line_frame_count(assembled),
{
    match assembled {
        AssembledLine::Parsed { line, events } => {
            if events.len() > 0 {
                events
            } else {
                let bytes = line.as_str().as_bytes();
                let mut raw: Vec<u8> = Vec::new();
                let mut i: usize = 0;
                while i < bytes.len()
                    invariant
                        i <= bytes.len(),
                        raw@ == bytes@.take(i as int),
                    decreases bytes.len() - i,
                {
                    raw.push(bytes[i]);
                    i = i + 1;
                }
                assert(raw@ =~= bytes@);
                let mut out: Vec<AdapterEvent> = Vec::new();
                out.push(AdapterEvent::Unknown { raw, truncated: false });
                out
            }
        },
        AssembledLine::Truncated { raw } => {
            let mut out: Vec<AdapterEvent> = Vec::new();
            out.push(AdapterEvent::Unknown { raw, truncated: true });
            assert(out@ =~= seq![AdapterEvent::Unknown { raw, truncated: true }]);
            out
        },
    }
}

/// The `event` frames for one completed line: one per event it stands
/// for, numbered next, the line's summed `dropped_before` on the first
/// only.
pub fn assembled_wire_frames(
    sequencer: &mut AdapterWireSequencer,
    assembled: AssembledLine,
    dropped_before: u64,
) -> (frames: Vec<HarnessFrame>)
    requires
        old(sequencer).next() + line_frame_count(assembled) <= u64::MAX,
    ensures
        exists|events: Seq<AdapterEvent>|
            line_events(assembled, events) && #[trigger] carry_events(frames@, events),
        frames.len() == line_frame_count(assembled),
        numbered_from(frames@, old(sequencer).next() as int),
        dropped_on_first(frames@, dropped_before),
        all_of(frames@, old(sequencer).id()),
        final(sequencer).id() == old(sequencer).id(),
        final(sequencer).next() == old(sequencer).next() + frames.len(),
{
    let events = assembled_events(assembled);
    let ghost shown = events@;
    let frames = sequencer.emit_events(events, dropped_before);
    assert(line_events(assembled, shown) && carry_events(frames@, shown));
    frames
}


/// The shape of one event a PTY launch emits: text, as its characters; an
/// action; or the drop counts.
pub enum PtyEventShape {
    Text(Seq<char>),
    Action(TerminalAction),
    Drops(DropCounts),
}

/// The events a normalizer's chunks make: each action as it is, and every
/// run of adjacent text chunks as one text event.
pub open spec fn coalesced(chunks: Seq<TerminalChunk>) -> Seq<PtyEventShape>
    decreases chunks.len(),
{
    if chunks.len() == 0 {
        Seq::empty()
    } else {
        let before = coalesced(chunks.drop_last());
        match chunks.last() {
            TerminalChunk::Text(text) => if before.len() > 0 {
                match before.last() {
                    PtyEventShape::Text(joined) => before.update(
                        before.len() - 1,
                        PtyEventShape::Text(joined + text@),
                    ),
                    _ => before.push(PtyEventShape::Text(text@)),
                }
            } else {
                before.push(PtyEventShape::Text(text@))
            },
            TerminalChunk::Action(action) => before.push(PtyEventShape::Action(action)),
        }
    }
}

/// The events one normalized frame makes: its chunks, coalesced, then one
/// drops event when anything was dropped.
pub open spec fn pty_events(chunks: Seq<TerminalChunk>, drops: DropCounts) -> Seq<PtyEventShape> {
    if drops.spec_is_zero() {
        coalesced(chunks)
    } else {
        coalesced(chunks).push(PtyEventShape::Drops(drops))
    }
}

/// A normalized frame whose drop counts are not all zero ends with one
/// drops event carrying exactly those counts; all-zero counts add none.
pub proof fn lemma_nonzero_drops_are_reported(chunks: Seq<TerminalChunk>, drops: DropCounts)
    ensures
        drops != (DropCounts {
            layout: 0,
            hyperlink: 0,
            clipboard: 0,
            file_transfer: 0,
            string: 0,
            unknown: 0,
            malformed: 0,
        }) ==> pty_events(chunks, drops).len() == coalesced(chunks).len() + 1 && pty_events(
            chunks,
            drops,
        ).last() == PtyEventShape::Drops(drops),
        drops == (DropCounts {
            layout: 0,
            hyperlink: 0,
            clipboard: 0,
            file_transfer: 0,
            string: 0,
            unknown: 0,
            malformed: 0,
        }) ==> pty_events(chunks, drops) == coalesced(chunks),
{
}

/// `event` has `shape`.
pub open spec fn has_shape(event: AdapterEvent, shape: PtyEventShape) -> bool {
    match shape {
        PtyEventShape::Text(text) => event matches AdapterEvent::TerminalText { text: t } && t@ == text,
        PtyEventShape::Action(action) => event == AdapterEvent::TerminalAction(action),
        PtyEventShape::Drops(drops) => event == AdapterEvent::TerminalDrops(drops),
    }
}

/// `events` have `shapes`, one for one.
pub open spec fn shaped(events: Seq<AdapterEvent>, shapes: Seq<PtyEventShape>) -> bool {
    &&& events.len() == shapes.len()
    &&& forall|i: int| 0 <= i < events.len() ==> #[trigger] has_shape(events[i], shapes[i])
}

proof fn lemma_coalesced_len(chunks: Seq<TerminalChunk>)
    ensures
        coalesced(chunks).len() <= chunks.len(),
    decreases chunks.len(),
{
    if chunks.len() > 0 {
        lemma_coalesced_len(chunks.drop_last());
    }
}

/// Coalescing never leaves two text events side by side.
pub proof fn lemma_coalesced_never_adjacent_text(chunks: Seq<TerminalChunk>)
    ensures
        forall|i: int|
            0 <= i < coalesced(chunks).len() - 1 ==> !(#[trigger] coalesced(chunks)[i] is Text
                && coalesced(chunks)[i + 1] is Text),
    decreases chunks.len(),
{
    if chunks.len() > 0 {
        let before = coalesced(chunks.drop_last());
        lemma_coalesced_never_adjacent_text(chunks.drop_last());
        let after = coalesced(chunks);
        assert forall|i: int| 0 <= i < after.len() - 1 implies !(#[trigger] after[i] is Text && after[i
            + 1] is Text) by {
            if i + 1 < before.len() {
                assert(after[i] == before[i] || i == before.len() - 1);
                assert(after[i + 1] is Text ==> before[i + 1] is Text || i + 1 == before.len() - 1);
                if i + 1 < before.len() - 1 {
                    assert(after[i] == before[i] && after[i + 1] == before[i + 1]);
                } else {
                    assert(after[i] == before[i]);
                    assert(before[i + 1] is Text ==> after[i + 1] is Text);
                    assert(after[i + 1] is Text ==> before[i + 1] is Text);
                }
            }
        }
    }
}

/// Coalesce adjacent text chunks into single text events.
fn coalesce(chunks: &Vec<TerminalChunk>) -> (events: Vec<AdapterEvent>)
    ensures
        shaped(events@, coalesced(chunks@)),
{
    let mut events: Vec<AdapterEvent> = Vec::new();
    let mut pending: Option<String> = None;
    let mut i: usize = 0;
    while i < chunks.len()
        invariant
            i <= chunks.len(),
            ({
                let c = coalesced(chunks@.take(i as int));
                match pending {
                    None => shaped(events@, c) && (c.len() == 0 || c.last() is Action),
                    Some(text) => c.len() == events.len() + 1 && shaped(events@, c.take(
                        events.len() as int,
                    )) && c.last() == PtyEventShape::Text(text@),
                }
            }),
        decreases chunks.len() - i,
    {
        let ghost before = coalesced(chunks@.take(i as int));
        assert(chunks@.take(i + 1).drop_last() =~= chunks@.take(i as int));
        let chunk = chunks[i].clone();
        match chunk {
            TerminalChunk::Text(text) => {
                match pending {
                    Some(mut joined) => {
                        joined.append(text.as_str());
                        pending = Some(joined);
                        proof {
                            let after = coalesced(chunks@.take(i + 1));
                            assert(after.take(events.len() as int) =~= before.take(events.len() as int));
                        }
                    },
                    None => {
                        pending = Some(text);
                        proof {
                            let after = coalesced(chunks@.take(i + 1));
                            assert(after.take(events.len() as int) =~= before);
                        }
                    },
                }
            },
            TerminalChunk::Action(action) => {
                let ghost events_before = events@;
                let ghost was_pending = pending is Some;
                match pending {
                    Some(text) => {
                        events.push(AdapterEvent::TerminalText { text });
                    },
                    None => {},
                }
                pending = None;
                events.push(AdapterEvent::TerminalAction(action));
                proof {
                    let after = coalesced(chunks@.take(i + 1));
                    assert(after == before.push(PtyEventShape::Action(action)));
                    assert(events@.len() == after.len());
                    assert forall|k: int| 0 <= k < events@.len() implies #[trigger] has_shape(
                        events@[k],
                        after[k],
                    ) by {
                        if k < events_before.len() {
                            if was_pending {
                                assert(before.take(events_before.len() as int)[k] == before[k]);
                            }
                            assert(has_shape(events_before[k], before[k]));
                        }
                    }
                }
            },
        }
        i = i + 1;
    }
    assert(chunks@.take(i as int) =~= chunks@);
    match pending {
        Some(text) => {
            let ghost events_before = events@;
            events.push(AdapterEvent::TerminalText { text });
            proof {
                let c = coalesced(chunks@);
                assert forall|k: int| 0 <= k < events@.len() implies #[trigger] has_shape(
                    events@[k],
                    c[k],
                ) by {
                    if k < events_before.len() {
                        assert(c.take(events_before.len() as int)[k] == c[k]);
                        assert(has_shape(events_before[k], c[k]));
                    }
                }
            }
        },
        None => {},
    }
    events
}

/// The per-launch state of the PTY forwarder beside its normalizer: the
/// `dropped_before` accumulated from raw frames that produced no wire
/// frame yet, so a drop count is never lost to a silent frame.
pub struct PtyForwarder {
    pending_dropped_before: u64,
}

impl PtyForwarder {
    /// The drops accumulated and not yet reported.
    pub closed spec fn pending(&self) -> u64 {
        self.pending_dropped_before
    }

    /// A forwarder with nothing pending.
    pub fn new() -> (forwarder: Self)
        ensures
            forwarder.pending() == 0,
    {
        PtyForwarder { pending_dropped_before: 0 }
    }

    /// The `dropped_before` for the next wire frame: everything pending,
    /// then zero for the frames after it.
    pub fn take_dropped_before(&mut self) -> (dropped: u64)
        ensures
            dropped == old(self).pending(),
            final(self).pending() == 0,
    {
        let dropped = self.pending_dropped_before;
        self.pending_dropped_before = 0;
        dropped
    }
}

/// What a PTY launch's raw frame came to once its bytes went through the
/// terminal normalizer.
pub enum PtyInput {
    /// A stderr text frame (a terminal has no stderr: the only such frame
    /// is the supervisor's own synthetic message).
    Stderr { text: String },
    /// The chunks and drop counts the normalizer produced for a stdout
    /// frame (`terminal` is `None`), or when finished at the terminal
    /// state, with the run-end events the outbox tracker reported.
    Normalized {
        chunks: Vec<TerminalChunk>,
        drops: DropCounts,
        terminal: Option<(ProcessTerminalState, Vec<AdapterEventDto>)>,
    },
}

/// `frames`, from index `offset` on, carry events of `shapes`.
pub open spec fn carry_shapes(frames: Seq<HarnessFrame>, shapes: Seq<PtyEventShape>) -> bool {
    &&& shapes.len() <= frames.len()
    &&& forall|i: int|
        0 <= i < shapes.len() ==> (#[trigger] frames[i] matches HarnessFrame::Event {
            event: dto,
            ..
        } && exists|event: AdapterEvent| has_shape(event, shapes[i]) && is_event_dto(event, dto))
}

/// `a + b`, saturating at `u64::MAX`.
pub open spec fn saturating_sum(a: u64, b: u64) -> u64 {
    if a + b > u64::MAX {
        u64::MAX
    } else {
        (a + b) as u64
    }
}

/// The wire frames one raw frame of a PTY launch produces, in order. The
/// raw frame's `dropped_before`, summed (saturating) with whatever earlier
/// frames left pending, rides on the first wire frame produced; when none
/// is produced it stays pending for the next.
pub fn pty_wire_frames(
    forwarder: &mut PtyForwarder,
    sequencer: &mut AdapterWireSequencer,
    dropped_before: u64,
    input: PtyInput,
) -> (frames: Vec<HarnessFrame>)
    requires
        match input {
            PtyInput::Stderr { .. } => old(sequencer).next() < u64::MAX,
            PtyInput::Normalized { chunks, terminal, .. } => old(sequencer).next() + chunks.len()
                + 2 + (match terminal {
                Some((_, run_end)) => run_end.len() as int,
                None => 0,
            }) <= u64::MAX,
        },
    ensures
        final(sequencer).id() == old(sequencer).id(),
        final(sequencer).next() == old(sequencer).next() + frames.len(),
        numbered_from(frames@, old(sequencer).next() as int),
        all_of(frames@, old(sequencer).id()),
        dropped_on_first(
            frames@,
            saturating_sum(old(forwarder).pending(), dropped_before),
        ),
        final(forwarder).pending() == (if frames.len() > 0 {
            0
        } else {
            saturating_sum(old(forwarder).pending(), dropped_before)
        }),
        match input {
            PtyInput::Stderr { text } => {
                &&& frames.len() == 1
                &&& frames@[0] matches HarnessFrame::Event { event: dto, .. }
                &&& dto == AdapterEventDto::Diagnostic { text }
            },
            PtyInput::Normalized { chunks, drops, terminal } => {
                let shapes = pty_events(chunks@, drops);
                &&& carry_shapes(frames@, shapes)
                &&& match terminal {
                    None => frames.len() == shapes.len(),
                    Some((state, run_end)) => {
                        &&& frames.len() == shapes.len() + run_end.len() + 1
                        &&& forall|k: int|
                            0 <= k < run_end.len() ==> (#[trigger] frames@[shapes.len() + k] matches HarnessFrame::Event {
                                event,
                                ..
                            } && event == run_end@[k])
                        &&& frames@.last() matches HarnessFrame::State { terminal, .. } && terminal
                            == terminal_state_dto(state)
                    },
                }
            },
        },
{
    forwarder.pending_dropped_before = forwarder.pending_dropped_before.saturating_add(dropped_before);
    let ghost pending = forwarder.pending_dropped_before;
    match input {
        PtyInput::Stderr { text } => {
            let dropped = forwarder.take_dropped_before();
            let mut frames: Vec<HarnessFrame> = Vec::new();
            frames.push(sequencer.event(dropped, AdapterEvent::Diagnostic { text }));
            frames
        },
        PtyInput::Normalized { chunks, drops, terminal } => {
            proof {
                lemma_coalesced_len(chunks@);
            }
            let mut events = coalesce(&chunks);
            if !drops.is_zero() {
                events.push(AdapterEvent::TerminalDrops(drops));
            }
            let ghost shown = events@;
            assert(shaped(shown, pty_events(chunks@, drops)));
            let count = events.len();
            let first = forwarder.take_dropped_before();
            let mut frames = sequencer.emit_events(events, first);
            if count > 0 {
                forwarder.pending_dropped_before = 0;
            } else {
                forwarder.pending_dropped_before = first;
            }
            let ghost event_frames = frames@;
            assert forall|i: int| 0 <= i < shown.len() implies (#[trigger] frames@[i] matches HarnessFrame::Event {
                event: dto,
                ..
            } && exists|event: AdapterEvent| has_shape(event, pty_events(chunks@, drops)[i]) && is_event_dto(event, dto)) by {
                assert(has_shape(shown[i], pty_events(chunks@, drops)[i]));
            }
            match terminal {
                Some((state, run_end)) => {
                    let dropped = forwarder.take_dropped_before();
                    let mut closing = sequencer.state(dropped, state, run_end);
                    frames.append(&mut closing);
                    assert(frames@.take(count as int) =~= event_frames);
                },
                None => {},
            }
            frames
        },
    }
}


/// The fixed diagnostic for a run subdirectory that could not be
/// inventoried at run end; never the underlying error's text.
pub fn inventory_failed_diagnostic() -> (event: AdapterEventDto)
    ensures
        event matches AdapterEventDto::Diagnostic { text } && text@
            == "the run subdirectory could not be inventoried"@,
{
    AdapterEventDto::Diagnostic { text: "the run subdirectory could not be inventoried".to_owned() }
}

/// What a finished run's inventory reported, for its run-end events.
pub struct RunEndReport {
    /// The run's id token.
    pub run_id: String,
    /// Proposal entries recorded for the run.
    pub recorded_entries: u64,
    /// Proposal entries named beyond the per-run cap, counted only.
    pub dropped_entries: u64,
    /// The per-run cap on recorded proposal entries.
    pub entry_cap: u64,
    /// Every proposed entry whose digest no inventoried entry carries.
    pub unmatched_proposals: Vec<ProposedEntry>,
    /// The inventory's counts.
    pub summary: CandidateSummary,
    /// How many candidates were not retained, when the run's record was
    /// gone by the time the inventory completed.
    pub not_retained: Option<u64>,
}

/// How a launch's run end went, for its run-end events.
pub enum RunEnd {
    /// The launch has no outbox record: nothing to inventory.
    NoRecord,
    /// The record's held handle could not be duplicated.
    HandleUnavailable,
    /// The inventory itself failed.
    InventoryFailed,
    /// The inventory completed.
    Inventoried(RunEndReport),
}

/// The diagnostic for proposal entries beyond the cap.
pub open spec fn beyond_cap_text(dropped: u64, recorded: u64, cap: u64) -> Seq<char> {
    "artifact.publish named "@ + decimal(dropped as nat) + " entries beyond the "@ + decimal(
        recorded as nat,
    ) + " recorded for this run (the cap is "@ + decimal(cap as nat)
        + " per run); they were not recorded and took no part in attribution"@
}

/// The diagnostic for a proposed entry whose digest nothing carries.
pub open spec fn unmatched_text(entry: ProposedEntry) -> Seq<char> {
    "artifact.publish names "@ + entry.name@ + " by a digest not found in the run subdirectory ("@
        + hex_of(entry.sha256.bytes().take(4)) + ")"@
}

/// The diagnostic for candidates lost to a record that was forgotten.
pub open spec fn not_retained_text(run_id: Seq<char>, count: u64) -> Seq<char> {
    "the record of run "@ + run_id + " was no longer remembered when its inventory completed; "@
        + decimal(count as nat) + " candidates were not retained and their handles were released"@
}

/// `event` is a diagnostic reading `text`.
pub open spec fn is_diagnostic(event: AdapterEventDto, text: Seq<char>) -> bool {
    event matches AdapterEventDto::Diagnostic { text: t } && t@ == text
}

/// `events` are the run-end events of `report`, in order: one diagnostic
/// for entries beyond the cap (when any), one per unmatched proposal, the
/// `candidates` summary, and one diagnostic for candidates not retained
/// (when any).
pub open spec fn report_events(report: RunEndReport, events: Seq<AdapterEventDto>) -> bool {
    let lead: int = if report.dropped_entries > 0 {
        1
    } else {
        0
    };
    let unmatched = report.unmatched_proposals@;
    let summary = report.summary;
    &&& events.len() == lead + unmatched.len() + 1 + (if report.not_retained is Some {
        1int
    } else {
        0int
    })
    &&& report.dropped_entries > 0 ==> is_diagnostic(
        events[0],
        beyond_cap_text(report.dropped_entries, report.recorded_entries, report.entry_cap),
    )
    &&& forall|k: int|
        0 <= k < unmatched.len() ==> is_diagnostic(
            #[trigger] events[lead + k],
            unmatched_text(unmatched[k]),
        )
    &&& events[lead + unmatched.len()] == AdapterEventDto::Candidates {
        run_id: report.run_id,
        total: summary.total,
        candidate: summary.candidate,
        outbox_escape: summary.outbox_escape,
        outbox_linked: summary.outbox_linked,
        attributed: summary.attributed,
        unattributed: summary.unattributed,
        unreadable: summary.unreadable,
        unmatched_proposals: summary.unmatched_proposals,
    }
    &&& report.not_retained matches Some(count) ==> is_diagnostic(
        events.last(),
        not_retained_text(report.run_id@, count),
    )
}

fn beyond_cap_diagnostic(dropped: u64, recorded: u64, cap: u64) -> (event: AdapterEventDto)
    ensures
        is_diagnostic(event, beyond_cap_text(dropped, recorded, cap)),
{
    let mut text = "artifact.publish named ".to_owned();
    text.append(decimal_string(dropped).as_str());
    text.append(" entries beyond the ");
    text.append(decimal_string(recorded).as_str());
    text.append(" recorded for this run (the cap is ");
    text.append(decimal_string(cap).as_str());
    text.append(" per run); they were not recorded and took no part in attribution");
    assert(text@ =~= beyond_cap_text(dropped, recorded, cap));
    AdapterEventDto::Diagnostic { text }
}

fn unmatched_diagnostic(entry: &ProposedEntry) -> (event: AdapterEventDto)
    ensures
        is_diagnostic(event, unmatched_text(*entry)),
{
    let mut text = "artifact.publish names ".to_owned();
    text.append(entry.name.as_str());
    text.append(" by a digest not found in the run subdirectory (");
    text.append(entry.sha256.short_hex().as_str());
    text.append(")");
    assert(text@ =~= unmatched_text(*entry));
    AdapterEventDto::Diagnostic { text }
}

fn not_retained_diagnostic(run_id: &String, count: u64) -> (event: AdapterEventDto)
    ensures
        is_diagnostic(event, not_retained_text(run_id@, count)),
{
    let mut text = "the record of run ".to_owned();
    text.append(run_id.as_str());
    text.append(" was no longer remembered when its inventory completed; ");
    text.append(decimal_string(count).as_str());
    text.append(" candidates were not retained and their handles were released");
    assert(text@ =~= not_retained_text(run_id@, count));
    AdapterEventDto::Diagnostic { text }
}

/// The run-end events of a launch, emitted before its `state` frame:
/// none without a record; one fixed diagnostic when the subdirectory
/// could not be inventoried; else the report's events.
pub fn run_end_events(run_end: RunEnd) -> (events: Vec<AdapterEventDto>)
    ensures
        match run_end {
            RunEnd::NoRecord => events.len() == 0,
            RunEnd::HandleUnavailable | RunEnd::InventoryFailed => events.len() == 1 && is_diagnostic(
                events@[0],
                "the run subdirectory could not be inventoried"@,
            ),
            RunEnd::Inventoried(report) => report_events(report, events@),
        },
{
    match run_end {
        RunEnd::NoRecord => Vec::new(),
        RunEnd::HandleUnavailable | RunEnd::InventoryFailed => {
            let mut events: Vec<AdapterEventDto> = Vec::new();
            events.push(inventory_failed_diagnostic());
            events
        },
        RunEnd::Inventoried(report) => {
            let mut events: Vec<AdapterEventDto> = Vec::new();
            if report.dropped_entries > 0 {
                events.push(
                    beyond_cap_diagnostic(
                        report.dropped_entries,
                        report.recorded_entries,
                        report.entry_cap,
                    ),
                );
            }
            let lead = events.len();
            let mut k: usize = 0;
            while k < report.unmatched_proposals.len()
                invariant
                    k <= report.unmatched_proposals@.len(),
                    lead == (if report.dropped_entries > 0 {
                        1int
                    } else {
                        0int
                    }),
                    events.len() == lead + k,
                    report.dropped_entries > 0 ==> is_diagnostic(
                        events@[0],
                        beyond_cap_text(
                            report.dropped_entries,
                            report.recorded_entries,
                            report.entry_cap,
                        ),
                    ),
                    forall|j: int|
                        0 <= j < k ==> is_diagnostic(
                            #[trigger] events@[lead + j],
                            unmatched_text(report.unmatched_proposals@[j]),
                        ),
                decreases report.unmatched_proposals@.len() - k,
            {
                events.push(unmatched_diagnostic(&report.unmatched_proposals[k]));
                k = k + 1;
            }
            let summary = report.summary;
            events.push(
                AdapterEventDto::Candidates {
                    run_id: report.run_id.clone(),
                    total: summary.total,
                    candidate: summary.candidate,
                    outbox_escape: summary.outbox_escape,
                    outbox_linked: summary.outbox_linked,
                    attributed: summary.attributed,
                    unattributed: summary.unattributed,
                    unreadable: summary.unreadable,
                    unmatched_proposals: summary.unmatched_proposals,
                },
            );
            match report.not_retained {
                Some(count) => {
                    events.push(not_retained_diagnostic(&report.run_id, count));
                },
                None => {},
            }
            events
        },
    }
}


/// What the project's classification policy declares about its outbox:
/// the declared outbox path (project-relative) and the asset root identity
/// token, if any.
pub struct OutboxPolicyFacts {
    pub outbox: String,
    pub asset_root_id: Option<String>,
}

/// Where a valid outbox declaration points.
pub enum OutboxLocation {
    /// The outbox exists; its canonical path, for display.
    Present(String),
    /// The outbox does not exist yet.
    Missing,
}

/// What loading the policy and validating its outbox declaration gave.
pub enum OutboxCheck {
    PolicyFailed(PolicyError),
    Checked { policy: OutboxPolicyFacts, location: Result<OutboxLocation, OutboxDeclarationError> },
}

/// The reason token for a policy that could not be loaded.
pub open spec fn policy_reason(error: PolicyError) -> OutboxReasonTag {
    match error {
        PolicyError::Unreadable => OutboxReasonTag::PolicyUnreadable,
        PolicyError::Corrupt => OutboxReasonTag::PolicyCorrupt,
        _ => OutboxReasonTag::PolicyInvalid,
    }
}

/// The reason token for a declaration that failed validation.
pub open spec fn declaration_reason(error: OutboxDeclarationError) -> OutboxReasonTag {
    match error {
        OutboxDeclarationError::OutsideProject => OutboxReasonTag::OutsideProject,
        OutboxDeclarationError::IsLink => OutboxReasonTag::Link,
        OutboxDeclarationError::NotADirectory => OutboxReasonTag::NotADirectory,
        OutboxDeclarationError::Unreadable => OutboxReasonTag::Unreadable,
    }
}

/// The outbox status of `check`.
pub open spec fn outbox_status(policy_path: String, check: OutboxCheck) -> OutboxStatusDto {
    match check {
        OutboxCheck::PolicyFailed(error) => OutboxStatusDto {
            declared: None,
            outbox: None,
            exists: false,
            state: OutboxStateTag::OutboxInvalid,
            reason: Some(policy_reason(error)),
            policy_path,
            asset_root_id: None,
        },
        OutboxCheck::Checked { policy, location } => match location {
            Ok(OutboxLocation::Present(canonical)) => OutboxStatusDto {
                declared: Some(policy.outbox),
                outbox: Some(canonical),
                exists: true,
                state: OutboxStateTag::Valid,
                reason: None,
                policy_path,
                asset_root_id: policy.asset_root_id,
            },
            Ok(OutboxLocation::Missing) => OutboxStatusDto {
                declared: Some(policy.outbox),
                outbox: None,
                exists: false,
                state: OutboxStateTag::Valid,
                reason: None,
                policy_path,
                asset_root_id: policy.asset_root_id,
            },
            Err(error) => OutboxStatusDto {
                declared: Some(policy.outbox),
                outbox: None,
                exists: true,
                state: match error.spec_failure() {
                    OutboxFailure::OutboxInvalid => OutboxStateTag::OutboxInvalid,
                    OutboxFailure::OutboxUnavailable => OutboxStateTag::OutboxUnavailable,
                },
                reason: Some(declaration_reason(error)),
                policy_path,
                asset_root_id: policy.asset_root_id,
            },
        },
    }
}

/// The canonical outbox path is shown only for a valid declaration whose
/// directory exists, and a declared path only once the policy loaded.
pub proof fn lemma_canonical_path_only_when_valid(policy_path: String, check: OutboxCheck)
    ensures
        outbox_status(policy_path, check).outbox is Some ==> outbox_status(policy_path, check).state
            == OutboxStateTag::Valid && outbox_status(policy_path, check).exists,
        check is PolicyFailed ==> outbox_status(policy_path, check).declared is None
            && outbox_status(policy_path, check).state == OutboxStateTag::OutboxInvalid,
{
}

/// Once the policy loaded, the status shows its declared outbox and its
/// asset root identity whatever the outbox's location turned out to be; a
/// declared outbox that does not exist yet is valid and not existing.
pub proof fn lemma_status_shows_the_policy_declarations(policy_path: String, check: OutboxCheck)
    ensures
        check matches OutboxCheck::Checked { policy, location } ==> {
            &&& outbox_status(policy_path, check).asset_root_id == policy.asset_root_id
            &&& outbox_status(policy_path, check).declared == Some(policy.outbox)
            &&& location matches Ok(OutboxLocation::Missing) ==> outbox_status(policy_path, check).state
                == OutboxStateTag::Valid && !outbox_status(policy_path, check).exists
                && outbox_status(policy_path, check).outbox is None
        },
        check is PolicyFailed ==> outbox_status(policy_path, check).asset_root_id is None,
        outbox_status(policy_path, check).policy_path == policy_path,
{
}

/// The outbox's status for the active project: the policy's declaration
/// validated against the project root, with the canonical path shown only
/// for a valid, existing outbox; the reason is a fixed token, never an
/// error's text.
pub fn outbox_status_for(policy_path: String, check: OutboxCheck) -> (status: OutboxStatusDto)
    ensures
        status == outbox_status(policy_path, check),
        status.policy_path == policy_path,
        match check {
            OutboxCheck::PolicyFailed(_) => status.declared is None && status.asset_root_id is None
                && status.state == OutboxStateTag::OutboxInvalid,
            OutboxCheck::Checked { policy, location } => {
                &&& status.declared == Some(policy.outbox)
                &&& status.asset_root_id == policy.asset_root_id
                &&& match location {
                    Ok(OutboxLocation::Present(canonical)) => status.outbox == Some(canonical)
                        && status.exists && status.state == OutboxStateTag::Valid
                        && status.reason is None,
                    Ok(OutboxLocation::Missing) => status.outbox is None && !status.exists
                        && status.state == OutboxStateTag::Valid && status.reason is None,
                    Err(_) => status.outbox is None && status.state != OutboxStateTag::Valid
                        && status.reason is Some,
                }
            },
        },
{
    match check {
        OutboxCheck::PolicyFailed(error) => OutboxStatusDto {
            declared: None,
            outbox: None,
            exists: false,
            state: OutboxStateTag::OutboxInvalid,
            reason: Some(
                match error {
                    PolicyError::Unreadable => OutboxReasonTag::PolicyUnreadable,
                    PolicyError::Corrupt => OutboxReasonTag::PolicyCorrupt,
                    _ => OutboxReasonTag::PolicyInvalid,
                },
            ),
            policy_path,
            asset_root_id: None,
        },
        OutboxCheck::Checked { policy, location } => match location {
            Ok(OutboxLocation::Present(canonical)) => OutboxStatusDto {
                declared: Some(policy.outbox),
                outbox: Some(canonical),
                exists: true,
                state: OutboxStateTag::Valid,
                reason: None,
                policy_path,
                asset_root_id: policy.asset_root_id,
            },
            Ok(OutboxLocation::Missing) => OutboxStatusDto {
                declared: Some(policy.outbox),
                outbox: None,
                exists: false,
                state: OutboxStateTag::Valid,
                reason: None,
                policy_path,
                asset_root_id: policy.asset_root_id,
            },
            Err(error) => OutboxStatusDto {
                declared: Some(policy.outbox),
                outbox: None,
                exists: true,
                state: match error.failure() {
                    OutboxFailure::OutboxInvalid => OutboxStateTag::OutboxInvalid,
                    OutboxFailure::OutboxUnavailable => OutboxStateTag::OutboxUnavailable,
                },
                reason: Some(
                    match error {
                        OutboxDeclarationError::OutsideProject => OutboxReasonTag::OutsideProject,
                        OutboxDeclarationError::IsLink => OutboxReasonTag::Link,
                        OutboxDeclarationError::NotADirectory => OutboxReasonTag::NotADirectory,
                        OutboxDeclarationError::Unreadable => OutboxReasonTag::Unreadable,
                    },
                ),
                policy_path,
                asset_root_id: policy.asset_root_id,
            },
        },
    }
}


/// What the run table says of the run a token names.
pub enum RunLookup {
    /// The token is not a run id.
    InvalidRunId,
    /// No remembered run has that id.
    Unknown,
    /// The run has not ended, so nothing was inventoried.
    NotEnded,
    /// The run's run-end inventory.
    Ended(Vec<ListedCandidate>),
}

/// The candidates of one run: the inventory taken at its end.
/// `invalid-request` for a token that is not a run id, a run the table
/// does not remember, or a run that has not ended yet.
pub fn candidates_for_run(lookup: RunLookup) -> (listed: Result<Vec<CandidateDto>, ShellError>)
    ensures
        match lookup {
            RunLookup::InvalidRunId => listed matches Err(error) && is_catalogue_error(
                error,
                ShellErrorCode::InvalidRequest,
                "the run id is not valid"@,
            ),
            RunLookup::Unknown => listed matches Err(error) && is_catalogue_error(
                error,
                ShellErrorCode::InvalidRequest,
                "no run with that id is remembered"@,
            ),
            RunLookup::NotEnded => listed matches Err(error) && is_catalogue_error(
                error,
                ShellErrorCode::InvalidRequest,
                "the run has not ended yet, so its subdirectory has not been inventoried"@,
            ),
            RunLookup::Ended(candidates) => listed matches Ok(rows) && are_candidate_rows(
                candidates@,
                rows@,
            ),
        },
{
    match lookup {
        RunLookup::InvalidRunId => Err(
            ShellError::new(ShellErrorCode::InvalidRequest, "the run id is not valid"),
        ),
        RunLookup::Unknown => Err(
            ShellError::new(ShellErrorCode::InvalidRequest, "no run with that id is remembered"),
        ),
        RunLookup::NotEnded => Err(
            ShellError::new(
                ShellErrorCode::InvalidRequest,
                "the run has not ended yet, so its subdirectory has not been inventoried",
            ),
        ),
        RunLookup::Ended(candidates) => Ok(candidate_rows(&candidates)),
    }
}

/// What opening the outbox for the whole-outbox inventory means: go on
/// listing (`Ok(true)`), an empty inventory for an outbox that does not
/// exist yet (`Ok(false)`), or the mapped failure.
pub fn outbox_open_outcome(opened: Result<(), PrepareError>) -> (outcome: Result<bool, ShellError>)
    ensures
        match opened {
            Ok(()) => outcome == Ok::<bool, ShellError>(true),
            Err(PrepareError::OutboxMissing) => outcome == Ok::<bool, ShellError>(false),
            Err(PrepareError::Declaration(error)) => outcome matches Err(mapped)
                && is_catalogue_error(
                mapped,
                declaration_error_code(error),
                declaration_error_message(error),
            ),
            Err(error) => outcome matches Err(mapped) && is_catalogue_error(
                mapped,
                prepare_error_code(error),
                prepare_error_message(error),
            ),
        },
{
    match opened {
        Ok(()) => Ok(true),
        Err(PrepareError::OutboxMissing) => Ok(false),
        Err(PrepareError::Declaration(error)) => Err(ShellError::from(error)),
        Err(error) => Err(ShellError::from(error)),
    }
}

/// `rows` are the rows of every listing in `listings`, concatenated in
/// order.
pub open spec fn concatenated_rows(listings: Seq<Vec<ListedCandidate>>) -> Seq<ListedCandidate>
    decreases listings.len(),
{
    if listings.len() == 0 {
        Seq::empty()
    } else {
        concatenated_rows(listings.drop_last()) + listings.last()@
    }
}

/// The whole-outbox inventory's rows: the entries at the outbox root,
/// then each run subdirectory's entries, in order, each row with the
/// attribution its listing carries (the whole-outbox assembly lists every
/// entry unattributed). `outbox-unavailable` if any subdirectory could not
/// be listed (`None`).
pub fn whole_outbox_rows(
    root: Vec<ListedCandidate>,
    subdirectories: Vec<Option<Vec<ListedCandidate>>>,
) -> (listed: Result<Vec<CandidateDto>, ShellError>)
    ensures
        (exists|i: int| 0 <= i < subdirectories.len() && subdirectories@[i] is None) ==> (
        listed matches Err(error) && is_catalogue_error(
            error,
            ShellErrorCode::OutboxUnavailable,
            "the outbox could not be listed"@,
        )),
        (forall|i: int| 0 <= i < subdirectories.len() ==> subdirectories@[i] is Some) ==> (
        listed matches Ok(rows) && are_candidate_rows(
            root@ + concatenated_rows(
                subdirectories@.map_values(|l: Option<Vec<ListedCandidate>>| l->0),
            ),
            rows@,
        )),
{
    let mut listed: Vec<ListedCandidate> = root;
    let mut i: usize = 0;
    let ghost root_view = listed@;
    let ghost all = subdirectories@.map_values(|l: Option<Vec<ListedCandidate>>| l->0);
    let mut rest = subdirectories;
    while rest.len() > 0
        invariant
            i <= subdirectories.len(),
            rest@ == subdirectories@.skip(i as int),
            all == subdirectories@.map_values(|l: Option<Vec<ListedCandidate>>| l->0),
            forall|k: int| 0 <= k < i ==> subdirectories@[k] is Some,
            listed@ == root_view + concatenated_rows(all.take(i as int)),
        decreases rest.len(),
    {
        let next = rest.remove(0);
        match next {
            Some(mut entries) => {
                proof {
                    assert(all.take(i + 1).drop_last() =~= all.take(i as int));
                }
                listed.append(&mut entries);
                i = i + 1;
                proof {
                    assert(listed@ =~= root_view + concatenated_rows(all.take(i as int)));
                }
            },
            None => {
                return Err(ShellError::new(ShellErrorCode::OutboxUnavailable, "the outbox could not be listed"));
            },
        }
    }
    assert(all.take(i as int) =~= all);
    Ok(candidate_rows(&listed))
}

/// The product work area's state against the active workspace, from its
/// check.
pub fn work_area_state(check: Result<(), WorkAreaError>) -> (state: WorkAreaStateTag)
    ensures
        state == (if check is Ok {
            WorkAreaStateTag::Valid
        } else {
            WorkAreaStateTag::WorkAreaInvalid
        }),
{
    match check {
        Ok(()) => WorkAreaStateTag::Valid,
        Err(_) => WorkAreaStateTag::WorkAreaInvalid,
    }
}

/// Make `workspace` (its canonical path) the single active workspace,
/// returning its payload and whether the previous workspace's runs must be
/// forgotten: exactly when a different workspace (or none) was active.
/// Picking the workspace that is already active keeps its runs.
pub fn activate_workspace(
    active: &mut Option<String>,
    workspace: String,
    work_area: WorkAreaStateTag,
) -> (activated: (WorkspaceDto, bool))
    ensures
        activated.0 == (WorkspaceDto { display_path: workspace, work_area }),
        activated.1 == !(*old(active) matches Some(current) && current@ == workspace@),
        *final(active) == Some(workspace),
{
    let forget = match active {
        Some(current) => !(*current == workspace),
        None => true,
    };
    let dto = WorkspaceDto::new(workspace.clone(), work_area);
    *active = Some(workspace);
    (dto, forget)
}


/// Every way a launch can be refused or fail before its process streams.
#[derive(Clone, Copy)]
pub enum LaunchFailure {
    /// The adapter id names no built-in adapter.
    UnknownAdapter,
    /// The prompt was rejected.
    Prompt(PromptError),
    /// No workspace has been picked.
    NoWorkspace,
    /// The shell's own current directory could not be resolved into a
    /// workspace (the plain approved launch's working directory).
    CwdUnresolved,
    /// A demo request out of range.
    Request(InvalidRequest),
    /// The launch gate denied the launch.
    Denied(DenialReason),
    /// The launch plan could not be built or declared.
    Plan(LaunchPlanError),
    /// The policy could not be loaded, so no run subdirectory can be
    /// declared.
    PolicyUnloadable,
    /// The run subdirectory could not be prepared.
    Prepare(PrepareError),
    /// The supervisor could not spawn or subscribe.
    Supervisor(SupervisorError),
}

/// The code a launch failure is reported under.
pub open spec fn launch_failure_code(failure: LaunchFailure) -> ShellErrorCode {
    match failure {
        LaunchFailure::UnknownAdapter => ShellErrorCode::UnknownAdapter,
        LaunchFailure::Prompt(error) => prompt_error_code(error),
        LaunchFailure::NoWorkspace => ShellErrorCode::WorkspaceUnavailable,
        LaunchFailure::CwdUnresolved => ShellErrorCode::WorkspaceUnavailable,
        LaunchFailure::Request(error) => invalid_request_code(error),
        LaunchFailure::Denied(reason) => denial_code(reason),
        LaunchFailure::Plan(error) => launch_plan_error_code(error),
        LaunchFailure::PolicyUnloadable => ShellErrorCode::OutboxUnavailable,
        LaunchFailure::Prepare(error) => prepare_error_code(error),
        LaunchFailure::Supervisor(error) => supervisor_error_code(error),
    }
}

/// The catalogue message a launch failure is reported with.
pub open spec fn launch_failure_message(failure: LaunchFailure) -> Seq<char> {
    match failure {
        LaunchFailure::UnknownAdapter => "the requested adapter is not recognized"@,
        LaunchFailure::Prompt(error) => prompt_error_message(error),
        LaunchFailure::NoWorkspace => "no workspace has been picked yet"@,
        LaunchFailure::CwdUnresolved => "this shell's own current directory could not be resolved"@,
        LaunchFailure::Request(error) => invalid_request_message(error),
        LaunchFailure::Denied(reason) => denial_message(reason),
        LaunchFailure::Plan(error) => launch_plan_error_message(error),
        LaunchFailure::PolicyUnloadable => "the classification policy could not be loaded, so no run subdirectory can be declared"@,
        LaunchFailure::Prepare(error) => prepare_error_message(error),
        LaunchFailure::Supervisor(error) => supervisor_error_message(error),
    }
}

/// `detail` is what a launch failure carries beside its message: both
/// digests of a `ChangedSinceApproval` denial as short hex prefixes, and
/// nothing for any other failure.
pub open spec fn launch_failure_detail(failure: LaunchFailure, detail: Option<ShellErrorDetail>) -> bool {
    match failure {
        LaunchFailure::Denied(DenialReason::ChangedSinceApproval { recorded, observed }) => detail matches Some(
            ShellErrorDetail::ChangedSinceApproval {
                recorded_sha256_short: r,
                observed_sha256_short: o,
            },
        ) && r@ == hex_of(recorded.bytes().take(4)) && o@ == hex_of(observed.bytes().take(4)),
        _ => detail is None,
    }
}

/// A launch failure's error: its code and catalogue message, with the
/// changed-digest detail of a `ChangedSinceApproval` denial.
pub fn launch_failure_error(failure: LaunchFailure) -> (error: ShellError)
    ensures
        error.code == launch_failure_code(failure),
        error.message@ == launch_failure_message(failure),
        launch_failure_detail(failure, error.detail),
{
    match failure {
        LaunchFailure::UnknownAdapter => ShellError::new(
            ShellErrorCode::UnknownAdapter,
            "the requested adapter is not recognized",
        ),
        LaunchFailure::Prompt(error) => ShellError::from(error),
        LaunchFailure::NoWorkspace => ShellError::new(
            ShellErrorCode::WorkspaceUnavailable,
            "no workspace has been picked yet",
        ),
        LaunchFailure::CwdUnresolved => ShellError::new(
            ShellErrorCode::WorkspaceUnavailable,
            "this shell's own current directory could not be resolved",
        ),
        LaunchFailure::Request(error) => ShellError::from(error),
        LaunchFailure::Denied(reason) => ShellError::from(reason),
        LaunchFailure::Plan(error) => ShellError::from(error),
        LaunchFailure::PolicyUnloadable => ShellError::new(
            ShellErrorCode::OutboxUnavailable,
            "the classification policy could not be loaded, so no run subdirectory can be declared",
        ),
        LaunchFailure::Prepare(error) => ShellError::from(error),
        LaunchFailure::Supervisor(error) => ShellError::from(error),
    }
}

/// The steps of an adapter launch, in the order they run.
#[derive(Clone, Copy, PartialEq, Eq, Structural)]
pub enum AdapterLaunchStep {
    /// Parse the adapter id against the built-in catalog.
    ParseAdapter,
    /// Validate the prompt.
    CheckPrompt,
    /// Read the active workspace.
    ReadWorkspace,
    /// Ask the launch gate.
    DecideGate,
    /// Build the adapter's own launch plan.
    BuildPlan,
    /// Load the project's policy.
    LoadPolicy,
    /// Prepare the run subdirectory.
    Prepare,
    /// Declare the run subdirectory on the plan.
    Declare,
    /// Spawn the process.
    Spawn,
    /// Subscribe to its output.
    Subscribe,
}

/// The step after `step`, `None` after the last.
pub open spec fn step_after(step: AdapterLaunchStep) -> Option<AdapterLaunchStep> {
    match step {
        AdapterLaunchStep::ParseAdapter => Some(AdapterLaunchStep::CheckPrompt),
        AdapterLaunchStep::CheckPrompt => Some(AdapterLaunchStep::ReadWorkspace),
        AdapterLaunchStep::ReadWorkspace => Some(AdapterLaunchStep::DecideGate),
        AdapterLaunchStep::DecideGate => Some(AdapterLaunchStep::BuildPlan),
        AdapterLaunchStep::BuildPlan => Some(AdapterLaunchStep::LoadPolicy),
        AdapterLaunchStep::LoadPolicy => Some(AdapterLaunchStep::Prepare),
        AdapterLaunchStep::Prepare => Some(AdapterLaunchStep::Declare),
        AdapterLaunchStep::Declare => Some(AdapterLaunchStep::Spawn),
        AdapterLaunchStep::Spawn => Some(AdapterLaunchStep::Subscribe),
        AdapterLaunchStep::Subscribe => None,
    }
}

/// What the launcher does next.
pub enum LaunchAction {
    /// Run this step.
    Run(AdapterLaunchStep),
    /// The launch is refused with `error`; the freshly prepared run
    /// subdirectory is removed again (only while still empty) exactly when
    /// `remove_subdirectory` says so.
    Refuse { error: ShellError, remove_subdirectory: bool },
    /// The process is launched and subscribed: record its run and start
    /// forwarding.
    Launched,
}

/// Decide what follows `step` given how it went: the next step on
/// success, the launched process after the last, or the refusal with its
/// catalogue error. A failure after the run subdirectory was prepared (at
/// declaration or spawn) also removes that subdirectory while it is empty;
/// nothing is spawned after any failure.
pub fn adapter_launch_next(step: AdapterLaunchStep, outcome: Result<(), LaunchFailure>) -> (action:
    LaunchAction)
    ensures
        match outcome {
            Ok(()) => match step_after(step) {
                Some(next) => action == LaunchAction::Run(next),
                None => action is Launched,
            },
            Err(failure) => action matches LaunchAction::Refuse { error, remove_subdirectory }
                && error.code == launch_failure_code(failure) && error.message@
                == launch_failure_message(failure) && launch_failure_detail(failure, error.detail)
                && remove_subdirectory == (step
                == AdapterLaunchStep::Declare || step == AdapterLaunchStep::Spawn),
        },
{
    match outcome {
        Ok(()) => match step {
            AdapterLaunchStep::ParseAdapter => LaunchAction::Run(AdapterLaunchStep::CheckPrompt),
            AdapterLaunchStep::CheckPrompt => LaunchAction::Run(AdapterLaunchStep::ReadWorkspace),
            AdapterLaunchStep::ReadWorkspace => LaunchAction::Run(AdapterLaunchStep::DecideGate),
            AdapterLaunchStep::DecideGate => LaunchAction::Run(AdapterLaunchStep::BuildPlan),
            AdapterLaunchStep::BuildPlan => LaunchAction::Run(AdapterLaunchStep::LoadPolicy),
            AdapterLaunchStep::LoadPolicy => LaunchAction::Run(AdapterLaunchStep::Prepare),
            AdapterLaunchStep::Prepare => LaunchAction::Run(AdapterLaunchStep::Declare),
            AdapterLaunchStep::Declare => LaunchAction::Run(AdapterLaunchStep::Spawn),
            AdapterLaunchStep::Spawn => LaunchAction::Run(AdapterLaunchStep::Subscribe),
            AdapterLaunchStep::Subscribe => LaunchAction::Launched,
        },
        Err(failure) => {
            let remove_subdirectory = match step {
                AdapterLaunchStep::Declare | AdapterLaunchStep::Spawn => true,
                _ => false,
            };
            LaunchAction::Refuse { error: launch_failure_error(failure), remove_subdirectory }
        },
    }
}




/// What an adapter launch's raw frame came to once its text went through
/// the line assembler.
pub enum LineInput {
    /// A stdout text frame: the line it completed, if any.
    Stdout { completed: Option<AssembledLine> },
    /// A stderr text frame.
    Stderr { text: String },
    /// The terminal state: the partial line still pending, flushed with
    /// the `dropped_before` its fragments summed to, and the run-end
    /// events the outbox tracker reported.
    State {
        pending: Option<(AssembledLine, u64)>,
        state: ProcessTerminalState,
        run_end: Vec<AdapterEventDto>,
    },
}

/// How many wire frames a flushed partial line yields.
pub open spec fn pending_line_count(pending: Option<(AssembledLine, u64)>) -> nat {
    match pending {
        Some((line, _)) => line_frame_count(line),
        None => 0,
    }
}

/// How many wire frames an optional completed line yields.
pub open spec fn optional_line_count(line: Option<AssembledLine>) -> nat {
    match line {
        Some(l) => line_frame_count(l),
        None => 0,
    }
}

/// The wire frames one raw frame of an adapter launch produces, in order:
/// nothing until a stdout frame completes a line, then the line's events,
/// its summed `dropped_before` on the first; one `Diagnostic` for a stderr
/// frame; and at the terminal state, any pending partial line flushed as
/// its events with its own summed `dropped_before`, then the run-end
/// events, then the `state` frame, always last, the raw frame's
/// `dropped_before` riding on the first of these.
pub fn adapter_wire_frames(sequencer: &mut AdapterWireSequencer, dropped_before: u64, input: LineInput) -> (frames: Vec<HarnessFrame>)
    requires
        match input {
            LineInput::Stdout { completed } => old(sequencer).next() + optional_line_count(completed)
                <= u64::MAX,
            LineInput::Stderr { .. } => old(sequencer).next() < u64::MAX,
            LineInput::State { pending, run_end, .. } => old(sequencer).next() + pending_line_count(
                pending,
            ) + run_end.len() + 1 < u64::MAX,
        },
    ensures
        final(sequencer).id() == old(sequencer).id(),
        final(sequencer).next() == old(sequencer).next() + frames.len(),
        numbered_from(frames@, old(sequencer).next() as int),
        all_of(frames@, old(sequencer).id()),
        match input {
            LineInput::Stdout { completed } => {
                &&& frames.len() == optional_line_count(completed)
                &&& dropped_on_first(frames@, dropped_before)
                &&& completed matches Some(line) ==> exists|events: Seq<AdapterEvent>|
                    line_events(line, events) && #[trigger] carry_events(frames@, events)
            },
            LineInput::Stderr { text } => {
                &&& frames.len() == 1
                &&& frames@[0] matches HarnessFrame::Event { event: dto, .. }
                &&& dto == AdapterEventDto::Diagnostic { text }
                &&& frame_dropped_before(frames@[0]) == dropped_before
            },
            LineInput::State { pending, state, run_end } => {
                let flushed = pending_line_count(pending) as int;
                &&& frames.len() == flushed + run_end.len() + 1
                &&& pending matches Some((line, line_dropped)) ==> {
                    &&& dropped_on_first(frames@.take(flushed), line_dropped)
                    &&& exists|events: Seq<AdapterEvent>|
                        line_events(line, events) && #[trigger] carry_events(frames@.take(flushed), events)
                }
                &&& dropped_on_first(frames@.skip(flushed), dropped_before)
                &&& forall|k: int|
                    0 <= k < run_end.len() ==> (#[trigger] frames@[flushed + k] matches HarnessFrame::Event {
                        event,
                        ..
                    } && event == run_end@[k])
                &&& frames@.last() matches HarnessFrame::State { terminal, .. } && terminal
                    == terminal_state_dto(state)
            },
        },
{
    match input {
        LineInput::Stdout { completed } => match completed {
            Some(line) => assembled_wire_frames(sequencer, line, dropped_before),
            None => Vec::new(),
        },
        LineInput::Stderr { text } => {
            let mut frames: Vec<HarnessFrame> = Vec::new();
            frames.push(sequencer.event(dropped_before, AdapterEvent::Diagnostic { text }));
            frames
        },
        LineInput::State { pending, state, run_end } => {
            let mut frames = match pending {
                Some((line, line_dropped)) => assembled_wire_frames(sequencer, line, line_dropped),
                None => Vec::new(),
            };
            let ghost flushed = frames@;
            let ghost start = old(sequencer).next() as int;
            let mut closing = sequencer.state(dropped_before, state, run_end);
            let ghost closing_view = closing@;
            frames.append(&mut closing);
            proof {
                lemma_consecutive_frames_contiguous(flushed, closing_view, start);
                assert(frames@ =~= flushed + closing_view);
                assert(frames@.take(flushed.len() as int) =~= flushed);
                assert(frames@.skip(flushed.len() as int) =~= closing_view);
            }
            frames
        },
    }
}

/// The active workspace, or `workspace-unavailable` when none has been
/// picked.
pub fn active_workspace(active: &Option<String>) -> (workspace: Result<String, ShellError>)
    ensures
        match *active {
            Some(w) => workspace == Ok::<String, ShellError>(w),
            None => fails_with(
                workspace,
                ShellErrorCode::WorkspaceUnavailable,
                "no workspace has been picked yet"@,
            ),
        },
{
    match active {
        Some(w) => Ok(w.clone()),
        None => Err(ShellError::new(ShellErrorCode::WorkspaceUnavailable, "no workspace has been picked yet")),
    }
}

/// What picking an executable in the native file picker gave.
pub enum PickedExecutable {
    /// No file was selected.
    NothingSelected,
    /// The selected file's path could not be resolved.
    PathUnresolved,
    /// The probe's outcome: an identity, or why none was taken.
    Probed(Result<ExecutableIdentity, ProbeOutcome>),
}

/// A picked executable's probe result: its identity remembered as a new
/// candidate (evicting the oldest when the table is full), with its
/// evidence; `no-candidate` when nothing usable was picked; the probe's
/// own catalogue error otherwise.
pub fn pick_and_probe(candidates: &mut CandidateTable, picked: PickedExecutable) -> (result: Result<ProbeResultDto, ShellError>)
    requires
        old(candidates).wf(),
        old(candidates).last_id() < u64::MAX,
    ensures
        final(candidates).wf(),
        match picked {
            PickedExecutable::NothingSelected => fails_with(
                result,
                ShellErrorCode::NoCandidate,
                "no file was selected"@,
            ) && *final(candidates) == *old(candidates),
            PickedExecutable::PathUnresolved => fails_with(
                result,
                ShellErrorCode::NoCandidate,
                "the selected file's path could not be resolved"@,
            ) && *final(candidates) == *old(candidates),
            PickedExecutable::Probed(Err(outcome)) => fails_with(
                result,
                probe_failure_code(outcome),
                probe_failure_message(outcome),
            ) && *final(candidates) == *old(candidates),
            PickedExecutable::Probed(Ok(identity)) => result matches Ok(dto) && dto.candidate_id.0
                == old(candidates).last_id() + 1 && final(candidates).entries() == inserted(
                old(candidates).entries(),
                dto.candidate_id.0,
                identity,
            ) && final(candidates).last_id() == dto.candidate_id.0 && is_evidence_dto(
                identity,
                dto.evidence,
            ),
        },
{
    match picked {
        PickedExecutable::NothingSelected => Err(
            ShellError::new(ShellErrorCode::NoCandidate, "no file was selected"),
        ),
        PickedExecutable::PathUnresolved => Err(
            ShellError::new(ShellErrorCode::NoCandidate, "the selected file's path could not be resolved"),
        ),
        PickedExecutable::Probed(Err(outcome)) => Err(ShellError::from_probe_failure(outcome)),
        PickedExecutable::Probed(Ok(identity)) => {
            let evidence = EvidenceDto::from_identity(&identity);
            let id = candidates.insert(identity);
            Ok(ProbeResultDto { candidate_id: CandidateIdDto(id.raw()), evidence })
        },
    }
}

/// No message a [`SupervisorError`] is reported with names a path.
pub proof fn lemma_supervisor_error_messages_name_no_path(error: SupervisorError)
    ensures
        names_no_path(supervisor_error_message(error)),
{
    reveal_strlit("failed to start the requested process");
    reveal_strlit("no process with that id is known");
    reveal_strlit("output for that process id is already subscribed");
    reveal_strlit("too many processes are already running");
    reveal_strlit("pseudo-terminal launches are not available on this platform");
}

/// No message a [`InvalidRequest`] is reported with names a path.
pub proof fn lemma_invalid_request_messages_name_no_path(error: InvalidRequest)
    ensures
        names_no_path(invalid_request_message(error)),
{
    reveal_strlit("the requested rate_hz or lines value is out of the accepted range");
}

/// No message a [`ApprovalStoreError`] is reported with names a path.
pub proof fn lemma_approval_store_error_messages_name_no_path(error: ApprovalStoreError)
    ensures
        names_no_path(approval_store_error_message(error)),
{
    reveal_strlit("the approval store is unavailable");
}

/// No message a [`LaunchPlanError`] is reported with names a path.
pub proof fn lemma_launch_plan_error_messages_name_no_path(error: LaunchPlanError)
    ensures
        names_no_path(launch_plan_error_message(error)),
{
    reveal_strlit("the adapter declared an environment variable that looks secret-shaped");
    reveal_strlit("the working directory resolves outside the workspace");
    reveal_strlit("this adapter's prompt channel is not supported");
    reveal_strlit("prompt contains control characters a terminal would interpret");
    reveal_strlit("this launch plan cannot declare an output directory");
}

/// No message a [`PrepareError`] is reported with names a path.
pub proof fn lemma_prepare_error_messages_name_no_path(error: PrepareError)
    ensures
        names_no_path(prepare_error_message(error)),
{
    reveal_strlit("the declared outbox is invalid or unavailable, so no run subdirectory can be declared");
    reveal_strlit("the outbox could not be created or opened");
    reveal_strlit("something already sits at the run subdirectory path; remove it and relaunch");
    reveal_strlit("the run subdirectory could not be created");
    reveal_strlit("the run subdirectory could not be verified by handle");
}

/// No message a [`PolicyError`] is reported with names a path.
pub proof fn lemma_policy_error_messages_name_no_path(error: PolicyError)
    ensures
        names_no_path(policy_error_message(error)),
{
    reveal_strlit("the classification policy could not be loaded");
}

/// No message a [`OutboxDeclarationError`] is reported with names a path.
pub proof fn lemma_declaration_error_messages_name_no_path(error: OutboxDeclarationError)
    ensures
        names_no_path(declaration_error_message(error)),
{
    reveal_strlit("the declared outbox resolves outside the project or is a link");
    reveal_strlit("the declared outbox is not a readable directory");
}

/// No message a [`PromptError`] is reported with names a path.
pub proof fn lemma_prompt_error_messages_name_no_path(error: PromptError)
    ensures
        names_no_path(prompt_error_message(error)),
{
    reveal_strlit("the prompt exceeds the size limit");
    reveal_strlit("the prompt contains an interior NUL byte");
}

/// No message a [`DenialReason`] is reported with names a path.
pub proof fn lemma_denial_messages_name_no_path(reason: DenialReason)
    ensures
        names_no_path(denial_message(reason)),
{
    reveal_strlit("this executable has not been approved");
    reveal_strlit("the approval for this executable was revoked");
    reveal_strlit("the approved path now resolves somewhere else");
    reveal_strlit("the executable's content has changed since it was approved");
    match reason {
        DenialReason::ProbeFailed(outcome) => crate::ipc::dto::lemma_probe_failure_messages_name_no_path(outcome),
        _ => {},
    }
}

/// No message a [`LaunchFailure`] is reported with names a path.
pub proof fn lemma_launch_failure_messages_name_no_path(failure: LaunchFailure)
    ensures
        names_no_path(launch_failure_message(failure)),
{
    reveal_strlit("the requested adapter is not recognized");
    reveal_strlit("no workspace has been picked yet");
    reveal_strlit("this shell's own current directory could not be resolved");
    reveal_strlit("the classification policy could not be loaded, so no run subdirectory can be declared");
    match failure {
        LaunchFailure::Prompt(error) => lemma_prompt_error_messages_name_no_path(error),
        LaunchFailure::Request(error) => lemma_invalid_request_messages_name_no_path(error),
        LaunchFailure::Denied(reason) => lemma_denial_messages_name_no_path(reason),
        LaunchFailure::Plan(error) => lemma_launch_plan_error_messages_name_no_path(error),
        LaunchFailure::Prepare(error) => lemma_prepare_error_messages_name_no_path(error),
        LaunchFailure::Supervisor(error) => lemma_supervisor_error_messages_name_no_path(error),
        _ => {},
    }
}

} // verus!
