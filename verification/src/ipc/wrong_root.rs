//! The wrong-root commands' decisions: the output-discipline report, the
//! scan summary, the misplaced rows, and each remedy's payload. A scan
//! observes; a remedy acts, and names a finding by name and digest, never
//! by a path.

use vstd::prelude::*;

use crate::domain::{
    AdapterDescriptor, MisplacedFinding, OutputDiscipline, Remedy, ScopeMode, Sha256Digest,
};
use crate::failures::{CopyInError, IgnoreLedgerError, OpenMisplacedError, QuarantineError, ScanError};
use crate::hex::{bytes_of_hex, hex_of, is_hex_of_width};
use crate::ipc::dto::{
    names_no_path,
    fails_with, is_catalogue_error, is_misplaced_dto, saturating_u32, count_u32, MisplacedDto, MisplacedRemedyDto,
    MisplacedScanDto, OutputDisciplineTag, RemedyOutcomeTag, ScopeModeDto, RemedyTag, ShellError, ShellErrorCode, WrongRootStatusDto,
};
use crate::ipc::publication::run_active;
use vstd::std_specs::convert::FromSpec;

verus! {

/// The code a [`ScanError`] is reported under.
pub open spec fn scan_error_code(error: ScanError) -> ShellErrorCode {
    match error {
        ScanError::Unreadable => ShellErrorCode::ScanFailed,
    }
}

/// The catalogue message a [`ScanError`] is reported with.
pub open spec fn scan_error_message(error: ScanError) -> Seq<char> {
    match error {
        ScanError::Unreadable => "the project could not be scanned"@,
    }
}

impl From<ScanError> for ShellError {
    /// A project root that cannot be walked is `scan-failed`.
    fn from(error: ScanError) -> (mapped: Self)
        ensures
            is_catalogue_error(mapped, scan_error_code(error), scan_error_message(error)),
    {
        match error {
            ScanError::Unreadable => ShellError::new(
                ShellErrorCode::ScanFailed,
                "the project could not be scanned",
            ),
        }
    }
}

impl vstd::std_specs::convert::FromSpecImpl<ScanError> for ShellError {
    /// The mapping is stated on `from` itself: a catalogue message is a
    /// `String`, which no spec expression builds.
    open spec fn obeys_from_spec() -> bool {
        false
    }

    open spec fn from_spec(error: ScanError) -> Self {
        vstd::pervasive::arbitrary()
    }
}

/// The code a [`IgnoreLedgerError`] is reported under.
pub open spec fn ignore_ledger_error_code(error: IgnoreLedgerError) -> ShellErrorCode {
    match error {
        IgnoreLedgerError::Unreadable => ShellErrorCode::WorkAreaInvalid,
        IgnoreLedgerError::Corrupt => ShellErrorCode::WorkAreaInvalid,
        IgnoreLedgerError::WriteFailed => ShellErrorCode::WorkAreaInvalid,
    }
}

/// The catalogue message a [`IgnoreLedgerError`] is reported with.
pub open spec fn ignore_ledger_error_message(error: IgnoreLedgerError) -> Seq<char> {
    match error {
        IgnoreLedgerError::Unreadable => "the ignore ledger could not be read"@,
        IgnoreLedgerError::Corrupt => "the ignore ledger is corrupt"@,
        IgnoreLedgerError::WriteFailed => "the ignore ledger could not be written"@,
    }
}

impl From<IgnoreLedgerError> for ShellError {
    /// The ignore ledger is the work area's: a ledger that cannot be used is a work area that cannot be used.
    fn from(error: IgnoreLedgerError) -> (mapped: Self)
        ensures
            is_catalogue_error(mapped, ignore_ledger_error_code(error), ignore_ledger_error_message(error)),
    {
        match error {
            IgnoreLedgerError::Unreadable => ShellError::new(
                ShellErrorCode::WorkAreaInvalid,
                "the ignore ledger could not be read",
            ),
            IgnoreLedgerError::Corrupt => ShellError::new(
                ShellErrorCode::WorkAreaInvalid,
                "the ignore ledger is corrupt",
            ),
            IgnoreLedgerError::WriteFailed => ShellError::new(
                ShellErrorCode::WorkAreaInvalid,
                "the ignore ledger could not be written",
            ),
        }
    }
}

impl vstd::std_specs::convert::FromSpecImpl<IgnoreLedgerError> for ShellError {
    /// The mapping is stated on `from` itself: a catalogue message is a
    /// `String`, which no spec expression builds.
    open spec fn obeys_from_spec() -> bool {
        false
    }

    open spec fn from_spec(error: IgnoreLedgerError) -> Self {
        vstd::pervasive::arbitrary()
    }
}

/// The code a [`QuarantineError`] is reported under.
pub open spec fn quarantine_error_code(error: QuarantineError) -> ShellErrorCode {
    match error {
        QuarantineError::Unusable => ShellErrorCode::QuarantineUnavailable,
        QuarantineError::InsideWorkspace => ShellErrorCode::QuarantineUnavailable,
        QuarantineError::NotOwnerOnly => ShellErrorCode::QuarantineUnavailable,
        QuarantineError::CopyFailed => ShellErrorCode::QuarantineUnavailable,
        QuarantineError::DestinationLinked => ShellErrorCode::QuarantineUnavailable,
        QuarantineError::NotRegularFile => ShellErrorCode::Refused,
        QuarantineError::PathChanged => ShellErrorCode::Refused,
        QuarantineError::DigestChanged => ShellErrorCode::Refused,
    }
}

/// The catalogue message a [`QuarantineError`] is reported with.
pub open spec fn quarantine_error_message(error: QuarantineError) -> Seq<char> {
    match error {
        QuarantineError::Unusable => "the quarantine directory could not be used"@,
        QuarantineError::InsideWorkspace => "the quarantine directory resolves inside a registered workspace root"@,
        QuarantineError::NotOwnerOnly => "the quarantine directory could not be made owner-only"@,
        QuarantineError::CopyFailed => "the file could not be moved into quarantine"@,
        QuarantineError::DestinationLinked => "the quarantine destination has more than one name"@,
        QuarantineError::NotRegularFile => "the file is not a regular file"@,
        QuarantineError::PathChanged => "the name no longer holds the file that was opened"@,
        QuarantineError::DigestChanged => "the file's content changed since it was found"@,
    }
}

impl From<QuarantineError> for ShellError {
    /// A failure of the quarantine directory is `quarantine-unavailable`; a fact about the file that no longer holds is `refused`.
    fn from(error: QuarantineError) -> (mapped: Self)
        ensures
            is_catalogue_error(mapped, quarantine_error_code(error), quarantine_error_message(error)),
    {
        match error {
            QuarantineError::Unusable => ShellError::new(
                ShellErrorCode::QuarantineUnavailable,
                "the quarantine directory could not be used",
            ),
            QuarantineError::InsideWorkspace => ShellError::new(
                ShellErrorCode::QuarantineUnavailable,
                "the quarantine directory resolves inside a registered workspace root",
            ),
            QuarantineError::NotOwnerOnly => ShellError::new(
                ShellErrorCode::QuarantineUnavailable,
                "the quarantine directory could not be made owner-only",
            ),
            QuarantineError::CopyFailed => ShellError::new(
                ShellErrorCode::QuarantineUnavailable,
                "the file could not be moved into quarantine",
            ),
            QuarantineError::DestinationLinked => ShellError::new(
                ShellErrorCode::QuarantineUnavailable,
                "the quarantine destination has more than one name",
            ),
            QuarantineError::NotRegularFile => ShellError::new(
                ShellErrorCode::Refused,
                "the file is not a regular file",
            ),
            QuarantineError::PathChanged => ShellError::new(
                ShellErrorCode::Refused,
                "the name no longer holds the file that was opened",
            ),
            QuarantineError::DigestChanged => ShellError::new(
                ShellErrorCode::Refused,
                "the file's content changed since it was found",
            ),
        }
    }
}

impl vstd::std_specs::convert::FromSpecImpl<QuarantineError> for ShellError {
    /// The mapping is stated on `from` itself: a catalogue message is a
    /// `String`, which no spec expression builds.
    open spec fn obeys_from_spec() -> bool {
        false
    }

    open spec fn from_spec(error: QuarantineError) -> Self {
        vstd::pervasive::arbitrary()
    }
}

/// The code a [`CopyInError`] is reported under.
pub open spec fn copy_in_error_code(error: CopyInError) -> ShellErrorCode {
    match error {
        CopyInError::NotRegularFile => ShellErrorCode::Refused,
        CopyInError::PathChanged => ShellErrorCode::Refused,
        CopyInError::DigestChanged => ShellErrorCode::Refused,
        CopyInError::CopyFailed => ShellErrorCode::OutboxUnavailable,
        CopyInError::EntryExists => ShellErrorCode::OutboxUnavailable,
        CopyInError::Linked => ShellErrorCode::OutboxLinked,
    }
}

/// The catalogue message a [`CopyInError`] is reported with.
pub open spec fn copy_in_error_message(error: CopyInError) -> Seq<char> {
    match error {
        CopyInError::NotRegularFile => "the file is not a regular file"@,
        CopyInError::PathChanged => "the name no longer holds the file that was opened"@,
        CopyInError::DigestChanged => "the file's content changed since it was found"@,
        CopyInError::CopyFailed => "the file could not be copied into the outbox"@,
        CopyInError::EntryExists => "an outbox entry of that name already exists with other content"@,
        CopyInError::Linked => "the file's link count is greater than one"@,
    }
}

impl From<CopyInError> for ShellError {
    /// A failed copy into the outbox, as its catalogue error.
    fn from(error: CopyInError) -> (mapped: Self)
        ensures
            is_catalogue_error(mapped, copy_in_error_code(error), copy_in_error_message(error)),
    {
        match error {
            CopyInError::NotRegularFile => ShellError::new(
                ShellErrorCode::Refused,
                "the file is not a regular file",
            ),
            CopyInError::PathChanged => ShellError::new(
                ShellErrorCode::Refused,
                "the name no longer holds the file that was opened",
            ),
            CopyInError::DigestChanged => ShellError::new(
                ShellErrorCode::Refused,
                "the file's content changed since it was found",
            ),
            CopyInError::CopyFailed => ShellError::new(
                ShellErrorCode::OutboxUnavailable,
                "the file could not be copied into the outbox",
            ),
            CopyInError::EntryExists => ShellError::new(
                ShellErrorCode::OutboxUnavailable,
                "an outbox entry of that name already exists with other content",
            ),
            CopyInError::Linked => ShellError::new(
                ShellErrorCode::OutboxLinked,
                "the file's link count is greater than one",
            ),
        }
    }
}

impl vstd::std_specs::convert::FromSpecImpl<CopyInError> for ShellError {
    /// The mapping is stated on `from` itself: a catalogue message is a
    /// `String`, which no spec expression builds.
    open spec fn obeys_from_spec() -> bool {
        false
    }

    open spec fn from_spec(error: CopyInError) -> Self {
        vstd::pervasive::arbitrary()
    }
}

/// The code a [`OpenMisplacedError`] is reported under.
pub open spec fn open_misplaced_error_code(error: OpenMisplacedError) -> ShellErrorCode {
    match error {
        OpenMisplacedError::InvalidName => ShellErrorCode::InvalidRequest,
        OpenMisplacedError::NotFound => ShellErrorCode::MisplacedUnknown,
        OpenMisplacedError::NotRegularFile => ShellErrorCode::Refused,
        OpenMisplacedError::Unreadable => ShellErrorCode::Refused,
        OpenMisplacedError::Linked => ShellErrorCode::OutboxLinked,
    }
}

/// The catalogue message a [`OpenMisplacedError`] is reported with.
pub open spec fn open_misplaced_error_message(error: OpenMisplacedError) -> Seq<char> {
    match error {
        OpenMisplacedError::InvalidName => "the name is not a project-relative path"@,
        OpenMisplacedError::NotFound => "nothing sits at that name any more; scan again"@,
        OpenMisplacedError::NotRegularFile => "that name does not hold a regular file"@,
        OpenMisplacedError::Unreadable => "that file could not be read"@,
        OpenMisplacedError::Linked => "the file's link count is greater than one"@,
    }
}

impl From<OpenMisplacedError> for ShellError {
    /// A misplaced file that could not be opened, as its catalogue error.
    fn from(error: OpenMisplacedError) -> (mapped: Self)
        ensures
            is_catalogue_error(mapped, open_misplaced_error_code(error), open_misplaced_error_message(error)),
    {
        match error {
            OpenMisplacedError::InvalidName => ShellError::new(
                ShellErrorCode::InvalidRequest,
                "the name is not a project-relative path",
            ),
            OpenMisplacedError::NotFound => ShellError::new(
                ShellErrorCode::MisplacedUnknown,
                "nothing sits at that name any more; scan again",
            ),
            OpenMisplacedError::NotRegularFile => ShellError::new(
                ShellErrorCode::Refused,
                "that name does not hold a regular file",
            ),
            OpenMisplacedError::Unreadable => ShellError::new(
                ShellErrorCode::Refused,
                "that file could not be read",
            ),
            OpenMisplacedError::Linked => ShellError::new(
                ShellErrorCode::OutboxLinked,
                "the file's link count is greater than one",
            ),
        }
    }
}

impl vstd::std_specs::convert::FromSpecImpl<OpenMisplacedError> for ShellError {
    /// The mapping is stated on `from` itself: a catalogue message is a
    /// `String`, which no spec expression builds.
    open spec fn obeys_from_spec() -> bool {
        false
    }

    open spec fn from_spec(error: OpenMisplacedError) -> Self {
        vstd::pervasive::arbitrary()
    }
}

/// An `invalid-request` with `message`.
pub fn invalid(message: &str) -> (error: ShellError)
    ensures
        is_catalogue_error(error, ShellErrorCode::InvalidRequest, message@),
{
    ShellError::new(ShellErrorCode::InvalidRequest, message)
}

/// The refusal for a name and digest the last scan did not report.
pub fn unknown_finding() -> (error: ShellError)
    ensures
        is_catalogue_error(
            error,
            ShellErrorCode::MisplacedUnknown,
            "no scan reported that file at that digest; scan again and retry"@,
        ),
{
    ShellError::new(
        ShellErrorCode::MisplacedUnknown,
        "no scan reported that file at that digest; scan again and retry",
    )
}

/// `misplaced_remedy`'s request: the finding named by the name and full
/// digest the last scan reported, and which remedy to run.
#[derive(Debug, Clone, PartialEq, Eq)]
pub struct RemedyRequest {
    pub name: String,
    pub sha256: String,
    pub remedy: RemedyTag,
}

/// How strongly a mode enforces, weakest lowest.
pub open spec fn strength(mode: ScopeMode) -> int {
    match mode {
        ScopeMode::Advisory => 0,
        ScopeMode::HarnessEnforced => 1,
        ScopeMode::SandboxEnforced => 2,
    }
}

/// The weakest mode any of `descriptors` declares, `SandboxEnforced` for
/// none.
pub open spec fn weakest_mode(descriptors: Seq<AdapterDescriptor>) -> ScopeMode
    decreases descriptors.len(),
{
    if descriptors.len() == 0 {
        ScopeMode::SandboxEnforced
    } else {
        let before = weakest_mode(descriptors.drop_last());
        let mode = descriptors.last().scope_mode;
        if strength(mode) < strength(before) {
            mode
        } else {
            before
        }
    }
}

/// The reported mode is the weakest any adapter declares: no adapter
/// declares a weaker one, and some adapter declares it.
pub proof fn lemma_reported_mode_is_weakest(descriptors: Seq<AdapterDescriptor>)
    requires
        descriptors.len() > 0,
    ensures
        forall|i: int|
            0 <= i < descriptors.len() ==> strength(weakest_mode(descriptors)) <= strength(
                #[trigger] descriptors[i].scope_mode,
            ),
        exists|i: int| 0 <= i < descriptors.len() && weakest_mode(descriptors) == (#[trigger] descriptors[i]).scope_mode,
    decreases descriptors.len(),
{
    let before = descriptors.drop_last();
    if before.len() > 0 {
        lemma_reported_mode_is_weakest(before);
        assert forall|i: int| 0 <= i < descriptors.len() implies strength(weakest_mode(descriptors))
            <= strength(#[trigger] descriptors[i].scope_mode) by {
            if i < before.len() {
                assert(before[i] == descriptors[i]);
            }
        }
        let j = choose|j: int| 0 <= j < before.len() && weakest_mode(before) == (#[trigger] before[j]).scope_mode;
        assert(before[j] == descriptors[j]);
        if weakest_mode(descriptors) == descriptors.last().scope_mode {
            assert(weakest_mode(descriptors) == descriptors[descriptors.len() - 1].scope_mode);
        } else {
            assert(weakest_mode(descriptors) == descriptors[j].scope_mode);
        }
    } else {
        assert(weakest_mode(before) == ScopeMode::SandboxEnforced);
        assert(weakest_mode(descriptors) == descriptors[0].scope_mode);
    }
}

/// The output discipline reads enforced exactly when there is at least
/// one adapter and every adapter is sandbox-enforced: one adapter that is
/// not takes the claim away from all of them.
pub proof fn lemma_enforced_only_when_all_sandboxed(descriptors: Seq<AdapterDescriptor>)
    ensures
        (descriptors.len() > 0 && OutputDiscipline::spec_for_scope(weakest_mode(descriptors))
            == OutputDiscipline::Enforced) <==> (descriptors.len() > 0 && forall|i: int|
            0 <= i < descriptors.len() ==> (#[trigger] descriptors[i]).scope_mode
                == ScopeMode::SandboxEnforced),
{
    if descriptors.len() > 0 {
        lemma_reported_mode_is_weakest(descriptors);
        if OutputDiscipline::spec_for_scope(weakest_mode(descriptors)) == OutputDiscipline::Enforced {
            assert forall|i: int| 0 <= i < descriptors.len() implies (#[trigger] descriptors[i]).scope_mode
                == ScopeMode::SandboxEnforced by {
                assert(strength(weakest_mode(descriptors)) <= strength(descriptors[i].scope_mode));
            }
        }
    }
}

/// The scope mode the project's output discipline is reported under: the
/// weakest mode any registered adapter declares, `advisory` for an empty
/// catalog. The product cannot claim enforcement because some adapter is
/// sandboxed while another is not.
pub fn reported_scope_mode(descriptors: &Vec<AdapterDescriptor>) -> (mode: ScopeMode)
    ensures
        descriptors.len() == 0 ==> mode == ScopeMode::Advisory,
        descriptors.len() > 0 ==> mode == weakest_mode(descriptors@),
{
    let mut weakest = ScopeMode::SandboxEnforced;
    let mut i: usize = 0;
    while i < descriptors.len()
        invariant
            i <= descriptors@.len(),
            weakest == weakest_mode(descriptors@.take(i as int)),
        decreases descriptors@.len() - i,
    {
        assert(descriptors@.take(i + 1).drop_last() =~= descriptors@.take(i as int));
        weakest = match (weakest, descriptors[i].scope_mode) {
            (ScopeMode::Advisory, _) | (_, ScopeMode::Advisory) => ScopeMode::Advisory,
            (ScopeMode::HarnessEnforced, _) | (_, ScopeMode::HarnessEnforced) => ScopeMode::HarnessEnforced,
            _ => ScopeMode::SandboxEnforced,
        };
        i = i + 1;
    }
    assert(descriptors@.take(i as int) =~= descriptors@);
    if descriptors.len() == 0 {
        ScopeMode::Advisory
    } else {
        weakest
    }
}

/// The output-discipline report: the reported mode, the discipline a
/// project-root write set has under it, its disclosures, and what the
/// last scan of this project left standing (`scanned`, `findings`).
pub fn wrong_root_status_for(descriptors: &Vec<AdapterDescriptor>, scanned: bool, findings: u32) -> (status: WrongRootStatusDto)
    ensures
        ({
            let mode = if descriptors.len() == 0 {
                ScopeMode::Advisory
            } else {
                weakest_mode(descriptors@)
            };
            let discipline = OutputDiscipline::spec_for_scope(mode);
            &&& status.output_discipline == OutputDisciplineTag::from_spec(discipline)
            &&& status.scope_mode == ScopeModeDto::from_spec(mode)
            &&& status.disclosures@.map_values(|text: String| text@) == discipline.spec_disclosures()
            &&& status.scanned == scanned
            &&& status.findings == findings
        }),
{
    let mode = reported_scope_mode(descriptors);
    let discipline = OutputDiscipline::for_scope(mode);
    WrongRootStatusDto::of(discipline, mode, scanned, findings)
}

/// What a walk of the project root saw.
#[derive(Clone, Copy)]
pub struct ScanCounts {
    pub scanned: u32,
    pub excluded: u32,
    pub unreadable: u32,
    pub truncated: bool,
}

/// The scan's summary: counts only; the findings left standing after the
/// ignore ledger are counted, saturating at `u32::MAX`.
pub fn scan_summary(counts: ScanCounts, findings: u64, ignored: u32) -> (summary: MisplacedScanDto)
    ensures
        summary == (MisplacedScanDto {
            scanned: counts.scanned,
            findings: saturating_u32(findings),
            ignored,
            excluded: counts.excluded,
            unreadable: counts.unreadable,
            truncated: counts.truncated,
        }),
{
    MisplacedScanDto {
        scanned: counts.scanned,
        findings: count_u32(findings),
        ignored,
        excluded: counts.excluded,
        unreadable: counts.unreadable,
        truncated: counts.truncated,
    }
}

/// Every finding the last scan left standing, in walk order.
pub fn misplaced_list_for(findings: &Vec<MisplacedFinding>) -> (rows: Vec<MisplacedDto>)
    ensures
        rows.len() == findings.len(),
        forall|i: int| 0 <= i < rows.len() ==> is_misplaced_dto(findings@[i], #[trigger] rows@[i]),
{
    let mut rows: Vec<MisplacedDto> = Vec::new();
    let mut i: usize = 0;
    while i < findings.len()
        invariant
            i <= findings@.len(),
            rows.len() == i,
            forall|k: int| 0 <= k < i ==> is_misplaced_dto(findings@[k], #[trigger] rows@[k]),
        decreases findings@.len() - i,
    {
        rows.push(MisplacedDto::from_finding(&findings[i]));
        i = i + 1;
    }
    rows
}

/// The digest a remedy request names: `run-active` while a run is live,
/// `invalid-request` unless it is 64 hex characters.
pub fn remedy_digest(running: bool, sha256: &str) -> (digest: Result<Sha256Digest, ShellError>)
    ensures
        running ==> fails_with(
            digest,
            ShellErrorCode::RunActive,
            "a run is active; approve or publish once it has ended"@,
        ),
        !running && !is_hex_of_width(sha256@, 32) ==> fails_with(
            digest,
            ShellErrorCode::InvalidRequest,
            "the digest is not 64 hex characters"@,
        ),
        !running && is_hex_of_width(sha256@, 32) ==> (digest matches Ok(d) && d.bytes()
            == bytes_of_hex(sha256@)),
{
    if running {
        return Err(run_active());
    }
    match Sha256Digest::from_hex(sha256) {
        Some(digest) => Ok(digest),
        None => Err(invalid("the digest is not 64 hex characters")),
    }
}

/// The domain remedy a request's tag names.
pub fn remedy_of(tag: RemedyTag) -> (remedy: Remedy)
    ensures
        remedy == Remedy::from_spec(tag),
{
    Remedy::from(tag)
}

/// The ignore remedy's payload: the file is left where it is, named by
/// its digest.
pub fn ignored_payload(digest: &Sha256Digest) -> (dto: MisplacedRemedyDto)
    ensures
        dto.remedy == RemedyTag::Ignore,
        dto.outcome == RemedyOutcomeTag::Ignored,
        dto.name is None,
        dto.sha256 matches Some(h) && h@ == hex_of(digest.bytes()),
        dto.original_kept == Some(true),
        dto.detail is None,
{
    MisplacedRemedyDto {
        remedy: RemedyTag::Ignore,
        outcome: RemedyOutcomeTag::Ignored,
        name: None,
        sha256: Some(digest.to_hex()),
        original_kept: Some(true),
        detail: None,
    }
}

/// Why a quarantine move fell back from a rename to a copy.
#[derive(Debug, Clone, Copy, PartialEq, Eq, Structural)]
pub enum FallbackReason {
    DifferentVolume,
    Unsupported,
    Failed,
}

impl FallbackReason {
    /// The fallback's wire token.
    pub open spec fn spec_token(self) -> Seq<char> {
        match self {
            FallbackReason::DifferentVolume => "different-volume"@,
            FallbackReason::Unsupported => "rename-unsupported"@,
            FallbackReason::Failed => "rename-failed"@,
        }
    }

    /// The fallback's wire token.
    pub fn as_str(self) -> (token: &'static str)
        ensures
            token@ == self.spec_token(),
    {
        match self {
            FallbackReason::DifferentVolume => "different-volume",
            FallbackReason::Unsupported => "rename-unsupported",
            FallbackReason::Failed => "rename-failed",
        }
    }
}

/// How one completed quarantine move went.
#[derive(Debug, Clone)]
pub enum QuarantineMove {
    /// Renamed into quarantine and verified there.
    Renamed,
    /// Renamed, but the destination's verification did not complete.
    RenamedUnverified,
    /// Copied, and the original unlinked.
    CopiedAndUnlinked { fallback: FallbackReason },
    /// Copied, and the original kept, for the reason token given.
    CopiedOriginalKept { fallback: FallbackReason, reason: String },
}

/// `original_kept` and `token` are what the move `outcome` puts on the
/// wire.
pub open spec fn is_quarantine_detail(outcome: QuarantineMove, original_kept: bool, token: String) -> bool {
    match outcome {
        QuarantineMove::Renamed => !original_kept && token@ == "renamed"@,
        QuarantineMove::RenamedUnverified => !original_kept && token@ == "renamed-unverified"@,
        QuarantineMove::CopiedAndUnlinked { fallback } => !original_kept && token@
            == fallback.spec_token(),
        QuarantineMove::CopiedOriginalKept { reason, .. } => original_kept && token == reason,
    }
}

/// What a quarantine move puts on the wire: whether the original is still
/// where it was, and the fixed token naming how the move went.
pub fn quarantine_detail(outcome: &QuarantineMove) -> (detail: (bool, String))
    ensures
        is_quarantine_detail(*outcome, detail.0, detail.1),
{
    match outcome {
        QuarantineMove::Renamed => (false, "renamed".to_owned()),
        QuarantineMove::RenamedUnverified => (false, "renamed-unverified".to_owned()),
        QuarantineMove::CopiedAndUnlinked { fallback } => (false, fallback.as_str().to_owned()),
        QuarantineMove::CopiedOriginalKept { reason, .. } => (true, reason.clone()),
    }
}

/// The quarantine remedy's payload: the name and digest of the file in
/// quarantine, whether the original is still in place, and the move's
/// detail token.
pub fn quarantined_payload(name: String, digest: &Sha256Digest, outcome: &QuarantineMove) -> (dto: MisplacedRemedyDto)
    ensures
        dto.remedy == RemedyTag::Quarantine,
        dto.outcome == RemedyOutcomeTag::Quarantined,
        dto.name == Some(name),
        dto.sha256 matches Some(h) && h@ == hex_of(digest.bytes()),
        dto.original_kept matches Some(kept) && dto.detail matches Some(token)
            && is_quarantine_detail(*outcome, kept, token),
{
    let (original_kept, detail) = quarantine_detail(outcome);
    MisplacedRemedyDto {
        remedy: RemedyTag::Quarantine,
        outcome: RemedyOutcomeTag::Quarantined,
        name: Some(name),
        sha256: Some(digest.to_hex()),
        original_kept: Some(original_kept),
        detail: Some(detail),
    }
}

/// The publish remedy's payload: the new outbox entry's name and digest;
/// the original is left where it was found.
pub fn copied_payload(name: String, digest: &Sha256Digest) -> (dto: MisplacedRemedyDto)
    ensures
        dto.remedy == RemedyTag::Publish,
        dto.outcome == RemedyOutcomeTag::CopiedToOutbox,
        dto.name == Some(name),
        dto.sha256 matches Some(h) && h@ == hex_of(digest.bytes()),
        dto.original_kept == Some(true),
        dto.detail is None,
{
    MisplacedRemedyDto {
        remedy: RemedyTag::Publish,
        outcome: RemedyOutcomeTag::CopiedToOutbox,
        name: Some(name),
        sha256: Some(digest.to_hex()),
        original_kept: Some(true),
        detail: None,
    }
}

/// The last `/`-separated component of `name`.
pub open spec fn last_component(name: Seq<char>) -> Seq<char> {
    if exists|i: int| 0 <= i < name.len() && name[i] == '/' {
        let i = choose|i: int|
            0 <= i < name.len() && name[i] == '/' && forall|j: int| i < j < name.len() ==> name[j] != '/';
        name.skip(i + 1)
    } else {
        name
    }
}

/// The text a remedy sanitizes into the display name of the file it acts
/// on: the last component of the finding's project-relative name.
pub fn display_name_of(finding: &MisplacedFinding) -> (last: String)
    ensures
        last@ == last_component(finding.name@),
{
    let name = finding.name.as_str();
    let len = name.unicode_len();
    let mut i: usize = len;
    while i > 0 && name.get_char(i - 1) != '/'
        invariant
            len == name@.len(),
            i <= len,
            forall|j: int| i <= j < len ==> name@[j] != '/',
        decreases i,
    {
        i = i - 1;
    }
    if i == 0 {
        assert(!(exists|k: int| 0 <= k < name@.len() && name@[k] == '/'));
        name.to_owned()
    } else {
        proof {
            let k = (i - 1) as int;
            assert(name@[k] == '/');
            let c = choose|c: int|
                0 <= c < name@.len() && name@[c] == '/' && forall|j: int| c < j < name@.len() ==> name@[j] != '/';
            assert(c == k) by {
                if c < k {
                } else if k < c {
                }
            }
            assert(name@.subrange(i as int, len as int) =~= name@.skip(k + 1));
        }
        name.substring_char(i, len).to_owned()
    }
}


/// No message a [`ScanError`] is reported with names a path.
pub proof fn lemma_scan_error_messages_name_no_path(error: ScanError)
    ensures
        names_no_path(scan_error_message(error)),
{
    reveal_strlit("the project could not be scanned");
}

/// No message a [`IgnoreLedgerError`] is reported with names a path.
pub proof fn lemma_ignore_ledger_error_messages_name_no_path(error: IgnoreLedgerError)
    ensures
        names_no_path(ignore_ledger_error_message(error)),
{
    reveal_strlit("the ignore ledger could not be read");
    reveal_strlit("the ignore ledger is corrupt");
    reveal_strlit("the ignore ledger could not be written");
}

/// No message a [`QuarantineError`] is reported with names a path.
pub proof fn lemma_quarantine_error_messages_name_no_path(error: QuarantineError)
    ensures
        names_no_path(quarantine_error_message(error)),
{
    reveal_strlit("the quarantine directory could not be used");
    reveal_strlit("the quarantine directory resolves inside a registered workspace root");
    reveal_strlit("the quarantine directory could not be made owner-only");
    reveal_strlit("the file could not be moved into quarantine");
    reveal_strlit("the quarantine destination has more than one name");
    reveal_strlit("the file is not a regular file");
    reveal_strlit("the name no longer holds the file that was opened");
    reveal_strlit("the file's content changed since it was found");
}

/// No message a [`CopyInError`] is reported with names a path.
pub proof fn lemma_copy_in_error_messages_name_no_path(error: CopyInError)
    ensures
        names_no_path(copy_in_error_message(error)),
{
    reveal_strlit("the file is not a regular file");
    reveal_strlit("the name no longer holds the file that was opened");
    reveal_strlit("the file's content changed since it was found");
    reveal_strlit("the file could not be copied into the outbox");
    reveal_strlit("an outbox entry of that name already exists with other content");
    reveal_strlit("the file's link count is greater than one");
}

/// No message a [`OpenMisplacedError`] is reported with names a path.
pub proof fn lemma_open_misplaced_error_messages_name_no_path(error: OpenMisplacedError)
    ensures
        names_no_path(open_misplaced_error_message(error)),
{
    reveal_strlit("the name is not a project-relative path");
    reveal_strlit("nothing sits at that name any more; scan again");
    reveal_strlit("that name does not hold a regular file");
    reveal_strlit("that file could not be read");
    reveal_strlit("the file's link count is greater than one");
}

} // verus!
