//! The domain values the shell's decisions read, held as plain data: the
//! facts a probe, an inventory, a journal, or a supervisor reports, in the
//! shape the wire mappings and the command decisions consume them.

use vstd::prelude::*;

use crate::hex::{bytes_of_hex, hex_of, is_hex_of_width, parse_hex, to_hex};

verus! {

/// A SHA-256 digest.
#[derive(Debug, Clone, Copy)]
pub struct Sha256Digest(pub [u8; 32]);

impl Sha256Digest {
    /// Parse exactly 64 hex characters; `None` for anything else.
    pub fn from_hex(text: &str) -> (digest: Option<Sha256Digest>)
        ensures
            digest is Some <==> is_hex_of_width(text@, 32),
            digest matches Some(d) ==> d.bytes() == bytes_of_hex(text@),
    {
        match parse_hex(text, 32) {
            Some(bytes) => {
                let mut out = [0u8; 32];
                let mut i: usize = 0;
                while i < 32
                    invariant
                        i <= 32,
                        bytes@.len() == 32,
                        out@.len() == 32,
                        forall|k: int| 0 <= k < i ==> out@[k] == bytes@[k],
                    decreases 32 - i,
                {
                    out[i] = bytes[i];
                    i = i + 1;
                }
                assert(out@ =~= bytes@);
                Some(Sha256Digest(out))
            },
            None => None,
        }
    }

    /// The digest's bytes.
    pub open spec fn bytes(self) -> Seq<u8> {
        self.0@
    }

    /// Its full lowercase hex rendering: 64 characters.
    pub fn to_hex(&self) -> (text: String)
        ensures
            text@ == hex_of(self.bytes()),
            text@.len() == 64,
    {
        to_hex(self.0.as_slice())
    }

    /// Its short form: the first four bytes, 8 lowercase hex characters.
    pub fn short_hex(&self) -> (text: String)
        ensures
            text@ == hex_of(self.bytes().take(4)),
            text@.len() == 8,
    {
        let bytes = self.0.as_slice();
        let mut prefix: Vec<u8> = Vec::new();
        let mut i: usize = 0;
        while i < 4
            invariant
                bytes@ == self.bytes(),
                bytes@.len() == 32,
                i <= 4,
                prefix@ =~= self.bytes().take(i as int),
            decreases 4 - i,
        {
            prefix.push(bytes[i]);
            i = i + 1;
        }
        to_hex(prefix.as_slice())
    }

    /// Whether two digests are the same bytes.
    pub fn same_as(&self, other: &Sha256Digest) -> (same: bool)
        ensures
            same <==> self.bytes() == other.bytes(),
    {
        let mut i: usize = 0;
        while i < 32
            invariant
                i <= 32,
                self.0@.len() == 32,
                other.0@.len() == 32,
                forall|k: int| 0 <= k < i ==> self.0@[k] == other.0@[k],
            decreases 32 - i,
        {
            if self.0[i] != other.0[i] {
                return false;
            }
            i = i + 1;
        }
        assert(self.0@ =~= other.0@);
        true
    }
}

/// A 64-bit derived id (an artifact approval id, a snapshot id), held as
/// its eight big-endian bytes: the wire shows it as 16 lowercase hex
/// characters.
#[derive(Debug, Clone, Copy)]
pub struct Id64(pub [u8; 8]);

impl Id64 {
    /// Parse exactly 16 hex characters; `None` for anything else.
    pub fn from_hex(text: &str) -> (id: Option<Id64>)
        ensures
            id is Some <==> is_hex_of_width(text@, 8),
            id matches Some(d) ==> d.bytes() == bytes_of_hex(text@),
    {
        match parse_hex(text, 8) {
            Some(bytes) => {
                let mut out = [0u8; 8];
                let mut i: usize = 0;
                while i < 8
                    invariant
                        i <= 8,
                        bytes@.len() == 8,
                        out@.len() == 8,
                        forall|k: int| 0 <= k < i ==> out@[k] == bytes@[k],
                    decreases 8 - i,
                {
                    out[i] = bytes[i];
                    i = i + 1;
                }
                assert(out@ =~= bytes@);
                Some(Id64(out))
            },
            None => None,
        }
    }

    /// The id's bytes.
    pub open spec fn bytes(self) -> Seq<u8> {
        self.0@
    }

    /// Its lowercase hex rendering: 16 characters.
    pub fn to_hex(&self) -> (text: String)
        ensures
            text@ == hex_of(self.bytes()),
            text@.len() == 16,
    {
        to_hex(self.0.as_slice())
    }

    /// Whether two ids are the same bytes.
    pub fn same_as(&self, other: &Id64) -> (same: bool)
        ensures
            same <==> self.bytes() == other.bytes(),
    {
        let mut i: usize = 0;
        while i < 8
            invariant
                i <= 8,
                self.0@.len() == 8,
                other.0@.len() == 8,
                forall|k: int| 0 <= k < i ==> self.0@[k] == other.0@[k],
            decreases 8 - i,
        {
            if self.0[i] != other.0[i] {
                return false;
            }
            i = i + 1;
        }
        assert(self.0@ =~= other.0@);
        true
    }
}

/// Where an instant lies against the Unix epoch, as a clock reports it:
/// before it, or a whole number of milliseconds after it.
#[derive(Debug, Clone, Copy, PartialEq, Eq, Structural)]
pub enum EpochOffset {
    BeforeEpoch,
    AfterEpoch { millis: u128 },
}

/// An executable's platform evidence.
#[derive(Debug)]
pub enum PlatformEvidence {
    Unix { mode: u32 },
    Windows { extension: String, attributes: u32 },
}

impl Clone for PlatformEvidence {
    fn clone(&self) -> (copy: Self)
        ensures
            copy == *self,
    {
        match self {
            PlatformEvidence::Unix { mode } => PlatformEvidence::Unix { mode: *mode },
            PlatformEvidence::Windows { extension, attributes } => PlatformEvidence::Windows {
                extension: extension.clone(),
                attributes: *attributes,
            },
        }
    }
}

/// A probed executable's identity: its canonical path (as display text),
/// size, content digest, modification instant, and platform evidence.
#[derive(Debug)]
pub struct ExecutableIdentity {
    pub canonical_path: String,
    pub size: u64,
    pub sha256: Sha256Digest,
    pub modified_at: Option<EpochOffset>,
    pub platform: PlatformEvidence,
}

impl Clone for ExecutableIdentity {
    fn clone(&self) -> (copy: Self)
        ensures
            copy == *self,
    {
        ExecutableIdentity {
            canonical_path: self.canonical_path.clone(),
            size: self.size,
            sha256: self.sha256,
            modified_at: self.modified_at,
            platform: self.platform.clone(),
        }
    }
}

/// An adapter's transport class.
#[derive(Debug, Clone, Copy, PartialEq, Eq, Structural)]
pub enum TransportClass {
    StructuredStreamingCli,
    Pty,
}

/// How an adapter delivers its prompt.
#[derive(Debug, Clone, Copy, PartialEq, Eq, Structural)]
pub enum PromptChannel {
    StdinThenClose,
    Argv,
    PtyTyped,
}

/// How strongly an adapter's write scope is enforced, strongest first.
#[derive(Debug, Clone, Copy, PartialEq, Eq, Structural)]
pub enum ScopeMode {
    SandboxEnforced,
    HarnessEnforced,
    Advisory,
}

/// An outbox entry's validation state.
#[derive(Debug, Clone, Copy, PartialEq, Eq, Structural)]
pub enum CandidateState {
    Candidate,
    OutboxEscape,
    OutboxLinked,
}

/// An artifact's publication state.
#[derive(Debug, Clone, Copy, PartialEq, Eq, Structural)]
pub enum ArtifactState {
    Candidate,
    PublishedLocal,
    Registered,
    ProviderSynced,
    RegistrationPending,
    Refused,
    IntegrityMismatch,
    DuplicatePublication,
    OutboxEscape,
    OutboxLinked,
}

/// A Catalog record's provider state.
#[derive(Debug, Clone, Copy, PartialEq, Eq, Structural)]
pub enum ProviderState {
    Pending,
    Synced,
    Failed,
    Unavailable,
}

/// The kind of a managed file.
#[derive(Debug, Clone, Copy, PartialEq, Eq, Structural)]
pub enum ManagedFileKind {
    Guidance,
    Ignore,
}

/// A managed block's status in its file.
#[derive(Debug, Clone, Copy, PartialEq, Eq, Structural)]
pub enum ManagedStatus {
    Absent,
    Current,
    Outdated,
    Modified,
    Malformed,
}

/// What a guidance apply plan does.
#[derive(Debug, Clone, Copy, PartialEq, Eq, Structural)]
pub enum ApplyAction {
    Insert,
    Replace,
    NoOp,
}

/// Whether the declared write set is enforced.
#[derive(Debug, Clone, Copy, PartialEq, Eq, Structural)]
pub enum OutputDiscipline {
    Enforced,
    Advisory,
}

/// The disclosure carried under every discipline: a write inside the
/// project but outside the outbox is only ever detected after the run.
pub open spec fn in_project_disclosure() -> Seq<char> {
    "a write inside the project but outside the outbox is detected after the run, never prevented"@
}

/// The disclosure carried when writes outside the project are possible.
pub open spec fn outside_project_disclosure() -> Seq<char> {
    "a write outside the project is possible and is detected after the run, not prevented"@
}

impl OutputDiscipline {
    /// The discipline a project-root write set has under `mode`: only an
    /// OS sandbox over the project root makes it enforced.
    pub open spec fn spec_for_scope(mode: ScopeMode) -> OutputDiscipline {
        match mode {
            ScopeMode::SandboxEnforced => OutputDiscipline::Enforced,
            _ => OutputDiscipline::Advisory,
        }
    }

    /// The discipline a project-root write set has under `mode`.
    pub fn for_scope(mode: ScopeMode) -> (discipline: OutputDiscipline)
        ensures
            discipline == OutputDiscipline::spec_for_scope(mode),
    {
        match mode {
            ScopeMode::SandboxEnforced => OutputDiscipline::Enforced,
            _ => OutputDiscipline::Advisory,
        }
    }

    /// The disclosures this discipline must carry, in order.
    pub open spec fn spec_disclosures(self) -> Seq<Seq<char>> {
        match self {
            OutputDiscipline::Enforced => seq![in_project_disclosure()],
            OutputDiscipline::Advisory => seq![in_project_disclosure(), outside_project_disclosure()],
        }
    }

    /// The disclosures this discipline must carry, as text.
    pub fn disclosures(self) -> (texts: Vec<String>)
        ensures
            texts@.map_values(|text: String| text@) == self.spec_disclosures(),
    {
        let mut texts: Vec<String> = Vec::new();
        texts.push(
            "a write inside the project but outside the outbox is detected after the run, never prevented".to_owned(),
        );
        match self {
            OutputDiscipline::Enforced => {},
            OutputDiscipline::Advisory => {
                texts.push(
                    "a write outside the project is possible and is detected after the run, not prevented".to_owned(),
                );
            },
        }
        assert(texts@.map_values(|text: String| text@) =~= self.spec_disclosures());
        texts
    }
}

/// The three remedies offered for a misplaced file.
#[derive(Debug, Clone, Copy, PartialEq, Eq, Structural)]
pub enum Remedy {
    Quarantine,
    Publish,
    Ignore,
}

impl Remedy {
    /// A remedy's wire token.
    pub open spec fn spec_token(self) -> Seq<char> {
        match self {
            Remedy::Quarantine => "quarantine"@,
            Remedy::Publish => "publish"@,
            Remedy::Ignore => "ignore"@,
        }
    }

    /// A remedy's wire token.
    pub fn as_str(self) -> (token: &'static str)
        ensures
            token@ == self.spec_token(),
    {
        match self {
            Remedy::Quarantine => "quarantine",
            Remedy::Publish => "publish",
            Remedy::Ignore => "ignore",
        }
    }
}

/// Every remedy's token, in the order they are offered.
pub open spec fn remedy_tokens() -> Seq<Seq<char>> {
    seq!["quarantine"@, "publish"@, "ignore"@]
}

/// A supervised process's platform id.
#[derive(Debug, Clone, Copy, PartialEq, Eq, Structural)]
pub struct ProcessId(pub u32);

/// An executable approval's id.
#[derive(Debug, Clone, Copy, PartialEq, Eq, Structural)]
pub struct ApprovalId(pub u64);

/// How a supervised process ended.
#[derive(Debug, Clone, Copy, PartialEq, Eq, Structural)]
pub enum ProcessTerminalState {
    Exited { code: Option<i32> },
    Killed,
    OrphanRiskUncertain,
}

/// A supervised process's observed status.
#[derive(Debug, Clone, Copy, PartialEq, Eq, Structural)]
pub enum ProcessStatus {
    Running,
    Terminal(ProcessTerminalState),
}

/// Which captured stream a text frame came from.
#[derive(Debug, Clone, Copy, PartialEq, Eq, Structural)]
pub enum OutputStream {
    Stdout,
    Stderr,
}

/// What one captured frame carries.
#[derive(Debug, Clone)]
pub enum FramePayload {
    /// Decoded text; `continued` says more of the same line follows.
    Text { stream: OutputStream, text: String, continued: bool },
    /// The process's terminal state, always the last frame.
    State(ProcessTerminalState),
}

/// One captured output frame: the capturing side's sequence number, how
/// many frames were dropped just before it, and its payload.
#[derive(Debug, Clone)]
pub struct OutputFrame {
    pub seq: u64,
    pub dropped_before: u64,
    pub payload: FramePayload,
}

/// An adapter's descriptor, as the catalog reports it (metadata only).
#[derive(Debug, Clone)]
pub struct AdapterDescriptor {
    pub id: String,
    pub display_name: String,
    pub transport_class: TransportClass,
    pub prompt_channel: PromptChannel,
    pub scope_mode: ScopeMode,
    pub notes: String,
}

/// An agent's phase, as an adapter parsed it.
#[derive(Debug, Clone)]
pub enum AgentPhase {
    Init,
    Finished { subtype: String },
    Exited,
}

/// A sanitized terminal action a PTY launch produced.
#[derive(Debug)]
pub enum TerminalAction {
    Title(String),
    Notification(String),
}

impl Clone for TerminalAction {
    fn clone(&self) -> (copy: Self)
        ensures
            copy == *self,
    {
        match self {
            TerminalAction::Title(text) => TerminalAction::Title(text.clone()),
            TerminalAction::Notification(text) => TerminalAction::Notification(text.clone()),
        }
    }
}

/// Per-family counts of terminal sequences dropped.
#[derive(Debug, Clone, Copy, PartialEq, Eq, Structural)]
pub struct DropCounts {
    pub layout: u64,
    pub hyperlink: u64,
    pub clipboard: u64,
    pub file_transfer: u64,
    pub string: u64,
    pub unknown: u64,
    pub malformed: u64,
}

/// One entry an `artifact.publish` proposal names.
#[derive(Debug, Clone)]
pub struct ProposedEntry {
    pub name: String,
    pub sha256: Sha256Digest,
}

/// A tool call an adapter parsed.
#[derive(Debug, Clone)]
pub struct ToolCallProposal {
    pub name: String,
    pub arguments_text: String,
}

/// One event an adapter (or the PTY forwarder) produced.
#[derive(Debug, Clone)]
pub enum AdapterEvent {
    ArtifactPublish { entries: Vec<ProposedEntry> },
    State { phase: AgentPhase, observations: Vec<(String, String)> },
    Message { text: String },
    ToolCall(ToolCallProposal),
    Diagnostic { text: String },
    Unknown { raw: Vec<u8>, truncated: bool },
    TerminalText { text: String },
    TerminalAction(TerminalAction),
    TerminalDrops(DropCounts),
}

/// One piece a terminal normalizer hands back: text to show, or a
/// sanitized action.
#[derive(Debug)]
pub enum TerminalChunk {
    Text(String),
    Action(TerminalAction),
}

impl Clone for TerminalChunk {
    fn clone(&self) -> (copy: Self)
        ensures
            copy == *self,
    {
        match self {
            TerminalChunk::Text(text) => TerminalChunk::Text(text.clone()),
            TerminalChunk::Action(action) => TerminalChunk::Action(action.clone()),
        }
    }
}

impl DropCounts {
    /// Whether no sequence of any family was dropped.
    pub open spec fn spec_is_zero(self) -> bool {
        &&& self.layout == 0
        &&& self.hyperlink == 0
        &&& self.clipboard == 0
        &&& self.file_transfer == 0
        &&& self.string == 0
        &&& self.unknown == 0
        &&& self.malformed == 0
    }

    /// Whether no sequence of any family was dropped: exactly when these
    /// are the all-zero counts.
    pub fn is_zero(&self) -> (zero: bool)
        ensures
            zero == self.spec_is_zero(),
            zero <==> *self == (DropCounts {
                layout: 0,
                hyperlink: 0,
                clipboard: 0,
                file_transfer: 0,
                string: 0,
                unknown: 0,
                malformed: 0,
            }),
    {
        self.layout == 0 && self.hyperlink == 0 && self.clipboard == 0 && self.file_transfer == 0
            && self.string == 0 && self.unknown == 0 && self.malformed == 0
    }
}

/// Counts read as zero exactly when they are the all-zero counts: any
/// family with a dropped sequence makes them non-zero.
pub proof fn lemma_zero_counts_are_the_zero_value(counts: DropCounts)
    ensures
        counts.spec_is_zero() <==> counts == (DropCounts {
            layout: 0,
            hyperlink: 0,
            clipboard: 0,
            file_transfer: 0,
            string: 0,
            unknown: 0,
            malformed: 0,
        }),
{
}

/// The counts a run-end inventory summary reports.
#[derive(Debug, Clone, Copy, PartialEq, Eq, Structural)]
pub struct CandidateSummary {
    pub total: u32,
    pub candidate: u32,
    pub outbox_escape: u32,
    pub outbox_linked: u32,
    pub attributed: u32,
    pub unattributed: u32,
    pub unreadable: u32,
    pub unmatched_proposals: u32,
}


/// Who an outbox entry is attributed to: the run that proposed it, or
/// nobody.
#[derive(Debug)]
pub enum Attribution {
    Run(String),
    Unattributed,
}

impl Clone for Attribution {
    fn clone(&self) -> (copy: Self)
        ensures
            copy == *self,
    {
        match self {
            Attribution::Run(run_id) => Attribution::Run(run_id.clone()),
            Attribution::Unattributed => Attribution::Unattributed,
        }
    }
}

/// One inventoried outbox entry: its outbox-relative name, and the facts
/// taken from its handle (meaningful only for an entry in the `Candidate`
/// state, where something was digested).
#[derive(Debug)]
pub struct CandidateEntry {
    pub name: String,
    pub size: u64,
    pub digest: Sha256Digest,
    pub detected_type: String,
    pub class: String,
    pub attribution: Attribution,
}

/// A portable reference to a registered artifact: its publication
/// identity and its Catalog identity.
#[derive(Debug)]
pub struct PortableReference {
    pub id: Sha256Digest,
    pub locator: String,
}

/// An artifact approval's identity-bound facts and derived ids.
#[derive(Debug)]
pub struct ArtifactApproval {
    pub approval_id: Id64,
    pub publication_id: Sha256Digest,
    pub run_id: Option<String>,
    pub name: String,
    pub display_name: String,
    pub digest: Sha256Digest,
    pub size: u64,
    pub detected_type: String,
    pub class: String,
    pub attribution: Attribution,
    pub asset_root_id: String,
    pub adapter_id: Option<String>,
    pub executable_approval: Option<ApprovalId>,
    pub approved_at: EpochOffset,
    pub source: ApprovalSource,
}

/// Where the bytes an approval binds were found: an outbox entry, or a
/// recovery entry kept when the publication named here escaped its
/// outbox path.
#[derive(Debug, Clone, Copy)]
pub enum ApprovalSource {
    Outbox,
    Recovery { recovered_from: Sha256Digest },
}

/// The provenance of the launch a run came from, as its record keeps it:
/// the adapter and the executable approval that governed it.
#[derive(Debug, Clone, PartialEq, Eq)]
pub struct LaunchProvenance {
    pub adapter_id: Option<String>,
    pub executable_approval: Option<ApprovalId>,
}

/// A Catalog record, as listed: its identity, state, the portable
/// reference it yields (once registered), its provider state, its Catalog
/// identity, and its sanitized names.
#[derive(Debug)]
pub struct CatalogRecord {
    pub publication_id: Sha256Digest,
    pub state: ArtifactState,
    pub reference: Option<PortableReference>,
    pub provider_state: ProviderState,
    pub catalog_id: String,
    pub names: Vec<String>,
}

/// What a publication transaction left: its end state, the reference it
/// issued (once registered), and the record.
#[derive(Debug)]
pub struct Published {
    pub state: ArtifactState,
    pub reference: Option<PortableReference>,
    pub record: CatalogRecord,
}

/// One publication state transition.
#[derive(Debug, Clone, Copy)]
pub struct StateEvent {
    pub publication_id: Sha256Digest,
    pub state: ArtifactState,
    pub provider_state: Option<ProviderState>,
}

/// A managed file's status: its name at the workspace root, whether it
/// exists, its block's state, the template version the product writes,
/// its digest when it exists, and the snapshot counts.
#[derive(Debug)]
pub struct GuidanceStatus {
    pub file: String,
    pub exists: bool,
    pub managed: ManagedStatus,
    pub template_version: String,
    pub file_sha256: Option<Sha256Digest>,
    pub snapshots: u64,
    pub pinned: u64,
}

/// A guidance apply's proposal: the block as it would be written, the
/// action, the digest an apply binds to, and the file's digest afterwards.
#[derive(Debug)]
pub struct GuidancePreview {
    pub file: String,
    pub action: ApplyAction,
    pub proposed_block: String,
    pub file_sha256: Option<Sha256Digest>,
    pub result_sha256: Sha256Digest,
}

/// One snapshot's manifest.
#[derive(Debug)]
pub struct SnapshotManifest {
    pub id: Id64,
    pub kind: ManagedFileKind,
    pub file: String,
    pub existed: bool,
    pub sha256: Sha256Digest,
    pub size: u64,
    pub taken_at: EpochOffset,
    pub pinned: bool,
}

/// One misplaced file a wrong-root scan found: its project-relative name,
/// the facts taken from its handle, and why it is misplaced.
#[derive(Debug)]
pub struct MisplacedFinding {
    pub name: String,
    pub size: u64,
    pub digest: Sha256Digest,
    pub detected_type: String,
    pub class: String,
    pub reason: String,
}

/// An executable approval's status.
#[derive(Debug, Clone, Copy)]
pub enum ApprovalStatus {
    Active,
    Revoked { revoked_at: EpochOffset },
}

/// One executable approval on record.
#[derive(Debug)]
pub struct ApprovalRecord {
    pub approval_id: ApprovalId,
    pub identity: ExecutableIdentity,
    pub approved_at: EpochOffset,
    pub status: ApprovalStatus,
}


/// One inventoried entry, the state validation gave it, and whether its
/// handle is still held for a publication.
#[derive(Debug)]
pub struct ListedCandidate {
    pub entry: CandidateEntry,
    pub state: CandidateState,
    pub handle_held: bool,
}

/// What one no-follow open of an outbox (or recovery) entry found.
#[derive(Debug)]
pub enum CandidateProbe {
    /// A regular file with a link count of one: the facts its handle gave.
    Regular { digest: Sha256Digest, size: u64, detected_type: String },
    /// Not a regular file inside the directory.
    Escape,
    /// A regular file reached by more than one name.
    Linked,
    /// Nothing could be opened at the name.
    Unreadable,
}

/// A publication journal step.
#[derive(Debug, Clone, Copy, PartialEq, Eq, Structural)]
pub enum JournalStep {
    PublishedLocal,
    Refused,
    OutboxEscape,
    OutboxLinked,
    /// Any other step of the transaction.
    Other,
}

/// How a journaled step ended.
#[derive(Debug, Clone, Copy, PartialEq, Eq, Structural)]
pub enum StepOutcome {
    Succeeded,
    Failed,
}

/// One publication journal entry: an approval (its publication identity
/// and display name), or a step of a publication.
#[derive(Debug)]
pub enum JournalEntry {
    Approved { publication_id: Sha256Digest, display_name: String },
    Step {
        publication_id: Sha256Digest,
        step: JournalStep,
        outcome: StepOutcome,
        /// The digest of the recovery entry an `outbox-escape` wrote.
        recovery: Option<Sha256Digest>,
        at: EpochOffset,
    },
}

/// A registration the journal shows as pending: its publication
/// identity, the project it belongs to, and its names.
#[derive(Debug)]
pub struct PendingRegistration {
    pub publication_id: Sha256Digest,
    pub scope_id: Sha256Digest,
    pub names: Vec<String>,
}

} // verus!
