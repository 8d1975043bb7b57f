//! The publication commands' decisions: approving a listed or whole-outbox
//! entry for publication, re-opening an approved entry when nothing holds
//! its handle, and listing publications with this device's availability
//! observation. A payload carries logical identities, states, and the
//! portable reference only, never a device path.

use vstd::prelude::*;

use crate::domain::{
    ApprovalSource, ArtifactApproval, ApprovalId, EpochOffset, LaunchProvenance, ArtifactState, Attribution, CandidateProbe, CandidateState, CatalogRecord, Id64, JournalEntry,
    JournalStep, ListedCandidate, PendingRegistration, Sha256Digest, StepOutcome,
};
use crate::failures::{
    OutboxDeclarationError, PolicyError, PrepareError, BlobStoreError, CatalogStoreError, DestinationError, JournalError, PublishError, WorkAreaError,
};
use crate::hex::{bytes_of_hex, hex_of, is_hex_of_width};
use crate::ipc::commands::{
    declaration_error_code, declaration_error_message, prepare_error_code, prepare_error_message,
    RunLookup,
};
use crate::ipc::dto::{
    names_no_path,
    clone_names, fails_with, is_catalogue_error, is_record_dto, ArtifactStateTag, AvailabilityTag, PublicationDto, ShellError, ShellErrorCode,
    ShellErrorDetail,
};

verus! {

/// The code a [`WorkAreaError`] is reported under.
pub open spec fn work_area_error_code(error: WorkAreaError) -> ShellErrorCode {
    match error {
        WorkAreaError::InsideWorkspace => ShellErrorCode::WorkAreaInvalid,
        WorkAreaError::Unusable => ShellErrorCode::WorkAreaInvalid,
        WorkAreaError::NotOwnerOnly => ShellErrorCode::WorkAreaInvalid,
    }
}

/// The catalogue message a [`WorkAreaError`] is reported with.
pub open spec fn work_area_error_message(error: WorkAreaError) -> Seq<char> {
    match error {
        WorkAreaError::InsideWorkspace => "the product work area resolves inside a registered workspace root"@,
        WorkAreaError::Unusable => "the product work area could not be used"@,
        WorkAreaError::NotOwnerOnly => "the product work area could not be made owner-only"@,
    }
}

impl From<WorkAreaError> for ShellError {
    /// A work area that resolves inside a registered workspace root, or cannot be used, refuses the operation.
    fn from(error: WorkAreaError) -> (mapped: Self)
        ensures
            is_catalogue_error(mapped, work_area_error_code(error), work_area_error_message(error)),
    {
        match error {
            WorkAreaError::InsideWorkspace => ShellError::new(
                ShellErrorCode::WorkAreaInvalid,
                "the product work area resolves inside a registered workspace root",
            ),
            WorkAreaError::Unusable => ShellError::new(
                ShellErrorCode::WorkAreaInvalid,
                "the product work area could not be used",
            ),
            WorkAreaError::NotOwnerOnly => ShellError::new(
                ShellErrorCode::WorkAreaInvalid,
                "the product work area could not be made owner-only",
            ),
        }
    }
}

impl vstd::std_specs::convert::FromSpecImpl<WorkAreaError> for ShellError {
    /// The mapping is stated on `from` itself: a catalogue message is a
    /// `String`, which no spec expression builds.
    open spec fn obeys_from_spec() -> bool {
        false
    }

    open spec fn from_spec(error: WorkAreaError) -> Self {
        vstd::pervasive::arbitrary()
    }
}

/// The code a [`JournalError`] is reported under.
pub open spec fn journal_error_code(error: JournalError) -> ShellErrorCode {
    match error {
        JournalError::Unreadable => ShellErrorCode::WorkAreaInvalid,
        JournalError::Corrupt => ShellErrorCode::WorkAreaInvalid,
        JournalError::WriteFailed => ShellErrorCode::WorkAreaInvalid,
    }
}

/// The catalogue message a [`JournalError`] is reported with.
pub open spec fn journal_error_message(error: JournalError) -> Seq<char> {
    match error {
        JournalError::Unreadable => "the publication journal could not be read"@,
        JournalError::Corrupt => "the publication journal is corrupt"@,
        JournalError::WriteFailed => "the publication journal could not be written"@,
    }
}

impl From<JournalError> for ShellError {
    /// A journal that cannot be read or written is a work area that cannot be used.
    fn from(error: JournalError) -> (mapped: Self)
        ensures
            is_catalogue_error(mapped, journal_error_code(error), journal_error_message(error)),
    {
        match error {
            JournalError::Unreadable => ShellError::new(
                ShellErrorCode::WorkAreaInvalid,
                "the publication journal could not be read",
            ),
            JournalError::Corrupt => ShellError::new(
                ShellErrorCode::WorkAreaInvalid,
                "the publication journal is corrupt",
            ),
            JournalError::WriteFailed => ShellError::new(
                ShellErrorCode::WorkAreaInvalid,
                "the publication journal could not be written",
            ),
        }
    }
}

impl vstd::std_specs::convert::FromSpecImpl<JournalError> for ShellError {
    /// The mapping is stated on `from` itself: a catalogue message is a
    /// `String`, which no spec expression builds.
    open spec fn obeys_from_spec() -> bool {
        false
    }

    open spec fn from_spec(error: JournalError) -> Self {
        vstd::pervasive::arbitrary()
    }
}

/// The code a [`DestinationError`] is reported under.
pub open spec fn destination_error_code(error: DestinationError) -> ShellErrorCode {
    match error {
        DestinationError::Unconfigured => ShellErrorCode::DestinationInvalid,
        DestinationError::InsideWorkspace => ShellErrorCode::DestinationInvalid,
        DestinationError::Unusable => ShellErrorCode::DestinationInvalid,
    }
}

/// The catalogue message a [`DestinationError`] is reported with.
pub open spec fn destination_error_message(error: DestinationError) -> Seq<char> {
    match error {
        DestinationError::Unconfigured => "the project declares no asset root"@,
        DestinationError::InsideWorkspace => "the device asset path resolves inside a registered workspace root"@,
        DestinationError::Unusable => "the device asset path could not be used"@,
    }
}

impl From<DestinationError> for ShellError {
    /// No asset root, or a device asset path inside a registered workspace root or unusable.
    fn from(error: DestinationError) -> (mapped: Self)
        ensures
            is_catalogue_error(mapped, destination_error_code(error), destination_error_message(error)),
    {
        match error {
            DestinationError::Unconfigured => ShellError::new(
                ShellErrorCode::DestinationInvalid,
                "the project declares no asset root",
            ),
            DestinationError::InsideWorkspace => ShellError::new(
                ShellErrorCode::DestinationInvalid,
                "the device asset path resolves inside a registered workspace root",
            ),
            DestinationError::Unusable => ShellError::new(
                ShellErrorCode::DestinationInvalid,
                "the device asset path could not be used",
            ),
        }
    }
}

impl vstd::std_specs::convert::FromSpecImpl<DestinationError> for ShellError {
    /// The mapping is stated on `from` itself: a catalogue message is a
    /// `String`, which no spec expression builds.
    open spec fn obeys_from_spec() -> bool {
        false
    }

    open spec fn from_spec(error: DestinationError) -> Self {
        vstd::pervasive::arbitrary()
    }
}

/// The code a [`CatalogStoreError`] is reported under: a corrupt catalog
/// is its own code, distinct from one that cannot be read at all.
pub open spec fn catalog_error_code(error: CatalogStoreError) -> ShellErrorCode {
    match error {
        CatalogStoreError::Unreadable => ShellErrorCode::CatalogUnavailable,
        CatalogStoreError::Corrupt => ShellErrorCode::CatalogCorrupt,
        CatalogStoreError::WriteFailed => ShellErrorCode::CatalogUnavailable,
        CatalogStoreError::Duplicate | CatalogStoreError::Unknown => ShellErrorCode::CatalogUnavailable,
    }
}

/// The catalogue message a [`CatalogStoreError`] is reported with.
pub open spec fn catalog_error_message(error: CatalogStoreError) -> Seq<char> {
    match error {
        CatalogStoreError::Unreadable => "the catalog could not be read"@,
        CatalogStoreError::Corrupt => "the catalog is corrupt"@,
        CatalogStoreError::WriteFailed => "the catalog could not be written"@,
        CatalogStoreError::Duplicate | CatalogStoreError::Unknown => "the catalog refused the record"@,
    }
}

impl From<CatalogStoreError> for ShellError {
    /// A Catalog that cannot be used, as its catalogue error: `catalog-corrupt`
    /// for a corrupt one, `catalog-unavailable` otherwise.
    fn from(error: CatalogStoreError) -> (mapped: Self)
        ensures
            is_catalogue_error(mapped, catalog_error_code(error), catalog_error_message(error)),
    {
        match error {
            CatalogStoreError::Unreadable => ShellError::new(
                ShellErrorCode::CatalogUnavailable,
                "the catalog could not be read",
            ),
            CatalogStoreError::Corrupt => ShellError::new(
                ShellErrorCode::CatalogCorrupt,
                "the catalog is corrupt",
            ),
            CatalogStoreError::WriteFailed => ShellError::new(
                ShellErrorCode::CatalogUnavailable,
                "the catalog could not be written",
            ),
            CatalogStoreError::Duplicate | CatalogStoreError::Unknown => ShellError::new(
                ShellErrorCode::CatalogUnavailable,
                "the catalog refused the record",
            ),
        }
    }
}

impl vstd::std_specs::convert::FromSpecImpl<CatalogStoreError> for ShellError {
    /// The mapping is stated on `from` itself: a catalogue message is a
    /// `String`, which no spec expression builds.
    open spec fn obeys_from_spec() -> bool {
        false
    }

    open spec fn from_spec(error: CatalogStoreError) -> Self {
        vstd::pervasive::arbitrary()
    }
}

/// The code a [`BlobStoreError`] is reported under.
pub open spec fn provider_error_code(error: BlobStoreError) -> ShellErrorCode {
    match error {
        BlobStoreError::WriteFailed => ShellErrorCode::DestinationInvalid,
        BlobStoreError::ReadFailed | BlobStoreError::NotFound => ShellErrorCode::DestinationInvalid,
        BlobStoreError::ForeignLocator => ShellErrorCode::DestinationInvalid,
    }
}

/// The catalogue message a [`BlobStoreError`] is reported with.
pub open spec fn provider_error_message(error: BlobStoreError) -> Seq<char> {
    match error {
        BlobStoreError::WriteFailed => "the published copy could not be written to the device asset path"@,
        BlobStoreError::ReadFailed | BlobStoreError::NotFound => "the published copy could not be read back from the device asset path"@,
        BlobStoreError::ForeignLocator => "the record's locator was not issued by this device's provider"@,
    }
}

impl From<BlobStoreError> for ShellError {
    /// A provider failure is `destination-invalid`.
    fn from(error: BlobStoreError) -> (mapped: Self)
        ensures
            is_catalogue_error(mapped, provider_error_code(error), provider_error_message(error)),
    {
        match error {
            BlobStoreError::WriteFailed => ShellError::new(
                ShellErrorCode::DestinationInvalid,
                "the published copy could not be written to the device asset path",
            ),
            BlobStoreError::ReadFailed | BlobStoreError::NotFound => ShellError::new(
                ShellErrorCode::DestinationInvalid,
                "the published copy could not be read back from the device asset path",
            ),
            BlobStoreError::ForeignLocator => ShellError::new(
                ShellErrorCode::DestinationInvalid,
                "the record's locator was not issued by this device's provider",
            ),
        }
    }
}

impl vstd::std_specs::convert::FromSpecImpl<BlobStoreError> for ShellError {
    /// The mapping is stated on `from` itself: a catalogue message is a
    /// `String`, which no spec expression builds.
    open spec fn obeys_from_spec() -> bool {
        false
    }

    open spec fn from_spec(error: BlobStoreError) -> Self {
        vstd::pervasive::arbitrary()
    }
}

/// The code a [`PublishError`] is reported under.
pub open spec fn publish_error_code(error: PublishError) -> ShellErrorCode {
    match error {
        PublishError::WorkAreaInvalid => ShellErrorCode::WorkAreaInvalid,
        PublishError::OutboxEscape { .. } => ShellErrorCode::OutboxEscape,
        PublishError::OutboxLinked => ShellErrorCode::OutboxLinked,
        PublishError::IntegrityMismatch => ShellErrorCode::IntegrityMismatch,
        PublishError::DuplicatePublication { .. } => ShellErrorCode::DuplicatePublication,
        PublishError::Journal(e) => journal_error_code(e),
        PublishError::Catalog(_) => ShellErrorCode::CatalogUnavailable,
        PublishError::Provider(e) => provider_error_code(e),
    }
}

/// The catalogue message a [`PublishError`] is reported with.
pub open spec fn publish_error_message(error: PublishError) -> Seq<char> {
    match error {
        PublishError::WorkAreaInvalid => work_area_error_message(WorkAreaError::InsideWorkspace),
        PublishError::OutboxEscape { recovery_written } => if recovery_written {
            "the entry's path no longer names the approved file; the approved bytes were kept as a recovery entry"@
        } else {
            "the entry's path no longer names the approved file and no recovery entry could be written"@
        },
        PublishError::OutboxLinked => "the entry's link count is greater than one"@,
        PublishError::IntegrityMismatch => "the published copy did not verify against the approved digest; it was discarded and the entry preserved"@,
        PublishError::DuplicatePublication { .. } => "an artifact with this content is already registered for this project"@,
        PublishError::Journal(e) => journal_error_message(e),
        PublishError::Catalog(e) => catalog_error_message(e),
        PublishError::Provider(e) => provider_error_message(e),
    }
}

impl From<PublishError> for ShellError {
    /// Every way the transaction ends with nothing registered, as its
    /// token; the message names the condition, never a path or a digest:
    /// a duplicate's ids travel in `detail`.
    fn from(error: PublishError) -> (mapped: Self)
        ensures
            mapped.code == publish_error_code(error),
            mapped.message@ == publish_error_message(error),
            match error {
                PublishError::DuplicatePublication { publication_id, catalog_id } => mapped.detail matches Some(
                    ShellErrorDetail::DuplicatePublication { publication_id: p, catalog_id: c },
                ) && p@ == hex_of(publication_id.bytes()) && c == catalog_id,
                _ => mapped.detail is None,
            },
    {
        match error {
            PublishError::WorkAreaInvalid => ShellError::from(WorkAreaError::InsideWorkspace),
            PublishError::OutboxEscape { recovery_written } => if recovery_written {
                ShellError::new(
                    ShellErrorCode::OutboxEscape,
                    "the entry's path no longer names the approved file; the approved bytes were kept as a recovery entry",
                )
            } else {
                ShellError::new(
                    ShellErrorCode::OutboxEscape,
                    "the entry's path no longer names the approved file and no recovery entry could be written",
                )
            },
            PublishError::OutboxLinked => ShellError::new(
                ShellErrorCode::OutboxLinked,
                "the entry's link count is greater than one",
            ),
            PublishError::IntegrityMismatch => ShellError::new(
                ShellErrorCode::IntegrityMismatch,
                "the published copy did not verify against the approved digest; it was discarded and the entry preserved",
            ),
            PublishError::DuplicatePublication { publication_id, catalog_id } => ShellError::with_detail(
                ShellErrorCode::DuplicatePublication,
                "an artifact with this content is already registered for this project",
                ShellErrorDetail::DuplicatePublication {
                    publication_id: publication_id.to_hex(),
                    catalog_id,
                },
            ),
            PublishError::Journal(e) => ShellError::from(e),
            PublishError::Catalog(e) => {
                let mapped = ShellError::from(e);
                ShellError { code: ShellErrorCode::CatalogUnavailable, ..mapped }
            },
            PublishError::Provider(e) => ShellError::from(e),
        }
    }
}

impl vstd::std_specs::convert::FromSpecImpl<PublishError> for ShellError {
    /// The mapping is stated on `from` itself: a catalogue message is a
    /// `String`, which no spec expression builds.
    open spec fn obeys_from_spec() -> bool {
        false
    }

    open spec fn from_spec(error: PublishError) -> Self {
        vstd::pervasive::arbitrary()
    }
}

/// Whether any supervised process is running: the publication surface is
/// frozen while one is.
pub trait RunActivity {
    /// `true` while at least one supervised process is running.
    fn any_running(&self) -> bool;
}

/// The fixed refusal while a run is active, shared by every writing
/// command of the publication, guidance, recovery, wrong-root, and repair
/// surfaces.
pub fn run_active() -> (error: ShellError)
    ensures
        is_catalogue_error(
            error,
            ShellErrorCode::RunActive,
            "a run is active; approve or publish once it has ended"@,
        ),
{
    ShellError::new(ShellErrorCode::RunActive, "a run is active; approve or publish once it has ended")
}

/// An `invalid-request` with `message`.
pub fn invalid(message: &str) -> (error: ShellError)
    ensures
        is_catalogue_error(error, ShellErrorCode::InvalidRequest, message@),
{
    ShellError::new(ShellErrorCode::InvalidRequest, message)
}

/// A `refused` with `message`.
pub fn refused(message: &str) -> (error: ShellError)
    ensures
        is_catalogue_error(error, ShellErrorCode::Refused, message@),
{
    ShellError::new(ShellErrorCode::Refused, message)
}

/// `artifact_approve`'s request: the run whose run-end inventory listed
/// the candidate (or none, for the whole-outbox inventory), the entry's
/// outbox-relative name as listed, and its full digest.
#[derive(Debug, Clone, PartialEq, Eq)]
pub struct ApproveRequest {
    pub run_id: Option<String>,
    pub name: String,
    pub sha256: String,
}


/// `text` holds no `/`.
pub open spec fn slash_free(text: Seq<char>) -> bool {
    forall|i: int| 0 <= i < text.len() ==> text[i] != '/'
}

/// `i` is the index of the first `/` in `name`.
pub open spec fn first_slash_at(name: Seq<char>, i: int) -> bool {
    &&& 0 <= i < name.len()
    &&& name[i] == '/'
    &&& slash_free(name.take(i))
}

/// A file-name component an inventory lists: not empty, `.`, or `..`,
/// and carrying no separator on any platform.
pub open spec fn is_listable_file_name(file_name: Seq<char>) -> bool {
    &&& file_name != Seq::<char>::empty()
    &&& file_name != seq!['.']
    &&& file_name != seq!['.', '.']
    &&& forall|i: int| 0 <= i < file_name.len() ==> file_name[i] != '/' && file_name[i] != '\\'
}

/// How `name` splits into the run prefix before its first `/` (if any)
/// and the file name after it.
pub open spec fn split_entry_name(name: Seq<char>) -> (Option<Seq<char>>, Seq<char>) {
    if slash_free(name) {
        (None, name)
    } else {
        let i = choose|i: int| first_slash_at(name, i);
        (Some(name.take(i)), name.skip(i + 1))
    }
}

/// Whether an inventory lists `name`: its file name is listable, and a
/// prefix, if it has one, is a listable directory name the run-id rule
/// accepts (`prefix_is_run_id`).
pub open spec fn entry_accepted(name: Seq<char>, prefix_is_run_id: bool) -> bool {
    let (prefix, file_name) = split_entry_name(name);
    &&& is_listable_file_name(file_name)
    &&& match prefix {
        None => true,
        Some(p) => prefix_is_run_id && is_listable_file_name(p),
    }
}

/// `location` is what parsing `name` gives: nothing for a name an
/// inventory does not list, else its prefix and file name.
pub open spec fn parsed_as(name: Seq<char>, prefix_is_run_id: bool, location: Option<EntryLocation>) -> bool {
    let (prefix, file_name) = split_entry_name(name);
    match location {
        None => !entry_accepted(name, prefix_is_run_id),
        Some(l) => {
            &&& entry_accepted(name, prefix_is_run_id)
            &&& l.file_name@ == file_name
            &&& match prefix {
                None => l.under_run is None,
                Some(p) => l.under_run matches Some(r) && r@ == p,
            }
        },
    }
}

/// Where an outbox-relative name points: the run subdirectory its prefix
/// names, if any, and the entry's own file name within that directory.
#[derive(Debug, Clone, PartialEq, Eq)]
pub struct EntryLocation {
    pub under_run: Option<String>,
    pub file_name: String,
}

proof fn lemma_first_slash_unique(name: Seq<char>, i: int, j: int)
    requires
        first_slash_at(name, i),
        first_slash_at(name, j),
    ensures
        i == j,
{
    if i < j {
        assert(name.take(j)[i] == name[i]);
    } else if j < i {
        assert(name.take(i)[j] == name[j]);
    }
}

/// Whether `text` is a listable file-name component.
fn is_listable(text: &str) -> (listable: bool)
    ensures
        listable == is_listable_file_name(text@),
{
    let len = text.unicode_len();
    if len == 0 {
        assert(text@ =~= Seq::<char>::empty());
        return false;
    }
    if len == 1 && text.get_char(0) == '.' {
        assert(text@ =~= seq!['.']);
        return false;
    }
    if len == 2 && text.get_char(0) == '.' && text.get_char(1) == '.' {
        assert(text@ =~= seq!['.', '.']);
        return false;
    }
    let mut k: usize = 0;
    while k < len
        invariant
            len == text@.len(),
            k <= len,
            forall|m: int| 0 <= m < k ==> text@[m] != '/' && text@[m] != '\\',
        decreases len - k,
    {
        let c = text.get_char(k);
        if c == '/' || c == '\\' {
            assert(!is_listable_file_name(text@)) by {
                assert(text@[k as int] == c);
            }
            return false;
        }
        k = k + 1;
    }
    assert(text@ != Seq::<char>::empty());
    assert(text@ != seq!['.']) by {
        if text@ == seq!['.'] {
            assert(text@.len() == 1 && text@[0] == '.');
        }
    }
    assert(text@ != seq!['.', '.']) by {
        if text@ == seq!['.', '.'] {
            assert(text@.len() == 2 && text@[0] == '.' && text@[1] == '.');
        }
    }
    true
}

/// `name` split at its first `/`: the prefix before it, if any, and the
/// rest.
fn split_name(name: &str) -> (parts: (Option<String>, String))
    ensures
        parts.1@ == split_entry_name(name@).1,
        match split_entry_name(name@).0 {
            None => parts.0 is None,
            Some(p) => parts.0 matches Some(q) && q@ == p,
        },
{
    let len = name.unicode_len();
    let mut i: usize = 0;
    while i < len && name.get_char(i) != '/'
        invariant
            len == name@.len(),
            i <= len,
            slash_free(name@.take(i as int)),
        decreases len - i,
    {
        assert(name@.take(i + 1) =~= name@.take(i as int).push(name@[i as int]));
        i = i + 1;
    }
    if i < len {
        assert(name@[i as int] == '/');
        proof {
            assert(first_slash_at(name@, i as int));
            let j = choose|j: int| first_slash_at(name@, j);
            lemma_first_slash_unique(name@, i as int, j);
            assert(!slash_free(name@));
            assert(name@.subrange(i + 1, len as int) =~= name@.skip(i + 1));
            assert(name@.subrange(0, i as int) =~= name@.take(i as int));
        }
        (Some(name.substring_char(0, i).to_owned()), name.substring_char(i + 1, len).to_owned())
    } else {
        assert(name@.take(i as int) =~= name@);
        (None, name.to_owned())
    }
}

impl EntryLocation {
    /// The part of `name` before its first `/`, if it has one: the text the
    /// run-id rule is asked about before [`EntryLocation::parse`].
    pub fn run_prefix(name: &str) -> (prefix: Option<String>)
        ensures
            match split_entry_name(name@).0 {
                None => prefix is None,
                Some(p) => prefix matches Some(q) && q@ == p,
            },
    {
        split_name(name).0
    }

    /// Parse `name` as an inventory spells it: `<run id>/<file>` or
    /// `<file>`, the file name a listable component. A prefix is taken only
    /// when the run-id rule accepts it (`prefix_is_run_id`, that rule's
    /// verdict on [`EntryLocation::run_prefix`]; ignored for a name with no
    /// `/`) and it is itself a listable directory name: an empty, `.`,
    /// `..`, or backslashed prefix is never taken, whatever the verdict.
    pub fn parse(name: &str, prefix_is_run_id: bool) -> (location: Option<EntryLocation>)
        ensures
            parsed_as(name@, prefix_is_run_id, location),
    {
        let (under_run, file_name) = split_name(name);
        if !is_listable(file_name.as_str()) {
            return None;
        }
        match &under_run {
            Some(prefix) => {
                if !prefix_is_run_id || !is_listable(prefix.as_str()) {
                    return None;
                }
            },
            None => {},
        }
        Some(EntryLocation { under_run, file_name })
    }
}

/// The name of an approved entry within its run subdirectory: `name`
/// with the `<run_id>/` prefix taken off when it has one.
pub open spec fn within_run(run_id: Seq<char>, name: Seq<char>) -> Seq<char> {
    let prefix = run_id.push('/');
    if prefix.len() <= name.len() && name.take(prefix.len() as int) == prefix {
        name.skip(prefix.len() as int)
    } else {
        name
    }
}

/// `name` with the `<run_id>/` prefix taken off when it has one.
pub fn entry_file_name(run_id: &str, name: &str) -> (file_name: String)
    ensures
        file_name@ == within_run(run_id@, name@),
{
    let rlen = run_id.unicode_len();
    let nlen = name.unicode_len();
    let ghost prefix = run_id@.push('/');
    if rlen < nlen {
        let mut i: usize = 0;
        while i < rlen
            invariant
                rlen == run_id@.len(),
                nlen == name@.len(),
                prefix == run_id@.push('/'),
                rlen < nlen,
                i <= rlen,
                forall|k: int| 0 <= k < i ==> name@[k] == run_id@[k],
            decreases rlen - i,
        {
            if name.get_char(i) != run_id.get_char(i) {
                proof {
                    assert(name@.take(prefix.len() as int)[i as int] != prefix[i as int]);
                }
                return name.to_owned();
            }
            i = i + 1;
        }
        if name.get_char(rlen) == '/' {
            assert(name@.take(prefix.len() as int) =~= prefix);
            return name.substring_char(rlen + 1, nlen).to_owned();
        }
        proof {
            assert(name@.take(prefix.len() as int)[rlen as int] != prefix[rlen as int]);
        }
    }
    name.to_owned()
}

impl EntryLocation {
    /// Where an approved entry sits: under the listing run's subdirectory
    /// when the approval names one, else where its name says
    /// (`prefix_is_run_id` as for [`EntryLocation::parse`]).
    pub fn of(run_id: &Option<String>, name: &str, prefix_is_run_id: bool) -> (location: Option<EntryLocation>)
        ensures
            match run_id {
                Some(run) => location matches Some(l) && l.under_run == Some(*run) && l.file_name@
                    == within_run(run@, name@),
                None => parsed_as(name@, prefix_is_run_id, location),
            },
    {
        match run_id {
            Some(run) => Some(
                EntryLocation { under_run: Some(run.clone()), file_name: entry_file_name(run.as_str(), name) },
            ),
            None => EntryLocation::parse(name, prefix_is_run_id),
        }
    }
}

/// The name checks of approving a whole-outbox entry: a name the
/// inventory does not list is `invalid-request`, and so is an entry under
/// a run the table remembers with its inventory (`remembered_run`): that
/// inventory's attribution is the one to approve under. Else where the
/// entry sits.
pub fn whole_outbox_location(name: &str, prefix_is_run_id: bool, remembered_run: bool) -> (location: Result<EntryLocation, ShellError>)
    ensures
        !entry_accepted(name@, prefix_is_run_id) ==> fails_with(
            location,
            ShellErrorCode::InvalidRequest,
            request_refusal_message(RequestRefusal::UnlistableName),
        ),
        entry_accepted(name@, prefix_is_run_id) && split_entry_name(name@).0 is Some && remembered_run
            ==> fails_with(
            location,
            ShellErrorCode::InvalidRequest,
            request_refusal_message(RequestRefusal::RememberedRun),
        ),
        entry_accepted(name@, prefix_is_run_id) && !(split_entry_name(name@).0 is Some && remembered_run)
            ==> (location matches Ok(l) && parsed_as(name@, prefix_is_run_id, Some(l))),
{
    match EntryLocation::parse(name, prefix_is_run_id) {
        None => Err(request_refusal(RequestRefusal::UnlistableName)),
        Some(location) => {
            if location.under_run.is_some() && remembered_run {
                Err(request_refusal(RequestRefusal::RememberedRun))
            } else {
                Ok(location)
            }
        },
    }
}


/// The class token a publication requires.
pub open spec fn generated_heavy() -> Seq<char> {
    "generated-heavy"@
}

/// The digest an approval request names: `run-active` while a run is
/// live, `invalid-request` unless it is 64 hex characters.
pub fn approval_digest(running: bool, sha256: &str) -> (digest: Result<Sha256Digest, ShellError>)
    ensures
        running ==> fails_with(
            digest,
            ShellErrorCode::RunActive,
            "a run is active; approve or publish once it has ended"@,
        ),
        !running && !is_hex_of_width(sha256@, 32) ==> fails_with(
            digest,
            ShellErrorCode::InvalidRequest,
            "the digest is not 64 hex characters"@,
        ),
        !running && is_hex_of_width(sha256@, 32) ==> (digest matches Ok(d) && d.bytes()
            == bytes_of_hex(sha256@)),
{
    if running {
        return Err(run_active());
    }
    match Sha256Digest::from_hex(sha256) {
        Some(digest) => Ok(digest),
        None => Err(invalid("the digest is not 64 hex characters")),
    }
}

/// `i` is the first listed candidate named `name`.
pub open spec fn first_named(candidates: Seq<ListedCandidate>, name: Seq<char>, i: int) -> bool {
    &&& 0 <= i < candidates.len()
    &&& candidates[i].entry.name@ == name
    &&& forall|j: int| 0 <= j < i ==> (#[trigger] candidates[j]).entry.name@ != name
}

/// The facts an approval of a run-listed candidate binds: the listing
/// run, the entry's name as listed and within the run subdirectory, the
/// facts the run-end inventory took from its handle, the destination, the
/// launch's provenance, the approval instant, and whether the run record
/// still holds the handle.
pub struct ListedFacts {
    pub run_id: String,
    pub name: String,
    pub file_name: String,
    pub size: u64,
    pub detected_type: String,
    pub class: String,
    pub attribution: Attribution,
    pub asset_root_id: String,
    pub adapter_id: Option<String>,
    pub executable_approval: Option<ApprovalId>,
    pub approved_at: EpochOffset,
    pub handle_held: bool,
}

/// The checks of approving a candidate a remembered run's run-end
/// inventory listed: the run must be remembered and ended, the name
/// listed, the entry a `Candidate`, its digest the request's, its class
/// `generated-heavy`, and the run's policy must declare an asset root.
/// The approval carries the run record's launch provenance and is made
/// at `approved_at`.
pub fn approve_listed_entry(
    run_id: &str,
    lookup: &RunLookup,
    asset_root_id: &Option<String>,
    provenance: &LaunchProvenance,
    approved_at: EpochOffset,
    name: &str,
    digest: &Sha256Digest,
) -> (approved: Result<ListedFacts, ShellError>)
    ensures
        match *lookup {
            RunLookup::InvalidRunId => approved matches Err(e) && is_catalogue_error(
                e,
                ShellErrorCode::InvalidRequest,
                "the run id is not valid"@,
            ),
            RunLookup::Unknown => approved matches Err(e) && is_catalogue_error(
                e,
                ShellErrorCode::InvalidRequest,
                "no run with that id is remembered"@,
            ),
            RunLookup::NotEnded => approved matches Err(e) && is_catalogue_error(
                e,
                ShellErrorCode::InvalidRequest,
                "the run has not ended yet, so its subdirectory has not been inventoried"@,
            ),
            RunLookup::Ended(candidates) => {
                let c = candidates@;
                if !(exists|i: int| first_named(c, name@, i)) {
                    approved matches Err(e) && is_catalogue_error(
                        e,
                        ShellErrorCode::InvalidRequest,
                        "no candidate with that name is listed for the run"@,
                    )
                } else {
                    let i = choose|i: int| first_named(c, name@, i);
                    let found = c[i];
                    if found.state != CandidateState::Candidate {
                        approved matches Err(e) && is_catalogue_error(
                            e,
                            ShellErrorCode::Refused,
                            "the entry was refused at validation and cannot be approved"@,
                        )
                    } else if found.entry.digest.bytes() != digest.bytes() {
                        approved matches Err(e) && is_catalogue_error(
                            e,
                            ShellErrorCode::Refused,
                            "the candidate's digest does not match the approval request"@,
                        )
                    } else if found.entry.class@ != generated_heavy() {
                        approved matches Err(e) && is_catalogue_error(
                            e,
                            ShellErrorCode::Refused,
                            "only a generated-heavy candidate can be approved for publication"@,
                        )
                    } else if asset_root_id.is_none() {
                        approved matches Err(e) && is_catalogue_error(
                            e,
                            ShellErrorCode::DestinationInvalid,
                            "the project declares no asset root"@,
                        )
                    } else {
                        approved matches Ok(facts) && facts.run_id@ == run_id@
                            && facts.name@ == name@ && facts.adapter_id == provenance.adapter_id
                            && facts.executable_approval == provenance.executable_approval
                            && facts.approved_at == approved_at
                            && facts.file_name@ == within_run(run_id@, name@) && facts.size
                            == found.entry.size && facts.detected_type == found.entry.detected_type
                            && facts.class == found.entry.class && facts.attribution
                            == found.entry.attribution && Some(facts.asset_root_id)
                            == *asset_root_id && facts.handle_held == found.handle_held
                    }
                }
            },
        },
{
    let candidates = match lookup {
        RunLookup::InvalidRunId => {
            return Err(invalid("the run id is not valid"));
        },
        RunLookup::Unknown => {
            return Err(invalid("no run with that id is remembered"));
        },
        RunLookup::NotEnded => {
            return Err(invalid("the run has not ended yet, so its subdirectory has not been inventoried"));
        },
        RunLookup::Ended(candidates) => candidates,
    };
    let wanted = name.to_owned();
    let mut i: usize = 0;
    while i < candidates.len() && !(candidates[i].entry.name == wanted)
        invariant
            i <= candidates@.len(),
            wanted@ == name@,
            forall|j: int| 0 <= j < i ==> (#[trigger] candidates@[j]).entry.name@ != name@,
        decreases candidates@.len() - i,
    {
        i = i + 1;
    }
    if i == candidates.len() {
        assert(!(exists|k: int| first_named(candidates@, name@, k)));
        return Err(invalid("no candidate with that name is listed for the run"));
    }
    proof {
        assert(first_named(candidates@, name@, i as int));
        let k = choose|k: int| first_named(candidates@, name@, k);
        assert(k == i) by {
            if k < i {
            } else if i < k {
                assert(candidates@[i as int].entry.name@ != name@);
            }
        }
    }
    let found = &candidates[i];
    match found.state {
        CandidateState::Candidate => {},
        _ => {
            return Err(refused("the entry was refused at validation and cannot be approved"));
        },
    }
    if !found.entry.digest.same_as(digest) {
        return Err(refused("the candidate's digest does not match the approval request"));
    }
    if !(found.entry.class == "generated-heavy".to_owned()) {
        return Err(refused("only a generated-heavy candidate can be approved for publication"));
    }
    let asset_root_id = match asset_root_id {
        Some(id) => id.clone(),
        None => {
            return Err(ShellError::from(DestinationError::Unconfigured));
        },
    };
    Ok(
        ListedFacts {
            run_id: run_id.to_owned(),
            name: name.to_owned(),
            file_name: entry_file_name(run_id, name),
            size: found.entry.size,
            detected_type: found.entry.detected_type.clone(),
            class: found.entry.class.clone(),
            attribution: found.entry.attribution.clone(),
            asset_root_id,
            adapter_id: match &provenance.adapter_id {
                Some(adapter) => Some(adapter.clone()),
                None => None,
            },
            executable_approval: provenance.executable_approval,
            approved_at,
            handle_held: found.handle_held,
        },
    )
}


/// The approval of a run-listed candidate: its derived ids, the digest
/// the request named and the listing carried, the display name its file
/// name sanitizes to, and the facts the listing bound; its bytes are an
/// outbox entry's.
pub fn listed_approval(
    approval_id: Id64,
    publication_id: Sha256Digest,
    digest: Sha256Digest,
    display_name: String,
    facts: ListedFacts,
) -> (approval: ArtifactApproval)
    ensures
        approval == (ArtifactApproval {
            approval_id,
            publication_id,
            run_id: Some(facts.run_id),
            name: facts.name,
            display_name,
            digest,
            size: facts.size,
            detected_type: facts.detected_type,
            class: facts.class,
            attribution: facts.attribution,
            asset_root_id: facts.asset_root_id,
            adapter_id: facts.adapter_id,
            executable_approval: facts.executable_approval,
            approved_at: facts.approved_at,
            source: ApprovalSource::Outbox,
        }),
{
    ArtifactApproval {
        approval_id,
        publication_id,
        run_id: Some(facts.run_id),
        name: facts.name,
        display_name,
        digest,
        size: facts.size,
        detected_type: facts.detected_type,
        class: facts.class,
        attribution: facts.attribution,
        asset_root_id: facts.asset_root_id,
        adapter_id: facts.adapter_id,
        executable_approval: facts.executable_approval,
        approved_at: facts.approved_at,
        source: ApprovalSource::Outbox,
    }
}

/// The facts a re-opened entry's handle gave.
pub struct RegularFacts {
    pub digest: Sha256Digest,
    pub size: u64,
    pub detected_type: String,
}

/// A whole-outbox entry re-opened for approval, judged against the
/// digest the request names: a regular file with a link count of one
/// whose digest is the request's; else `integrity-mismatch` (it changed
/// since it was listed), `outbox-escape`, `outbox-linked`, or
/// `invalid-request` for nothing to open.
pub fn reopened_for_approval(probe: CandidateProbe, digest: &Sha256Digest) -> (facts: Result<
    RegularFacts,
    ShellError,
>)
    ensures
        match probe {
            CandidateProbe::Regular { digest: d, size, detected_type } => if d.bytes()
                == digest.bytes() {
                facts matches Ok(f) && f.digest == d && f.size == size && f.detected_type
                    == detected_type
            } else {
                fails_with(
                    facts,
                    ShellErrorCode::IntegrityMismatch,
                    "the entry's digest differs from the digest the request names; it changed since it was listed"@,
                )
            },
            CandidateProbe::Escape => fails_with(
                facts,
                ShellErrorCode::OutboxEscape,
                "the entry is not a regular file inside the outbox"@,
            ),
            CandidateProbe::Linked => fails_with(
                facts,
                ShellErrorCode::OutboxLinked,
                "the entry's link count is greater than one"@,
            ),
            CandidateProbe::Unreadable => fails_with(
                facts,
                ShellErrorCode::InvalidRequest,
                "no entry with that name could be opened under the outbox"@,
            ),
        },
{
    match probe {
        CandidateProbe::Regular { digest: d, size, detected_type } => {
            if d.same_as(digest) {
                Ok(RegularFacts { digest: d, size, detected_type })
            } else {
                Err(
                    ShellError::new(
                        ShellErrorCode::IntegrityMismatch,
                        "the entry's digest differs from the digest the request names; it changed since it was listed",
                    ),
                )
            }
        },
        CandidateProbe::Escape => Err(
            ShellError::new(
                ShellErrorCode::OutboxEscape,
                "the entry is not a regular file inside the outbox",
            ),
        ),
        CandidateProbe::Linked => Err(
            ShellError::new(ShellErrorCode::OutboxLinked, "the entry's link count is greater than one"),
        ),
        CandidateProbe::Unreadable => Err(
            invalid("no entry with that name could be opened under the outbox"),
        ),
    }
}

/// The approval of a whole-outbox entry: its derived ids, its name as
/// listed and the display name that sanitizes to, the facts its re-opened
/// handle gave, its class, the destination, and the instant. It names no
/// run and no launch: the entry is unattributed.
pub fn whole_outbox_approval(
    approval_id: Id64,
    publication_id: Sha256Digest,
    name: String,
    display_name: String,
    facts: RegularFacts,
    class: String,
    asset_root_id: String,
    approved_at: EpochOffset,
) -> (approval: ArtifactApproval)
    ensures
        approval == (ArtifactApproval {
            approval_id,
            publication_id,
            run_id: None,
            name,
            display_name,
            digest: facts.digest,
            size: facts.size,
            detected_type: facts.detected_type,
            class,
            attribution: Attribution::Unattributed,
            asset_root_id,
            adapter_id: None,
            executable_approval: None,
            approved_at,
            source: ApprovalSource::Outbox,
        }),
{
    ArtifactApproval {
        approval_id,
        publication_id,
        run_id: None,
        name,
        display_name,
        digest: facts.digest,
        size: facts.size,
        detected_type: facts.detected_type,
        class,
        attribution: Attribution::Unattributed,
        asset_root_id,
        adapter_id: None,
        executable_approval: None,
        approved_at,
        source: ApprovalSource::Outbox,
    }
}

/// Only a `generated-heavy` entry may be approved for publication.
pub fn approvable_class(class: &String) -> (checked: Result<(), ShellError>)
    ensures
        checked is Ok <==> class@ == generated_heavy(),
        checked is Err ==> fails_with(
            checked,
            ShellErrorCode::Refused,
            "only a generated-heavy candidate can be approved for publication"@,
        ),
{
    if *class == "generated-heavy".to_owned() {
        Ok(())
    } else {
        Err(refused("only a generated-heavy candidate can be approved for publication"))
    }
}

/// Every refusal of approving, or publishing, that names a fixed
/// condition of the request.
#[derive(Clone, Copy, PartialEq, Eq, Structural)]
pub enum RequestRefusal {
    /// The entry name is not one the outbox inventory lists.
    UnlistableName,
    /// The entry belongs to a remembered run with an inventory.
    RememberedRun,
    /// The outbox does not exist.
    NoOutbox,
    /// The run subdirectory the name points into does not exist.
    NoRunSubdirectory,
    /// The derived approval id is already recorded.
    DuplicateApprovalId,
    /// The approval id is not 16 hex characters.
    MalformedApprovalId,
    /// No approval with the id is recorded.
    UnknownApproval,
    /// The approval belongs to another project.
    OtherProject,
}

/// The message a request refusal is reported with (always
/// `invalid-request`).
pub open spec fn request_refusal_message(refusal: RequestRefusal) -> Seq<char> {
    match refusal {
        RequestRefusal::UnlistableName => "the entry name is not one the outbox inventory lists"@,
        RequestRefusal::RememberedRun => "the entry belongs to a remembered run; approve it through that run id"@,
        RequestRefusal::NoOutbox => "the outbox does not exist yet, so no entry can be listed in it"@,
        RequestRefusal::NoRunSubdirectory => "no run subdirectory with that name exists in the outbox"@,
        RequestRefusal::DuplicateApprovalId => "an approval with this derived id is already recorded"@,
        RequestRefusal::MalformedApprovalId => "the approval id is not 16 hex characters"@,
        RequestRefusal::UnknownApproval => "no approval with that id is recorded"@,
        RequestRefusal::OtherProject => "the approval belongs to another project"@,
    }
}

/// A request refusal's `invalid-request` error.
pub fn request_refusal(refusal: RequestRefusal) -> (error: ShellError)
    ensures
        is_catalogue_error(error, ShellErrorCode::InvalidRequest, request_refusal_message(refusal)),
{
    match refusal {
        RequestRefusal::UnlistableName => invalid("the entry name is not one the outbox inventory lists"),
        RequestRefusal::RememberedRun => invalid("the entry belongs to a remembered run; approve it through that run id"),
        RequestRefusal::NoOutbox => invalid("the outbox does not exist yet, so no entry can be listed in it"),
        RequestRefusal::NoRunSubdirectory => invalid("no run subdirectory with that name exists in the outbox"),
        RequestRefusal::DuplicateApprovalId => invalid("an approval with this derived id is already recorded"),
        RequestRefusal::MalformedApprovalId => invalid("the approval id is not 16 hex characters"),
        RequestRefusal::UnknownApproval => invalid("no approval with that id is recorded"),
        RequestRefusal::OtherProject => invalid("the approval belongs to another project"),
    }
}

/// Opening the outbox to reach an entry: a missing outbox has no entry to
/// name (`invalid-request`); a declaration failure and every other
/// preparation failure map as the outbox commands map them.
pub fn entry_directory_outcome(opened: Result<(), PrepareError>) -> (outcome: Result<(), ShellError>)
    ensures
        match opened {
            Ok(()) => outcome is Ok,
            Err(PrepareError::OutboxMissing) => fails_with(
                outcome,
                ShellErrorCode::InvalidRequest,
                request_refusal_message(RequestRefusal::NoOutbox),
            ),
            Err(PrepareError::Declaration(error)) => fails_with(
                outcome,
                declaration_error_code(error),
                declaration_error_message(error),
            ),
            Err(error) => fails_with(outcome, prepare_error_code(error), prepare_error_message(error)),
        },
{
    match opened {
        Ok(()) => Ok(()),
        Err(PrepareError::OutboxMissing) => Err(request_refusal(RequestRefusal::NoOutbox)),
        Err(PrepareError::Declaration(error)) => Err(ShellError::from(error)),
        Err(error) => Err(ShellError::from(error)),
    }
}

/// How a publication is refused before its transaction starts: the
/// journal step and artifact state to record, the reason token, and the
/// error returned.
pub struct PublicationRefusal {
    pub step: JournalStep,
    pub state: ArtifactState,
    pub reason: String,
    pub error: ShellError,
}

/// `refusal` records `step` and `state` with `reason`, returning the
/// catalogue error `code`/`message`.
pub open spec fn refuses_as(
    refusal: PublicationRefusal,
    step: JournalStep,
    state: ArtifactState,
    reason: Seq<char>,
    code: ShellErrorCode,
    message: Seq<char>,
) -> bool {
    &&& refusal.step == step
    &&& refusal.state == state
    &&& refusal.reason@ == reason
    &&& is_catalogue_error(refusal.error, code, message)
}

fn publication_refusal(
    step: JournalStep,
    state: ArtifactState,
    reason: &str,
    code: ShellErrorCode,
    message: &str,
) -> (refusal: PublicationRefusal)
    ensures
        refuses_as(refusal, step, state, reason@, code, message@),
{
    PublicationRefusal { step, state, reason: reason.to_owned(), error: ShellError::new(code, message) }
}

/// When nothing holds an approved entry's handle, the entry is re-opened
/// (`None`: it could not be); its facts must equal the approved ones. Every
/// other outcome refuses the publication before it starts, journaled as
/// its step with a fixed reason token.
pub fn reopen_decision(
    reopened: Option<CandidateProbe>,
    digest: &Sha256Digest,
    size: u64,
    detected_type: &String,
) -> (decision: Result<(), PublicationRefusal>)
    ensures
        match reopened {
            None => decision matches Err(r) && refuses_as(
                r,
                JournalStep::Refused,
                ArtifactState::Refused,
                "entry-not-reopenable"@,
                ShellErrorCode::Refused,
                "the entry could not be re-opened under the outbox"@,
            ),
            Some(CandidateProbe::Regular { digest: d, size: n, detected_type: t }) => if d.bytes()
                == digest.bytes() && n == size && t@ == detected_type@ {
                decision is Ok
            } else {
                decision matches Err(r) && refuses_as(
                    r,
                    JournalStep::Refused,
                    ArtifactState::Refused,
                    "identity-facts-changed-at-re-open"@,
                    ShellErrorCode::Refused,
                    "the entry's identity facts changed since it was approved"@,
                )
            },
            Some(CandidateProbe::Escape) => decision matches Err(r) && refuses_as(
                r,
                JournalStep::OutboxEscape,
                ArtifactState::OutboxEscape,
                "not-a-regular-file-at-re-open"@,
                ShellErrorCode::OutboxEscape,
                "the entry is no longer a regular file inside the outbox"@,
            ),
            Some(CandidateProbe::Linked) => decision matches Err(r) && refuses_as(
                r,
                JournalStep::OutboxLinked,
                ArtifactState::OutboxLinked,
                "link-count-above-one-at-re-open"@,
                ShellErrorCode::OutboxLinked,
                "the entry's link count is greater than one"@,
            ),
            Some(CandidateProbe::Unreadable) => decision matches Err(r) && refuses_as(
                r,
                JournalStep::Refused,
                ArtifactState::Refused,
                "entry-unreadable-at-re-open"@,
                ShellErrorCode::Refused,
                "the entry could not be re-opened under the outbox"@,
            ),
        },
{
    match reopened {
        None => Err(
            publication_refusal(
                JournalStep::Refused,
                ArtifactState::Refused,
                "entry-not-reopenable",
                ShellErrorCode::Refused,
                "the entry could not be re-opened under the outbox",
            ),
        ),
        Some(CandidateProbe::Regular { digest: d, size: n, detected_type: t }) => {
            if d.same_as(digest) && n == size && t == *detected_type {
                Ok(())
            } else {
                Err(
                    publication_refusal(
                        JournalStep::Refused,
                        ArtifactState::Refused,
                        "identity-facts-changed-at-re-open",
                        ShellErrorCode::Refused,
                        "the entry's identity facts changed since it was approved",
                    ),
                )
            }
        },
        Some(CandidateProbe::Escape) => Err(
            publication_refusal(
                JournalStep::OutboxEscape,
                ArtifactState::OutboxEscape,
                "not-a-regular-file-at-re-open",
                ShellErrorCode::OutboxEscape,
                "the entry is no longer a regular file inside the outbox",
            ),
        ),
        Some(CandidateProbe::Linked) => Err(
            publication_refusal(
                JournalStep::OutboxLinked,
                ArtifactState::OutboxLinked,
                "link-count-above-one-at-re-open",
                ShellErrorCode::OutboxLinked,
                "the entry's link count is greater than one",
            ),
        ),
        Some(CandidateProbe::Unreadable) => Err(
            publication_refusal(
                JournalStep::Refused,
                ArtifactState::Refused,
                "entry-unreadable-at-re-open",
                ShellErrorCode::Refused,
                "the entry could not be re-opened under the outbox",
            ),
        ),
    }
}

/// The approval id a publish request names: `run-active` while a run is
/// live, `invalid-request` unless it is 16 hex characters.
pub fn publish_approval_id(running: bool, approval_id: &str) -> (id: Result<Id64, ShellError>)
    ensures
        running ==> fails_with(
            id,
            ShellErrorCode::RunActive,
            "a run is active; approve or publish once it has ended"@,
        ),
        !running && !is_hex_of_width(approval_id@, 8) ==> fails_with(
            id,
            ShellErrorCode::InvalidRequest,
            request_refusal_message(RequestRefusal::MalformedApprovalId),
        ),
        !running && is_hex_of_width(approval_id@, 8) ==> (id matches Ok(i) && i.bytes()
            == bytes_of_hex(approval_id@)),
{
    if running {
        return Err(run_active());
    }
    match Id64::from_hex(approval_id) {
        Some(id) => Ok(id),
        None => Err(request_refusal(RequestRefusal::MalformedApprovalId)),
    }
}

/// This device's own verification of `publication`: a `published-local`
/// step that succeeded, in its own journal.
pub open spec fn verified_here(entries: Seq<JournalEntry>, publication: Sha256Digest) -> bool {
    exists|i: int|
        0 <= i < entries.len() && (#[trigger] entries[i] matches JournalEntry::Step {
            publication_id,
            step,
            outcome,
            ..
        } && publication_id.bytes() == publication.bytes() && step == JournalStep::PublishedLocal
            && outcome == StepOutcome::Succeeded)
}

/// This device's availability observation for `publication`: `local`
/// exactly when its own journal shows the bytes verified here, `unknown`
/// otherwise. Never inferred from the record.
pub fn availability_of(entries: &Vec<JournalEntry>, publication: &Sha256Digest) -> (availability:
    AvailabilityTag)
    ensures
        availability == (if verified_here(entries@, *publication) {
            AvailabilityTag::Local
        } else {
            AvailabilityTag::Unknown
        }),
{
    let mut i: usize = 0;
    while i < entries.len()
        invariant
            i <= entries@.len(),
            forall|k: int|
                0 <= k < i ==> !(#[trigger] entries@[k] matches JournalEntry::Step {
                    publication_id,
                    step,
                    outcome,
                    ..
                } && publication_id.bytes() == publication.bytes() && step
                    == JournalStep::PublishedLocal && outcome == StepOutcome::Succeeded),
        decreases entries@.len() - i,
    {
        match &entries[i] {
            JournalEntry::Step { publication_id, step, outcome, .. } => {
                if publication_id.same_as(publication) && *step == JournalStep::PublishedLocal
                    && *outcome == StepOutcome::Succeeded {
                    return AvailabilityTag::Local;
                }
            },
            JournalEntry::Approved { .. } => {},
        }
        i = i + 1;
    }
    AvailabilityTag::Unknown
}


/// Whether one of `records` registers `publication`.
pub open spec fn registered_in(records: Seq<CatalogRecord>, publication: Sha256Digest) -> bool {
    exists|i: int| 0 <= i < records.len() && (#[trigger] records[i]).publication_id.bytes() == publication.bytes()
}

/// The pending registrations listed beside the records: this project's,
/// not yet registered, in journal order.
pub open spec fn listed_pending(
    pending: Seq<PendingRegistration>,
    records: Seq<CatalogRecord>,
    project: Sha256Digest,
) -> Seq<PendingRegistration>
    decreases pending.len(),
{
    if pending.len() == 0 {
        Seq::empty()
    } else {
        let before = listed_pending(pending.drop_last(), records, project);
        let last = pending.last();
        if last.scope_id.bytes() == project.bytes() && !registered_in(records, last.publication_id) {
            before.push(last)
        } else {
            before
        }
    }
}

/// A pending registration is listed only for this project, and only while
/// the Catalog does not hold it.
pub proof fn lemma_listed_pending_is_unregistered(
    pending: Seq<PendingRegistration>,
    records: Seq<CatalogRecord>,
    project: Sha256Digest,
)
    ensures
        forall|k: int|
            0 <= k < listed_pending(pending, records, project).len() ==> (#[trigger] listed_pending(
                pending,
                records,
                project,
            )[k]).scope_id.bytes() == project.bytes() && !registered_in(
                records,
                listed_pending(pending, records, project)[k].publication_id,
            ),
    decreases pending.len(),
{
    if pending.len() > 0 {
        lemma_listed_pending_is_unregistered(pending.drop_last(), records, project);
        let before = listed_pending(pending.drop_last(), records, project);
        let after = listed_pending(pending, records, project);
        assert forall|k: int| 0 <= k < after.len() implies (#[trigger] after[k]).scope_id.bytes()
            == project.bytes() && !registered_in(records, after[k].publication_id) by {
            if k < before.len() {
                assert(after[k] == before[k]);
            } else {
                assert(after[k] == pending.last());
            }
        }
    }
}

/// `p` is this project's and no record of `records` holds its publication.
pub open spec fn awaits_registration(p: PendingRegistration, records: Seq<CatalogRecord>, project: Sha256Digest) -> bool {
    &&& p.scope_id.bytes() == project.bytes()
    &&& forall|r: int| 0 <= r < records.len() ==> (#[trigger] records[r]).publication_id.bytes() != p.publication_id.bytes()
}

/// The pending registrations listed are exactly those of this project
/// that no Catalog record holds, each one, in journal order: none left out
/// and none added.
pub proof fn lemma_listed_pending_is_every_unregistered_one(
    pending: Seq<PendingRegistration>,
    records: Seq<CatalogRecord>,
    project: Sha256Digest,
)
    ensures
        listed_pending(pending, records, project) == pending.filter(
            |p: PendingRegistration| awaits_registration(p, records, project),
        ),
        forall|k: int|
            0 <= k < pending.len() && awaits_registration(#[trigger] pending[k], records, project)
                ==> listed_pending(pending, records, project).contains(pending[k]),
    decreases pending.len(),
{
    let pred = |p: PendingRegistration| awaits_registration(p, records, project);
    reveal(Seq::filter);
    if pending.len() > 0 {
        lemma_listed_pending_is_every_unregistered_one(pending.drop_last(), records, project);
        let last = pending.last();
        assert(pred(last) == (last.scope_id.bytes() == project.bytes() && !registered_in(
            records,
            last.publication_id,
        )));
        assert(pending.filter(pred) == (if pred(last) {
            pending.drop_last().filter(pred).push(last)
        } else {
            pending.drop_last().filter(pred)
        }));
    } else {
        assert(pending.filter(pred) == pending);
        assert(pending =~= Seq::<PendingRegistration>::empty());
    }
    assert forall|k: int|
        0 <= k < pending.len() && awaits_registration(#[trigger] pending[k], records, project)
            implies listed_pending(pending, records, project).contains(pending[k]) by {
        pending.lemma_filter_contains(pred, k);
    }
}

/// `dto` lists the pending registration `pending`: `registration-pending`
/// with no reference, provider state, or Catalog identity yet.
pub open spec fn is_pending_dto(pending: PendingRegistration, entries: Seq<JournalEntry>, dto: PublicationDto) -> bool {
    &&& dto.publication_id@ == hex_of(pending.publication_id.bytes())
    &&& dto.state == ArtifactStateTag::RegistrationPending
    &&& dto.reference is None
    &&& dto.provider_state is None
    &&& dto.catalog_id is None
    &&& dto.names@ == pending.names@
    &&& dto.availability == (if verified_here(entries, pending.publication_id) {
        AvailabilityTag::Local
    } else {
        AvailabilityTag::Unknown
    })
}

fn registered_already(records: &Vec<CatalogRecord>, publication: &Sha256Digest) -> (found: bool)
    ensures
        found == registered_in(records@, *publication),
{
    let mut i: usize = 0;
    while i < records.len()
        invariant
            i <= records@.len(),
            forall|k: int| 0 <= k < i ==> (#[trigger] records@[k]).publication_id.bytes() != publication.bytes(),
        decreases records@.len() - i,
    {
        if records[i].publication_id.same_as(publication) {
            return true;
        }
        i = i + 1;
    }
    false
}

/// Every publication of the project: the Catalog's records with this
/// device's availability observation, then each registration the journal
/// still shows pending for this project and the Catalog does not hold.
pub fn publication_listing(
    records: &Vec<CatalogRecord>,
    entries: &Vec<JournalEntry>,
    pending: &Vec<PendingRegistration>,
    project: &Sha256Digest,
) -> (listed: Vec<PublicationDto>)
    ensures
        listed.len() == records.len() + listed_pending(pending@, records@, *project).len(),
        forall|i: int|
            0 <= i < records.len() ==> is_record_dto(
                records@[i],
                if verified_here(entries@, records@[i].publication_id) {
                    AvailabilityTag::Local
                } else {
                    AvailabilityTag::Unknown
                },
                #[trigger] listed@[i],
            ),
        forall|k: int|
            0 <= k < listed_pending(pending@, records@, *project).len() ==> is_pending_dto(
                listed_pending(pending@, records@, *project)[k],
                entries@,
                #[trigger] listed@[records.len() + k],
            ),
        forall|k: int|
            0 <= k < pending.len() && awaits_registration(#[trigger] pending@[k], records@, *project)
                ==> exists|j: int|
                records.len() <= j < listed.len() && is_pending_dto(
                    pending@[k],
                    entries@,
                    #[trigger] listed@[j],
                ),
{
    let mut listed: Vec<PublicationDto> = Vec::new();
    let mut i: usize = 0;
    while i < records.len()
        invariant
            i <= records@.len(),
            listed.len() == i,
            forall|k: int|
                0 <= k < i ==> is_record_dto(
                    records@[k],
                    if verified_here(entries@, records@[k].publication_id) {
                        AvailabilityTag::Local
                    } else {
                        AvailabilityTag::Unknown
                    },
                    #[trigger] listed@[k],
                ),
        decreases records@.len() - i,
    {
        let availability = availability_of(entries, &records[i].publication_id);
        listed.push(PublicationDto::from_record(&records[i], availability));
        i = i + 1;
    }
    let mut j: usize = 0;
    while j < pending.len()
        invariant
            j <= pending@.len(),
            listed.len() == records.len() + listed_pending(pending@.take(j as int), records@, *project).len(),
            forall|k: int|
                0 <= k < records.len() ==> is_record_dto(
                    records@[k],
                    if verified_here(entries@, records@[k].publication_id) {
                        AvailabilityTag::Local
                    } else {
                        AvailabilityTag::Unknown
                    },
                    #[trigger] listed@[k],
                ),
            forall|k: int|
                0 <= k < listed_pending(pending@.take(j as int), records@, *project).len()
                    ==> is_pending_dto(
                    listed_pending(pending@.take(j as int), records@, *project)[k],
                    entries@,
                    #[trigger] listed@[records.len() + k],
                ),
        decreases pending@.len() - j,
    {
        let candidate = &pending[j];
        assert(pending@.take(j + 1).drop_last() =~= pending@.take(j as int));
        if candidate.scope_id.same_as(project) && !registered_already(records, &candidate.publication_id) {
            let availability = availability_of(entries, &candidate.publication_id);
            listed.push(
                PublicationDto {
                    publication_id: candidate.publication_id.to_hex(),
                    state: ArtifactStateTag::RegistrationPending,
                    reference: None,
                    provider_state: None,
                    catalog_id: None,
                    names: clone_names(&candidate.names),
                    availability,
                },
            );
        }
        j = j + 1;
    }
    assert(pending@.take(j as int) =~= pending@);
    proof {
        lemma_listed_pending_is_every_unregistered_one(pending@, records@, *project);
        let shown = listed_pending(pending@, records@, *project);
        assert forall|k: int|
            0 <= k < pending.len() && awaits_registration(#[trigger] pending@[k], records@, *project)
                implies exists|j: int|
                records.len() <= j < listed.len() && is_pending_dto(
                    pending@[k],
                    entries@,
                    #[trigger] listed@[j],
                ) by {
            assert(shown.contains(pending@[k]));
            let m = choose|m: int| 0 <= m < shown.len() && shown[m] == pending@[k];
            assert(is_pending_dto(shown[m], entries@, listed@[records.len() + m]));
        }
    }
    listed
}


/// The steps of approving a candidate, in the order they run. The work
/// area is checked, and the journal read, only once the request and the
/// entry's facts passed; nothing is recorded before the work area check.
#[derive(Debug, Clone, Copy, PartialEq, Eq, Structural)]
pub enum ApprovalStep {
    /// Refuse while a run is active.
    CheckRun,
    /// Parse the digest the request names.
    ParseDigest,
    /// Bind the entry's facts: through its listing run, or by re-opening
    /// the whole-outbox entry.
    BindFacts,
    /// Check the product work area against the registered workspaces.
    OpenWorkArea,
    /// Open and replay the journal.
    ReplayJournal,
    /// Refuse a derived approval id the journal already records.
    CheckDuplicate,
    /// Append the approval to the journal.
    Record,
}

/// The steps of approving a recovery entry, in the order they run: the
/// work area and its journal come before the entry's provenance, which
/// only the journal knows.
#[derive(Debug, Clone, Copy, PartialEq, Eq, Structural)]
pub enum RecoveryApprovalStep {
    /// Refuse while a run is active.
    CheckRun,
    /// Parse the digest the request names.
    ParseDigest,
    /// Check the product work area against the registered workspaces.
    OpenWorkArea,
    /// Open and replay the journal.
    ReplayJournal,
    /// Find the entry's provenance in the journal.
    FindProvenance,
    /// Load the policy and its asset root.
    LoadDestination,
    /// Open the entry and verify its bytes.
    OpenAndVerify,
    /// Refuse an entry that does not classify as `generated-heavy`.
    Classify,
    /// Refuse a derived approval id the journal already records.
    CheckDuplicate,
    /// Append the approval to the journal.
    Record,
}

/// Why a step of an approval failed.
pub enum ApprovalFailure {
    /// A run is active.
    RunActive,
    /// The step's own verified check refused with this error.
    Refused(ShellError),
    /// The work area cannot be used.
    WorkArea(WorkAreaError),
    /// The journal cannot be read or written.
    Journal(JournalError),
    /// The derived approval id is already recorded.
    Duplicate,
}

/// `error` is how an approval reports `failure`.
pub open spec fn approval_failure_error(failure: ApprovalFailure, error: ShellError) -> bool {
    match failure {
        ApprovalFailure::RunActive => is_catalogue_error(
            error,
            ShellErrorCode::RunActive,
            "a run is active; approve or publish once it has ended"@,
        ),
        ApprovalFailure::Refused(e) => error == e,
        ApprovalFailure::WorkArea(e) => is_catalogue_error(
            error,
            work_area_error_code(e),
            work_area_error_message(e),
        ),
        ApprovalFailure::Journal(e) => is_catalogue_error(
            error,
            journal_error_code(e),
            journal_error_message(e),
        ),
        ApprovalFailure::Duplicate => is_catalogue_error(
            error,
            ShellErrorCode::InvalidRequest,
            request_refusal_message(RequestRefusal::DuplicateApprovalId),
        ),
    }
}

/// How an approval reports `failure`.
fn approval_error(failure: ApprovalFailure) -> (error: ShellError)
    ensures
        approval_failure_error(failure, error),
{
    match failure {
        ApprovalFailure::RunActive => run_active(),
        ApprovalFailure::Refused(e) => e,
        ApprovalFailure::WorkArea(e) => ShellError::from(e),
        ApprovalFailure::Journal(e) => ShellError::from(e),
        ApprovalFailure::Duplicate => request_refusal(RequestRefusal::DuplicateApprovalId),
    }
}

/// The position of an approval step in its order.
pub open spec fn approval_step_index(step: ApprovalStep) -> int {
    match step {
        ApprovalStep::CheckRun => 0,
        ApprovalStep::ParseDigest => 1,
        ApprovalStep::BindFacts => 2,
        ApprovalStep::OpenWorkArea => 3,
        ApprovalStep::ReplayJournal => 4,
        ApprovalStep::CheckDuplicate => 5,
        ApprovalStep::Record => 6,
    }
}

/// The approval step after `step`, `None` after the last.
pub open spec fn approval_step_after(step: ApprovalStep) -> Option<ApprovalStep> {
    match step {
        ApprovalStep::CheckRun => Some(ApprovalStep::ParseDigest),
        ApprovalStep::ParseDigest => Some(ApprovalStep::BindFacts),
        ApprovalStep::BindFacts => Some(ApprovalStep::OpenWorkArea),
        ApprovalStep::OpenWorkArea => Some(ApprovalStep::ReplayJournal),
        ApprovalStep::ReplayJournal => Some(ApprovalStep::CheckDuplicate),
        ApprovalStep::CheckDuplicate => Some(ApprovalStep::Record),
        ApprovalStep::Record => None,
    }
}

/// What an approval does next.
pub enum ApprovalAction<S> {
    /// Run this step.
    Run(S),
    /// The approval is refused with `error`; nothing is recorded.
    Refuse(ShellError),
    /// The approval is recorded: hold its source and answer with it.
    Approved,
}

/// Decide what follows an approval `step` given how it went: the next
/// step, the recorded approval after the last, or the refusal.
pub fn approval_next(step: ApprovalStep, outcome: Result<(), ApprovalFailure>) -> (action:
    ApprovalAction<ApprovalStep>)
    ensures
        match outcome {
            Ok(()) => match approval_step_after(step) {
                Some(next) => action == ApprovalAction::Run(next),
                None => action is Approved,
            },
            Err(failure) => action matches ApprovalAction::Refuse(error) && approval_failure_error(
                failure,
                error,
            ),
        },
{
    match outcome {
        Ok(()) => match step {
            ApprovalStep::CheckRun => ApprovalAction::Run(ApprovalStep::ParseDigest),
            ApprovalStep::ParseDigest => ApprovalAction::Run(ApprovalStep::BindFacts),
            ApprovalStep::BindFacts => ApprovalAction::Run(ApprovalStep::OpenWorkArea),
            ApprovalStep::OpenWorkArea => ApprovalAction::Run(ApprovalStep::ReplayJournal),
            ApprovalStep::ReplayJournal => ApprovalAction::Run(ApprovalStep::CheckDuplicate),
            ApprovalStep::CheckDuplicate => ApprovalAction::Run(ApprovalStep::Record),
            ApprovalStep::Record => ApprovalAction::Approved,
        },
        Err(failure) => ApprovalAction::Refuse(approval_error(failure)),
    }
}

/// The approval steps run in one fixed order, each once: every step after
/// the first follows exactly one, one place later, so an approval is
/// recorded only after the work area check and the duplicate check passed.
pub proof fn lemma_approval_steps_ordered(step: ApprovalStep)
    ensures
        approval_step_after(step) matches Some(next) ==> approval_step_index(next)
            == approval_step_index(step) + 1,
        approval_step_after(step) is None <==> step == ApprovalStep::Record,
        approval_step_index(ApprovalStep::OpenWorkArea) < approval_step_index(ApprovalStep::CheckDuplicate)
            < approval_step_index(ApprovalStep::Record),
{
}

/// The position of a recovery approval step in its order.
pub open spec fn recovery_step_index(step: RecoveryApprovalStep) -> int {
    match step {
        RecoveryApprovalStep::CheckRun => 0,
        RecoveryApprovalStep::ParseDigest => 1,
        RecoveryApprovalStep::OpenWorkArea => 2,
        RecoveryApprovalStep::ReplayJournal => 3,
        RecoveryApprovalStep::FindProvenance => 4,
        RecoveryApprovalStep::LoadDestination => 5,
        RecoveryApprovalStep::OpenAndVerify => 6,
        RecoveryApprovalStep::Classify => 7,
        RecoveryApprovalStep::CheckDuplicate => 8,
        RecoveryApprovalStep::Record => 9,
    }
}

/// The recovery approval step after `step`, `None` after the last.
pub open spec fn recovery_step_after(step: RecoveryApprovalStep) -> Option<RecoveryApprovalStep> {
    match step {
        RecoveryApprovalStep::CheckRun => Some(RecoveryApprovalStep::ParseDigest),
        RecoveryApprovalStep::ParseDigest => Some(RecoveryApprovalStep::OpenWorkArea),
        RecoveryApprovalStep::OpenWorkArea => Some(RecoveryApprovalStep::ReplayJournal),
        RecoveryApprovalStep::ReplayJournal => Some(RecoveryApprovalStep::FindProvenance),
        RecoveryApprovalStep::FindProvenance => Some(RecoveryApprovalStep::LoadDestination),
        RecoveryApprovalStep::LoadDestination => Some(RecoveryApprovalStep::OpenAndVerify),
        RecoveryApprovalStep::OpenAndVerify => Some(RecoveryApprovalStep::Classify),
        RecoveryApprovalStep::Classify => Some(RecoveryApprovalStep::CheckDuplicate),
        RecoveryApprovalStep::CheckDuplicate => Some(RecoveryApprovalStep::Record),
        RecoveryApprovalStep::Record => None,
    }
}

/// Decide what follows a recovery approval `step` given how it went: the
/// next step, the recorded approval after the last, or the refusal.
pub fn recovery_approval_next(step: RecoveryApprovalStep, outcome: Result<(), ApprovalFailure>) -> (action:
    ApprovalAction<RecoveryApprovalStep>)
    ensures
        match outcome {
            Ok(()) => match recovery_step_after(step) {
                Some(next) => action == ApprovalAction::Run(next),
                None => action is Approved,
            },
            Err(failure) => action matches ApprovalAction::Refuse(error) && approval_failure_error(
                failure,
                error,
            ),
        },
{
    match outcome {
        Ok(()) => match step {
            RecoveryApprovalStep::CheckRun => ApprovalAction::Run(RecoveryApprovalStep::ParseDigest),
            RecoveryApprovalStep::ParseDigest => ApprovalAction::Run(RecoveryApprovalStep::OpenWorkArea),
            RecoveryApprovalStep::OpenWorkArea => ApprovalAction::Run(RecoveryApprovalStep::ReplayJournal),
            RecoveryApprovalStep::ReplayJournal => ApprovalAction::Run(RecoveryApprovalStep::FindProvenance),
            RecoveryApprovalStep::FindProvenance => ApprovalAction::Run(RecoveryApprovalStep::LoadDestination),
            RecoveryApprovalStep::LoadDestination => ApprovalAction::Run(RecoveryApprovalStep::OpenAndVerify),
            RecoveryApprovalStep::OpenAndVerify => ApprovalAction::Run(RecoveryApprovalStep::Classify),
            RecoveryApprovalStep::Classify => ApprovalAction::Run(RecoveryApprovalStep::CheckDuplicate),
            RecoveryApprovalStep::CheckDuplicate => ApprovalAction::Run(RecoveryApprovalStep::Record),
            RecoveryApprovalStep::Record => ApprovalAction::Approved,
        },
        Err(failure) => ApprovalAction::Refuse(approval_error(failure)),
    }
}

/// The recovery approval steps run in one fixed order, each once: the work
/// area is checked before the journal is read, and the approval is
/// recorded only after the duplicate check passed.
pub proof fn lemma_recovery_steps_ordered(step: RecoveryApprovalStep)
    ensures
        recovery_step_after(step) matches Some(next) ==> recovery_step_index(next)
            == recovery_step_index(step) + 1,
        recovery_step_after(step) is None <==> step == RecoveryApprovalStep::Record,
        recovery_step_index(RecoveryApprovalStep::OpenWorkArea) < recovery_step_index(
            RecoveryApprovalStep::ReplayJournal,
        ) < recovery_step_index(RecoveryApprovalStep::CheckDuplicate) < recovery_step_index(
            RecoveryApprovalStep::Record,
        ),
{
}

/// No message a [`WorkAreaError`] is reported with names a path.
pub proof fn lemma_work_area_error_messages_name_no_path(error: WorkAreaError)
    ensures
        names_no_path(work_area_error_message(error)),
{
    reveal_strlit("the product work area resolves inside a registered workspace root");
    reveal_strlit("the product work area could not be used");
    reveal_strlit("the product work area could not be made owner-only");
}

/// No message a [`JournalError`] is reported with names a path.
pub proof fn lemma_journal_error_messages_name_no_path(error: JournalError)
    ensures
        names_no_path(journal_error_message(error)),
{
    reveal_strlit("the publication journal could not be read");
    reveal_strlit("the publication journal is corrupt");
    reveal_strlit("the publication journal could not be written");
}

/// No message a [`DestinationError`] is reported with names a path.
pub proof fn lemma_destination_error_messages_name_no_path(error: DestinationError)
    ensures
        names_no_path(destination_error_message(error)),
{
    reveal_strlit("the project declares no asset root");
    reveal_strlit("the device asset path resolves inside a registered workspace root");
    reveal_strlit("the device asset path could not be used");
}

/// No message a [`CatalogStoreError`] is reported with names a path.
pub proof fn lemma_catalog_error_messages_name_no_path(error: CatalogStoreError)
    ensures
        names_no_path(catalog_error_message(error)),
{
    reveal_strlit("the catalog could not be read");
    reveal_strlit("the catalog is corrupt");
    reveal_strlit("the catalog could not be written");
    reveal_strlit("the catalog refused the record");
}

/// No message a [`BlobStoreError`] is reported with names a path.
pub proof fn lemma_provider_error_messages_name_no_path(error: BlobStoreError)
    ensures
        names_no_path(provider_error_message(error)),
{
    reveal_strlit("the published copy could not be written to the device asset path");
    reveal_strlit("the published copy could not be read back from the device asset path");
    reveal_strlit("the record's locator was not issued by this device's provider");
}

/// No message a [`PublishError`] is reported with names a path.
pub proof fn lemma_publish_error_messages_name_no_path(error: PublishError)
    ensures
        names_no_path(publish_error_message(error)),
{
    reveal_strlit("the entry's path no longer names the approved file; the approved bytes were kept as a recovery entry");
    reveal_strlit("the entry's path no longer names the approved file and no recovery entry could be written");
    reveal_strlit("the entry's link count is greater than one");
    reveal_strlit("the published copy did not verify against the approved digest; it was discarded and the entry preserved");
    reveal_strlit("an artifact with this content is already registered for this project");
    match error {
        PublishError::WorkAreaInvalid => lemma_work_area_error_messages_name_no_path(WorkAreaError::InsideWorkspace),
        PublishError::Journal(e) => lemma_journal_error_messages_name_no_path(e),
        PublishError::Catalog(e) => lemma_catalog_error_messages_name_no_path(e),
        PublishError::Provider(e) => lemma_provider_error_messages_name_no_path(e),
        _ => {},
    }
}

/// No message a [`RequestRefusal`] is reported with names a path.
pub proof fn lemma_request_refusal_messages_name_no_path(refusal: RequestRefusal)
    ensures
        names_no_path(request_refusal_message(refusal)),
{
    reveal_strlit("the entry name is not one the outbox inventory lists");
    reveal_strlit("the entry belongs to a remembered run; approve it through that run id");
    reveal_strlit("the outbox does not exist yet, so no entry can be listed in it");
    reveal_strlit("no run subdirectory with that name exists in the outbox");
    reveal_strlit("an approval with this derived id is already recorded");
    reveal_strlit("the approval id is not 16 hex characters");
    reveal_strlit("no approval with that id is recorded");
    reveal_strlit("the approval belongs to another project");
}

} // verus!
