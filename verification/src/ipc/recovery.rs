//! The recovery-entry commands' decisions. A recovery entry is the bytes
//! a publication's held handle still held when its outbox path stopped
//! naming them, kept in the product work area under their digest. The
//! journal, never the file name, says where an entry came from; a digest
//! in a name is a locator, and the handle's own digest is the check.

use vstd::prelude::*;

use crate::domain::{ApprovalSource, ArtifactApproval, Attribution, Id64, CandidateProbe, EpochOffset, JournalEntry, JournalStep, Sha256Digest};
use crate::hex::{bytes_of_hex, hex_of, is_hex_of_width};
use crate::ipc::dto::{
    epoch_millis, fails_with, is_catalogue_error, system_time_to_millis, RecoveryEntryDto,
    ShellError, ShellErrorCode,
};
use crate::ipc::publication::{generated_heavy, run_active, RegularFacts};

verus! {

/// What this device's journal records about one recovery entry: the
/// publication whose `outbox-escape` wrote it, and when.
#[derive(Debug, Clone, Copy)]
pub struct RecoveryProvenance {
    pub recovered_from: Sha256Digest,
    pub recovered_at: EpochOffset,
}

/// Entry `i` of the journal is an `outbox-escape` step that wrote a
/// recovery entry.
pub open spec fn escape_at(entries: Seq<JournalEntry>, i: int) -> bool {
    0 <= i < entries.len() && (entries[i] matches JournalEntry::Step { step, recovery, .. } && step
        == JournalStep::OutboxEscape && recovery is Some)
}

/// The recovery digest of the escape step at `i`.
pub open spec fn escape_digest(entries: Seq<JournalEntry>, i: int) -> Sha256Digest {
    match entries[i] {
        JournalEntry::Step { recovery, .. } => recovery->0,
        _ => arbitrary(),
    }
}

/// The provenance the escape step at `i` records.
pub open spec fn escape_provenance(entries: Seq<JournalEntry>, i: int) -> RecoveryProvenance {
    match entries[i] {
        JournalEntry::Step { publication_id, at, .. } => RecoveryProvenance {
            recovered_from: publication_id,
            recovered_at: at,
        },
        _ => arbitrary(),
    }
}

/// The escape step at `i` is the earliest one that wrote its digest.
pub open spec fn first_escape_of_its_digest(entries: Seq<JournalEntry>, i: int) -> bool {
    &&& escape_at(entries, i)
    &&& forall|j: int|
        0 <= j < i && escape_at(entries, j) ==> escape_digest(entries, j).bytes() != escape_digest(
            entries,
            i,
        ).bytes()
}

/// `found` is the journal's recovery entries, earliest first, one per
/// digest: each is the earliest escape step that wrote its digest, and
/// every such step is listed, in journal order.
pub open spec fn is_journaled_recovery(entries: Seq<JournalEntry>, found: Seq<(Sha256Digest, RecoveryProvenance)>) -> bool {
    exists|positions: Seq<int>|
        {
            &&& positions.len() == found.len()
            &&& forall|k: int, l: int| 0 <= k < l < positions.len() ==> positions[k] < positions[l]
            &&& forall|k: int|
                0 <= k < positions.len() ==> first_escape_of_its_digest(entries, #[trigger] positions[k])
                    && found[k] == (escape_digest(entries, positions[k]), escape_provenance(
                    entries,
                    positions[k],
                ))
            &&& forall|i: int|
                first_escape_of_its_digest(entries, i) ==> exists|k: int|
                    0 <= k < positions.len() && #[trigger] positions[k] == i
        }
}

/// The journal's recovery listing names each digest at most once.
pub proof fn lemma_recovery_digests_distinct(entries: Seq<JournalEntry>, found: Seq<(Sha256Digest, RecoveryProvenance)>)
    requires
        is_journaled_recovery(entries, found),
    ensures
        forall|k: int, l: int|
            0 <= k < l < found.len() ==> (#[trigger] found[k]).0.bytes() != (#[trigger] found[l]).0.bytes(),
{
    let positions = choose|positions: Seq<int>|
        {
            &&& positions.len() == found.len()
            &&& forall|k: int, l: int| 0 <= k < l < positions.len() ==> positions[k] < positions[l]
            &&& forall|k: int|
                0 <= k < positions.len() ==> first_escape_of_its_digest(entries, #[trigger] positions[k])
                    && found[k] == (escape_digest(entries, positions[k]), escape_provenance(
                    entries,
                    positions[k],
                ))
            &&& forall|i: int|
                first_escape_of_its_digest(entries, i) ==> exists|k: int|
                    0 <= k < positions.len() && #[trigger] positions[k] == i
        };
    assert forall|k: int, l: int| 0 <= k < l < found.len() implies (#[trigger] found[k]).0.bytes()
        != (#[trigger] found[l]).0.bytes() by {
        assert(first_escape_of_its_digest(entries, positions[l]));
        assert(first_escape_of_its_digest(entries, positions[k]));
        assert(positions[k] < positions[l]);
    }
}

fn listed_already(found: &Vec<(Sha256Digest, RecoveryProvenance)>, digest: &Sha256Digest) -> (listed:
    bool)
    ensures
        listed == exists|k: int| 0 <= k < found.len() && (#[trigger] found@[k]).0.bytes() == digest.bytes(),
{
    let mut k: usize = 0;
    while k < found.len()
        invariant
            k <= found@.len(),
            forall|m: int| 0 <= m < k ==> (#[trigger] found@[m]).0.bytes() != digest.bytes(),
        decreases found@.len() - k,
    {
        if found[k].0.same_as(digest) {
            return true;
        }
        k = k + 1;
    }
    false
}

/// Every recovery entry this device's journal knows about, earliest
/// first, one per digest. Two publications whose held bytes were
/// identical share one entry; the earliest escape step is the one
/// reported.
pub fn journaled_recovery(entries: &Vec<JournalEntry>) -> (found: Vec<(Sha256Digest, RecoveryProvenance)>)
    ensures
        is_journaled_recovery(entries@, found@),
{
    let mut found: Vec<(Sha256Digest, RecoveryProvenance)> = Vec::new();
    let ghost mut positions: Seq<int> = Seq::empty();
    let mut i: usize = 0;
    while i < entries.len()
        invariant
            i <= entries@.len(),
            positions.len() == found.len(),
            forall|k: int, l: int| 0 <= k < l < positions.len() ==> positions[k] < positions[l],
            forall|k: int| 0 <= k < positions.len() ==> #[trigger] positions[k] < i,
            forall|k: int|
                0 <= k < positions.len() ==> first_escape_of_its_digest(entries@, #[trigger] positions[k])
                    && found@[k] == (escape_digest(entries@, positions[k]), escape_provenance(
                    entries@,
                    positions[k],
                )),
            forall|j: int|
                0 <= j < i && first_escape_of_its_digest(entries@, j) ==> exists|k: int|
                    0 <= k < positions.len() && #[trigger] positions[k] == j,
            forall|j: int|
                0 <= j < i && escape_at(entries@, j) ==> exists|k: int|
                    0 <= k < found.len() && (#[trigger] found@[k]).0.bytes() == escape_digest(
                        entries@,
                        j,
                    ).bytes(),
        decreases entries@.len() - i,
    {
        match &entries[i] {
            JournalEntry::Step { publication_id, step, recovery: Some(recovery), at, .. } => {
                if *step == JournalStep::OutboxEscape {
                    if !listed_already(&found, recovery) {
                        proof {
                            assert(escape_at(entries@, i as int));
                            assert forall|j: int|
                                0 <= j < i && escape_at(entries@, j) implies escape_digest(
                                entries@,
                                j,
                            ).bytes() != escape_digest(entries@, i as int).bytes() by {
                                if escape_digest(entries@, j).bytes() == escape_digest(
                                    entries@,
                                    i as int,
                                ).bytes() {
                                    let k = choose|k: int|
                                        0 <= k < found.len() && (#[trigger] found@[k]).0.bytes()
                                            == escape_digest(entries@, j).bytes();
                                    assert(found@[k].0.bytes() == recovery.bytes());
                                }
                            }
                        }
                        let ghost positions_before = positions;
                        proof {
                            positions = positions.push(i as int);
                        }
                        let ghost found_before = found@;
                        found.push(
                            (*recovery, RecoveryProvenance { recovered_from: *publication_id, recovered_at: *at }),
                        );
                        proof {
                            assert forall|j: int|
                                0 <= j < i + 1 && escape_at(entries@, j) implies exists|k: int|
                                0 <= k < found.len() && (#[trigger] found@[k]).0.bytes()
                                    == escape_digest(entries@, j).bytes() by {
                                if j == i {
                                    assert(found@[found.len() - 1].0.bytes() == escape_digest(entries@, j).bytes());
                                } else {
                                    let k = choose|k: int|
                                        0 <= k < found_before.len() && (#[trigger] found_before[k]).0.bytes()
                                            == escape_digest(entries@, j).bytes();
                                    assert(found@[k] == found_before[k]);
                                }
                            }
                            assert forall|j: int|
                                0 <= j < i + 1 && first_escape_of_its_digest(entries@, j) implies exists|k: int|
                                0 <= k < positions.len() && #[trigger] positions[k] == j by {
                                if j == i {
                                    assert(positions[positions.len() - 1] == j);
                                } else {
                                    let k = choose|k: int|
                                        0 <= k < positions_before.len() && #[trigger] positions_before[k] == j;
                                    assert(positions[k] == positions_before[k]);
                                }
                            }
                        }
                    } else {
                        proof {
                            let k = choose|k: int|
                                0 <= k < found.len() && (#[trigger] found@[k]).0.bytes() == recovery.bytes();
                            let p = positions[k];
                            assert(escape_digest(entries@, p).bytes() == recovery.bytes());
                            assert(!first_escape_of_its_digest(entries@, i as int));
                        }
                    }
                }
            },
            _ => {},
        }
        i = i + 1;
    }
    proof {
        assert forall|j: int| first_escape_of_its_digest(entries@, j) implies exists|k: int|
            0 <= k < positions.len() && #[trigger] positions[k] == j by {
            assert(0 <= j < i);
        }
    }
    found
}


/// An `invalid-request` with `message`.
pub fn invalid(message: &str) -> (error: ShellError)
    ensures
        is_catalogue_error(error, ShellErrorCode::InvalidRequest, message@),
{
    ShellError::new(ShellErrorCode::InvalidRequest, message)
}

/// A `refused` with `message`.
pub fn refused(message: &str) -> (error: ShellError)
    ensures
        is_catalogue_error(error, ShellErrorCode::Refused, message@),
{
    ShellError::new(ShellErrorCode::Refused, message)
}

/// The display name the journal's approval of `publication` carries: the
/// first such approval's.
pub open spec fn journaled_display_name(entries: Seq<JournalEntry>, publication: Sha256Digest, i: int) -> bool {
    &&& 0 <= i < entries.len()
    &&& entries[i] matches JournalEntry::Approved { publication_id, .. }
    &&& publication_id.bytes() == publication.bytes()
    &&& forall|j: int|
        0 <= j < i ==> !((#[trigger] entries[j]) matches JournalEntry::Approved { publication_id, .. }
            && publication_id.bytes() == publication.bytes())
}

/// The name a recovery entry is registered and written under: the escaped
/// publication's own display name when this device's journal still
/// carries that approval, else `fallback` (the entry's digest, sanitized).
/// One derivation shared by the listing and the approval, so the surface
/// never shows one name and registers another.
pub fn recovered_display_name(entries: &Vec<JournalEntry>, publication: &Sha256Digest, fallback: String) -> (name: String)
    ensures
        (exists|i: int| journaled_display_name(entries@, *publication, i)) ==> ({
            let i = choose|i: int| journaled_display_name(entries@, *publication, i);
            entries@[i] matches JournalEntry::Approved { display_name, .. } && name == display_name
        }),
        !(exists|i: int| journaled_display_name(entries@, *publication, i)) ==> name == fallback,
{
    let mut i: usize = 0;
    while i < entries.len()
        invariant
            i <= entries@.len(),
            forall|j: int|
                0 <= j < i ==> !((#[trigger] entries@[j]) matches JournalEntry::Approved {
                    publication_id,
                    ..
                } && publication_id.bytes() == publication.bytes()),
        decreases entries@.len() - i,
    {
        match &entries[i] {
            JournalEntry::Approved { publication_id, display_name } => {
                if publication_id.same_as(publication) {
                    proof {
                        assert(journaled_display_name(entries@, *publication, i as int));
                        let k = choose|k: int| journaled_display_name(entries@, *publication, k);
                        assert(k == i) by {
                            if k < i {
                            } else if i < k {
                            }
                        }
                    }
                    return display_name.clone();
                }
            },
            _ => {},
        }
        i = i + 1;
    }
    fallback
}

/// One recovery entry's row: the digest it is filed under, the facts its
/// own handle gave (size, and whether the bytes are that digest), where
/// and when it was recovered from, and the display name and class its
/// approval would use. A regular entry is always shown with `class`,
/// the policy's classification of its display name, detected type, and
/// size; an entry that yielded no facts is shown with no class.
pub fn recovery_row(
    digest: &Sha256Digest,
    provenance: RecoveryProvenance,
    display_name: String,
    probe: &CandidateProbe,
    class: String,
) -> (row: RecoveryEntryDto)
    ensures
        row.sha256@ == hex_of(digest.bytes()),
        row.recovered_from@ == hex_of(provenance.recovered_from.bytes()),
        row.recovered_at == epoch_millis(provenance.recovered_at),
        row.display_name == display_name,
        match *probe {
            CandidateProbe::Regular { digest: d, size, .. } => row.size == Some(size) && row.usable
                == (d.bytes() == digest.bytes()) && row.class == Some(class),
            _ => row.size is None && !row.usable && row.class is None,
        },
{
    let (size, usable, class) = match probe {
        CandidateProbe::Regular { digest: d, size, .. } => (Some(*size), d.same_as(digest), Some(class)),
        _ => (None, false, None),
    };
    RecoveryEntryDto {
        sha256: digest.to_hex(),
        size,
        recovered_from: provenance.recovered_from.to_hex(),
        recovered_at: system_time_to_millis(provenance.recovered_at),
        display_name,
        class,
        usable,
    }
}

/// The approval of the recovery entry filed under `named`: its derived
/// ids, the entry's digest as its name, the display name it is registered
/// under, the facts its own handle gave, its class, the destination, the
/// instant, and the publication it was recovered from. It names no run
/// and no launch: the entry is unattributed.
pub fn recovery_approval(
    approval_id: Id64,
    publication_id: Sha256Digest,
    named: &Sha256Digest,
    display_name: String,
    facts: RegularFacts,
    class: String,
    asset_root_id: String,
    approved_at: EpochOffset,
    provenance: RecoveryProvenance,
) -> (approval: ArtifactApproval)
    ensures
        approval.approval_id == approval_id,
        approval.publication_id == publication_id,
        approval.run_id is None,
        approval.name@ == hex_of(named.bytes()),
        approval.display_name == display_name,
        approval.digest == facts.digest,
        approval.size == facts.size,
        approval.detected_type == facts.detected_type,
        approval.class == class,
        approval.attribution == Attribution::Unattributed,
        approval.asset_root_id == asset_root_id,
        approval.adapter_id is None,
        approval.executable_approval is None,
        approval.approved_at == approved_at,
        approval.source == (ApprovalSource::Recovery { recovered_from: provenance.recovered_from }),
{
    ArtifactApproval {
        approval_id,
        publication_id,
        run_id: None,
        name: named.to_hex(),
        display_name,
        digest: facts.digest,
        size: facts.size,
        detected_type: facts.detected_type,
        class,
        attribution: Attribution::Unattributed,
        asset_root_id,
        adapter_id: None,
        executable_approval: None,
        approved_at,
        source: ApprovalSource::Recovery { recovered_from: provenance.recovered_from },
    }
}

/// The recovery entry `named` opened once without following a link: a
/// regular file with a link count of one whose own bytes are the digest
/// it is filed under; otherwise refused (not a regular file, or a second
/// name), `recovery-unknown` (nothing to open), or `integrity-mismatch`.
pub fn verified_recovery_entry(probe: CandidateProbe, named: &Sha256Digest) -> (facts: Result<RegularFacts, ShellError>)
    ensures
        match probe {
            CandidateProbe::Regular { digest, size, detected_type } => if digest.bytes()
                == named.bytes() {
                facts matches Ok(f) && f.digest == digest && f.size == size && f.detected_type
                    == detected_type
            } else {
                fails_with(
                    facts,
                    ShellErrorCode::IntegrityMismatch,
                    "the recovery entry's bytes are not the digest it is filed under"@,
                )
            },
            CandidateProbe::Escape => fails_with(
                facts,
                ShellErrorCode::Refused,
                "the recovery entry is not a regular file"@,
            ),
            CandidateProbe::Linked => fails_with(
                facts,
                ShellErrorCode::Refused,
                "the recovery entry's link count is greater than one"@,
            ),
            CandidateProbe::Unreadable => fails_with(
                facts,
                ShellErrorCode::RecoveryUnknown,
                "the recovery entry could not be opened"@,
            ),
        },
{
    match probe {
        CandidateProbe::Regular { digest, size, detected_type } => {
            if digest.same_as(named) {
                Ok(RegularFacts { digest, size, detected_type })
            } else {
                Err(
                    ShellError::new(
                        ShellErrorCode::IntegrityMismatch,
                        "the recovery entry's bytes are not the digest it is filed under",
                    ),
                )
            }
        },
        CandidateProbe::Escape => Err(refused("the recovery entry is not a regular file")),
        CandidateProbe::Linked => Err(refused("the recovery entry's link count is greater than one")),
        CandidateProbe::Unreadable => Err(
            ShellError::new(ShellErrorCode::RecoveryUnknown, "the recovery entry could not be opened"),
        ),
    }
}

/// The digest a recovery approval names: `run-active` while a run is
/// live, `invalid-request` unless it is 64 hex characters.
pub fn recovery_digest(running: bool, digest: &str) -> (named: Result<Sha256Digest, ShellError>)
    ensures
        running ==> fails_with(
            named,
            ShellErrorCode::RunActive,
            "a run is active; approve or publish once it has ended"@,
        ),
        !running && !is_hex_of_width(digest@, 32) ==> fails_with(
            named,
            ShellErrorCode::InvalidRequest,
            "the recovery entry's digest is not 64 hex characters"@,
        ),
        !running && is_hex_of_width(digest@, 32) ==> (named matches Ok(d) && d.bytes()
            == bytes_of_hex(digest@)),
{
    if running {
        return Err(run_active());
    }
    match Sha256Digest::from_hex(digest) {
        Some(named) => Ok(named),
        None => Err(invalid("the recovery entry's digest is not 64 hex characters")),
    }
}

/// The provenance of the recovery entry `named`: what the journal
/// recorded for it, or `recovery-unknown` when no escape of this device's
/// journal wrote that entry.
pub fn recovery_provenance(found: &Vec<(Sha256Digest, RecoveryProvenance)>, named: &Sha256Digest) -> (provenance: Result<RecoveryProvenance, ShellError>)
    ensures
        (exists|k: int| 0 <= k < found.len() && (#[trigger] found@[k]).0.bytes() == named.bytes())
            ==> (provenance matches Ok(p) && exists|k: int|
            0 <= k < found.len() && (#[trigger] found@[k]).0.bytes() == named.bytes() && found@[k].1 == p),
        !(exists|k: int| 0 <= k < found.len() && (#[trigger] found@[k]).0.bytes() == named.bytes())
            ==> fails_with(
            provenance,
            ShellErrorCode::RecoveryUnknown,
            "no recovery entry with that digest is recorded for this device"@,
        ),
{
    let mut k: usize = 0;
    while k < found.len()
        invariant
            k <= found@.len(),
            forall|m: int| 0 <= m < k ==> (#[trigger] found@[m]).0.bytes() != named.bytes(),
        decreases found@.len() - k,
    {
        if found[k].0.same_as(named) {
            return Ok(found[k].1);
        }
        k = k + 1;
    }
    Err(
        ShellError::new(
            ShellErrorCode::RecoveryUnknown,
            "no recovery entry with that digest is recorded for this device",
        ),
    )
}

/// Only a `generated-heavy` recovery entry may be approved for
/// publication.
pub fn approvable_recovery_class(class: &String) -> (checked: Result<(), ShellError>)
    ensures
        checked is Ok <==> class@ == generated_heavy(),
        checked is Err ==> fails_with(
            checked,
            ShellErrorCode::Refused,
            "only a generated-heavy recovery entry can be approved for publication"@,
        ),
{
    if *class == "generated-heavy".to_owned() {
        Ok(())
    } else {
        Err(refused("only a generated-heavy recovery entry can be approved for publication"))
    }
}

} // verus!
