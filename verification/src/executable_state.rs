//! The probed-candidate table of the executable-identity-and-approval
//! surface: probed but not yet approved executables, bounded, the oldest
//! evicted first.

use vstd::prelude::*;

use crate::domain::ExecutableIdentity;

verus! {

/// A probed-but-not-yet-approved candidate's opaque handle, valid only for
/// this shell process's lifetime.
#[derive(Debug, Clone, Copy, PartialEq, Eq, Hash, Structural)]
pub struct CandidateId(u64);

impl CandidateId {
    /// The id's raw wire value, in spec.
    pub closed spec fn value(self) -> u64 {
        self.0
    }

    /// Build a `CandidateId` from its raw wire value.
    pub fn from_raw(raw: u64) -> (id: Self)
        ensures
            id.value() == raw,
    {
        CandidateId(raw)
    }

    /// This id's raw wire value.
    pub fn raw(self) -> (raw: u64)
        ensures
            raw == self.value(),
    {
        self.0
    }
}

/// An id is its raw wire value: two ids with the same value are the same
/// id, so `from_raw(id.raw())` is `id` and distinct wire values name
/// distinct candidates.
pub proof fn lemma_value_determines_id(a: CandidateId, b: CandidateId)
    ensures
        a.value() == b.value() <==> a == b,
{
}

/// The wall clock backing the launch gate; reading it is the shell's I/O.
#[derive(Debug, Clone, Copy, Default)]
pub struct SystemClock;

/// The maximum number of probed candidates remembered at once.
pub const MAX_CANDIDATES: usize = 32;

/// Probed-but-not-yet-approved candidates: at most [`MAX_CANDIDATES`],
/// oldest evicted first, each under a fresh id.
pub struct CandidateTable {
    next_id: u64,
    entries: Vec<(CandidateId, ExecutableIdentity)>,
}

/// Ids in `entries` strictly increase, oldest first.
pub open spec fn ids_increasing(entries: Seq<(u64, ExecutableIdentity)>) -> bool {
    forall|i: int, j: int| 0 <= i < j < entries.len() ==> entries[i].0 < entries[j].0
}

/// The entry `id` names in `entries`, if any.
pub open spec fn lookup_in(entries: Seq<(u64, ExecutableIdentity)>, id: u64) -> Option<
    ExecutableIdentity,
> {
    if exists|i: int| 0 <= i < entries.len() && entries[i].0 == id {
        let i = choose|i: int| 0 <= i < entries.len() && entries[i].0 == id;
        Some(entries[i].1)
    } else {
        None
    }
}

/// `entries` after remembering `identity` under `id`: appended, then the
/// oldest evicted if that leaves more than [`MAX_CANDIDATES`].
pub open spec fn inserted(entries: Seq<(u64, ExecutableIdentity)>, id: u64, identity: ExecutableIdentity) -> Seq<(u64, ExecutableIdentity)> {
    let appended = entries.push((id, identity));
    if appended.len() > MAX_CANDIDATES {
        appended.drop_first()
    } else {
        appended
    }
}

impl CandidateTable {
    /// The remembered candidates, oldest first, by raw id.
    pub closed spec fn entries(&self) -> Seq<(u64, ExecutableIdentity)> {
        self.entries@.map_values(|e: (CandidateId, ExecutableIdentity)| (e.0.0, e.1))
    }

    /// The last id handed out (`0` before the first insert).
    pub closed spec fn last_id(&self) -> u64 {
        self.next_id
    }

    /// The table's invariant: bounded, ids strictly increasing and never
    /// above the last id handed out.
    pub open spec fn wf(&self) -> bool {
        &&& self.entries().len() <= MAX_CANDIDATES
        &&& ids_increasing(self.entries())
        &&& forall|i: int| 0 <= i < self.entries().len() ==> 0 < #[trigger] self.entries()[i].0
            <= self.last_id()
    }

    /// The candidate `id` names, if remembered.
    pub open spec fn lookup(&self, id: u64) -> Option<ExecutableIdentity> {
        lookup_in(self.entries(), id)
    }

    /// An empty table.
    pub fn new() -> (table: Self)
        ensures
            table.wf(),
            table.entries() == Seq::<(u64, ExecutableIdentity)>::empty(),
            table.last_id() == 0,
    {
        let table = CandidateTable { next_id: 0, entries: Vec::new() };
        assert(table.entries() =~= Seq::<(u64, ExecutableIdentity)>::empty());
        table
    }

    /// Remember `identity` under a fresh id, evicting the oldest entry if
    /// the table is now over [`MAX_CANDIDATES`].
    pub fn insert(&mut self, identity: ExecutableIdentity) -> (id: CandidateId)
        requires
            old(self).wf(),
            old(self).last_id() < u64::MAX,
        ensures
            final(self).wf(),
            id.value() == old(self).last_id() + 1,
            final(self).last_id() == id.value(),
            final(self).entries() == inserted(old(self).entries(), id.value(), identity),
    {
        self.next_id = self.next_id + 1;
        let id = CandidateId(self.next_id);
        let ghost before = old(self).entries();
        self.entries.push((id, identity));
        assert(self.entries() =~= before.push((id.0, identity)));
        if self.entries.len() > MAX_CANDIDATES {
            let _evicted = self.entries.remove(0);
            assert(self.entries() =~= before.push((id.0, identity)).drop_first());
        }
        id
    }

    /// Look up a previously probed candidate by id.
    pub fn get(&self, id: CandidateId) -> (found: Option<&ExecutableIdentity>)
        requires
            self.wf(),
        ensures
            match found {
                Some(identity) => self.lookup(id.value()) == Some(*identity),
                None => self.lookup(id.value()) is None,
            },
    {
        let mut i: usize = 0;
        while i < self.entries.len()
            invariant
                self.wf(),
                i <= self.entries@.len(),
                self.entries@.len() == self.entries().len(),
                forall|k: int| 0 <= k < i ==> #[trigger] self.entries()[k].0 != id.value(),
            decreases self.entries@.len() - i,
        {
            if self.entries[i].0.0 == id.0 {
                assert(self.entries()[i as int].0 == id.value());
                let found = &self.entries[i].1;
                proof {
                    let j = choose|j: int|
                        0 <= j < self.entries().len() && self.entries()[j].0 == id.value();
                    assert(j == i) by {
                        if j < i {
                        } else if j > i {
                        }
                    }
                }
                return Some(found);
            }
            i = i + 1;
        }
        None
    }
}

impl Default for CandidateTable {
    fn default() -> (table: Self)
        ensures
            table.wf(),
            table.entries() == Seq::<(u64, ExecutableIdentity)>::empty(),
            table.last_id() == 0,
    {
        CandidateTable::new()
    }
}


proof fn lemma_lookup_at(entries: Seq<(u64, ExecutableIdentity)>, i: int)
    requires
        ids_increasing(entries),
        0 <= i < entries.len(),
    ensures
        lookup_in(entries, entries[i].0) == Some(entries[i].1),
{
    let k = choose|k: int| 0 <= k < entries.len() && entries[k].0 == entries[i].0;
    assert(k == i) by {
        if k < i {
        } else if i < k {
        }
    }
}

/// A probed candidate can be looked up by the id its insert returned, the
/// table never holds more than [`MAX_CANDIDATES`], an insert into a full
/// table evicts exactly the oldest entry, and every other entry keeps its
/// identity.
pub proof fn lemma_insert_then_lookup(
    entries: Seq<(u64, ExecutableIdentity)>,
    id: u64,
    identity: ExecutableIdentity,
)
    requires
        entries.len() <= MAX_CANDIDATES,
        ids_increasing(entries),
        forall|i: int| 0 <= i < entries.len() ==> #[trigger] entries[i].0 < id,
    ensures
        lookup_in(inserted(entries, id, identity), id) == Some(identity),
        inserted(entries, id, identity).len() <= MAX_CANDIDATES,
        entries.len() == MAX_CANDIDATES ==> lookup_in(inserted(entries, id, identity), entries[0].0)
            is None,
        forall|i: int|
            (if entries.len() == MAX_CANDIDATES {
                1 <= i
            } else {
                0 <= i
            }) && i < entries.len() ==> lookup_in(inserted(entries, id, identity), #[trigger] entries[i].0)
                == Some(entries[i].1),
{
    let after = inserted(entries, id, identity);
    let appended = entries.push((id, identity));
    assert(ids_increasing(appended));
    assert(ids_increasing(after));
    lemma_lookup_at(after, after.len() - 1);
    assert forall|i: int|
        (if entries.len() == MAX_CANDIDATES {
            1 <= i
        } else {
            0 <= i
        }) && i < entries.len() implies lookup_in(after, #[trigger] entries[i].0) == Some(
        entries[i].1,
    ) by {
        if entries.len() == MAX_CANDIDATES {
            assert(after[i - 1] == entries[i]);
            lemma_lookup_at(after, i - 1);
        } else {
            assert(after[i] == entries[i]);
            lemma_lookup_at(after, i);
        }
    }
    if entries.len() == MAX_CANDIDATES {
        assert forall|k: int| 0 <= k < after.len() implies after[k].0 != entries[0].0 by {
            assert(after[k] == appended[k + 1]);
        }
    }
}

/// The table's entries after inserting `identities`, in order, into an
/// empty table: the `k`-th insert hands out id `k + 1`.
pub open spec fn after_inserts(identities: Seq<ExecutableIdentity>) -> Seq<(u64, ExecutableIdentity)>
    decreases identities.len(),
{
    if identities.len() == 0 {
        Seq::empty()
    } else {
        inserted(
            after_inserts(identities.drop_last()),
            identities.len() as u64,
            identities.last(),
        )
    }
}

/// How many of `n` inserts a table keeps: the most recent
/// [`MAX_CANDIDATES`].
pub open spec fn kept(n: int) -> int {
    if n < MAX_CANDIDATES {
        n
    } else {
        MAX_CANDIDATES as int
    }
}

proof fn lemma_after_inserts_shape(identities: Seq<ExecutableIdentity>)
    requires
        identities.len() < u64::MAX,
    ensures
        after_inserts(identities) =~= Seq::new(
            kept(identities.len() as int) as nat,
            |k: int|
                (
                    (identities.len() - kept(identities.len() as int) + k + 1) as u64,
                    identities[identities.len() - kept(identities.len() as int) + k],
                ),
        ),
    decreases identities.len(),
{
    if identities.len() > 0 {
        lemma_after_inserts_shape(identities.drop_last());
    }
}

/// After `n` inserts into an empty table, only the most recent
/// [`MAX_CANDIDATES`] are remembered: the id `i` of the `i`-th insert
/// finds its identity exactly when `i > n - MAX_CANDIDATES`, and an id
/// never handed out finds nothing.
pub proof fn lemma_inserts_keep_the_most_recent(identities: Seq<ExecutableIdentity>, i: u64)
    requires
        identities.len() < u64::MAX,
    ensures
        after_inserts(identities).len() == kept(identities.len() as int),
        ids_increasing(after_inserts(identities)),
        1 <= i <= identities.len() && i > identities.len() - MAX_CANDIDATES ==> lookup_in(
            after_inserts(identities),
            i,
        ) == Some(identities[i - 1]),
        !(1 <= i <= identities.len() && i > identities.len() - MAX_CANDIDATES) ==> lookup_in(
            after_inserts(identities),
            i,
        ) is None,
{
    lemma_after_inserts_shape(identities);
    let n = identities.len() as int;
    let m = kept(n);
    let entries = after_inserts(identities);
    assert(ids_increasing(entries));
    if 1 <= i <= n && i > n - MAX_CANDIDATES {
        let k = i - (n - m) - 1;
        assert(entries[k].0 == i);
        lemma_lookup_at(entries, k);
    } else {
        assert forall|k: int| 0 <= k < entries.len() implies entries[k].0 != i by {
            assert(entries[k].0 == n - m + k + 1);
        }
    }
}

} // verus!
