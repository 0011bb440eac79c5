//! The journal store: every swap's event log, keyed by identifier,
//! with the pure status-query surface read by the RPC layer. Queries
//! only fold journals; they never touch a live driver.

use vstd::prelude::*;

use crate::error::SwapError;
use crate::events::{EventKind, SwapEvent};
use crate::journal::SwapJournal;
use crate::record::{projection, SwapRecord};
use crate::types::{terms_ok, validate_terms, Role, SwapId, SwapTerms};

verus! {

/// Every journal well-formed, and one journal per identifier: an
/// identifier is assigned once and never reused.
pub open spec fn store_wf(s: Seq<SwapJournal>) -> bool {
    &&& forall|i: int| 0 <= i < s.len() ==> (#[trigger] s[i]).wf()
    &&& forall|i: int, j: int| #![trigger s[i], s[j]] 0 <= i < j < s.len() ==> s[i].id_spec()
        != s[j].id_spec()
}

/// Whether some journal in `s` belongs to `id`.
pub open spec fn has_id(s: Seq<SwapJournal>, id: SwapId) -> bool {
    exists|i: int| 0 <= i < s.len() && (#[trigger] s[i]).id_spec() == id
}

/// The position of the journal for `id`, where one exists.
pub open spec fn journal_at(s: Seq<SwapJournal>, id: SwapId) -> int {
    choose|i: int| 0 <= i < s.len() && s[i].id_spec() == id
}

/// The event history of the swap `id`.
pub open spec fn events_of(s: Seq<SwapJournal>, id: SwapId) -> Seq<SwapEvent> {
    s[journal_at(s, id)]@
}

/// The set of journals of one node, in creation order.
pub struct JournalStore {
    journals: Vec<SwapJournal>,
}

impl View for JournalStore {
    type V = Seq<SwapJournal>;

    closed spec fn view(&self) -> Seq<SwapJournal> {
        self.journals@
    }
}

impl JournalStore {
    /// The store's invariant; see [`store_wf`].
    pub open spec fn wf(&self) -> bool {
        store_wf(self@)
    }

    /// Whether the store holds a journal for `id`.
    pub open spec fn has_swap(&self, id: SwapId) -> bool {
        has_id(self@, id)
    }

    /// An empty store, for a node with no swap history.
    pub fn new() -> (r: JournalStore)
        ensures
            r.wf(),
            r@ =~= Seq::<SwapJournal>::empty(),
    {
        JournalStore { journals: Vec::new() }
    }

    /// How many swaps the store knows.
    pub fn count(&self) -> (n: usize)
        ensures
            n == self@.len(),
    {
        self.journals.len()
    }

    /// The identifier of the journal at position `i`.
    pub fn id_at(&self, i: usize) -> (r: SwapId)
        requires
            i < self@.len(),
        ensures
            r == self@[i as int].id_spec(),
    {
        self.journals[i].swap_id()
    }

    /// The projected record of the journal at position `i`.
    pub fn record_at(&self, i: usize) -> (r: SwapRecord)
        requires
            i < self@.len(),
        ensures
            r@ == projection(self@[i as int]@),
    {
        self.journals[i].project()
    }

    /// Executable form of [`JournalStore::has_swap`].
    pub fn contains(&self, id: SwapId) -> (r: bool)
        ensures
            r == self.has_swap(id),
    {
        let mut i: usize = 0;
        while i < self.journals.len()
            invariant
                i <= self@.len(),
                forall|j: int| 0 <= j < i ==> (#[trigger] self@[j]).id_spec() != id,
            decreases self@.len() - i,
        {
            if self.journals[i].swap_id() == id {
                return true;
            }
            i = i + 1;
        }
        false
    }

    /// Opens the journal of a fresh swap. An identifier that already
    /// has a journal is refused with `DuplicateSwap` — identifiers are
    /// never reused — and the store is unchanged.
    pub fn create_swap(&mut self, id: SwapId) -> (r: Result<(), SwapError>)
        requires
            old(self).wf(),
        ensures
            final(self).wf(),
            old(self).has_swap(id) ==> r == Result::<(), SwapError>::Err(SwapError::DuplicateSwap)
                && final(self)@ == old(self)@,
            !old(self).has_swap(id) ==> r is Ok && final(self)@.len() == old(self)@.len() + 1 && (
            forall|j: int| 0 <= j < old(self)@.len() ==> final(self)@[j] == old(self)@[j])
                && final(self)@.last().id_spec() == id && final(self)@.last()@ =~= Seq::<
                SwapEvent,
            >::empty(),
    {
        if self.contains(id) {
            Err(SwapError::DuplicateSwap)
        } else {
            self.journals.push(SwapJournal::new(id));
            proof {
                assert forall|i: int, j: int| #![trigger self@[i], self@[j]] 0 <= i < j
                    < self@.len() implies self@[i].id_spec() != self@[j].id_spec() by {
                    if j == self@.len() - 1 {
                        assert(!has_id(old(self)@, id));
                    }
                }
            }
            Ok(())
        }
    }

    /// The negotiation entry point: accepts the agreed terms, opens
    /// the journal of a new swap and writes its initial event. Terms
    /// that violate the safety margin are rejected before anything is
    /// stored; an identifier that already has a journal is refused —
    /// identifiers are never reused.
    pub fn open_swap(
        &mut self,
        id: SwapId,
        role: Role,
        terms: SwapTerms,
        margin: u64,
        now: u64,
    ) -> (r: Result<(), SwapError>)
        requires
            old(self).wf(),
        ensures
            final(self).wf(),
            !terms_ok(terms, margin) ==> r == Result::<(), SwapError>::Err(
                SwapError::NegotiationRejected,
            ) && final(self)@ == old(self)@,
            terms_ok(terms, margin) && old(self).has_swap(id) ==> r == Result::<(
            ), SwapError>::Err(SwapError::DuplicateSwap) && final(self)@ == old(self)@,
            terms_ok(terms, margin) && !old(self).has_swap(id) ==> r is Ok && final(self)@.len()
                == old(self)@.len() + 1 && (forall|j: int|
                0 <= j < old(self)@.len() ==> final(self)@[j] == old(self)@[j])
                && final(self)@.last().id_spec() == id && final(self)@.last()@ =~= seq![
                (SwapEvent {
                    sequence_number: 0,
                    timestamp: now,
                    kind: EventKind::Started { role, terms },
                }),
            ],
    {
        match validate_terms(&terms, margin) {
            Err(e) => Err(e),
            Ok(()) => {
                if self.contains(id) {
                    Err(SwapError::DuplicateSwap)
                } else {
                    let mut j = SwapJournal::new(id);
                    let _r = j.append(
                        SwapEvent {
                            sequence_number: 0,
                            timestamp: now,
                            kind: EventKind::Started { role, terms },
                        },
                    );
                    self.journals.push(j);
                    proof {
                        assert forall|a: int, b: int| #![trigger self@[a], self@[b]] 0 <= a < b
                            < self@.len() implies self@[a].id_spec() != self@[b].id_spec() by {
                            if b == self@.len() - 1 {
                                assert(!has_id(old(self)@, id));
                            }
                        }
                    }
                    Ok(())
                }
            },
        }
    }

    /// Appends an event to the journal of `id`, with the journal's
    /// idempotent-append semantics; an unknown identifier is refused
    /// with `UnknownSwap`. No other journal is touched.
    pub fn append_event(&mut self, id: SwapId, ev: SwapEvent) -> (r: Result<(), SwapError>)
        requires
            old(self).wf(),
        ensures
            final(self).wf(),
            !old(self).has_swap(id) ==> r == Result::<(), SwapError>::Err(SwapError::UnknownSwap)
                && final(self)@ == old(self)@,
            old(self).has_swap(id) ==> {
                let k = journal_at(old(self)@, id);
                let history = events_of(old(self)@, id);
                &&& final(self)@.len() == old(self)@.len()
                &&& forall|j: int| 0 <= j < old(self)@.len() && j != k ==> final(self)@[j]
                    == old(self)@[j]
                &&& final(self)@[k].id_spec() == id
                &&& ev.sequence_number < history.len() ==> r is Ok && final(self)@[k]@ == history
                &&& ev.sequence_number == history.len() ==> r is Ok && final(self)@[k]@
                    == history.push(ev)
                &&& ev.sequence_number > history.len() ==> r == Result::<(), SwapError>::Err(
                    SwapError::PersistenceFailure,
                ) && final(self)@[k]@ == history
            },
    {
        let ghost s0 = self@;
        let mut i: usize = 0;
        while i < self.journals.len()
            invariant
                i <= self@.len(),
                self@ == s0,
                s0 == old(self)@,
                store_wf(s0),
                forall|j: int| 0 <= j < i ==> (#[trigger] self@[j]).id_spec() != id,
            decreases self@.len() - i,
        {
            if self.journals[i].swap_id() == id {
                proof {
                    let k = journal_at(s0, id);
                    assert(0 <= k < s0.len() && s0[k].id_spec() == id);
                    if k != i as int {
                        assert(s0[k].id_spec() != s0[i as int].id_spec());
                    }
                }
                let mut j = self.journals.remove(i);
                let r = j.append(ev);
                self.journals.insert(i, j);
                proof {
                    assert(self@ =~= s0.update(i as int, self@[i as int]));
                    assert forall|a: int, b: int| #![trigger self@[a], self@[b]] 0 <= a < b
                        < self@.len() implies self@[a].id_spec() != self@[b].id_spec() by {
                        assert(s0[a].id_spec() != s0[b].id_spec());
                    }
                }
                return r;
            }
            i = i + 1;
        }
        Err(SwapError::UnknownSwap)
    }

    /// The status query: the projected record of `id`, or `None` for
    /// an identifier the store does not know. A pure read, safe
    /// concurrently with any running driver.
    pub fn status(&self, id: SwapId) -> (r: Option<SwapRecord>)
        requires
            self.wf(),
        ensures
            r is Some <==> self.has_swap(id),
            r matches Some(rec) ==> rec@ == projection(events_of(self@, id)),
    {
        let mut i: usize = 0;
        while i < self.journals.len()
            invariant
                self.wf(),
                i <= self@.len(),
                forall|j: int| 0 <= j < i ==> (#[trigger] self@[j]).id_spec() != id,
            decreases self@.len() - i,
        {
            if self.journals[i].swap_id() == id {
                proof {
                    let k = journal_at(self@, id);
                    assert(0 <= k < self@.len() && self@[k].id_spec() == id);
                    if k != i as int {
                        assert(self@[k].id_spec() != self@[i as int].id_spec());
                    }
                }
                return Some(self.journals[i].project());
            }
            i = i + 1;
        }
        None
    }

    /// The most recent `limit` swap records, newest first: the other
    /// pure read of the status-query surface.
    pub fn list_recent(&self, limit: usize) -> (r: Vec<SwapRecord>)
        ensures
            r@.len() == if limit < self@.len() {
                limit as int
            } else {
                self@.len() as int
            },
            forall|i: int| 0 <= i < r@.len() ==> (#[trigger] r@[i])@ == projection(
                self@[self@.len() - 1 - i]@,
            ),
    {
        let mut out: Vec<SwapRecord> = Vec::new();
        let n = self.journals.len();
        let mut i: usize = 0;
        while i < limit && i < n
            invariant
                n == self@.len(),
                i <= n,
                limit < n ==> i <= limit,
                i <= limit,
                out@.len() == i,
                forall|j: int| 0 <= j < i ==> (#[trigger] out@[j])@ == projection(
                    self@[self@.len() - 1 - j]@,
                ),
            decreases n - i,
        {
            out.push(self.journals[n - 1 - i].project());
            i = i + 1;
        }
        out
    }
}

} // verus!
