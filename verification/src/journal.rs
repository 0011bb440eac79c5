//! The durable, append-only, per-swap event log: the source of truth
//! for swap state. Appends are idempotent on the sequence number;
//! replay is pure; the projection is the fold of [`crate::record`].

use vstd::prelude::*;

use crate::error::SwapError;
use crate::events::SwapEvent;
use crate::record::{projection, SwapRecord};
use crate::types::SwapId;

verus! {

/// Sequence numbers are dense: the event at position `i` carries
/// sequence number `i`, so the history has no gaps and no duplicates.
pub open spec fn events_wf(events: Seq<SwapEvent>) -> bool {
    forall|i: int| 0 <= i < events.len() ==> (#[trigger] events[i]).sequence_number == i
}

/// The ordered event log of one swap. Events are immutable once
/// written; the log only grows, and re-appending a sequence number that
/// is already present changes nothing.
pub struct SwapJournal {
    id: SwapId,
    events: Vec<SwapEvent>,
}

impl View for SwapJournal {
    type V = Seq<SwapEvent>;

    closed spec fn view(&self) -> Seq<SwapEvent> {
        self.events@
    }
}

impl SwapJournal {
    /// The journal's invariant; see [`events_wf`].
    pub open spec fn wf(&self) -> bool {
        events_wf(self@)
    }

    /// The swap this journal belongs to.
    pub closed spec fn id_spec(&self) -> SwapId {
        self.id
    }

    /// The swap this journal belongs to.
    pub fn swap_id(&self) -> (r: SwapId)
        ensures
            r == self.id_spec(),
    {
        self.id
    }

    /// Opens the empty journal of a fresh swap.
    pub fn new(id: SwapId) -> (r: SwapJournal)
        ensures
            r.wf(),
            r.id_spec() == id,
            r@ =~= Seq::<SwapEvent>::empty(),
    {
        SwapJournal { id, events: Vec::new() }
    }

    /// How many events the journal holds.
    pub fn len(&self) -> (n: usize)
        ensures
            n == self@.len(),
    {
        self.events.len()
    }

    /// The sequence number the next new event must carry.
    pub fn next_sequence_number(&self) -> (n: u64)
        ensures
            n == self@.len(),
    {
        self.events.len() as u64
    }

    /// Appends one event. Idempotent on the sequence number: a number
    /// already present is a no-op and still `Ok`, the next free number
    /// extends the log, and a number beyond that would tear a gap into
    /// the history, so the write is refused and nothing changes.
    pub fn append(&mut self, ev: SwapEvent) -> (r: Result<(), SwapError>)
        requires
            old(self).wf(),
        ensures
            final(self).wf(),
            final(self).id_spec() == old(self).id_spec(),
            ev.sequence_number < old(self)@.len() ==> r is Ok && final(self)@ == old(self)@,
            ev.sequence_number == old(self)@.len() ==> r is Ok && final(self)@ == old(
                self,
            )@.push(ev),
            ev.sequence_number > old(self)@.len() ==> r == Result::<(), SwapError>::Err(
                SwapError::PersistenceFailure,
            ) && final(self)@ == old(self)@,
    {
        let n = self.events.len() as u64;
        if ev.sequence_number < n {
            Ok(())
        } else if ev.sequence_number == n {
            self.events.push(ev);
            Ok(())
        } else {
            Err(SwapError::PersistenceFailure)
        }
    }

    /// The full ordered history: pure and side-effect-free.
    pub fn replay(&self) -> (r: &Vec<SwapEvent>)
        ensures
            r@ == self@,
    {
        &self.events
    }

    /// The swap record this journal folds to.
    pub fn project(&self) -> (r: SwapRecord)
        ensures
            r@ == projection(self@),
    {
        crate::record::project(&self.events)
    }
}

} // verus!
