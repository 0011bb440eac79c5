//! Deduplication of messenger deliveries. The messenger is
//! at-least-once: the same protocol message can arrive twice, keyed by
//! swap identifier and step tag, and the driver must process it once.
//! A step counts as processed exactly when the journal already holds
//! the event that settles it.

use vstd::prelude::*;

use crate::events::{EventKind, SwapEvent};
use crate::journal::SwapJournal;
use crate::record::{projection, SwapState};

verus! {

/// The step tags protocol messages are keyed by.
#[derive(Clone, Copy, Debug, PartialEq, Eq, Structural)]
pub enum MessageStep {
    /// The terms exchange at the start of a swap.
    Negotiation,
    /// Notification of the taker's fee payment.
    TakerFee,
    /// Notification of the maker's payment.
    MakerPayment,
    /// Notification of the taker's payment.
    TakerPayment,
}

/// Which step a journaled event settles, if any: once such an event is
/// in the journal, later deliveries of the same step are duplicates.
pub open spec fn event_step(kind: EventKind) -> Option<MessageStep> {
    match kind {
        EventKind::Negotiated => Some(MessageStep::Negotiation),
        EventKind::TakerFeeValidated { .. } => Some(MessageStep::TakerFee),
        EventKind::MakerPaymentValidated { .. } => Some(MessageStep::MakerPayment),
        EventKind::TakerPaymentConfirmed { .. } => Some(MessageStep::TakerPayment),
        _ => None,
    }
}

/// Whether the journal already holds an event settling `step`.
pub open spec fn step_recorded(events: Seq<SwapEvent>, step: MessageStep) -> bool {
    exists|i: int| 0 <= i < events.len() && event_step((#[trigger] events[i]).kind) == Some(step)
}

/// Executable form of [`event_step`].
pub fn event_step_of(kind: EventKind) -> (r: Option<MessageStep>)
    ensures
        r == event_step(kind),
{
    match kind {
        EventKind::Negotiated => Some(MessageStep::Negotiation),
        EventKind::TakerFeeValidated { .. } => Some(MessageStep::TakerFee),
        EventKind::MakerPaymentValidated { .. } => Some(MessageStep::MakerPayment),
        EventKind::TakerPaymentConfirmed { .. } => Some(MessageStep::TakerPayment),
        _ => None,
    }
}

/// Executable form of [`step_recorded`].
pub fn is_step_recorded(journal: &SwapJournal, step: MessageStep) -> (r: bool)
    ensures
        r == step_recorded(journal@, step),
{
    let events = journal.replay();
    let mut i: usize = 0;
    while i < events.len()
        invariant
            i <= events@.len(),
            events@ == journal@,
            forall|j: int| 0 <= j < i ==> event_step((#[trigger] events@[j]).kind) != Some(step),
        decreases events@.len() - i,
    {
        match event_step_of(events[i].kind) {
            Some(s) => {
                if s == step {
                    return true;
                }
            },
            None => {},
        }
        i = i + 1;
    }
    false
}

/// Handles one delivery of the counterparty's negotiation-confirmed
/// message. It is processed — one `Negotiated` event appended — exactly
/// when the swap still stands at `Started` and no event has settled the
/// negotiation step yet; a duplicate delivery changes nothing and is
/// reported unprocessed.
pub fn on_negotiation_message(journal: &mut SwapJournal, now: u64) -> (processed: bool)
    requires
        old(journal).wf(),
    ensures
        final(journal).wf(),
        final(journal).id_spec() == old(journal).id_spec(),
        processed == (projection(old(journal)@).state == SwapState::Started && !step_recorded(
            old(journal)@,
            MessageStep::Negotiation,
        )),
        processed ==> final(journal)@ == old(journal)@.push(
            (SwapEvent {
                sequence_number: old(journal)@.len() as u64,
                timestamp: now,
                kind: EventKind::Negotiated,
            }),
        ),
        !processed ==> final(journal)@ == old(journal)@,
{
    let rec = journal.project();
    if rec.state == SwapState::Started && !is_step_recorded(journal, MessageStep::Negotiation) {
        let seq = journal.next_sequence_number();
        let _r = journal.append(
            SwapEvent { sequence_number: seq, timestamp: now, kind: EventKind::Negotiated },
        );
        true
    } else {
        false
    }
}

/// Deduplication works: after a delivery was processed, the same
/// step is recorded, so every further delivery of it is ignored.
pub proof fn lemma_duplicate_delivery_ignored(events: Seq<SwapEvent>, ev: SwapEvent)
    requires
        event_step(ev.kind) == Some(MessageStep::Negotiation),
    ensures
        step_recorded(events.push(ev), MessageStep::Negotiation),
{
    assert(events.push(ev)[events.len() as int] == ev);
}

} // verus!
