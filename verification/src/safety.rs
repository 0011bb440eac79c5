//! The fund-safety arguments of the protocol, as theorems over the
//! journal fold: once a side has committed funds, every continuation
//! of its journal keeps the swap on that side's settlement path, and
//! the only terminal states it can ever reach are completion or that
//! side's own refund. A committed swap can never slide into a silent
//! failure state.

use vstd::prelude::*;

use crate::events::SwapEvent;
use crate::record::{apply_event, projection, terminal, SwapRecordModel, SwapState};

verus! {

/// The maker-side states at or after the commitment point: the maker
/// payment is broadcast, and refund-path logic is mandatory from here
/// on.
pub open spec fn maker_committed(s: SwapState) -> bool {
    match s {
        SwapState::MakerPaymentSent => true,
        SwapState::TakerPaymentConfirmed => true,
        SwapState::TakerPaymentSpent => true,
        SwapState::Completed => true,
        SwapState::MakerPaymentRefunded => true,
        _ => false,
    }
}

/// The taker-side states at or after the taker's commitment point.
pub open spec fn taker_committed(s: SwapState) -> bool {
    match s {
        SwapState::TakerPaymentSent => true,
        SwapState::MakerPaymentSpent => true,
        SwapState::Completed => true,
        SwapState::TakerPaymentRefunded => true,
        _ => false,
    }
}

/// No single event leaves the maker's settlement path: from any
/// committed state, whatever is appended — legal, duplicate or stray —
/// the folded state is still committed.
pub proof fn lemma_maker_commitment_closed(rec: SwapRecordModel, ev: SwapEvent)
    requires
        maker_committed(rec.state),
    ensures
        maker_committed(apply_event(rec, ev).state),
{
}

/// No single event leaves the taker's settlement path.
pub proof fn lemma_taker_commitment_closed(rec: SwapRecordModel, ev: SwapEvent)
    requires
        taker_committed(rec.state),
    ensures
        taker_committed(apply_event(rec, ev).state),
{
}

/// The committed states that are terminal are exactly completion and
/// the committing side's own refund: a committed swap is never
/// journaled as `Failed` or `NegotiationFailed`.
pub proof fn lemma_committed_terminal_states(s: SwapState)
    ensures
        maker_committed(s) && terminal(s) ==> s == SwapState::Completed || s
            == SwapState::MakerPaymentRefunded,
        taker_committed(s) && terminal(s) ==> s == SwapState::Completed || s
            == SwapState::TakerPaymentRefunded,
{
}

/// Whatever happens after the maker commits, the swap stays on the
/// maker's settlement path: every extension of a journal whose
/// projection is committed projects to a committed state, and if that
/// state is terminal it is `Completed` or `MakerPaymentRefunded`.
/// Crashes lose no ground either: recovery replays the same journal.
pub proof fn lemma_maker_funds_settle(history: Seq<SwapEvent>, extension: Seq<SwapEvent>)
    requires
        maker_committed(projection(history).state),
        extension.len() >= history.len(),
        history =~= extension.subrange(0, history.len() as int),
    ensures
        maker_committed(projection(extension).state),
        terminal(projection(extension).state) ==> projection(extension).state
            == SwapState::Completed || projection(extension).state
            == SwapState::MakerPaymentRefunded,
    decreases extension.len(),
{
    if extension.len() == history.len() {
        assert(extension =~= history);
    } else {
        let shorter = extension.drop_last();
        assert(history =~= shorter.subrange(0, history.len() as int));
        lemma_maker_funds_settle(history, shorter);
        lemma_maker_commitment_closed(projection(shorter), extension.last());
    }
    lemma_committed_terminal_states(projection(extension).state);
}

/// The taker-side mirror of [`lemma_maker_funds_settle`].
pub proof fn lemma_taker_funds_settle(history: Seq<SwapEvent>, extension: Seq<SwapEvent>)
    requires
        taker_committed(projection(history).state),
        extension.len() >= history.len(),
        history =~= extension.subrange(0, history.len() as int),
    ensures
        taker_committed(projection(extension).state),
        terminal(projection(extension).state) ==> projection(extension).state
            == SwapState::Completed || projection(extension).state
            == SwapState::TakerPaymentRefunded,
    decreases extension.len(),
{
    if extension.len() == history.len() {
        assert(extension =~= history);
    } else {
        let shorter = extension.drop_last();
        assert(history =~= shorter.subrange(0, history.len() as int));
        lemma_taker_funds_settle(history, shorter);
        lemma_taker_commitment_closed(projection(shorter), extension.last());
    }
    lemma_committed_terminal_states(projection(extension).state);
}

} // verus!
