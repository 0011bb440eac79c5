//! The taker-side protocol driver, mirror of [`crate::maker`] with the
//! locktime asymmetry: the taker commits its fee and payment only
//! after validating the maker's payment, and because its locktime is
//! strictly shorter it always has time to refund before the maker can,
//! should the maker never spend. That asymmetry is the core safety
//! argument of the protocol.

use vstd::prelude::*;

use crate::actions::{StepOutcome, SwapAction};
use crate::events::{EventKind, SwapEvent};
use crate::journal::SwapJournal;
use crate::record::{projection, terminal, SwapRecord, SwapRecordModel, SwapState};
use crate::types::{terms_ok, Role};

verus! {

/// The taker driver's decision function. Before `TakerPaymentSent`
/// an expired schedule aborts with nothing at risk; from
/// `TakerPaymentSent` on, the refund branch is forced as soon as the
/// taker's own locktime has elapsed.
pub open spec fn taker_decide(rec: SwapRecordModel, now: u64, cancel: bool) -> SwapAction {
    if rec.role != Role::Taker {
        SwapAction::Idle
    } else if terminal(rec.state) {
        SwapAction::Idle
    } else if cancel {
        SwapAction::Suspend
    } else {
        match rec.state {
            SwapState::Started => {
                if now >= rec.terms.taker_locktime {
                    SwapAction::Abort
                } else {
                    SwapAction::RequestNegotiation
                }
            },
            SwapState::Negotiated => {
                if now >= rec.terms.taker_locktime {
                    SwapAction::Abort
                } else {
                    SwapAction::ValidateMakerPayment
                }
            },
            SwapState::MakerPaymentValidated => {
                if now >= rec.terms.taker_locktime {
                    SwapAction::Abort
                } else {
                    SwapAction::SendTakerFee
                }
            },
            SwapState::TakerFeeSent => {
                if now >= rec.terms.taker_locktime {
                    SwapAction::Abort
                } else {
                    SwapAction::SendTakerPayment
                }
            },
            SwapState::TakerPaymentSent => {
                if now >= rec.terms.taker_locktime {
                    SwapAction::RefundTakerPayment
                } else {
                    SwapAction::ClaimMakerPayment { deadline: rec.terms.taker_locktime }
                }
            },
            SwapState::MakerPaymentSpent => SwapAction::Finalize,
            _ => SwapAction::Idle,
        }
    }
}

/// Executable form of [`taker_decide`].
pub fn taker_next_action(rec: &SwapRecord, now: u64, cancel: bool) -> (a: SwapAction)
    ensures
        a == taker_decide(rec@, now, cancel),
{
    if !(rec.role == Role::Taker) {
        return SwapAction::Idle;
    }
    if crate::record::is_terminal(rec.state) {
        return SwapAction::Idle;
    }
    if cancel {
        return SwapAction::Suspend;
    }
    match rec.state {
        SwapState::Started => {
            if now >= rec.terms.taker_locktime {
                SwapAction::Abort
            } else {
                SwapAction::RequestNegotiation
            }
        },
        SwapState::Negotiated => {
            if now >= rec.terms.taker_locktime {
                SwapAction::Abort
            } else {
                SwapAction::ValidateMakerPayment
            }
        },
        SwapState::MakerPaymentValidated => {
            if now >= rec.terms.taker_locktime {
                SwapAction::Abort
            } else {
                SwapAction::SendTakerFee
            }
        },
        SwapState::TakerFeeSent => {
            if now >= rec.terms.taker_locktime {
                SwapAction::Abort
            } else {
                SwapAction::SendTakerPayment
            }
        },
        SwapState::TakerPaymentSent => {
            if now >= rec.terms.taker_locktime {
                SwapAction::RefundTakerPayment
            } else {
                SwapAction::ClaimMakerPayment { deadline: rec.terms.taker_locktime }
            }
        },
        SwapState::MakerPaymentSpent => SwapAction::Finalize,
        _ => SwapAction::Idle,
    }
}

/// Which event the taker journals for an action's outcome; `None`
/// means retry or re-decide. A rejected negotiation or a bad maker
/// payment aborts pre-commitment; a fatal error broadcasting the fee
/// aborts with nothing spent; after the fee is out, a fatal error on
/// the payment broadcast is a terminal failure; once the payment is
/// out, only the spend or the refund concludes the swap.
pub open spec fn taker_observe(
    rec: SwapRecordModel,
    action: SwapAction,
    outcome: StepOutcome,
) -> Option<EventKind> {
    match (action, outcome) {
        (SwapAction::RequestNegotiation, StepOutcome::Agreed) => Some(EventKind::Negotiated),
        (SwapAction::RequestNegotiation, StepOutcome::Rejected) => Some(
            EventKind::NegotiationFailed,
        ),
        (SwapAction::RequestNegotiation, StepOutcome::TimedOut) => Some(
            EventKind::NegotiationFailed,
        ),
        (SwapAction::ValidateMakerPayment, StepOutcome::PaymentSeen { payment }) => Some(
            EventKind::MakerPaymentValidated { payment },
        ),
        (SwapAction::ValidateMakerPayment, StepOutcome::Fatal) => Some(
            EventKind::NegotiationFailed,
        ),
        (SwapAction::SendTakerFee, StepOutcome::Broadcast { payment }) => Some(
            EventKind::TakerFeeSent { fee: payment },
        ),
        (SwapAction::SendTakerFee, StepOutcome::Fatal) => Some(EventKind::NegotiationFailed),
        (SwapAction::SendTakerPayment, StepOutcome::Broadcast { payment }) => Some(
            EventKind::TakerPaymentSent { payment },
        ),
        (SwapAction::SendTakerPayment, StepOutcome::Fatal) => Some(EventKind::Failed),
        (SwapAction::ClaimMakerPayment { .. }, StepOutcome::Spent { tx_ref, spend_tx }) => Some(
            EventKind::MakerPaymentSpent { tx_ref, spend_tx },
        ),
        (SwapAction::RefundTakerPayment, StepOutcome::Refunded { tx_ref, refund_tx }) => Some(
            EventKind::TakerPaymentRefunded { tx_ref, refund_tx },
        ),
        (SwapAction::Finalize, _) => Some(EventKind::Completed),
        (SwapAction::Abort, _) => {
            if rec.state == SwapState::TakerFeeSent {
                Some(EventKind::Failed)
            } else {
                Some(EventKind::NegotiationFailed)
            }
        },
        _ => None,
    }
}

/// Executable form of [`taker_observe`].
pub fn taker_observed_event(
    rec: &SwapRecord,
    action: SwapAction,
    outcome: StepOutcome,
) -> (r: Option<EventKind>)
    ensures
        r == taker_observe(rec@, action, outcome),
{
    match (action, outcome) {
        (SwapAction::RequestNegotiation, StepOutcome::Agreed) => Some(EventKind::Negotiated),
        (SwapAction::RequestNegotiation, StepOutcome::Rejected) => Some(
            EventKind::NegotiationFailed,
        ),
        (SwapAction::RequestNegotiation, StepOutcome::TimedOut) => Some(
            EventKind::NegotiationFailed,
        ),
        (SwapAction::ValidateMakerPayment, StepOutcome::PaymentSeen { payment }) => Some(
            EventKind::MakerPaymentValidated { payment },
        ),
        (SwapAction::ValidateMakerPayment, StepOutcome::Fatal) => Some(
            EventKind::NegotiationFailed,
        ),
        (SwapAction::SendTakerFee, StepOutcome::Broadcast { payment }) => Some(
            EventKind::TakerFeeSent { fee: payment },
        ),
        (SwapAction::SendTakerFee, StepOutcome::Fatal) => Some(EventKind::NegotiationFailed),
        (SwapAction::SendTakerPayment, StepOutcome::Broadcast { payment }) => Some(
            EventKind::TakerPaymentSent { payment },
        ),
        (SwapAction::SendTakerPayment, StepOutcome::Fatal) => Some(EventKind::Failed),
        (SwapAction::ClaimMakerPayment { .. }, StepOutcome::Spent { tx_ref, spend_tx }) => Some(
            EventKind::MakerPaymentSpent { tx_ref, spend_tx },
        ),
        (SwapAction::RefundTakerPayment, StepOutcome::Refunded { tx_ref, refund_tx }) => Some(
            EventKind::TakerPaymentRefunded { tx_ref, refund_tx },
        ),
        (SwapAction::Finalize, _) => Some(EventKind::Completed),
        (SwapAction::Abort, _) => {
            if rec.state == SwapState::TakerFeeSent {
                Some(EventKind::Failed)
            } else {
                Some(EventKind::NegotiationFailed)
            }
        },
        _ => None,
    }
}

/// The full journal entry for an outcome: [`taker_observe`]'s event
/// kind under the next sequence number, stamped `now`.
pub open spec fn taker_event_for(
    events: Seq<SwapEvent>,
    action: SwapAction,
    outcome: StepOutcome,
    now: u64,
) -> Option<SwapEvent> {
    match taker_observe(projection(events), action, outcome) {
        Some(kind) => Some(
            SwapEvent { sequence_number: events.len() as u64, timestamp: now, kind },
        ),
        None => None,
    }
}

/// Journals the outcome of one taker step: appends exactly the event
/// [`taker_event_for`] prescribes, or nothing. Returns whether an
/// event was appended.
pub fn taker_record_outcome(
    journal: &mut SwapJournal,
    action: SwapAction,
    outcome: StepOutcome,
    now: u64,
) -> (appended: bool)
    requires
        old(journal).wf(),
    ensures
        final(journal).wf(),
        final(journal).id_spec() == old(journal).id_spec(),
        taker_event_for(old(journal)@, action, outcome, now) is None ==> !appended
            && final(journal)@ == old(journal)@,
        taker_event_for(old(journal)@, action, outcome, now) matches Some(ev) ==> appended
            && final(journal)@ == old(journal)@.push(ev),
{
    let rec = journal.project();
    match taker_observed_event(&rec, action, outcome) {
        Some(kind) => {
            let seq = journal.next_sequence_number();
            let _r = journal.append(SwapEvent { sequence_number: seq, timestamp: now, kind });
            true
        },
        None => false,
    }
}

/// A taker driver never broadcasts its payment twice: the payment is
/// sent only out of `TakerFeeSent`, so a journal already holding
/// `TakerPaymentSent` can never trigger a second send.
pub proof fn lemma_no_duplicate_taker_payment(rec: SwapRecordModel, now: u64, cancel: bool)
    requires
        rec.state != SwapState::TakerFeeSent,
    ensures
        taker_decide(rec, now, cancel) != SwapAction::SendTakerPayment,
{
}

/// Once the taker's own locktime has elapsed on a committed swap, the
/// decision is the refund branch, never a forward action.
pub proof fn lemma_taker_refund_forced(rec: SwapRecordModel, now: u64)
    requires
        rec.role == Role::Taker,
        rec.state == SwapState::TakerPaymentSent,
        now >= rec.terms.taker_locktime,
    ensures
        taker_decide(rec, now, false) == SwapAction::RefundTakerPayment,
{
}

/// The refund windows cannot collide: under valid terms with a
/// positive margin, the time at which the taker driver is forced to
/// refund lies strictly before the time at which the maker's payment
/// first becomes refundable.
pub proof fn lemma_refund_windows_ordered(rec: SwapRecordModel, margin: u64)
    requires
        terms_ok(rec.terms, margin),
        margin > 0,
    ensures
        rec.terms.taker_locktime < rec.terms.maker_locktime,
{
}

} // verus!
