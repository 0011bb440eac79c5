//! The maker-side protocol driver: a pure state machine over the
//! journal's projection. [`maker_decide`] picks the next outside
//! action from the projected record and the current chain-relative
//! time; [`maker_observe`] turns the action's outcome into the event
//! to journal, or into nothing when the outcome only warrants a retry.

use vstd::prelude::*;

use crate::actions::{StepOutcome, SwapAction};
use crate::events::{EventKind, SwapEvent};
use crate::journal::SwapJournal;
use crate::record::{projection, terminal, SwapRecord, SwapRecordModel, SwapState};
use crate::types::Role;

verus! {

/// The maker driver's decision function. Reads only the projected
/// record: before the commitment point an expired schedule aborts; from
/// `MakerPaymentSent` on, the refund branch is forced as soon as the
/// maker's own locktime has elapsed. Cancellation is honoured only
/// between steps and only while the swap is not terminal.
pub open spec fn maker_decide(rec: SwapRecordModel, now: u64, cancel: bool) -> SwapAction {
    if rec.role != Role::Maker {
        SwapAction::Idle
    } else if terminal(rec.state) {
        SwapAction::Idle
    } else if cancel {
        SwapAction::Suspend
    } else {
        match rec.state {
            SwapState::Started => {
                if now >= rec.terms.taker_locktime {
                    SwapAction::Abort
                } else {
                    SwapAction::RequestNegotiation
                }
            },
            SwapState::Negotiated => {
                if now >= rec.terms.taker_locktime {
                    SwapAction::Abort
                } else {
                    SwapAction::ValidateTakerFee
                }
            },
            SwapState::TakerFeeValidated => {
                if now >= rec.terms.taker_locktime {
                    SwapAction::Abort
                } else {
                    SwapAction::SendMakerPayment
                }
            },
            SwapState::MakerPaymentSent => {
                if now >= rec.terms.maker_locktime {
                    SwapAction::RefundMakerPayment
                } else if now >= rec.terms.taker_locktime {
                    SwapAction::AwaitRefundWindow { at: rec.terms.maker_locktime }
                } else {
                    SwapAction::AwaitTakerPayment { deadline: rec.terms.taker_locktime }
                }
            },
            SwapState::TakerPaymentConfirmed => {
                if now >= rec.terms.maker_locktime {
                    SwapAction::RefundMakerPayment
                } else {
                    SwapAction::SpendTakerPayment
                }
            },
            SwapState::TakerPaymentSpent => SwapAction::Finalize,
            _ => SwapAction::Idle,
        }
    }
}

/// Executable form of [`maker_decide`].
pub fn maker_next_action(rec: &SwapRecord, now: u64, cancel: bool) -> (a: SwapAction)
    ensures
        a == maker_decide(rec@, now, cancel),
{
    if !(rec.role == Role::Maker) {
        return SwapAction::Idle;
    }
    if crate::record::is_terminal(rec.state) {
        return SwapAction::Idle;
    }
    if cancel {
        return SwapAction::Suspend;
    }
    match rec.state {
        SwapState::Started => {
            if now >= rec.terms.taker_locktime {
                SwapAction::Abort
            } else {
                SwapAction::RequestNegotiation
            }
        },
        SwapState::Negotiated => {
            if now >= rec.terms.taker_locktime {
                SwapAction::Abort
            } else {
                SwapAction::ValidateTakerFee
            }
        },
        SwapState::TakerFeeValidated => {
            if now >= rec.terms.taker_locktime {
                SwapAction::Abort
            } else {
                SwapAction::SendMakerPayment
            }
        },
        SwapState::MakerPaymentSent => {
            if now >= rec.terms.maker_locktime {
                SwapAction::RefundMakerPayment
            } else if now >= rec.terms.taker_locktime {
                SwapAction::AwaitRefundWindow { at: rec.terms.maker_locktime }
            } else {
                SwapAction::AwaitTakerPayment { deadline: rec.terms.taker_locktime }
            }
        },
        SwapState::TakerPaymentConfirmed => {
            if now >= rec.terms.maker_locktime {
                SwapAction::RefundMakerPayment
            } else {
                SwapAction::SpendTakerPayment
            }
        },
        SwapState::TakerPaymentSpent => SwapAction::Finalize,
        _ => SwapAction::Idle,
    }
}

/// Which event the maker journals for an action's outcome. `None`
/// means nothing is journaled and the step is retried or re-decided:
/// transient errors, timeouts the decision function re-routes, and
/// refund attempts that have not succeeded yet. Terms rejected or a
/// bad fee abort pre-commitment; a fatal error sending the payment
/// aborts with nothing broadcast; once committed, only refund events
/// leave the forward path.
pub open spec fn maker_observe(
    rec: SwapRecordModel,
    action: SwapAction,
    outcome: StepOutcome,
) -> Option<EventKind> {
    match (action, outcome) {
        (SwapAction::RequestNegotiation, StepOutcome::Agreed) => Some(EventKind::Negotiated),
        (SwapAction::RequestNegotiation, StepOutcome::Rejected) => Some(
            EventKind::NegotiationFailed,
        ),
        (SwapAction::RequestNegotiation, StepOutcome::TimedOut) => Some(
            EventKind::NegotiationFailed,
        ),
        (SwapAction::ValidateTakerFee, StepOutcome::PaymentSeen { payment }) => Some(
            EventKind::TakerFeeValidated { fee: payment },
        ),
        (SwapAction::ValidateTakerFee, StepOutcome::Fatal) => Some(EventKind::NegotiationFailed),
        (SwapAction::SendMakerPayment, StepOutcome::Broadcast { payment }) => Some(
            EventKind::MakerPaymentSent { payment },
        ),
        (SwapAction::SendMakerPayment, StepOutcome::Fatal) => Some(EventKind::Failed),
        (SwapAction::AwaitTakerPayment { .. }, StepOutcome::PaymentSeen { payment }) => Some(
            EventKind::TakerPaymentConfirmed { payment },
        ),
        (SwapAction::SpendTakerPayment, StepOutcome::Spent { tx_ref, spend_tx }) => Some(
            EventKind::TakerPaymentSpent { tx_ref, spend_tx },
        ),
        (SwapAction::RefundMakerPayment, StepOutcome::Refunded { tx_ref, refund_tx }) => Some(
            EventKind::MakerPaymentRefunded { tx_ref, refund_tx },
        ),
        (SwapAction::Finalize, _) => Some(EventKind::Completed),
        (SwapAction::Abort, _) => {
            if rec.state == SwapState::TakerFeeValidated {
                Some(EventKind::Failed)
            } else {
                Some(EventKind::NegotiationFailed)
            }
        },
        _ => None,
    }
}

/// Executable form of [`maker_observe`].
pub fn maker_observed_event(
    rec: &SwapRecord,
    action: SwapAction,
    outcome: StepOutcome,
) -> (r: Option<EventKind>)
    ensures
        r == maker_observe(rec@, action, outcome),
{
    match (action, outcome) {
        (SwapAction::RequestNegotiation, StepOutcome::Agreed) => Some(EventKind::Negotiated),
        (SwapAction::RequestNegotiation, StepOutcome::Rejected) => Some(
            EventKind::NegotiationFailed,
        ),
        (SwapAction::RequestNegotiation, StepOutcome::TimedOut) => Some(
            EventKind::NegotiationFailed,
        ),
        (SwapAction::ValidateTakerFee, StepOutcome::PaymentSeen { payment }) => Some(
            EventKind::TakerFeeValidated { fee: payment },
        ),
        (SwapAction::ValidateTakerFee, StepOutcome::Fatal) => Some(EventKind::NegotiationFailed),
        (SwapAction::SendMakerPayment, StepOutcome::Broadcast { payment }) => Some(
            EventKind::MakerPaymentSent { payment },
        ),
        (SwapAction::SendMakerPayment, StepOutcome::Fatal) => Some(EventKind::Failed),
        (SwapAction::AwaitTakerPayment { .. }, StepOutcome::PaymentSeen { payment }) => Some(
            EventKind::TakerPaymentConfirmed { payment },
        ),
        (SwapAction::SpendTakerPayment, StepOutcome::Spent { tx_ref, spend_tx }) => Some(
            EventKind::TakerPaymentSpent { tx_ref, spend_tx },
        ),
        (SwapAction::RefundMakerPayment, StepOutcome::Refunded { tx_ref, refund_tx }) => Some(
            EventKind::MakerPaymentRefunded { tx_ref, refund_tx },
        ),
        (SwapAction::Finalize, _) => Some(EventKind::Completed),
        (SwapAction::Abort, _) => {
            if rec.state == SwapState::TakerFeeValidated {
                Some(EventKind::Failed)
            } else {
                Some(EventKind::NegotiationFailed)
            }
        },
        _ => None,
    }
}

/// The full journal entry for an outcome: [`maker_observe`]'s event
/// kind under the next sequence number, stamped `now`.
pub open spec fn maker_event_for(
    events: Seq<SwapEvent>,
    action: SwapAction,
    outcome: StepOutcome,
    now: u64,
) -> Option<SwapEvent> {
    match maker_observe(projection(events), action, outcome) {
        Some(kind) => Some(
            SwapEvent { sequence_number: events.len() as u64, timestamp: now, kind },
        ),
        None => None,
    }
}

/// Journals the outcome of one maker step: appends exactly the event
/// [`maker_event_for`] prescribes, or nothing. Returns whether an
/// event was appended. The append is the driver's commit: only after
/// it returns may the caller treat the action as done.
pub fn maker_record_outcome(
    journal: &mut SwapJournal,
    action: SwapAction,
    outcome: StepOutcome,
    now: u64,
) -> (appended: bool)
    requires
        old(journal).wf(),
    ensures
        final(journal).wf(),
        final(journal).id_spec() == old(journal).id_spec(),
        maker_event_for(old(journal)@, action, outcome, now) is None ==> !appended
            && final(journal)@ == old(journal)@,
        maker_event_for(old(journal)@, action, outcome, now) matches Some(ev) ==> appended
            && final(journal)@ == old(journal)@.push(ev),
{
    let rec = journal.project();
    match maker_observed_event(&rec, action, outcome) {
        Some(kind) => {
            let seq = journal.next_sequence_number();
            let _r = journal.append(SwapEvent { sequence_number: seq, timestamp: now, kind });
            true
        },
        None => false,
    }
}

/// A maker driver never broadcasts its payment twice: once the journal
/// holds `MakerPaymentSent`, the decision in that state is to await,
/// wait for the refund window, or refund — whatever the time and
/// whether or not cancellation is pending, never `SendMakerPayment`.
/// This is what makes crash recovery after the commitment point safe.
pub proof fn lemma_no_duplicate_maker_payment(rec: SwapRecordModel, now: u64, cancel: bool)
    requires
        rec.state != SwapState::TakerFeeValidated,
    ensures
        maker_decide(rec, now, cancel) != SwapAction::SendMakerPayment,
{
}

/// Once the maker's own locktime has elapsed on a committed swap, the
/// decision is the refund branch, never a forward action.
pub proof fn lemma_maker_refund_forced(rec: SwapRecordModel, now: u64)
    requires
        rec.role == Role::Maker,
        rec.state == SwapState::MakerPaymentSent || rec.state == SwapState::TakerPaymentConfirmed,
        now >= rec.terms.maker_locktime,
    ensures
        maker_decide(rec, now, false) == SwapAction::RefundMakerPayment,
{
}

} // verus!
