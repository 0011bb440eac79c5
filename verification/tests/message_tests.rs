use swap_core::actions::{StepOutcome, SwapAction};
use swap_core::events::{EventKind, SwapEvent, TxInfo};
use swap_core::journal::SwapJournal;
use swap_core::maker::maker_observed_event;
use swap_core::messages::{event_step_of, is_step_recorded, MessageStep};
use swap_core::taker::taker_observed_event;
use swap_core::types::{Role, SwapTerms};

fn terms() -> SwapTerms {
    SwapTerms {
        base_asset: 1,
        rel_asset: 2,
        base_amount: 100,
        rel_amount: 200,
        price_num: 2,
        price_den: 1,
        maker_locktime: 8000,
        taker_locktime: 4000,
        counterparty: 9,
        negotiated_at: 10,
    }
}

fn fee() -> TxInfo {
    TxInfo {
        coin: 2,
        tx_ref: 100,
        amount: 1,
        locktime: 0,
    }
}

#[test]
fn events_settle_their_message_steps() {
    assert_eq!(
        event_step_of(EventKind::Negotiated),
        Some(MessageStep::Negotiation)
    );
    assert_eq!(
        event_step_of(EventKind::TakerFeeValidated { fee: fee() }),
        Some(MessageStep::TakerFee)
    );
    assert_eq!(
        event_step_of(EventKind::MakerPaymentValidated { payment: fee() }),
        Some(MessageStep::MakerPayment)
    );
    assert_eq!(
        event_step_of(EventKind::TakerPaymentConfirmed { payment: fee() }),
        Some(MessageStep::TakerPayment)
    );
    assert_eq!(event_step_of(EventKind::Completed), None);
}

#[test]
fn recorded_steps_are_found_in_the_journal() {
    let mut j = SwapJournal::new(1);
    assert!(j
        .append(SwapEvent {
            sequence_number: 0,
            timestamp: 10,
            kind: EventKind::Started {
                role: Role::Maker,
                terms: terms(),
            },
        })
        .is_ok());
    assert!(!is_step_recorded(&j, MessageStep::Negotiation));
    assert!(j
        .append(SwapEvent {
            sequence_number: 1,
            timestamp: 11,
            kind: EventKind::Negotiated,
        })
        .is_ok());
    assert!(is_step_recorded(&j, MessageStep::Negotiation));
    assert!(!is_step_recorded(&j, MessageStep::TakerFee));
}

#[test]
fn observe_maps_outcomes_to_events() {
    let mut j = SwapJournal::new(1);
    assert!(j
        .append(SwapEvent {
            sequence_number: 0,
            timestamp: 10,
            kind: EventKind::Started {
                role: Role::Maker,
                terms: terms(),
            },
        })
        .is_ok());
    let rec = j.project();
    assert_eq!(
        maker_observed_event(&rec, SwapAction::RequestNegotiation, StepOutcome::Agreed),
        Some(EventKind::Negotiated)
    );
    assert_eq!(
        maker_observed_event(&rec, SwapAction::RequestNegotiation, StepOutcome::Rejected),
        Some(EventKind::NegotiationFailed)
    );
    // a retryable failure journals nothing
    assert_eq!(
        maker_observed_event(&rec, SwapAction::ValidateTakerFee, StepOutcome::Transient),
        None
    );
    // mismatched action and outcome journal nothing
    assert_eq!(
        maker_observed_event(&rec, SwapAction::SendMakerPayment, StepOutcome::Agreed),
        None
    );
    assert_eq!(
        taker_observed_event(&rec, SwapAction::SendTakerFee, StepOutcome::Broadcast { payment: fee() }),
        Some(EventKind::TakerFeeSent { fee: fee() })
    );
    assert_eq!(
        taker_observed_event(&rec, SwapAction::Idle, StepOutcome::Agreed),
        None
    );
}
