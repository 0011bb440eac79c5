use swap_core::error::SwapError;
use swap_core::events::{EventKind, SwapEvent, TxInfo};
use swap_core::journal::SwapJournal;
use swap_core::record::SwapState;
use swap_core::types::{Role, SwapTerms};

fn terms() -> SwapTerms {
    SwapTerms {
        base_asset: 1,
        rel_asset: 2,
        base_amount: 100,
        rel_amount: 200,
        price_num: 2,
        price_den: 1,
        maker_locktime: 8000,
        taker_locktime: 4000,
        counterparty: 9,
        negotiated_at: 10,
    }
}

fn started(role: Role) -> SwapEvent {
    SwapEvent {
        sequence_number: 0,
        timestamp: 10,
        kind: EventKind::Started {
            role,
            terms: terms(),
        },
    }
}

#[test]
fn projection_of_empty_journal_is_created() {
    let j = SwapJournal::new(1);
    let rec = j.project();
    assert_eq!(rec.state, SwapState::Created);
    assert!(rec.payments.is_empty());
}

#[test]
fn replay_twice_projects_identically() {
    let mut j = SwapJournal::new(1);
    assert!(j.append(started(Role::Maker)).is_ok());
    assert!(j
        .append(SwapEvent {
            sequence_number: 1,
            timestamp: 11,
            kind: EventKind::Negotiated,
        })
        .is_ok());
    let first = j.project();
    let second = j.project();
    assert_eq!(first.state, second.state);
    assert_eq!(first.role, second.role);
    assert_eq!(first.terms, second.terms);
    assert_eq!(first.payments, second.payments);
    // the same history in a fresh journal folds to the same record
    let mut k = SwapJournal::new(2);
    for ev in j.replay() {
        assert!(k.append(*ev).is_ok());
    }
    let third = k.project();
    assert_eq!(first.state, third.state);
    assert_eq!(first.terms, third.terms);
    assert_eq!(first.payments, third.payments);
}

#[test]
fn duplicate_append_leaves_journal_unchanged() {
    let mut j = SwapJournal::new(1);
    assert!(j.append(started(Role::Maker)).is_ok());
    let negotiated = SwapEvent {
        sequence_number: 1,
        timestamp: 11,
        kind: EventKind::Negotiated,
    };
    assert!(j.append(negotiated).is_ok());
    assert_eq!(j.len(), 2);
    // same sequence number again: Ok, but a no-op
    let r = j.append(SwapEvent {
        sequence_number: 1,
        timestamp: 99,
        kind: EventKind::NegotiationFailed,
    });
    assert!(r.is_ok());
    assert_eq!(j.len(), 2);
    assert_eq!(j.replay()[1], negotiated);
    assert_eq!(j.project().state, SwapState::Negotiated);
}

#[test]
fn gap_append_is_refused() {
    let mut j = SwapJournal::new(1);
    assert!(j.append(started(Role::Maker)).is_ok());
    let r = j.append(SwapEvent {
        sequence_number: 5,
        timestamp: 11,
        kind: EventKind::Negotiated,
    });
    assert_eq!(r, Err(SwapError::PersistenceFailure));
    assert_eq!(j.len(), 1);
}

#[test]
fn illegal_event_is_ignored_by_fold() {
    let mut j = SwapJournal::new(1);
    assert!(j.append(started(Role::Maker)).is_ok());
    // a taker event in a maker journal advances nothing
    let r = j.append(SwapEvent {
        sequence_number: 1,
        timestamp: 11,
        kind: EventKind::TakerFeeSent {
            fee: TxInfo {
                coin: 2,
                tx_ref: 7,
                amount: 1,
                locktime: 0,
            },
        },
    });
    assert!(r.is_ok());
    let rec = j.project();
    assert_eq!(rec.state, SwapState::Started);
    assert!(rec.payments.is_empty());
}

#[test]
fn terms_are_fixed_by_the_initial_event() {
    let mut j = SwapJournal::new(1);
    assert!(j.append(started(Role::Maker)).is_ok());
    assert!(j
        .append(SwapEvent {
            sequence_number: 1,
            timestamp: 11,
            kind: EventKind::Negotiated,
        })
        .is_ok());
    // a second Started event with other terms is ignored
    let mut other = terms();
    other.maker_locktime = 1;
    other.taker_locktime = 1;
    assert!(j
        .append(SwapEvent {
            sequence_number: 2,
            timestamp: 12,
            kind: EventKind::Started {
                role: Role::Taker,
                terms: other,
            },
        })
        .is_ok());
    let rec = j.project();
    assert_eq!(rec.terms, terms());
    assert_eq!(rec.role, Role::Maker);
    // the safety margin still holds of the projection
    assert!(rec.terms.taker_locktime + 1000 <= rec.terms.maker_locktime);
}

#[test]
fn validate_terms_accepts_safe_locktimes() {
    assert_eq!(swap_core::types::validate_terms(&terms(), 1000), Ok(()));
    assert_eq!(swap_core::types::validate_terms(&terms(), 4000), Ok(()));
}

#[test]
fn validate_terms_rejects_margin_violation() {
    assert_eq!(
        swap_core::types::validate_terms(&terms(), 4001),
        Err(SwapError::NegotiationRejected)
    );
    let mut t = terms();
    t.taker_locktime = 8000;
    assert_eq!(
        swap_core::types::validate_terms(&t, 0),
        Ok(())
    );
    t.taker_locktime = 8001;
    assert_eq!(
        swap_core::types::validate_terms(&t, 0),
        Err(SwapError::NegotiationRejected)
    );
}

#[test]
fn validate_terms_rejects_degenerate_amounts() {
    let mut t = terms();
    t.base_amount = 0;
    assert_eq!(
        swap_core::types::validate_terms(&t, 1000),
        Err(SwapError::NegotiationRejected)
    );
    let mut t2 = terms();
    t2.rel_amount = 0;
    assert_eq!(
        swap_core::types::validate_terms(&t2, 1000),
        Err(SwapError::NegotiationRejected)
    );
    let mut t3 = terms();
    t3.price_den = 0;
    assert_eq!(
        swap_core::types::validate_terms(&t3, 1000),
        Err(SwapError::NegotiationRejected)
    );
}

#[test]
fn validate_terms_margin_does_not_overflow() {
    let mut t = terms();
    t.taker_locktime = u64::MAX;
    t.maker_locktime = u64::MAX;
    assert_eq!(
        swap_core::types::validate_terms(&t, u64::MAX),
        Err(SwapError::NegotiationRejected)
    );
    assert_eq!(swap_core::types::validate_terms(&t, 0), Ok(()));
}

#[test]
fn spend_marks_payment_settled() {
    let mut j = SwapJournal::new(1);
    assert!(j.append(started(Role::Maker)).is_ok());
    assert!(j
        .append(SwapEvent {
            sequence_number: 1,
            timestamp: 11,
            kind: EventKind::Negotiated,
        })
        .is_ok());
    let fee = TxInfo {
        coin: 2,
        tx_ref: 100,
        amount: 1,
        locktime: 0,
    };
    assert!(j
        .append(SwapEvent {
            sequence_number: 2,
            timestamp: 12,
            kind: EventKind::TakerFeeValidated { fee },
        })
        .is_ok());
    let pay = TxInfo {
        coin: 1,
        tx_ref: 200,
        amount: 100,
        locktime: 8000,
    };
    assert!(j
        .append(SwapEvent {
            sequence_number: 3,
            timestamp: 13,
            kind: EventKind::MakerPaymentSent { payment: pay },
        })
        .is_ok());
    let tp = TxInfo {
        coin: 2,
        tx_ref: 300,
        amount: 200,
        locktime: 4000,
    };
    assert!(j
        .append(SwapEvent {
            sequence_number: 4,
            timestamp: 14,
            kind: EventKind::TakerPaymentConfirmed { payment: tp },
        })
        .is_ok());
    assert!(j
        .append(SwapEvent {
            sequence_number: 5,
            timestamp: 15,
            kind: EventKind::TakerPaymentSpent {
                tx_ref: 300,
                spend_tx: 400,
            },
        })
        .is_ok());
    let rec = j.project();
    assert_eq!(rec.state, SwapState::TakerPaymentSpent);
    assert_eq!(rec.payments.len(), 3);
    assert_eq!(rec.payments[0].tx_ref, 100);
    assert!(rec.payments[0].confirmed);
    assert!(!rec.payments[0].spent);
    assert_eq!(rec.payments[1].tx_ref, 200);
    assert!(!rec.payments[1].spent);
    assert_eq!(rec.payments[2].tx_ref, 300);
    assert!(rec.payments[2].confirmed);
    assert!(rec.payments[2].spent);
}
