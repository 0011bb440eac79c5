use swap_core::error::SwapError;
use swap_core::events::{EventKind, SwapEvent};
use swap_core::record::SwapState;
use swap_core::store::JournalStore;
use swap_core::types::{Role, SwapTerms};

fn terms() -> SwapTerms {
    SwapTerms {
        base_asset: 1,
        rel_asset: 2,
        base_amount: 100,
        rel_amount: 200,
        price_num: 2,
        price_den: 1,
        maker_locktime: 8000,
        taker_locktime: 4000,
        counterparty: 9,
        negotiated_at: 10,
    }
}

fn started(role: Role) -> SwapEvent {
    SwapEvent {
        sequence_number: 0,
        timestamp: 10,
        kind: EventKind::Started {
            role,
            terms: terms(),
        },
    }
}

#[test]
fn identifiers_are_never_reused() {
    let mut store = JournalStore::new();
    assert_eq!(store.create_swap(1), Ok(()));
    assert_eq!(store.create_swap(1), Err(SwapError::DuplicateSwap));
    assert_eq!(store.count(), 1);
}

#[test]
fn status_of_unknown_swap_is_none() {
    let store = JournalStore::new();
    assert!(store.status(42).is_none());
}

#[test]
fn append_to_unknown_swap_is_refused() {
    let mut store = JournalStore::new();
    assert_eq!(
        store.append_event(42, started(Role::Maker)),
        Err(SwapError::UnknownSwap)
    );
}

#[test]
fn status_folds_the_journal() {
    let mut store = JournalStore::new();
    assert_eq!(store.create_swap(1), Ok(()));
    assert_eq!(store.status(1).unwrap().state, SwapState::Created);
    assert_eq!(store.append_event(1, started(Role::Taker)), Ok(()));
    let rec = store.status(1).unwrap();
    assert_eq!(rec.state, SwapState::Started);
    assert_eq!(rec.role, Role::Taker);
    assert_eq!(rec.terms, terms());
}

#[test]
fn appends_touch_only_their_swap() {
    let mut store = JournalStore::new();
    assert_eq!(store.create_swap(1), Ok(()));
    assert_eq!(store.create_swap(2), Ok(()));
    assert_eq!(store.append_event(2, started(Role::Maker)), Ok(()));
    assert_eq!(store.status(1).unwrap().state, SwapState::Created);
    assert_eq!(store.status(2).unwrap().state, SwapState::Started);
    // duplicate sequence number: idempotent through the store too
    assert_eq!(store.append_event(2, started(Role::Taker)), Ok(()));
    assert_eq!(store.status(2).unwrap().role, Role::Maker);
    // a gap is refused with the journal's own error
    let gap = SwapEvent {
        sequence_number: 9,
        timestamp: 11,
        kind: EventKind::Negotiated,
    };
    assert_eq!(store.append_event(2, gap), Err(SwapError::PersistenceFailure));
}

#[test]
fn list_recent_returns_newest_first() {
    let mut store = JournalStore::new();
    assert_eq!(store.create_swap(1), Ok(()));
    assert_eq!(store.create_swap(2), Ok(()));
    assert_eq!(store.create_swap(3), Ok(()));
    assert_eq!(store.append_event(3, started(Role::Maker)), Ok(()));
    let recent = store.list_recent(2);
    assert_eq!(recent.len(), 2);
    assert_eq!(recent[0].state, SwapState::Started);
    assert_eq!(recent[1].state, SwapState::Created);
    let all = store.list_recent(10);
    assert_eq!(all.len(), 3);
    assert_eq!(store.list_recent(0).len(), 0);
}

#[test]
fn recovery_plan_lists_exactly_the_unfinished_swaps() {
    let mut store = JournalStore::new();
    // swap 1: still in flight
    assert_eq!(store.create_swap(1), Ok(()));
    assert_eq!(store.append_event(1, started(Role::Maker)), Ok(()));
    // swap 2: terminal
    assert_eq!(store.create_swap(2), Ok(()));
    assert_eq!(store.append_event(2, started(Role::Maker)), Ok(()));
    assert_eq!(
        store.append_event(
            2,
            SwapEvent {
                sequence_number: 1,
                timestamp: 11,
                kind: EventKind::NegotiationFailed,
            }
        ),
        Ok(())
    );
    let plan = swap_core::recovery::recovery_plan(&store, 20);
    assert_eq!(plan.len(), 1);
    assert_eq!(plan[0].id, 1);
    assert_eq!(plan[0].role, Role::Maker);
    assert_eq!(
        plan[0].action,
        swap_core::actions::SwapAction::RequestNegotiation
    );
}

#[test]
fn recovery_recheck_forces_refund_after_outage() {
    let mut store = JournalStore::new();
    assert_eq!(store.create_swap(1), Ok(()));
    assert_eq!(store.append_event(1, started(Role::Maker)), Ok(()));
    let events = [
        SwapEvent {
            sequence_number: 1,
            timestamp: 11,
            kind: EventKind::Negotiated,
        },
        SwapEvent {
            sequence_number: 2,
            timestamp: 12,
            kind: EventKind::TakerFeeValidated {
                fee: swap_core::events::TxInfo {
                    coin: 2,
                    tx_ref: 100,
                    amount: 1,
                    locktime: 0,
                },
            },
        },
        SwapEvent {
            sequence_number: 3,
            timestamp: 13,
            kind: EventKind::MakerPaymentSent {
                payment: swap_core::events::TxInfo {
                    coin: 1,
                    tx_ref: 200,
                    amount: 100,
                    locktime: 8000,
                },
            },
        },
    ];
    for ev in events {
        assert_eq!(store.append_event(1, ev), Ok(()));
    }
    // the outage outlasted the maker locktime: recovery goes straight
    // to the refund branch
    let plan = swap_core::recovery::recovery_plan(&store, 9000);
    assert_eq!(plan.len(), 1);
    assert_eq!(
        plan[0].action,
        swap_core::actions::SwapAction::RefundMakerPayment
    );
}

#[test]
fn open_swap_validates_and_journals_the_start() {
    let mut store = JournalStore::new();
    assert_eq!(store.open_swap(1, Role::Maker, terms(), 1000, 10), Ok(()));
    let rec = store.status(1).unwrap();
    assert_eq!(rec.state, SwapState::Started);
    assert_eq!(rec.role, Role::Maker);
    assert_eq!(rec.terms, terms());
}

#[test]
fn open_swap_rejects_unsafe_terms_before_storing() {
    let mut store = JournalStore::new();
    let mut bad = terms();
    bad.taker_locktime = bad.maker_locktime;
    assert_eq!(
        store.open_swap(1, Role::Maker, bad, 1, 10),
        Err(SwapError::NegotiationRejected)
    );
    assert_eq!(store.count(), 0);
    assert!(store.status(1).is_none());
}

#[test]
fn open_swap_never_reuses_an_identifier() {
    let mut store = JournalStore::new();
    assert_eq!(store.open_swap(1, Role::Maker, terms(), 1000, 10), Ok(()));
    assert_eq!(
        store.open_swap(1, Role::Taker, terms(), 1000, 11),
        Err(SwapError::DuplicateSwap)
    );
    assert_eq!(store.count(), 1);
    assert_eq!(store.status(1).unwrap().role, Role::Maker);
}
