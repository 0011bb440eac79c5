//! The swap record: the deterministic fold of a swap's journal events.
//! No other mutable state is authoritative; every driver decision and
//! every status query reads this projection.

use vstd::prelude::*;

use crate::events::{EventKind, SwapEvent, TxInfo};
use crate::types::{terms_ok, Role, SwapTerms};

verus! {

/// The protocol state a swap has reached. `Created` is the state of an
/// empty journal, before the initial `Started` event. The maker path
/// runs through `TakerFeeValidated`, `MakerPaymentSent`,
/// `TakerPaymentConfirmed` and `TakerPaymentSpent`; the taker path
/// through `MakerPaymentValidated`, `TakerFeeSent`, `TakerPaymentSent`
/// and `MakerPaymentSpent`. `Completed`, the two refunds,
/// `NegotiationFailed` and `Failed` are terminal.
#[derive(Clone, Copy, Debug, PartialEq, Eq, Structural)]
pub enum SwapState {
    Created,
    Started,
    Negotiated,
    NegotiationFailed,
    TakerFeeValidated,
    MakerPaymentSent,
    TakerPaymentConfirmed,
    TakerPaymentSpent,
    MakerPaymentValidated,
    TakerFeeSent,
    TakerPaymentSent,
    MakerPaymentSpent,
    Completed,
    MakerPaymentRefunded,
    TakerPaymentRefunded,
    Failed,
}

/// A payment made or observed during a swap, derived from events and
/// never mutated directly.
#[derive(Clone, Copy, Debug, PartialEq, Eq, Structural)]
pub struct PaymentRecord {
    /// Asset the payment moves.
    pub coin: u64,
    /// Reference to the transaction on its chain.
    pub tx_ref: u64,
    /// Amount locked by the transaction.
    pub amount: u64,
    /// Deadline after which the sender may reclaim it.
    pub locktime: u64,
    /// Whether the payment has reached the required confirmations.
    pub confirmed: bool,
    /// Whether the payment has been consumed, by a spend or a refund.
    pub spent: bool,
}

/// The current state of one swap, as executable data: the fold of its
/// journal.
#[derive(Clone, Debug)]
pub struct SwapRecord {
    /// Which side of the swap this journal belongs to.
    pub role: Role,
    /// The negotiated terms, fixed by the initial event.
    pub terms: SwapTerms,
    /// The protocol state reached so far.
    pub state: SwapState,
    /// Every payment made or observed, in event order.
    pub payments: Vec<PaymentRecord>,
}

/// The mathematical image of a [`SwapRecord`].
pub struct SwapRecordModel {
    pub role: Role,
    pub terms: SwapTerms,
    pub state: SwapState,
    pub payments: Seq<PaymentRecord>,
}

impl View for SwapRecord {
    type V = SwapRecordModel;

    open spec fn view(&self) -> SwapRecordModel {
        SwapRecordModel {
            role: self.role,
            terms: self.terms,
            state: self.state,
            payments: self.payments@,
        }
    }
}

/// Whether a swap in this state is finished: thereafter its record is
/// read-only, kept for audit and status queries.
pub open spec fn terminal(s: SwapState) -> bool {
    match s {
        SwapState::Completed => true,
        SwapState::MakerPaymentRefunded => true,
        SwapState::TakerPaymentRefunded => true,
        SwapState::NegotiationFailed => true,
        SwapState::Failed => true,
        _ => false,
    }
}

/// Executable form of [`terminal`].
pub fn is_terminal(s: SwapState) -> (r: bool)
    ensures
        r == terminal(s),
{
    match s {
        SwapState::Completed => true,
        SwapState::MakerPaymentRefunded => true,
        SwapState::TakerPaymentRefunded => true,
        SwapState::NegotiationFailed => true,
        SwapState::Failed => true,
        _ => false,
    }
}

/// How far along the protocol a state is. Every legal transition
/// strictly increases this rank, which is what makes progress
/// forward-only: a driver never downgrades to an earlier logical state,
/// refund and abort included.
pub open spec fn state_rank(s: SwapState) -> int {
    match s {
        SwapState::Created => 0,
        SwapState::Started => 1,
        SwapState::Negotiated => 2,
        SwapState::TakerFeeValidated => 3,
        SwapState::MakerPaymentValidated => 3,
        SwapState::MakerPaymentSent => 4,
        SwapState::TakerFeeSent => 4,
        SwapState::TakerPaymentConfirmed => 5,
        SwapState::TakerPaymentSent => 5,
        SwapState::TakerPaymentSpent => 6,
        SwapState::MakerPaymentSpent => 6,
        SwapState::Completed => 7,
        SwapState::MakerPaymentRefunded => 7,
        SwapState::TakerPaymentRefunded => 7,
        SwapState::NegotiationFailed => 7,
        SwapState::Failed => 7,
    }
}

/// The transition relation of the two state machines: whether a journal
/// event of kind `kind` advances a swap of role `role` out of state
/// `from`. An event that is not allowed here leaves the record
/// untouched when folded.
pub open spec fn step_allowed(role: Role, from: SwapState, kind: EventKind) -> bool {
    match kind {
        EventKind::Started { .. } => from == SwapState::Created,
        EventKind::Negotiated => from == SwapState::Started,
        EventKind::NegotiationFailed => {
            ||| from == SwapState::Started
            ||| from == SwapState::Negotiated
            ||| (role == Role::Taker && from == SwapState::MakerPaymentValidated)
        },
        EventKind::TakerFeeValidated { .. } => role == Role::Maker && from == SwapState::Negotiated,
        EventKind::MakerPaymentSent { .. } => role == Role::Maker && from
            == SwapState::TakerFeeValidated,
        EventKind::TakerPaymentConfirmed { .. } => role == Role::Maker && from
            == SwapState::MakerPaymentSent,
        EventKind::TakerPaymentSpent { .. } => role == Role::Maker && from
            == SwapState::TakerPaymentConfirmed,
        EventKind::MakerPaymentRefunded { .. } => role == Role::Maker && (from
            == SwapState::MakerPaymentSent || from == SwapState::TakerPaymentConfirmed),
        EventKind::MakerPaymentValidated { .. } => role == Role::Taker && from
            == SwapState::Negotiated,
        EventKind::TakerFeeSent { .. } => role == Role::Taker && from
            == SwapState::MakerPaymentValidated,
        EventKind::TakerPaymentSent { .. } => role == Role::Taker && from == SwapState::TakerFeeSent,
        EventKind::MakerPaymentSpent { .. } => role == Role::Taker && from
            == SwapState::TakerPaymentSent,
        EventKind::TakerPaymentRefunded { .. } => role == Role::Taker && from
            == SwapState::TakerPaymentSent,
        EventKind::Completed => {
            ||| (role == Role::Maker && from == SwapState::TakerPaymentSpent)
            ||| (role == Role::Taker && from == SwapState::MakerPaymentSpent)
        },
        EventKind::Failed => {
            ||| (role == Role::Maker && from == SwapState::TakerFeeValidated)
            ||| (role == Role::Taker && from == SwapState::TakerFeeSent)
        },
    }
}

/// A payment record as first derived from its event: flags set by later
/// events start false.
pub open spec fn fresh_payment(tx: TxInfo, confirmed: bool) -> PaymentRecord {
    PaymentRecord {
        coin: tx.coin,
        tx_ref: tx.tx_ref,
        amount: tx.amount,
        locktime: tx.locktime,
        confirmed: confirmed,
        spent: false,
    }
}

/// Marks one payment consumed when a spend or refund of `tx_ref` is
/// journaled.
pub open spec fn settle_payment(p: PaymentRecord, tx_ref: u64) -> PaymentRecord {
    if p.tx_ref == tx_ref {
        PaymentRecord { spent: true, ..p }
    } else {
        p
    }
}

/// Marks every payment with reference `tx_ref` consumed.
pub open spec fn settle_payments(ps: Seq<PaymentRecord>, tx_ref: u64) -> Seq<PaymentRecord> {
    ps.map_values(|p: PaymentRecord| settle_payment(p, tx_ref))
}

/// The record of a swap no event has touched yet.
pub open spec fn blank_record() -> SwapRecordModel {
    SwapRecordModel {
        role: Role::Maker,
        terms: SwapTerms {
            base_asset: 0,
            rel_asset: 0,
            base_amount: 0,
            rel_amount: 0,
            price_num: 0,
            price_den: 0,
            maker_locktime: 0,
            taker_locktime: 0,
            counterparty: 0,
            negotiated_at: 0,
        },
        state: SwapState::Created,
        payments: Seq::empty(),
    }
}

/// One step of the fold: how a single event changes the record. An
/// event whose transition [`step_allowed`] refuses is ignored, so a
/// duplicate or stray entry can never move a swap backwards.
pub open spec fn apply_event(rec: SwapRecordModel, ev: SwapEvent) -> SwapRecordModel {
    match ev.kind {
        EventKind::Started { role, terms } => {
            if rec.state == SwapState::Created {
                SwapRecordModel { role, terms, state: SwapState::Started, ..rec }
            } else {
                rec
            }
        },
        EventKind::Negotiated => {
            if step_allowed(rec.role, rec.state, ev.kind) {
                SwapRecordModel { state: SwapState::Negotiated, ..rec }
            } else {
                rec
            }
        },
        EventKind::NegotiationFailed => {
            if step_allowed(rec.role, rec.state, ev.kind) {
                SwapRecordModel { state: SwapState::NegotiationFailed, ..rec }
            } else {
                rec
            }
        },
        EventKind::TakerFeeValidated { fee } => {
            if step_allowed(rec.role, rec.state, ev.kind) {
                SwapRecordModel {
                    state: SwapState::TakerFeeValidated,
                    payments: rec.payments.push(fresh_payment(fee, true)),
                    ..rec
                }
            } else {
                rec
            }
        },
        EventKind::MakerPaymentSent { payment } => {
            if step_allowed(rec.role, rec.state, ev.kind) {
                SwapRecordModel {
                    state: SwapState::MakerPaymentSent,
                    payments: rec.payments.push(fresh_payment(payment, false)),
                    ..rec
                }
            } else {
                rec
            }
        },
        EventKind::TakerPaymentConfirmed { payment } => {
            if step_allowed(rec.role, rec.state, ev.kind) {
                SwapRecordModel {
                    state: SwapState::TakerPaymentConfirmed,
                    payments: rec.payments.push(fresh_payment(payment, true)),
                    ..rec
                }
            } else {
                rec
            }
        },
        EventKind::TakerPaymentSpent { tx_ref, .. } => {
            if step_allowed(rec.role, rec.state, ev.kind) {
                SwapRecordModel {
                    state: SwapState::TakerPaymentSpent,
                    payments: settle_payments(rec.payments, tx_ref),
                    ..rec
                }
            } else {
                rec
            }
        },
        EventKind::MakerPaymentRefunded { tx_ref, .. } => {
            if step_allowed(rec.role, rec.state, ev.kind) {
                SwapRecordModel {
                    state: SwapState::MakerPaymentRefunded,
                    payments: settle_payments(rec.payments, tx_ref),
                    ..rec
                }
            } else {
                rec
            }
        },
        EventKind::MakerPaymentValidated { payment } => {
            if step_allowed(rec.role, rec.state, ev.kind) {
                SwapRecordModel {
                    state: SwapState::MakerPaymentValidated,
                    payments: rec.payments.push(fresh_payment(payment, true)),
                    ..rec
                }
            } else {
                rec
            }
        },
        EventKind::TakerFeeSent { fee } => {
            if step_allowed(rec.role, rec.state, ev.kind) {
                SwapRecordModel {
                    state: SwapState::TakerFeeSent,
                    payments: rec.payments.push(fresh_payment(fee, false)),
                    ..rec
                }
            } else {
                rec
            }
        },
        EventKind::TakerPaymentSent { payment } => {
            if step_allowed(rec.role, rec.state, ev.kind) {
                SwapRecordModel {
                    state: SwapState::TakerPaymentSent,
                    payments: rec.payments.push(fresh_payment(payment, false)),
                    ..rec
                }
            } else {
                rec
            }
        },
        EventKind::MakerPaymentSpent { tx_ref, .. } => {
            if step_allowed(rec.role, rec.state, ev.kind) {
                SwapRecordModel {
                    state: SwapState::MakerPaymentSpent,
                    payments: settle_payments(rec.payments, tx_ref),
                    ..rec
                }
            } else {
                rec
            }
        },
        EventKind::TakerPaymentRefunded { tx_ref, .. } => {
            if step_allowed(rec.role, rec.state, ev.kind) {
                SwapRecordModel {
                    state: SwapState::TakerPaymentRefunded,
                    payments: settle_payments(rec.payments, tx_ref),
                    ..rec
                }
            } else {
                rec
            }
        },
        EventKind::Completed => {
            if step_allowed(rec.role, rec.state, ev.kind) {
                SwapRecordModel { state: SwapState::Completed, ..rec }
            } else {
                rec
            }
        },
        EventKind::Failed => {
            if step_allowed(rec.role, rec.state, ev.kind) {
                SwapRecordModel { state: SwapState::Failed, ..rec }
            } else {
                rec
            }
        },
    }
}

/// The projection: the deterministic, side-effect-free fold of a swap's
/// whole event history, in sequence order.
pub open spec fn projection(events: Seq<SwapEvent>) -> SwapRecordModel
    decreases events.len(),
{
    if events.len() == 0 {
        blank_record()
    } else {
        apply_event(projection(events.drop_last()), events.last())
    }
}

/// Executable form of [`step_allowed`].
pub fn step_allowed_exec(role: Role, from: SwapState, kind: EventKind) -> (r: bool)
    ensures
        r == step_allowed(role, from, kind),
{
    match kind {
        EventKind::Started { .. } => from == SwapState::Created,
        EventKind::Negotiated => from == SwapState::Started,
        EventKind::NegotiationFailed => from == SwapState::Started || from == SwapState::Negotiated
            || (role == Role::Taker && from == SwapState::MakerPaymentValidated),
        EventKind::TakerFeeValidated { .. } => role == Role::Maker && from == SwapState::Negotiated,
        EventKind::MakerPaymentSent { .. } => role == Role::Maker && from
            == SwapState::TakerFeeValidated,
        EventKind::TakerPaymentConfirmed { .. } => role == Role::Maker && from
            == SwapState::MakerPaymentSent,
        EventKind::TakerPaymentSpent { .. } => role == Role::Maker && from
            == SwapState::TakerPaymentConfirmed,
        EventKind::MakerPaymentRefunded { .. } => role == Role::Maker && (from
            == SwapState::MakerPaymentSent || from == SwapState::TakerPaymentConfirmed),
        EventKind::MakerPaymentValidated { .. } => role == Role::Taker && from
            == SwapState::Negotiated,
        EventKind::TakerFeeSent { .. } => role == Role::Taker && from
            == SwapState::MakerPaymentValidated,
        EventKind::TakerPaymentSent { .. } => role == Role::Taker && from == SwapState::TakerFeeSent,
        EventKind::MakerPaymentSpent { .. } => role == Role::Taker && from
            == SwapState::TakerPaymentSent,
        EventKind::TakerPaymentRefunded { .. } => role == Role::Taker && from
            == SwapState::TakerPaymentSent,
        EventKind::Completed => (role == Role::Maker && from == SwapState::TakerPaymentSpent) || (
        role == Role::Taker && from == SwapState::MakerPaymentSpent),
        EventKind::Failed => (role == Role::Maker && from == SwapState::TakerFeeValidated) || (role
            == Role::Taker && from == SwapState::TakerFeeSent),
    }
}

/// Marks every payment with reference `tx_ref` consumed, in place.
fn settle_all(ps: &mut Vec<PaymentRecord>, tx_ref: u64)
    ensures
        final(ps)@ == settle_payments(old(ps)@, tx_ref),
{
    let mut i: usize = 0;
    while i < ps.len()
        invariant
            i <= ps@.len(),
            ps@.len() == old(ps)@.len(),
            forall|j: int| 0 <= j < i ==> ps@[j] == settle_payment(old(ps)@[j], tx_ref),
            forall|j: int| i <= j < ps@.len() ==> ps@[j] == old(ps)@[j],
        decreases ps@.len() - i,
    {
        let p = ps[i];
        if p.tx_ref == tx_ref {
            ps.set(i, PaymentRecord { spent: true, ..p });
        }
        i = i + 1;
    }
    proof {
        assert(ps@ =~= settle_payments(old(ps)@, tx_ref));
    }
}

/// Executable form of [`fresh_payment`].
fn record_payment(tx: TxInfo, confirmed: bool) -> (r: PaymentRecord)
    ensures
        r == fresh_payment(tx, confirmed),
{
    PaymentRecord {
        coin: tx.coin,
        tx_ref: tx.tx_ref,
        amount: tx.amount,
        locktime: tx.locktime,
        confirmed: confirmed,
        spent: false,
    }
}

/// Folds one event into the record, exactly as [`apply_event`] says.
pub fn apply_swap_event(rec: &mut SwapRecord, ev: &SwapEvent)
    ensures
        final(rec)@ == apply_event(old(rec)@, *ev),
{
    if !step_allowed_exec(rec.role, rec.state, ev.kind) {
        return ;
    }
    match ev.kind {
        EventKind::Started { role, terms } => {
            rec.role = role;
            rec.terms = terms;
            rec.state = SwapState::Started;
        },
        EventKind::Negotiated => {
            rec.state = SwapState::Negotiated;
        },
        EventKind::NegotiationFailed => {
            rec.state = SwapState::NegotiationFailed;
        },
        EventKind::TakerFeeValidated { fee } => {
            rec.state = SwapState::TakerFeeValidated;
            rec.payments.push(record_payment(fee, true));
        },
        EventKind::MakerPaymentSent { payment } => {
            rec.state = SwapState::MakerPaymentSent;
            rec.payments.push(record_payment(payment, false));
        },
        EventKind::TakerPaymentConfirmed { payment } => {
            rec.state = SwapState::TakerPaymentConfirmed;
            rec.payments.push(record_payment(payment, true));
        },
        EventKind::TakerPaymentSpent { tx_ref, .. } => {
            rec.state = SwapState::TakerPaymentSpent;
            settle_all(&mut rec.payments, tx_ref);
        },
        EventKind::MakerPaymentRefunded { tx_ref, .. } => {
            rec.state = SwapState::MakerPaymentRefunded;
            settle_all(&mut rec.payments, tx_ref);
        },
        EventKind::MakerPaymentValidated { payment } => {
            rec.state = SwapState::MakerPaymentValidated;
            rec.payments.push(record_payment(payment, true));
        },
        EventKind::TakerFeeSent { fee } => {
            rec.state = SwapState::TakerFeeSent;
            rec.payments.push(record_payment(fee, false));
        },
        EventKind::TakerPaymentSent { payment } => {
            rec.state = SwapState::TakerPaymentSent;
            rec.payments.push(record_payment(payment, false));
        },
        EventKind::MakerPaymentSpent { tx_ref, .. } => {
            rec.state = SwapState::MakerPaymentSpent;
            settle_all(&mut rec.payments, tx_ref);
        },
        EventKind::TakerPaymentRefunded { tx_ref, .. } => {
            rec.state = SwapState::TakerPaymentRefunded;
            settle_all(&mut rec.payments, tx_ref);
        },
        EventKind::Completed => {
            rec.state = SwapState::Completed;
        },
        EventKind::Failed => {
            rec.state = SwapState::Failed;
        },
    }
}

/// The record of a swap no event has touched yet, as executable data.
pub fn blank_swap_record() -> (r: SwapRecord)
    ensures
        r@ == blank_record(),
{
    let r = SwapRecord {
        role: Role::Maker,
        terms: SwapTerms {
            base_asset: 0,
            rel_asset: 0,
            base_amount: 0,
            rel_amount: 0,
            price_num: 0,
            price_den: 0,
            maker_locktime: 0,
            taker_locktime: 0,
            counterparty: 0,
            negotiated_at: 0,
        },
        state: SwapState::Created,
        payments: Vec::new(),
    };
    proof {
        assert(r@.payments =~= blank_record().payments);
    }
    r
}

/// Folds a whole event history into a record: the executable
/// projection, proved equal to [`projection`].
pub fn project(events: &Vec<SwapEvent>) -> (r: SwapRecord)
    ensures
        r@ == projection(events@),
{
    let mut rec = blank_swap_record();
    let mut i: usize = 0;
    while i < events.len()
        invariant
            i <= events@.len(),
            rec@ == projection(events@.subrange(0, i as int)),
        decreases events@.len() - i,
    {
        apply_swap_event(&mut rec, &events[i]);
        proof {
            let done = events@.subrange(0, i + 1);
            assert(done.drop_last() =~= events@.subrange(0, i as int));
            assert(done.last() == events@[i as int]);
        }
        i = i + 1;
    }
    proof {
        assert(events@.subrange(0, events@.len() as int) =~= events@);
    }
    rec
}

/// Progress is forward-only: folding any one event never lowers the
/// record's rank, and whenever the state changes at all the rank
/// strictly rises. Refund and abort are no exception; they too are
/// final, later states.
pub proof fn lemma_progress_forward_only(rec: SwapRecordModel, ev: SwapEvent)
    ensures
        state_rank(apply_event(rec, ev).state) >= state_rank(rec.state),
        apply_event(rec, ev).state != rec.state ==> state_rank(apply_event(rec, ev).state)
            > state_rank(rec.state),
{
}

/// A terminal record is read-only: no further event changes anything.
pub proof fn lemma_terminal_read_only(rec: SwapRecordModel, ev: SwapEvent)
    requires
        terminal(rec.state),
    ensures
        apply_event(rec, ev) == rec,
{
}

/// One event extends the fold by one step: the projection of a
/// history with `ev` appended is [`apply_event`] of the projection of
/// the history.
pub proof fn lemma_projection_push(events: Seq<SwapEvent>, ev: SwapEvent)
    ensures
        projection(events.push(ev)) == apply_event(projection(events), ev),
{
    assert(events.push(ev).drop_last() =~= events);
    assert(events.push(ev).last() == ev);
}

/// The projection is deterministic: it is a pure function of the
/// event history, so replaying the same events twice — in the same
/// process or after recovery — always yields the same swap record.
pub proof fn lemma_projection_deterministic(e1: Seq<SwapEvent>, e2: Seq<SwapEvent>)
    requires
        e1 == e2,
    ensures
        projection(e1) == projection(e2),
{
}

/// Once a swap is initialised, no later event changes its role or its
/// terms, and none returns it to `Created`.
pub proof fn lemma_terms_stable(rec: SwapRecordModel, ev: SwapEvent)
    requires
        rec.state != SwapState::Created,
    ensures
        apply_event(rec, ev).role == rec.role,
        apply_event(rec, ev).terms == rec.terms,
        apply_event(rec, ev).state != SwapState::Created,
{
}

/// The locktime safety margin holds at negotiation time and is
/// preserved through the whole life of the swap, recovery included:
/// whatever events follow a `Started` event whose terms keep the
/// taker's locktime at least `margin` before the maker's, the
/// projected record still keeps it, and the projected role is the one
/// the swap started with.
pub proof fn lemma_locktime_margin_preserved(events: Seq<SwapEvent>, margin: u64)
    requires
        events.len() > 0,
        events[0].kind matches EventKind::Started { terms, .. } && terms_ok(terms, margin),
    ensures
        terms_ok(projection(events).terms, margin),
        projection(events).state != SwapState::Created,
        events[0].kind matches EventKind::Started { role, terms } && projection(events).role
            == role && projection(events).terms == terms,
    decreases events.len(),
{
    if events.len() == 1 {
        assert(events.drop_last().len() == 0);
        assert(events.last() == events[0]);
    } else {
        assert(events.drop_last()[0] == events[0]);
        lemma_locktime_margin_preserved(events.drop_last(), margin);
        lemma_terms_stable(projection(events.drop_last()), events.last());
    }
}

} // verus!
