//! Startup recovery: scan the journal store for swaps whose projected
//! state is not terminal, and re-attach a fresh driver to each at the
//! step its journal shows, never at the beginning. Locktimes are
//! re-checked against current chain time before any forward action, so
//! a swap whose window closed during the outage is forced into the
//! refund or abort branch.

use vstd::prelude::*;

use crate::actions::SwapAction;
use crate::journal::SwapJournal;
use crate::maker::maker_decide;
use crate::record::{projection, terminal, SwapRecord, SwapRecordModel, SwapState};
use crate::store::JournalStore;
use crate::taker::taker_decide;
use crate::types::{Role, SwapId};

verus! {

/// One swap to resume: which journal, which side's driver to start,
/// and the first action that driver will take.
#[derive(Clone, Copy, Debug, PartialEq, Eq, Structural)]
pub struct RecoveryTask {
    /// The swap to re-attach to.
    pub id: SwapId,
    /// The side this node played, read from the journal.
    pub role: Role,
    /// The resumed driver's first decision, locktimes re-checked.
    pub action: SwapAction,
}

/// What a freshly attached driver does first: the role's own decision
/// function, with no cancellation pending.
pub open spec fn resume_decision(rec: SwapRecordModel, now: u64) -> SwapAction {
    if rec.role == Role::Maker {
        maker_decide(rec, now, false)
    } else {
        taker_decide(rec, now, false)
    }
}

/// Executable form of [`resume_decision`].
pub fn resume_action(rec: &SwapRecord, now: u64) -> (a: SwapAction)
    ensures
        a == resume_decision(rec@, now),
{
    if rec.role == Role::Maker {
        crate::maker::maker_next_action(rec, now, false)
    } else {
        crate::taker::taker_next_action(rec, now, false)
    }
}

/// The task that resumes one journal.
pub open spec fn task_for(j: SwapJournal, now: u64) -> RecoveryTask {
    RecoveryTask {
        id: j.id_spec(),
        role: projection(j@).role,
        action: resume_decision(projection(j@), now),
    }
}

/// The whole recovery plan: one task per non-terminal swap, in store
/// order; terminal swaps are left alone.
pub open spec fn plan_of(journals: Seq<SwapJournal>, now: u64) -> Seq<RecoveryTask>
    decreases journals.len(),
{
    if journals.len() == 0 {
        Seq::empty()
    } else {
        let rest = plan_of(journals.drop_last(), now);
        if !terminal(projection(journals.last()@).state) {
            rest.push(task_for(journals.last(), now))
        } else {
            rest
        }
    }
}

/// Scans the store and builds the recovery plan, exactly as
/// [`plan_of`] prescribes.
pub fn recovery_plan(store: &JournalStore, now: u64) -> (r: Vec<RecoveryTask>)
    ensures
        r@ == plan_of(store@, now),
{
    let mut tasks: Vec<RecoveryTask> = Vec::new();
    let n = store.count();
    let mut i: usize = 0;
    while i < n
        invariant
            n == store@.len(),
            i <= n,
            tasks@ == plan_of(store@.subrange(0, i as int), now),
        decreases n - i,
    {
        let rec = store.record_at(i);
        if !crate::record::is_terminal(rec.state) {
            let action = resume_action(&rec, now);
            tasks.push(RecoveryTask { id: store.id_at(i), role: rec.role, action });
        }
        proof {
            let done = store@.subrange(0, i + 1);
            assert(done.drop_last() =~= store@.subrange(0, i as int));
            assert(done.last() == store@[i as int]);
        }
        i = i + 1;
    }
    proof {
        assert(store@.subrange(0, store@.len() as int) =~= store@);
    }
    tasks
}

/// Crash recovery never repeats a broadcast: a journal that already
/// shows this side's own payment sent resumes with awaiting, claiming,
/// refunding or finalising — never with sending that payment again.
pub proof fn lemma_recovery_never_resends(rec: SwapRecordModel, now: u64)
    ensures
        rec.state == SwapState::MakerPaymentSent ==> resume_decision(rec, now)
            != SwapAction::SendMakerPayment,
        rec.state == SwapState::TakerPaymentSent ==> resume_decision(rec, now)
            != SwapAction::SendTakerPayment,
{
}

/// Recovery re-checks locktime expiry: a committed swap whose relevant
/// locktime passed during the outage resumes straight into the refund
/// branch, regardless of where it left off.
pub proof fn lemma_recovery_forces_refund(rec: SwapRecordModel, now: u64)
    ensures
        rec.role == Role::Maker && (rec.state == SwapState::MakerPaymentSent || rec.state
            == SwapState::TakerPaymentConfirmed) && now >= rec.terms.maker_locktime
            ==> resume_decision(rec, now) == SwapAction::RefundMakerPayment,
        rec.role == Role::Taker && rec.state == SwapState::TakerPaymentSent && now
            >= rec.terms.taker_locktime ==> resume_decision(rec, now)
            == SwapAction::RefundTakerPayment,
{
}

} // verus!
