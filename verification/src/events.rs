//! The journal's vocabulary: one event kind per protocol step reached,
//! for both roles, each immutable once written.

use vstd::prelude::*;

use crate::types::{Role, SwapTerms};

verus! {

/// An on-chain payment as an event payload: which coin, which
/// transaction, how much, and until when it stays locked.
#[derive(Clone, Copy, Debug, PartialEq, Eq, Structural)]
pub struct TxInfo {
    /// Asset the payment moves.
    pub coin: u64,
    /// Reference to the transaction on its chain.
    pub tx_ref: u64,
    /// Amount locked by the transaction.
    pub amount: u64,
    /// Chain-enforced deadline after which the sender may reclaim it.
    pub locktime: u64,
}

/// What happened, as recorded in the journal. The maker path runs
/// `Started, Negotiated, TakerFeeValidated, MakerPaymentSent,
/// TakerPaymentConfirmed, TakerPaymentSpent, Completed`; the taker path
/// runs `Started, Negotiated, MakerPaymentValidated, TakerFeeSent,
/// TakerPaymentSent, MakerPaymentSpent, Completed`. `NegotiationFailed`,
/// the two refunds and `Failed` are the escape branches.
#[derive(Clone, Copy, Debug, PartialEq, Eq, Structural)]
pub enum EventKind {
    /// Negotiation produced a swap: the initial event, carrying the
    /// role of this side and the agreed terms.
    Started { role: Role, terms: SwapTerms },
    /// The counterparty confirmed the terms.
    Negotiated,
    /// The counterparty timed out or rejected the terms, or a
    /// pre-commitment check failed; terminal, no funds at risk.
    NegotiationFailed,
    /// Maker: the taker's fee payment was seen and validated on chain.
    TakerFeeValidated { fee: TxInfo },
    /// Maker: own payment was broadcast. The commitment point; from
    /// here on the refund branch is mandatory on failure.
    MakerPaymentSent { payment: TxInfo },
    /// Maker: the taker's payment reached the required confirmations.
    TakerPaymentConfirmed { payment: TxInfo },
    /// Maker: spent the taker's payment; `tx_ref` names the payment
    /// spent, `spend_tx` the spending transaction.
    TakerPaymentSpent { tx_ref: u64, spend_tx: u64 },
    /// Maker: reclaimed its own payment after the locktime elapsed.
    MakerPaymentRefunded { tx_ref: u64, refund_tx: u64 },
    /// Taker: the maker's payment was seen and validated on chain.
    MakerPaymentValidated { payment: TxInfo },
    /// Taker: own fee payment was broadcast.
    TakerFeeSent { fee: TxInfo },
    /// Taker: own payment was broadcast. The taker's commitment point.
    TakerPaymentSent { payment: TxInfo },
    /// Taker: spent the maker's payment with the revealed secret.
    MakerPaymentSpent { tx_ref: u64, spend_tx: u64 },
    /// Taker: reclaimed its own payment after the locktime elapsed.
    TakerPaymentRefunded { tx_ref: u64, refund_tx: u64 },
    /// Both sides' payments settled; terminal.
    Completed,
    /// A fatal, non-recoverable abort outside the refund branch;
    /// terminal.
    Failed,
}

/// One journal entry. `sequence_number` is dense and monotonically
/// increasing per swap: the journal uses it to detect and ignore
/// duplicate appends.
#[derive(Clone, Copy, Debug, PartialEq, Eq, Structural)]
pub struct SwapEvent {
    /// Position of this event in its swap's history, starting at 0.
    pub sequence_number: u64,
    /// Chain-relative time at which the event was recorded.
    pub timestamp: u64,
    /// What happened.
    pub kind: EventKind,
}

} // verus!
