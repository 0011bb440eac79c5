//! What a driver asks the outside world to do next, and what the
//! outside world reports back. The drivers themselves are pure: the
//! surrounding process performs the action (messenger send, chain
//! call, wait) and feeds the outcome back in.

use vstd::prelude::*;

use crate::error::SwapError;
use crate::events::TxInfo;

verus! {

/// The next piece of outside work a swap driver wants done. Deadlines
/// are chain-relative times derived from the swap's locktimes, never
/// wall-clock session timers.
#[derive(Clone, Copy, Debug, PartialEq, Eq, Structural)]
pub enum SwapAction {
    /// Exchange terms with the counterparty over the messenger.
    RequestNegotiation,
    /// Maker: verify the taker's fee payment on chain.
    ValidateTakerFee,
    /// Maker: broadcast own payment. The commitment point.
    SendMakerPayment,
    /// Maker: poll for the taker's payment confirmations, up to the
    /// deadline (the taker's locktime).
    AwaitTakerPayment { deadline: u64 },
    /// Maker: the taker's window has closed but the maker's own
    /// locktime has not yet elapsed; wait until it has, then refund.
    AwaitRefundWindow { at: u64 },
    /// Maker: spend the taker's confirmed payment.
    SpendTakerPayment,
    /// Maker: reclaim own payment; its locktime has elapsed.
    RefundMakerPayment,
    /// Taker: verify the maker's payment on chain.
    ValidateMakerPayment,
    /// Taker: broadcast the fee payment.
    SendTakerFee,
    /// Taker: broadcast own payment. The taker's commitment point.
    SendTakerPayment,
    /// Taker: wait for the maker to spend the taker's payment, then
    /// claim the maker's payment with the revealed secret, before the
    /// deadline (the taker's own locktime).
    ClaimMakerPayment { deadline: u64 },
    /// Taker: reclaim own payment; its locktime has elapsed.
    RefundTakerPayment,
    /// Journal the completion of a swap whose payments are settled.
    Finalize,
    /// Abandon a swap whose schedule has already expired before any
    /// commitment.
    Abort,
    /// Cancellation was requested: stop at this safe point.
    Suspend,
    /// Nothing to do: the swap is terminal or not this driver's.
    Idle,
}

/// What performing an action came to. Transient failures are
/// retryable; fatal ones are chain-level rejections the driver must
/// not retry blindly.
#[derive(Clone, Copy, Debug, PartialEq, Eq, Structural)]
pub enum StepOutcome {
    /// Messenger: the counterparty confirmed the terms.
    Agreed,
    /// Messenger: the counterparty rejected the terms or timed out.
    Rejected,
    /// A counterparty payment was observed on chain and validated.
    PaymentSeen { payment: TxInfo },
    /// Own payment was broadcast (not merely constructed).
    Broadcast { payment: TxInfo },
    /// A payment was spent; `tx_ref` names the payment consumed,
    /// `spend_tx` the spending transaction.
    Spent { tx_ref: u64, spend_tx: u64 },
    /// Own payment was reclaimed after its locktime.
    Refunded { tx_ref: u64, refund_tx: u64 },
    /// A network or node error worth retrying.
    Transient,
    /// A chain-level rejection; retrying the same call is pointless.
    Fatal,
    /// The action's deadline passed without a result.
    TimedOut,
    /// The action needed no outside work (journal-only steps such as
    /// `Finalize` and `Abort`).
    Nothing,
}

/// How a failed outcome is classified in the error taxonomy when it
/// is surfaced: transient adapter errors are retried, fatal ones abort
/// or trigger the refund, and an elapsed deadline forces the refund or
/// abort branch. Successful outcomes classify as nothing.
pub open spec fn error_class(outcome: StepOutcome) -> Option<SwapError> {
    match outcome {
        StepOutcome::Transient => Some(SwapError::AdapterTransient),
        StepOutcome::Fatal => Some(SwapError::AdapterFatal),
        StepOutcome::TimedOut => Some(SwapError::LocktimeExpired),
        StepOutcome::Rejected => Some(SwapError::NegotiationRejected),
        _ => None,
    }
}

/// Executable form of [`error_class`].
pub fn error_class_of(outcome: &StepOutcome) -> (r: Option<SwapError>)
    ensures
        r == error_class(*outcome),
{
    match outcome {
        StepOutcome::Transient => Some(SwapError::AdapterTransient),
        StepOutcome::Fatal => Some(SwapError::AdapterFatal),
        StepOutcome::TimedOut => Some(SwapError::LocktimeExpired),
        StepOutcome::Rejected => Some(SwapError::NegotiationRejected),
        _ => None,
    }
}

} // verus!
