//! Plain data carried by every swap: the two roles, the negotiated terms,
//! and the locktime-ordering rule that the whole protocol's fund safety
//! rests on.

use vstd::prelude::*;

use crate::error::SwapError;

verus! {

/// A swap identifier: assigned once at negotiation start, immutable,
/// globally unique, and the key of both the journal store and the
/// registry.
pub type SwapId = u128;

/// The two sides of a swap. The maker posted the standing offer; the
/// taker accepted it.
#[derive(Clone, Copy, Debug, PartialEq, Eq, Structural)]
pub enum Role {
    Maker,
    Taker,
}

/// The terms both parties agree on at negotiation time. Asset
/// identifiers and the counterparty identity are carried as opaque
/// numeric identifiers; the price is an exact ratio, never a float.
///
/// The two locktimes are chain-relative deadlines: after
/// `taker_locktime` the taker may reclaim its own payment, after
/// `maker_locktime` the maker may reclaim its own. The taker's window
/// must close first by a safety margin; see [`terms_ok`].
#[derive(Clone, Copy, Debug, PartialEq, Eq, Structural)]
pub struct SwapTerms {
    /// Asset the maker sells.
    pub base_asset: u64,
    /// Asset the taker pays with.
    pub rel_asset: u64,
    /// Amount of the base asset the maker locks.
    pub base_amount: u64,
    /// Amount of the rel asset the taker locks.
    pub rel_amount: u64,
    /// Agreed price, as the numerator of an exact ratio.
    pub price_num: u64,
    /// Agreed price, as the (non-zero) denominator of an exact ratio.
    pub price_den: u64,
    /// Deadline after which the maker's payment becomes refundable.
    pub maker_locktime: u64,
    /// Deadline after which the taker's payment becomes refundable.
    pub taker_locktime: u64,
    /// Public identity of the counterparty.
    pub counterparty: u128,
    /// Chain-relative time at which negotiation produced these terms.
    pub negotiated_at: u64,
}

/// What negotiation is allowed to accept: positive amounts, a
/// well-formed price ratio, and the taker locktime earlier than the
/// maker locktime by at least `margin`. The locktime ordering is the
/// core safety argument: the earlier-refunding party is always the
/// taker, so the maker can wait for the taker's payment to be either
/// spent or refunded before its own window closes.
pub open spec fn terms_ok(t: SwapTerms, margin: u64) -> bool {
    &&& t.base_amount > 0
    &&& t.rel_amount > 0
    &&& t.price_den > 0
    &&& t.taker_locktime + margin <= t.maker_locktime
}

/// Accepts or rejects negotiated terms. Returns `Ok` exactly on the
/// terms that [`terms_ok`] admits; anything else is rejected before any
/// funds are committed.
pub fn validate_terms(t: &SwapTerms, margin: u64) -> (r: Result<(), SwapError>)
    ensures
        r is Ok <==> terms_ok(*t, margin),
        r is Err ==> r == Result::<(), SwapError>::Err(SwapError::NegotiationRejected),
{
    let safe_locktimes: bool = (t.taker_locktime as u128 + margin as u128) <= t.maker_locktime as u128;
    if t.base_amount > 0 && t.rel_amount > 0 && t.price_den > 0 && safe_locktimes {
        Ok(())
    } else {
        Err(SwapError::NegotiationRejected)
    }
}

} // verus!
