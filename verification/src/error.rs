//! The error taxonomy shared by the journal, the registry and the two
//! protocol drivers.

use vstd::prelude::*;

verus! {

/// Every failure a swap component can report.
///
/// `NegotiationRejected` is terminal but pre-commitment: no funds are at
/// risk. `AdapterTransient` is a network or node hiccup and is retried;
/// `AdapterFatal` aborts the swap (and triggers a refund when funds are
/// already committed). `LocktimeExpired` forces the refund or abort
/// branch. `PersistenceFailure` means a journal append could not be
/// applied, after which the driver must not take any further committing
/// action. `DuplicateSwap` is the registry refusing a second driver for
/// an identifier that already has one, and `UnknownSwap` a lookup of an
/// identifier with no journal.
#[derive(Clone, Copy, Debug, PartialEq, Eq, Structural)]
pub enum SwapError {
    NegotiationRejected,
    AdapterTransient,
    AdapterFatal,
    LocktimeExpired,
    PersistenceFailure,
    DuplicateSwap,
    UnknownSwap,
}

} // verus!
