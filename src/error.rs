use vstd::prelude::*;

verus! {

/// Why a transition was refused. A refused transition has no effect.
#[derive(Clone, Copy, Debug, PartialEq, Eq, Structural)]
pub enum AuctionError {
    /// A required signature is missing, or an account does not match the record.
    AuthorizationFailure,
    /// The record is already initialized, not initialized, or has no winner.
    StateFailure,
    /// The auction is still open at Close, or already over at Bid.
    TemporalFailure,
    /// The bid does not beat the current price, the leader bids again, or a
    /// bid already exists at Cancel.
    EconomicFailure,
    /// The record's storage account is not persistently funded.
    ResourceFailure,
    /// A custody operation failed, or the derived authority could not be found.
    CustodyFailure,
    /// A sum of balances or of times does not fit.
    ArithmeticFailure,
}

} // verus!
