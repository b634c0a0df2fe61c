use vstd::prelude::*;

verus! {

/// Why an operation was rejected. Every rejection is all-or-nothing: the
/// operation that returns one of these has changed no state and has issued
/// no dispatch.
#[derive(Clone, Copy, PartialEq, Eq, Structural, Debug)]
pub enum AuctionError {
    /// A bid arrived at or after the deadline.
    AuctionEnded,
    /// A bid was not strictly greater than the current highest bid.
    BidTooLow,
    /// A bid arrived in an asset the auction is not configured for, or a
    /// fungible-asset notification came from a registry other than the
    /// configured one.
    UnsupportedAsset,
    /// A claim arrived before the deadline.
    NotEnded,
    /// A claim arrived after settlement had already been triggered.
    AlreadyClaimed,
    /// A deployment name does not derive a syntactically valid child account.
    InvalidSubaccountName,
    /// A deployment deposit is below the storage cost of the packaged code.
    InsufficientDeposit,
}

} // verus!
