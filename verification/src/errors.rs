use vstd::prelude::*;

verus! {

/// Every failure the escrow machine, the auction guards and the deployment
/// flow can report. The `Std` variant carries the text of a host-level
/// error such as a malformed encoding or an arithmetic overflow.
#[derive(Clone, Debug, PartialEq, Eq)]
pub enum ContractError {
    Std(String),
    Unauthorized,
    OnlyTaker,
    InvalidSecret,
    DestWithrawTimeLimit,
    DestCancelTimeLimit,
    SrcWithrawTimeLimit,
    SrcCancelTimeLimit,
    RescueTimeLimit,
    UnmatchedDenomOrAmount,
    OrderAlreadyProcessed,
    AuctionNotStarted,
    AuctionEndedAlready,
    PriceIsAboveThreshold,
    PullFundsError,
    EscrowContractError,
}

} // verus!
