use vstd::prelude::*;

verus! {

/// Why an operation of the ledger or of the campaign engine was refused.
///
/// A refused operation leaves every piece of state as it was.
#[derive(Clone, Copy, Debug, PartialEq, Eq, Structural)]
pub enum ContractError {
    /// A campaign goal that is not strictly positive.
    InvalidGoal,
    /// A campaign deadline that is not strictly after the current time.
    InvalidDeadline,
    /// A donation or transfer amount that is not strictly positive.
    InvalidAmount,
    /// A total supply that is not strictly positive.
    InvalidSupply,
    /// No campaign has the given id.
    CampaignNotFound,
    /// The campaign's deadline has been reached: no more donations.
    CampaignEnded,
    /// The campaign's deadline has not been reached yet: no refunds.
    CampaignNotEnded,
    /// The campaign reached its goal: no refunds.
    GoalReached,
    /// The donor has nothing left to be refunded.
    NoRefundableDonation,
    /// The ledger's metadata was already set.
    AlreadyInitialized,
    /// The ledger's metadata has not been set yet.
    NotInitialized,
    /// The sender holds less than the amount to move.
    InsufficientBalance,
    /// A running total or the campaign counter would pass its type's maximum.
    Overflow,
}

} // verus!
