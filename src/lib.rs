//! A crowdfunding engine and the fungible-asset ledger it moves value through.
//!
//! The library is a deterministic state machine: every operation takes the
//! current clock reading as an argument, and every failure is reported as a
//! [`ContractError`] instead of aborting.
pub mod address;
pub mod campaign;
pub mod crowdfunding;
pub mod error;
pub mod tally;
pub mod token;

pub use address::Address;
pub use campaign::{progress_percentage, Campaign, CampaignStatus};
pub use crowdfunding::CrowdfundingContract;
pub use error::ContractError;
pub use tally::Tally;
pub use token::{TokenContract, TokenMetadata};
