//! An NFT registry: ownership, balances, approvals, supply counters, role-based access
//! control and resale royalties, with every operation's effect stated and proved.

pub mod access_control;
pub mod contract;
pub mod error;
pub mod events;
pub mod metadata;
pub mod royalty;
pub mod storage;
pub mod token;
pub mod transaction;
pub mod transfer;
pub mod utils;

pub use access_control::Role;
pub use contract::NftContract;
pub use error::ContractError;
pub use events::{Event, Events};
pub use metadata::Metadata;
pub use royalty::Royalty;
pub use storage::{CollectionConfig, LedgerView, Storage};
pub use token::{Address, RoyaltyInfo, TokenAttribute, TokenData};
pub use transfer::Transfer;
pub use utils::Utils;
