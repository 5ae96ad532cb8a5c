//! Reward-per-share accounting for a fractional-ownership share token.
//!
//! Holders of shares receive deposits of two reward channels (a designated
//! fungible reward token and the chain's native currency) in proportion to the
//! shares they hold. Deposits only move a global reward-per-share counter; each
//! account is settled lazily, whenever it is touched, from the shares it holds
//! at that moment.
pub mod accounts;
pub mod conservation;
pub mod contract;
pub mod error;
pub mod laws;
pub mod nft_display;
pub mod pool;
pub mod rps_manager;
pub mod storage_key;

pub use accounts::AccountsRps;
pub use contract::{Contract, NftEvents, StorageDeposit};
pub use error::RewardError;
pub use nft_display::NftInstanceData;
pub use pool::RewardPool;
pub use rps_manager::{ChannelRps, RpsManager};
pub use storage_key::StorageKey;
