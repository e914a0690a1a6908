//! Primitive identifier types of a rollup node and the engine that backfills
//! event indexes over its historical miniblocks, chunk by chunk.

pub mod account_tree_id;
pub mod chain_id;
pub mod identifiers;
pub mod migration;
pub mod text;
pub mod u256;

pub use account_tree_id::{AccountTreeId, Address};
pub use chain_id::{L2ChainId, L2ChainIdError};
pub use identifiers::{
    L1BatchNumber, L1BlockNumber, L1ChainId, MiniblockNumber, Nonce, PriorityOpId,
};
pub use u256::U256;
