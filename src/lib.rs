//! A registry of fixed-rate exchange markets between pairs of token balances,
//! and the swap engine that converts amounts along those markets.
//!
//! The registry is a plain value owned by its caller. Every operation either
//! fails with a [`ContractError`] and leaves the registry untouched, or succeeds
//! and returns the token movements and notifications that the host must carry
//! out for the operation to take effect.
pub mod address;
pub mod effects;
pub mod error;
pub mod laws;
pub mod market;
pub mod model;
pub mod pair_index;
pub mod registry;
pub mod uint;

pub use address::Address;
pub use effects::{Effects, Notification, Transfer};
pub use error::ContractError;
pub use market::Market;
pub use pair_index::TokenPairIndex;
pub use registry::Contract;
pub use uint::Uint256;
