//! Fund accounting and governance rules of a pooled staking ledger.
//!
//! Positions ("gems") carry a class-determined value that moves between a
//! minting pool, a pooled-delegation pool and delegation targets chosen by a
//! weighted vote. Every operation works on plain records and either succeeds
//! with the documented effect or fails leaving every record unchanged.

pub mod error;
pub mod state;
pub mod nfts;
pub mod position;
pub mod governance;
pub mod delegation;
pub mod rewards;
pub mod rarity;
pub mod laws;
pub mod utils;
