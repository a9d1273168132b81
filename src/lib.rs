//! Health scoring for a proof-of-work network: a market-manipulation score, a
//! chain-reorganisation score drawn from node logs, and their composite.

pub mod algorithms;
pub mod errors;
pub mod reorg;

pub use algorithms::{health_score, market_score, reorg_score, MarketSignals};
pub use errors::Error;
pub use reorg::{day_tags, reorg_window, summarize_window, ReorgScore, ReorgWindow};
