//! A market-making agent for one trading venue: the venue state store, the
//! handling of its streaming updates, and the engine that sizes and builds
//! the balanced pair of orders for two accounts.

pub mod decimal;
pub mod engine;
pub mod error;
pub mod market;
pub mod natural;
pub mod orders;
pub mod sizing;
pub mod store;
pub mod sync;
