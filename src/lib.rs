//! A two-asset constant-product market maker: the token-pair store, the
//! pricing rules, and the decisions of its two-phase asynchronous commit.
pub mod pool;
pub mod pricing;
pub mod wide;

pub use pool::{AmmError, Outcome, SwapPlan, TokenMetadata, AMM};
pub use pricing::{normalized, quote, ratio};
pub use wide::{mul_div, wide_mul};
