//! Exact USD pricing of fungible tokens traded on a decentralized exchange.
//!
//! The price resolver derives a token's USD price from on-chain liquidity-pair
//! reserves, composing exact rational ratios through a reference (bridge)
//! token. On-chain queries are suspension points: the resolver is a small
//! state machine that names the query it needs and consumes the answer, so
//! the caller owns the transport while every decision and every piece of
//! arithmetic is checked here.

pub mod errors;
pub mod rational;
pub mod snapshot;
pub mod xexchange;

pub use rational::pow10;
pub use rational::rat_is;
pub use xexchange::XExchangeService;
