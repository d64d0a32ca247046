//! Decision logic of a copy-trading agent for a prediction market: which
//! accounts to mirror, which feed events call for a mirrored purchase, what
//! the venue's answer to an order means, and how a run proceeds from start-up
//! to its end.
//!
//! The library holds every decision and performs no input or output. The
//! program around it reads the watchlist file, talks to the chain, the trading
//! service and the feed, and hands each outcome to an [`Orchestrator`], which
//! says what to do next.

pub mod checker;
pub mod config;
pub mod make_trade;
pub mod orchestrator;
pub mod payload;
pub mod text;
pub mod watchlist;

pub use checker::check;
pub use make_trade::{make_trade, ExecutionError, Fill, OrderResult};
pub use orchestrator::{Action, Event, Exit, Frame, Orchestrator, Phase, Stage, Subscription};
pub use payload::Payload;
pub use watchlist::{load_targets, ConfigError, Identity, Record, Watchlist};
