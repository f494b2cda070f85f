//! Verified core of a real-time risk engine's market-data pipeline.
//!
//! The crate decides; a driver performs. Connecting, writing and reading a
//! streaming transport are left to the caller, which tells a [`session::Session`]
//! what happened and is told what to do next. Everything the pipeline decides on
//! the way is stated in contracts and proved: which address is connected to, the
//! one frame that subscribes to a ticker, and what becomes of every inbound frame.

pub mod dispatch;
pub mod endpoint;
pub mod error;
pub mod session;
pub mod subscription;
pub mod trace;
