//! Functional reactive programming: streams of discrete events and signals,
//! values that change over time, connected in a push-pull dependency graph
//! and updated atomically in transactions.

pub mod pending;
pub mod transaction;
pub mod shared;
pub mod source;
pub mod signal;
pub mod lift;
pub mod stream;
pub mod event;
pub mod readonly;
pub mod subject;

pub use crate::signal::{Signal, SignalCycle};
pub use crate::stream::{Events, Sink, Stream};
