//! Core runtime of an event-driven blockchain validator node.
//!
//! The node is driven by a single ordered event loop: a runner owns one
//! reactor, repeatedly pulls the next event, dispatches it to exactly one
//! component, and collects the effects the component requests.  The node
//! boots in two phases: an initializer reactor performs chain genesis or an
//! upgrade, and only on its successful completion does the bootstrap
//! sequencer promote the node to a validator reactor.

pub mod components;
pub mod config;
pub mod effect;
pub mod error;
pub mod event;
pub mod reactor;
pub mod rng;
pub mod runner;
pub mod sequencer;
pub mod types;
