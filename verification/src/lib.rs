//! Crawl orchestration engine for a dataset-discovery agent.
//!
//! The library holds the verified core: the session state machine that
//! drives discovery rounds, deduplicates discovered items, enforces the
//! target-count stopping condition, classifies candidates, formats the
//! CSV export, and publishes every state change onto a lossy
//! multi-subscriber event bus.

pub mod events;
mod support;
pub mod text;
pub mod classify;
pub mod csv;
pub mod extract;
pub mod bus;
pub mod engine;
