//! Core bookkeeping and state-transition logic for a crowdfunding platform.
//!
//! Creators register products with a funding goal and a deadline; backers
//! contribute funds; once the goal is met, the creator must complete delivery
//! milestones before funds are released; backers who contributed enough may
//! claim a reward tier. If the deadline passes without the goal being reached,
//! the product fails and contributions are returned.
//!
//! The surrounding execution environment (caller authentication, a clock,
//! durable storage, token transfers) is out of scope: callers pass the
//! authenticated identity and the current time in as plain values, and the
//! engine keeps all records in memory.

pub mod engine;
pub mod laws;
pub mod types;
