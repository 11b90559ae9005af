//! A worker core that folds add/sub events from a partitioned log into a
//! running total, decides when to publish a snapshot of it, and commits
//! consumption progress only after each snapshot.

pub mod amount;
pub mod envelope;
pub mod pipeline;
pub mod replay;
pub mod listener;
pub mod domain;
