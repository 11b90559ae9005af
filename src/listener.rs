//! The group-membership listener: it turns the consumer-group client's
//! notifications into reports, and takes no action on the aggregate.

use vstd::prelude::*;

verus! {

/// What a membership notification is reported as.
#[derive(Clone, Copy, Debug, PartialEq, Eq, Structural)]
pub enum Notice {
    /// Partitions are about to be revoked or assigned.
    PreRebalance,
    /// A new assignment is active.
    PostRebalance,
    /// An asynchronous commit was acknowledged.
    Committed,
    /// An asynchronous commit came back with an error.
    CommitFailed,
}

/// Listener for rebalance and commit-completion notifications.
#[derive(Clone, Copy, Debug, PartialEq, Eq, Structural)]
pub struct CustomContext;

impl CustomContext {
    pub fn new() -> (r: CustomContext)
        ensures
            r == CustomContext,
    {
        CustomContext
    }

    /// Partitions are about to move.
    pub fn pre_rebalance(&self) -> (r: Notice)
        ensures
            r == Notice::PreRebalance,
    {
        Notice::PreRebalance
    }

    /// The new assignment is in place.
    pub fn post_rebalance(&self) -> (r: Notice)
        ensures
            r == Notice::PostRebalance,
    {
        Notice::PostRebalance
    }

    /// A commit finished; `ok` is whether the client reported success.
    pub fn commit_callback(&self, ok: bool) -> (r: Notice)
        ensures
            r == (if ok {
                Notice::Committed
            } else {
                Notice::CommitFailed
            }),
    {
        if ok {
            Notice::Committed
        } else {
            Notice::CommitFailed
        }
    }
}

} // verus!
