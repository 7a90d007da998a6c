//! A task-marketplace ledger.
//!
//! Parties post tasks with a reward. Another party accepts a task and later
//! completes it, which releases the reward to that party exactly once. The
//! ledger is the whole of the persistent state: a store of task records keyed
//! by a strictly increasing identifier, and a controller that validates every
//! transition before it writes.
//!
//! The caller's identity is an explicit argument of every state-changing
//! operation, and the reward payment is returned to the caller as a
//! [`task::Transfer`] to perform, so the ledger itself touches neither the
//! execution context nor the value-transfer primitive of its host.

pub mod laws;
pub mod ledger;
pub mod marketplace;
pub mod primitives;
pub mod store;
pub mod task;
