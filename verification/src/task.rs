//! Task records, the payment released on completion, and the ledger's errors.

use stylus_sdk::alloy_primitives::Address;
use stylus_sdk::alloy_primitives::U256;
use vstd::prelude::*;

verus! {

/// A unit of work with a reward.
///
/// A task is *open* while `assignee` is `None`, *assigned* once an identity has
/// accepted it, and *completed* once that identity has finished it. Neither
/// step is ever undone.
#[derive(Debug, PartialEq, Eq)]
pub struct Task {
    /// Position of the task in creation order, counted from 1.
    pub id: u64,
    /// Free text; the ledger never interprets it.
    pub description: String,
    /// Amount released to the assignee on completion.
    pub reward: U256,
    /// Identity that created the task.
    pub creator: Address,
    /// Identity that accepted the task, if any did.
    pub assignee: Option<Address>,
    /// Whether the assignee has completed the task.
    pub completed: bool,
}

/// The payment that a successful completion releases: `amount` is owed to
/// `recipient`, once.
#[derive(Debug, Clone, Copy, PartialEq, Eq)]
pub struct Transfer {
    pub recipient: Address,
    pub amount: U256,
}

/// Why the ledger refused an operation. A refused operation changes nothing.
#[derive(Debug, Clone, Copy, PartialEq, Eq)]
pub enum MarketError {
    /// No task has the given identifier.
    NotFound,
    /// The task already has an assignee.
    AlreadyAssigned,
    /// The caller is not the task's assignee (an open task has none).
    Unauthorized,
    /// The task was completed before.
    AlreadyCompleted,
}

impl Task {
    /// The record of a task that was just created: open and not completed.
    pub open spec fn opened(id: u64, description: String, reward: U256, creator: Address) -> Task {
        Task { id, description, reward, creator, assignee: None, completed: false }
    }

    /// The same record with `who` as its assignee.
    pub open spec fn accepted_by(self, who: Address) -> Task {
        Task { assignee: Some(who), ..self }
    }

    /// The same record, marked completed.
    pub open spec fn finished(self) -> Task {
        Task { completed: true, ..self }
    }

    /// A completed task has an assignee.
    pub open spec fn settled(self) -> bool {
        self.completed ==> self.assignee is Some
    }
}

impl Clone for Task {
    fn clone(&self) -> (copy: Self)
        ensures
            copy == *self,
    {
        Task {
            id: self.id,
            description: self.description.clone(),
            reward: self.reward,
            creator: self.creator,
            assignee: self.assignee,
            completed: self.completed,
        }
    }
}

} // verus!
