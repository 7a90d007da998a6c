//! The ledger as a mathematical object: the sequence of all tasks in creation
//! order, and the three transitions on it.
//!
//! Every contract of [`crate::marketplace::TaskMarketplace`] is stated over the
//! functions of this module.

use crate::task::MarketError;
use crate::task::Task;
use crate::task::Transfer;
use stylus_sdk::alloy_primitives::Address;
use stylus_sdk::alloy_primitives::U256;
use vstd::prelude::*;

verus! {

/// What holds of every ledger: the task at position `i` has identifier
/// `i + 1`, so identifiers are unique and without gaps; every completed task
/// has an assignee; and the identifiers fit the machine.
pub open spec fn valid_ledger(tasks: Seq<Task>) -> bool {
    &&& tasks.len() <= u64::MAX
    &&& forall|i: int| 0 <= i < tasks.len() ==> (#[trigger] tasks[i]).id == i + 1
    &&& forall|i: int| 0 <= i < tasks.len() ==> (#[trigger] tasks[i]).settled()
}

/// Whether the ledger has a task with identifier `id`.
pub open spec fn holds(tasks: Seq<Task>, id: u64) -> bool {
    1 <= id <= tasks.len()
}

/// The task with identifier `id`, if the ledger has one.
pub open spec fn lookup(tasks: Seq<Task>, id: u64) -> Option<Task> {
    if holds(tasks, id) {
        Some(tasks[id - 1])
    } else {
        None
    }
}

/// The ledger after `creator` has posted a task: one more task at the end,
/// open, with the next identifier.
pub open spec fn created(
    tasks: Seq<Task>,
    creator: Address,
    description: String,
    reward: U256,
) -> Seq<Task> {
    tasks.push(Task::opened((tasks.len() + 1) as u64, description, reward, creator))
}

/// What an attempt to accept task `id` answers. Who attempts it plays no part.
pub open spec fn accept_outcome(tasks: Seq<Task>, id: u64) -> Result<(), MarketError> {
    match lookup(tasks, id) {
        None => Err(MarketError::NotFound),
        Some(task) => if task.assignee is Some {
            Err(MarketError::AlreadyAssigned)
        } else {
            Ok(())
        },
    }
}

/// The ledger after `caller` has attempted to accept task `id`: on success the
/// task has `caller` as its assignee, and nothing else has changed; on failure
/// nothing has changed at all.
pub open spec fn accepted(tasks: Seq<Task>, caller: Address, id: u64) -> Seq<Task> {
    if accept_outcome(tasks, id) is Ok {
        tasks.update(id - 1, tasks[id - 1].accepted_by(caller))
    } else {
        tasks
    }
}

/// What an attempt by `caller` to complete task `id` answers: on success, the
/// payment of the task's reward to `caller`, who is its assignee.
pub open spec fn complete_outcome(tasks: Seq<Task>, caller: Address, id: u64) -> Result<
    Transfer,
    MarketError,
> {
    match lookup(tasks, id) {
        None => Err(MarketError::NotFound),
        Some(task) => if task.assignee != Some(caller) {
            Err(MarketError::Unauthorized)
        } else if task.completed {
            Err(MarketError::AlreadyCompleted)
        } else {
            Ok(Transfer { recipient: caller, amount: task.reward })
        },
    }
}

/// The ledger after `caller` has attempted to complete task `id`: on success
/// the task is marked completed, and nothing else has changed; on failure
/// nothing has changed at all.
pub open spec fn completed(tasks: Seq<Task>, caller: Address, id: u64) -> Seq<Task> {
    if complete_outcome(tasks, caller, id) is Ok {
        tasks.update(id - 1, tasks[id - 1].finished())
    } else {
        tasks
    }
}

/// One request to the marketplace that may change the ledger.
pub enum Operation {
    /// `creator` posts a task.
    Create { creator: Address, description: String, reward: U256 },
    /// `caller` attempts to accept task `id`.
    Accept { caller: Address, id: u64 },
    /// `caller` attempts to complete task `id`.
    Complete { caller: Address, id: u64 },
}

/// The ledger after one request, whether it was granted or refused.
pub open spec fn applied(tasks: Seq<Task>, op: Operation) -> Seq<Task> {
    match op {
        Operation::Create { creator, description, reward } => created(
            tasks,
            creator,
            description,
            reward,
        ),
        Operation::Accept { caller, id } => accepted(tasks, caller, id),
        Operation::Complete { caller, id } => completed(tasks, caller, id),
    }
}

/// The ledger that a new marketplace reaches through the requests `ops`, made
/// one after the other.
pub open spec fn history(ops: Seq<Operation>) -> Seq<Task>
    decreases ops.len(),
{
    if ops.len() == 0 {
        Seq::empty()
    } else {
        applied(history(ops.drop_last()), ops.last())
    }
}

/// How many of the requests `ops` post a task.
pub open spec fn creations(ops: Seq<Operation>) -> nat
    decreases ops.len(),
{
    if ops.len() == 0 {
        0
    } else if ops.last() is Create {
        creations(ops.drop_last()) + 1
    } else {
        creations(ops.drop_last())
    }
}

/// How many times the requests `ops`, made one after the other to a new
/// marketplace, are answered with the payment for task `id`.
pub open spec fn payments(ops: Seq<Operation>, id: u64) -> nat
    decreases ops.len(),
{
    if ops.len() == 0 {
        0
    } else {
        let earlier = payments(ops.drop_last(), id);
        match ops.last() {
            Operation::Complete { caller, id: target } => if target == id && complete_outcome(
                history(ops.drop_last()),
                caller,
                id,
            ) is Ok {
                earlier + 1
            } else {
                earlier
            },
            _ => earlier,
        }
    }
}

} // verus!
