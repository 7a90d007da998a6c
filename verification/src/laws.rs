//! What holds of the ledger whatever is asked of it.
//!
//! The laws are stated over the transitions of [`crate::ledger`], which are
//! what the operations of the marketplace are proved to carry out: a
//! marketplace that has served the requests `ops` since it was new has the
//! ledger `history(ops)`.

use crate::ledger::accept_outcome;
use crate::ledger::accepted;
use crate::ledger::applied;
use crate::ledger::complete_outcome;
use crate::ledger::completed;
use crate::ledger::creations;
use crate::ledger::history;
use crate::ledger::holds;
use crate::ledger::lookup;
use crate::ledger::payments;
use crate::ledger::valid_ledger;
use crate::ledger::Operation;
use crate::task::MarketError;
use crate::task::Task;
use crate::task::Transfer;
use stylus_sdk::alloy_primitives::Address;
use vstd::prelude::*;

verus! {

/// A valid ledger stays valid under every request, as long as the identifiers
/// do not run out. Only a creation makes the ledger longer, by one task.
pub proof fn law_requests_keep_the_ledger_valid(tasks: Seq<Task>, op: Operation)
    requires
        valid_ledger(tasks),
        op is Create ==> tasks.len() < u64::MAX,
    ensures
        valid_ledger(applied(tasks, op)),
        applied(tasks, op).len() == tasks.len() + (if op is Create {
            1nat
        } else {
            0nat
        }),
{
}

/// Whatever requests a new marketplace has served, and in whatever order, no
/// task is completed without an assignee.
pub proof fn law_completed_tasks_have_an_assignee(ops: Seq<Operation>)
    ensures
        forall|i: int|
            0 <= i < history(ops).len() ==> !((#[trigger] history(ops)[i]).completed
                && history(ops)[i].assignee is None),
    decreases ops.len(),
{
    if ops.len() > 0 {
        law_completed_tasks_have_an_assignee(ops.drop_last());
    }
}

/// After `n` tasks were created, in between any other requests, the ledger
/// lists exactly `n` tasks. While the identifiers have not run out the ledger
/// is valid, so that the task with identifier `id` stands at position
/// `id - 1`, for every `id` from 1 to `n`.
pub proof fn law_every_creation_adds_one_task(ops: Seq<Operation>)
    ensures
        history(ops).len() == creations(ops),
        creations(ops) <= ops.len(),
        ops.len() <= u64::MAX ==> valid_ledger(history(ops)),
        ops.len() <= u64::MAX ==> forall|id: u64|
            1 <= id <= creations(ops) ==> (#[trigger] lookup(history(ops), id)) is Some && lookup(
                history(ops),
                id,
            )->Some_0.id == id,
    decreases ops.len(),
{
    if ops.len() > 0 {
        law_every_creation_adds_one_task(ops.drop_last());
        if ops.len() <= u64::MAX {
            law_requests_keep_the_ledger_valid(history(ops.drop_last()), ops.last());
        }
    }
    let tasks = history(ops);
    if ops.len() <= u64::MAX {
        assert forall|id: u64| 1 <= id <= creations(ops) implies (#[trigger] lookup(tasks, id))
            is Some && lookup(tasks, id)->Some_0.id == id by {
            assert(tasks[id - 1].id == id);
        }
    }
}

/// No request takes a task away, undoes an assignment or a completion, or
/// changes to whom a task is assigned, what it pays, what it says or who
/// created it.
pub proof fn law_progress_is_never_undone(tasks: Seq<Task>, op: Operation, id: u64)
    requires
        holds(tasks, id),
    ensures
        holds(applied(tasks, op), id),
        ({
            let before = tasks[id - 1];
            let after = applied(tasks, op)[id - 1];
            &&& after.id == before.id
            &&& after.description == before.description
            &&& after.reward == before.reward
            &&& after.creator == before.creator
            &&& before.assignee is Some ==> after.assignee == before.assignee
            &&& before.completed ==> after.completed
        }),
{
}

/// Accepting a task that was just accepted fails with `AlreadyAssigned`,
/// whether the same identity tries again or another one does, and the task
/// stays with the identity that accepted it first.
pub proof fn law_second_accept_is_refused(
    tasks: Seq<Task>,
    id: u64,
    first: Address,
    second: Address,
)
    requires
        accept_outcome(tasks, id) is Ok,
    ensures
        accept_outcome(accepted(tasks, first, id), id) == Err::<(), MarketError>(
            MarketError::AlreadyAssigned,
        ),
        accepted(accepted(tasks, first, id), second, id) == accepted(tasks, first, id),
        lookup(accepted(accepted(tasks, first, id), second, id), id)->Some_0.assignee == Some(
            first,
        ),
{
}

/// Where a task is assigned to one identity and another one attempts to
/// complete it, the attempt fails with `Unauthorized` and the ledger is left
/// as it was. So a task that was not completed before is not completed after.
pub proof fn law_only_the_assignee_completes(
    tasks: Seq<Task>,
    id: u64,
    assignee: Address,
    other: Address,
)
    requires
        holds(tasks, id),
        tasks[id - 1].assignee == Some(assignee),
        other != assignee,
    ensures
        complete_outcome(tasks, other, id) == Err::<Transfer, MarketError>(
            MarketError::Unauthorized,
        ),
        completed(tasks, other, id) == tasks,
        !tasks[id - 1].completed ==> !completed(tasks, other, id)[id - 1].completed,
{
}

/// Of two attempts in a row to complete a task, of which the first succeeds,
/// the second fails with `AlreadyCompleted` and changes nothing. Since only a
/// successful attempt answers with a payment, the two together answer with
/// exactly one: the task's reward, to its assignee.
pub proof fn law_second_completion_is_refused(tasks: Seq<Task>, id: u64, caller: Address)
    requires
        complete_outcome(tasks, caller, id) is Ok,
    ensures
        tasks[id - 1].assignee == Some(caller),
        complete_outcome(tasks, caller, id) == Ok::<Transfer, MarketError>(
            Transfer { recipient: caller, amount: tasks[id - 1].reward },
        ),
        complete_outcome(completed(tasks, caller, id), caller, id) == Err::<Transfer, MarketError>(
            MarketError::AlreadyCompleted,
        ),
        completed(completed(tasks, caller, id), caller, id) == completed(tasks, caller, id),
        lookup(completed(tasks, caller, id), id)->Some_0.completed,
{
}

/// A payment is handed out exactly when a task goes from not completed to
/// completed, and it goes to the task's assignee.
pub proof fn law_payment_marks_the_completion(tasks: Seq<Task>, id: u64, caller: Address)
    requires
        holds(tasks, id),
    ensures
        complete_outcome(tasks, caller, id) is Ok <==> !tasks[id - 1].completed && completed(
            tasks,
            caller,
            id,
        )[id - 1].completed,
        complete_outcome(tasks, caller, id) matches Ok(payment) ==> Some(payment.recipient)
            == tasks[id - 1].assignee && payment.amount == tasks[id - 1].reward,
{
}

/// Whatever requests a new marketplace has served, and in whatever order: a
/// task that is completed was paid exactly once, and every other identifier
/// was never paid.
pub proof fn law_a_task_is_paid_once(ops: Seq<Operation>, id: u64)
    ensures
        payments(ops, id) == (if holds(history(ops), id) && history(ops)[id - 1].completed {
            1nat
        } else {
            0nat
        }),
    decreases ops.len(),
{
    if ops.len() > 0 {
        law_a_task_is_paid_once(ops.drop_last(), id);
    }
}

} // verus!
