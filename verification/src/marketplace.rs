//! The marketplace controller: the caller-facing operations on the ledger.
//!
//! Every operation reads the records it needs from the store, checks that the
//! transition is allowed, and only then writes. An operation that answers
//! with an error has written nothing.

use crate::ledger::accept_outcome;
use crate::ledger::accepted;
use crate::ledger::complete_outcome;
use crate::ledger::completed;
use crate::ledger::created;
use crate::ledger::lookup;
use crate::ledger::valid_ledger;
use crate::primitives::same_address;
use crate::store::records_upto;
use crate::store::StoreState;
use crate::store::TaskStore;
use crate::task::MarketError;
use crate::task::Task;
use crate::task::Transfer;
use stylus_sdk::alloy_primitives::Address;
use stylus_sdk::alloy_primitives::U256;
use vstd::prelude::*;

verus! {

/// The records of a store with identifiers 1 up to its counter, as a ledger.
spec fn in_order(state: StoreState) -> Seq<Task> {
    Seq::new(state.count as nat, |i: int| state.records[(i + 1) as u64])
}

/// What the controller keeps true of its store: exactly the identifiers from 1
/// up to the counter have a record, each record carries its own identifier,
/// and a completed task has an assignee.
spec fn gapless(state: StoreState) -> bool {
    &&& forall|id: u64| #[trigger] state.records.contains_key(id) <==> 1 <= id <= state.count
    &&& forall|id: u64| #[trigger]
        state.records.contains_key(id) ==> state.records[id].id == id && state.records[id].settled()
}

/// A store without gaps, read in order, is a valid ledger, and looking a task
/// up in that ledger is reading its record from the store.
proof fn lemma_in_order_valid(state: StoreState)
    requires
        gapless(state),
    ensures
        valid_ledger(in_order(state)),
        in_order(state).len() == state.count,
        forall|id: u64|
            lookup(in_order(state), id) == (if state.records.contains_key(id) {
                Some(state.records[id])
            } else {
                None
            }),
{
    let tasks = in_order(state);
    assert forall|i: int| 0 <= i < tasks.len() implies (#[trigger] tasks[i]).id == i + 1
        && tasks[i].settled() by {
        assert(state.records.contains_key((i + 1) as u64));
    }
}

/// Walking a store without gaps up to `upto` gives the first `upto` tasks of
/// its ledger.
proof fn lemma_scan_in_order(state: StoreState, upto: nat)
    requires
        gapless(state),
        upto <= state.count,
    ensures
        records_upto(state.records, upto) == in_order(state).take(upto as int),
    decreases upto,
{
    if upto > 0 {
        lemma_scan_in_order(state, (upto - 1) as nat);
    }
    assert(records_upto(state.records, upto) =~= in_order(state).take(upto as int));
}

/// Writing over the record of task `id` changes position `id - 1` of the
/// ledger and nothing else.
proof fn lemma_replace_in_order(state: StoreState, id: u64, task: Task)
    requires
        gapless(state),
        state.records.contains_key(id),
    ensures
        in_order(StoreState { records: state.records.insert(id, task), count: state.count })
            == in_order(state).update(id - 1, task),
{
    let after = StoreState { records: state.records.insert(id, task), count: state.count };
    assert(in_order(after) =~= in_order(state).update(id - 1, task));
}

/// Writing a record under the next identifier and moving the counter there
/// puts the record at the end of the ledger.
proof fn lemma_append_in_order(state: StoreState, task: Task)
    requires
        gapless(state),
        state.count < u64::MAX,
    ensures
        in_order(
            StoreState {
                records: state.records.insert((state.count + 1) as u64, task),
                count: (state.count + 1) as u64,
            },
        ) == in_order(state).push(task),
{
    let after = StoreState {
        records: state.records.insert((state.count + 1) as u64, task),
        count: (state.count + 1) as u64,
    };
    assert(in_order(after) =~= in_order(state).push(task));
}

/// A task marketplace. Its view is the ledger: all tasks in creation order.
pub struct TaskMarketplace {
    store: TaskStore,
}

impl View for TaskMarketplace {
    type V = Seq<Task>;

    closed spec fn view(&self) -> Seq<Task> {
        in_order(self.store@)
    }
}

impl TaskMarketplace {
    #[verifier::type_invariant]
    spec fn well_formed(&self) -> bool {
        gapless(self.store@)
    }

    /// A marketplace without tasks.
    pub fn new() -> (market: Self)
        ensures
            market@ == Seq::<Task>::empty(),
    {
        TaskMarketplace { store: TaskStore::new() }
    }

    /// The marketplace whose ledger is `tasks`, for a host that keeps the
    /// records between calls. The answer is `None` where `tasks` is no ledger:
    /// where some task does not carry the identifier of its position, counted
    /// from 1, or is completed without an assignee.
    pub fn restore(tasks: &[Task]) -> (restored: Option<Self>)
        ensures
            restored is Some <==> valid_ledger(tasks@),
            restored matches Some(market) ==> market@ == tasks@,
    {
        let mut store = TaskStore::new();
        let mut position: usize = 0;
        while position < tasks.len()
            invariant
                position <= tasks.len(),
                position <= u64::MAX,
                store@.count == position,
                gapless(store@),
                in_order(store@) == tasks@.take(position as int),
            decreases tasks.len() - position,
        {
            let task = tasks[position].clone();
            if task.id != position as u64 + 1 || (task.completed && task.assignee.is_none()) {
                return None;
            }
            proof {
                lemma_append_in_order(store@, task);
            }
            let id = store.next_id();
            store.insert_or_replace(id, task);
            store.advance_to(id);
            position = position + 1;
        }
        proof {
            assert(tasks@.take(position as int) =~= tasks@);
            lemma_in_order_valid(store@);
        }
        Some(TaskMarketplace { store })
    }

    /// Writes `task` over the record of an existing task.
    fn rewrite(&mut self, task_id: u64, task: Task)
        requires
            lookup(old(self)@, task_id) is Some,
            task.id == task_id,
            task.settled(),
        ensures
            final(self)@ == old(self)@.update(task_id - 1, task),
            valid_ledger(final(self)@),
    {
        proof {
            use_type_invariant(&*self);
            lemma_in_order_valid(self.store@);
            lemma_replace_in_order(self.store@, task_id, task);
        }
        // The store is taken out while it is written to and put back whole.
        let mut store = TaskStore::new();
        std::mem::swap(&mut store, &mut self.store);
        store.insert_or_replace(task_id, task);
        proof {
            lemma_in_order_valid(store@);
        }
        self.store = store;
    }

    /// The number of tasks created so far, which is the identifier of the
    /// newest one.
    pub fn task_count(&self) -> (count: u64)
        ensures
            count == self@.len(),
            valid_ledger(self@),
    {
        proof {
            use_type_invariant(self);
            lemma_in_order_valid(self.store@);
        }
        self.store.count()
    }

    /// Posts a task on behalf of `caller` and returns its identifier.
    pub fn create_task(&mut self, caller: Address, description: String, reward: U256) -> (id: u64)
        requires
            old(self)@.len() < u64::MAX,
        ensures
            id == old(self)@.len() + 1,
            final(self)@ == created(old(self)@, caller, description, reward),
            valid_ledger(final(self)@),
    {
        proof {
            use_type_invariant(&*self);
            lemma_in_order_valid(self.store@);
        }
        let mut store = TaskStore::new();
        std::mem::swap(&mut store, &mut self.store);
        let ghost before = store@;
        let id = store.next_id();
        let task = Task {
            id,
            description,
            reward,
            creator: caller,
            assignee: None,
            completed: false,
        };
        store.insert_or_replace(id, task);
        store.advance_to(id);
        proof {
            lemma_append_in_order(before, task);
        }
        self.store = store;
        id
    }

    /// Makes `caller` the assignee of task `task_id`.
    ///
    /// Fails with `NotFound` where there is no such task, and with
    /// `AlreadyAssigned` where the task has an assignee, whoever that is.
    pub fn accept_task(&mut self, caller: Address, task_id: u64) -> (outcome: Result<
        (),
        MarketError,
    >)
        ensures
            outcome == accept_outcome(old(self)@, task_id),
            final(self)@ == accepted(old(self)@, caller, task_id),
            valid_ledger(final(self)@),
    {
        proof {
            use_type_invariant(&*self);
            lemma_in_order_valid(self.store@);
        }
        match self.store.get(task_id) {
            None => Err(MarketError::NotFound),
            Some(task) => {
                if task.assignee.is_some() {
                    return Err(MarketError::AlreadyAssigned);
                }
                let mut task = task;
                task.assignee = Some(caller);
                self.rewrite(task_id, task);
                Ok(())
            },
        }
    }

    /// Marks task `task_id` completed on behalf of `caller`, its assignee, and
    /// returns the payment of the reward that is now due to `caller`.
    ///
    /// Fails with `NotFound` where there is no such task, with `Unauthorized`
    /// where `caller` is not its assignee (an open task has none), and with
    /// `AlreadyCompleted` where it was completed before. The record is written
    /// before the payment is handed out, and only a successful call hands one
    /// out, so no task is ever paid twice.
    pub fn complete_task(&mut self, caller: Address, task_id: u64) -> (outcome: Result<
        Transfer,
        MarketError,
    >)
        ensures
            outcome == complete_outcome(old(self)@, caller, task_id),
            final(self)@ == completed(old(self)@, caller, task_id),
            valid_ledger(final(self)@),
    {
        proof {
            use_type_invariant(&*self);
            lemma_in_order_valid(self.store@);
        }
        match self.store.get(task_id) {
            None => Err(MarketError::NotFound),
            Some(task) => {
                let assigned_to_caller = match task.assignee {
                    Some(assignee) => same_address(&assignee, &caller),
                    None => false,
                };
                if !assigned_to_caller {
                    return Err(MarketError::Unauthorized);
                }
                if task.completed {
                    return Err(MarketError::AlreadyCompleted);
                }
                let payment = Transfer { recipient: caller, amount: task.reward };
                let mut task = task;
                task.completed = true;
                self.rewrite(task_id, task);
                Ok(payment)
            },
        }
    }

    /// The record of task `task_id`, or `NotFound` where there is none.
    pub fn get_task(&self, task_id: u64) -> (found: Result<Task, MarketError>)
        ensures
            found == (match lookup(self@, task_id) {
                Some(task) => Ok::<Task, MarketError>(task),
                None => Err(MarketError::NotFound),
            }),
            valid_ledger(self@),
    {
        proof {
            use_type_invariant(self);
            lemma_in_order_valid(self.store@);
        }
        match self.store.get(task_id) {
            Some(task) => Ok(task),
            None => Err(MarketError::NotFound),
        }
    }

    /// Every task, in ascending order of identifier: the task with identifier
    /// `i + 1` stands at position `i`, in the state in which it was last
    /// written.
    pub fn get_all_tasks(&self) -> (tasks: Vec<Task>)
        ensures
            tasks@ == self@,
            valid_ledger(self@),
    {
        proof {
            use_type_invariant(self);
            lemma_in_order_valid(self.store@);
            lemma_scan_in_order(self.store@, self.store@.count as nat);
        }
        self.store.scan()
    }
}

} // verus!
