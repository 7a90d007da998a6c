//! The task store: a mapping from identifier to task record, and a counter of
//! the highest identifier handed out.
//!
//! The store keeps no rule of the marketplace. It writes whole records, reads
//! them back, and walks them in ascending order of identifier; an absent
//! identifier is an ordinary answer here, not an error.

use crate::task::Task;
use std::collections::HashMap;
use vstd::prelude::*;

verus! {

broadcast use vstd::std_specs::hash::group_hash_axioms;

/// What a store holds.
pub struct StoreState {
    /// The record written last under each identifier.
    pub records: Map<u64, Task>,
    /// The highest identifier handed out so far.
    pub count: u64,
}

/// The records of identifiers `1..=upto` that are present, in ascending order
/// of identifier.
pub open spec fn records_upto(records: Map<u64, Task>, upto: nat) -> Seq<Task>
    decreases upto,
{
    if upto == 0 {
        Seq::empty()
    } else {
        let before = records_upto(records, (upto - 1) as nat);
        if upto <= u64::MAX && records.contains_key(upto as u64) {
            before.push(records[upto as u64])
        } else {
            before
        }
    }
}

/// The store. It is the only owner of task records: readers get copies.
pub struct TaskStore {
    records: HashMap<u64, Task>,
    count: u64,
}

impl View for TaskStore {
    type V = StoreState;

    closed spec fn view(&self) -> StoreState {
        StoreState { records: self.records@, count: self.count }
    }
}

impl TaskStore {
    /// An empty store whose counter stands at zero.
    pub fn new() -> (store: Self)
        ensures
            store@.records == Map::<u64, Task>::empty(),
            store@.count == 0,
    {
        TaskStore { records: HashMap::new(), count: 0 }
    }

    /// The highest identifier handed out so far. Identifiers are never handed
    /// out twice, so this is also the number of tasks ever created.
    pub fn count(&self) -> (count: u64)
        ensures
            count == self@.count,
    {
        self.count
    }

    /// The identifier that the next task gets. The store is left as it is:
    /// the caller commits the identifier with [`TaskStore::advance_to`].
    pub fn next_id(&self) -> (id: u64)
        requires
            self@.count < u64::MAX,
        ensures
            id == self@.count + 1,
    {
        self.count + 1
    }

    /// Moves the counter to `id`.
    pub fn advance_to(&mut self, id: u64)
        ensures
            final(self)@.count == id,
            final(self)@.records == old(self)@.records,
    {
        self.count = id;
    }

    /// Writes the whole record `task` under `id`, whether or not a record was
    /// there before.
    pub fn insert_or_replace(&mut self, id: u64, task: Task)
        ensures
            final(self)@.records == old(self)@.records.insert(id, task),
            final(self)@.count == old(self)@.count,
    {
        self.records.insert(id, task);
    }

    /// The record under `id`, or `None` where there is none.
    pub fn get(&self, id: u64) -> (found: Option<Task>)
        ensures
            found == (if self@.records.contains_key(id) {
                Some(self@.records[id])
            } else {
                None
            }),
    {
        match self.records.get(&id) {
            Some(task) => Some(task.clone()),
            None => None,
        }
    }

    /// Every record with an identifier from 1 up to the counter, in ascending
    /// order of identifier. Identifiers without a record are skipped.
    pub fn scan(&self) -> (tasks: Vec<Task>)
        ensures
            tasks@ == records_upto(self@.records, self@.count as nat),
    {
        let mut tasks: Vec<Task> = Vec::new();
        let mut id: u64 = 0;
        while id < self.count
            invariant
                id <= self.count,
                tasks@ == records_upto(self@.records, id as nat),
            decreases self.count - id,
        {
            id = id + 1;
            match self.records.get(&id) {
                Some(task) => {
                    tasks.push(task.clone());
                },
                None => {},
            }
        }
        tasks
    }
}

} // verus!
