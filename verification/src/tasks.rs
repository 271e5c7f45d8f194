//! A list of tasks, numbered in the order they were added.

use vstd::prelude::*;
use std::collections::HashMap;

verus! {

/// Something to do, done or not.
#[derive(Clone, Debug)]
pub struct Task {
    pub description: String,
    pub completed: bool,
}

/// The tasks by number.
#[derive(Clone, Debug)]
pub struct TaskManager(pub HashMap<u32, Task>);

/// What can be asked of a thing that is done or not.
pub trait Completed {
    /// Whether it is done.
    spec fn is_completed(&self) -> bool;

    /// Whether it is done.
    fn completed(&self) -> (done: bool)
        ensures
            done == self.is_completed(),
    ;

    /// Marks it as done or as not done.
    fn set_status(&mut self, completed: bool)
        ensures
            final(self).is_completed() == completed,
    ;

    /// Turns done into not done, and not done into done.
    fn toggle_status(&mut self)
        ensures
            final(self).is_completed() == !old(self).is_completed(),
    ;
}

impl Task {
    /// A task that is not done yet.
    pub fn new(description: String) -> (task: Task)
        ensures
            task.description == description,
            !task.completed,
    {
        Task { description, completed: false }
    }
}

impl Completed for Task {
    open spec fn is_completed(&self) -> bool {
        self.completed
    }

    fn completed(&self) -> (done: bool) {
        self.completed
    }

    fn set_status(&mut self, completed: bool)
        ensures
            final(self).description == old(self).description,
    {
        self.completed = completed;
    }

    fn toggle_status(&mut self)
        ensures
            final(self).description == old(self).description,
    {
        self.completed = !self.completed
    }
}

/// The number that the next task gets: how many tasks there are, cut down
/// to 32 bits where there are more than `u32::MAX`.
pub open spec fn next_number(tasks: Map<u32, Task>) -> u32 {
    tasks.len() as usize as u32
}

impl TaskManager {
    /// A manager without tasks.
    pub fn new() -> (manager: TaskManager)
        ensures
            manager.0@ == Map::<u32, Task>::empty(),
    {
        let new_manager: HashMap<u32, Task> = HashMap::new();
        TaskManager(new_manager)
    }

    /// Adds `task` under the next number.
    pub fn add(&mut self, task: Task)
        ensures
            final(self).0@ == old(self).0@.insert(next_number(old(self).0@), task),
    {
        broadcast use vstd::std_specs::hash::group_hash_axioms;

        let len: usize = self.0.len();
        let count: u32 = #[verifier::truncate]
        (len as u32);
        self.0.insert(count, task);
    }

    /// All tasks, by number.
    pub fn get_tasks(&self) -> (tasks: &HashMap<u32, Task>)
        ensures
            *tasks == self.0,
    {
        &self.0
    }
}

} // verus!
