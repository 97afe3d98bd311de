//! Registration of tasks: a pool of blink tasks with a fixed number of
//! places.

use vstd::prelude::*;
use crate::nucleo::led::BlinkTask;

verus! {

/// Number of blink tasks that can be registered at a time.
pub const POOL_SIZE: usize = 3;

/// Why a task was not registered.
#[derive(Clone, Copy, Debug, PartialEq, Eq, Structural)]
pub enum SpawnError {
    /// Every place of the pool is taken.
    Busy,
}

/// The blink tasks that are registered, in the order in which they were.
pub struct TaskPool {
    tasks: Vec<BlinkTask>,
}

impl View for TaskPool {
    type V = Seq<BlinkTask>;

    /// The registered tasks, oldest first.
    closed spec fn view(&self) -> Seq<BlinkTask> {
        self.tasks@
    }
}

impl TaskPool {
    /// The pool is bounded: it never holds more than `POOL_SIZE` tasks.
    #[verifier::type_invariant]
    closed spec fn inv(&self) -> bool {
        self.tasks@.len() <= POOL_SIZE
    }

    /// A pool in which no task is registered.
    pub fn new() -> (pool: TaskPool)
        ensures
            pool@ == Seq::<BlinkTask>::empty(),
    {
        TaskPool { tasks: Vec::new() }
    }

    /// Number of registered tasks, which is never more than `POOL_SIZE`.
    pub fn len(&self) -> (n: usize)
        ensures
            n == self@.len(),
            n <= POOL_SIZE,
    {
        proof {
            use_type_invariant(self);
        }
        self.tasks.len()
    }

    /// Registers `task` and gives the place it took.
    ///
    /// A pool with a free place takes the task behind those it holds. A
    /// full pool, one that holds `POOL_SIZE` tasks, refuses it and stays as
    /// it was.
    pub fn spawn(&mut self, task: BlinkTask) -> (r: Result<usize, SpawnError>)
        ensures
            final(self)@.len() <= POOL_SIZE,
            match r {
                Ok(place) => old(self)@.len() < POOL_SIZE && place == old(self)@.len()
                    && final(self)@ == old(self)@.push(task),
                Err(e) => e == SpawnError::Busy && old(self)@.len() == POOL_SIZE && final(self)@
                    == old(self)@,
            },
    {
        proof {
            use_type_invariant(&*self);
        }
        let place = self.tasks.len();
        if place >= POOL_SIZE {
            return Err(SpawnError::Busy);
        }
        let mut held = TaskPool::new();
        core::mem::swap(self, &mut held);
        let TaskPool { mut tasks } = held;
        tasks.push(task);
        *self = TaskPool { tasks };
        Ok(place)
    }

    /// The task registered at `place`, if there is one.
    pub fn task(&self, place: usize) -> (task: Option<&BlinkTask>)
        ensures
            task == if place < self@.len() {
                Some(&self@[place as int])
            } else {
                None
            },
    {
        if place < self.tasks.len() {
            Some(&self.tasks[place])
        } else {
            None
        }
    }

    /// Hands the registered tasks over, oldest first.
    pub fn into_tasks(self) -> (tasks: Vec<BlinkTask>)
        ensures
            tasks@ == self@,
            tasks@.len() <= POOL_SIZE,
    {
        proof {
            use_type_invariant(&self);
        }
        self.tasks
    }
}

} // verus!
