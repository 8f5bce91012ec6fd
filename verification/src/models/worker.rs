use vstd::prelude::*;

verus! {

/// What a worker remembers, as mathematical values.
pub struct WorkerView {
    pub id: int,
    pub last_sender_id: int,
    pub last_message: Seq<char>,
}

/// The memory of a worker that has not received anything yet.
pub open spec fn fresh_worker(id: int) -> WorkerView {
    WorkerView { id, last_sender_id: 0, last_message: Seq::empty() }
}

/// A message processing unit. It remembers only the most recent sender and
/// the most recent message that it received.
#[derive(Debug)]
pub struct Worker {
    pub id: i32,
    pub last_sender_id: i32,
    pub last_message: String,
}

impl View for Worker {
    type V = WorkerView;

    open spec fn view(&self) -> WorkerView {
        WorkerView {
            id: self.id as int,
            last_sender_id: self.last_sender_id as int,
            last_message: self.last_message@,
        }
    }
}

impl Worker {
    /// A worker with the given id that has heard from nobody.
    pub fn new(id: i32) -> (worker: Worker)
        ensures
            worker@ == fresh_worker(id as int),
    {
        Worker { id, last_sender_id: 0, last_message: String::new() }
    }

    /// Overwrites the worker's memory with the sender and text of the
    /// message it has just received. The id stays as it is.
    pub fn update_state(&mut self, from_worker: i32, message: String)
        ensures
            final(self)@ == (WorkerView {
                id: old(self).id as int,
                last_sender_id: from_worker as int,
                last_message: message@,
            }),
    {
        self.last_sender_id = from_worker;
        self.last_message = message;
    }
}

} // verus!
