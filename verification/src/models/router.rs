use std::collections::HashMap;
use vstd::prelude::*;
use vstd::std_specs::hash::group_hash_axioms;
use super::data::Data;
use super::error::Error;
use super::message::MessageState;
use super::message::MessageStateView;
use super::message::render_messages;
use super::message::states_view;
use super::message::transcript;
use super::routing::Pool;
use super::routing::delays_fit;
use super::routing::emitted;
use super::routing::emitted_stream;
use super::routing::first_failure;
use super::routing::initial_pool;
use super::routing::leading_len;
use super::routing::leading_records;
use super::routing::lemma_leading_len;
use super::routing::pool_after;
use super::routing::pool_after_all;
use super::routing::records_before;
use super::routing::row_view;
use super::routing::rows_view;
use super::routing::total_delay;
use super::routing::valid_pool;
use super::worker::Worker;
use super::worker::WorkerView;
use super::worker::fresh_worker;

verus! {

/// The view of a state that may or may not have been emitted.
pub open spec fn emitted_view(sent: Option<MessageState>) -> Option<MessageStateView> {
    match sent {
        Some(state) => Some(state@),
        None => None,
    }
}

/// The number of milliseconds for which the replay waits before a record
/// with the given delay is processed. A negative delay is read as the
/// unsigned 64-bit number with the same bits, which is a very long wait.
pub open spec fn wait_millis(interval: int) -> int {
    if interval >= 0 {
        interval
    } else {
        interval + 0x1_0000_0000_0000_0000
    }
}

/// Computes the wait before a record with the given delay.
pub fn delay_millis(interval: i64) -> (millis: u64)
    ensures
        millis == wait_millis(interval as int),
{
    if interval >= 0 {
        interval as u64
    } else {
        u64::MAX - ((-(interval + 1)) as u64)
    }
}

/// The dispatcher: it owns the worker pool and the running total of the
/// delays of the records it has processed.
pub struct Manager {
    workers: HashMap<i32, Worker>,
    total_elapsed: i64,
}

impl Manager {
    /// The pool as a map from worker id to worker memory.
    pub closed spec fn pool(&self) -> Pool {
        Map::new(
            |id: int| i32::MIN <= id <= i32::MAX && self.workers@.contains_key(id as i32),
            |id: int| self.workers@[id as i32]@,
        )
    }

    /// The delay accumulated over all records processed so far.
    pub closed spec fn elapsed(&self) -> int {
        self.total_elapsed as int
    }

    /// The invariant of a dispatcher: its pool is valid.
    pub open spec fn wf(&self) -> bool {
        valid_pool(self.pool())
    }

    /// An empty dispatcher: no workers yet, no delay accumulated.
    pub fn new() -> (manager: Manager)
        ensures
            manager.wf(),
            manager.pool() == Map::<int, WorkerView>::empty(),
            manager.elapsed() == 0,
    {
        let manager = Manager { workers: HashMap::new(), total_elapsed: 0 };
        assert(manager.pool() =~= Map::<int, WorkerView>::empty());
        manager
    }

    /// Sets up the pool: workers 1 to 5, each with an empty memory. Workers
    /// that were in the pool before are replaced. The result lists the ids
    /// of the workers, each of which needs an outbound channel.
    pub fn initialize_workers(&mut self) -> (ids: Vec<i32>)
        requires
            old(self).wf(),
        ensures
            final(self).wf(),
            final(self).pool() == initial_pool(),
            final(self).elapsed() == old(self).elapsed(),
            ids@ == seq![1i32, 2i32, 3i32, 4i32, 5i32],
    {
        broadcast use group_hash_axioms;

        let ghost before = self.pool();
        let mut ids: Vec<i32> = Vec::new();
        let mut worker_id: i32 = 1;
        while worker_id <= 5
            invariant
                1 <= worker_id <= 6,
                valid_pool(before),
                self.elapsed() == old(self).elapsed(),
                ids@.len() == worker_id - 1,
                forall|j: int| 0 <= j < ids@.len() ==> ids@[j] == j + 1,
                self.pool() == Map::new(
                    |id: int| before.contains_key(id) || 1 <= id < worker_id,
                    |id: int|
                        if 1 <= id < worker_id {
                            fresh_worker(id)
                        } else {
                            before[id]
                        },
                ),
            decreases 6 - worker_id,
        {
            let ghost next = worker_id + 1;
            let ghost earlier = self.pool();
            self.workers.insert(worker_id, Worker::new(worker_id));
            ids.push(worker_id);
            assert(self.pool() =~= earlier.insert(worker_id as int, fresh_worker(worker_id as int)));
            worker_id = worker_id + 1;
            assert(self.pool() =~= Map::new(
                |id: int| before.contains_key(id) || 1 <= id < next,
                |id: int|
                    if 1 <= id < next {
                        fresh_worker(id)
                    } else {
                        before[id]
                    },
            ));
        }
        assert(self.pool() =~= initial_pool());
        assert(ids@ =~= seq![1i32, 2i32, 3i32, 4i32, 5i32]);
        ids
    }

    /// Tells whether the running total can take the delay of `message`
    /// without leaving the range of a 64-bit signed integer, which is what
    /// `dispatch` asks for.
    pub fn can_dispatch(&self, message: &Data) -> (fits: bool)
        ensures
            fits == (i64::MIN <= self.elapsed() + message.interval <= i64::MAX),
    {
        self.total_elapsed.checked_add(message.interval).is_some()
    }

    /// Processes one routing record. The record's delay is added to the
    /// running total whether or not the record can be routed. If the sender
    /// is not in the pool the record is dropped. Otherwise the destination,
    /// if it is in the pool, remembers the sender and the text, and the
    /// returned state is what goes out on the sender's channel.
    pub fn dispatch(&mut self, message: Data) -> (sent: Option<MessageState>)
        requires
            old(self).wf(),
            i64::MIN <= old(self).elapsed() + message.interval <= i64::MAX,
        ensures
            final(self).wf(),
            final(self).elapsed() == old(self).elapsed() + message.interval,
            final(self).pool() == pool_after(old(self).pool(), message@),
            emitted_view(sent) == emitted(old(self).pool(), old(self).elapsed(), message@),
    {
        broadcast use group_hash_axioms;

        let ghost before = self.pool();
        self.total_elapsed = self.total_elapsed + message.interval;
        let sender_id = message.worker;
        let destination_id = message.destination_worker;
        let memory = match self.workers.get(&sender_id) {
            Some(worker) => Some((worker.last_sender_id, worker.last_message.clone())),
            None => None,
        };
        match memory {
            None => {
                assert(self.pool() =~= before);
                None
            },
            Some((last_sender_id, last_heard)) => {
                let text = message.message.clone();
                let mut msg_state = MessageState::from(message);
                msg_state.routing.last_sender_id = last_sender_id;
                msg_state.state.last_heard = last_heard;
                msg_state.timing.total_elapsed_ms = self.total_elapsed;
                match self.workers.remove(&destination_id) {
                    Some(mut destination) => {
                        destination.update_state(sender_id, text);
                        self.workers.insert(destination_id, destination);
                    },
                    None => {},
                }
                assert(self.pool() =~= pool_after(before, message@));
                Some(msg_state)
            },
        }
    }

    /// Processes the rows in order, up to the first failed row. Without a
    /// failed row the result holds the emitted states in the order of their
    /// records. With one, the run stops there: the result is that row's
    /// error and no state is handed out, while the dispatcher stays as the
    /// rows before it left it.
    pub fn replay(&mut self, rows: Vec<Result<Data, Error>>) -> (result: Result<
        Vec<MessageState>,
        Error,
    >)
        requires
            old(self).wf(),
            delays_fit(old(self).elapsed(), leading_records(rows_view(rows@))),
        ensures
            final(self).wf(),
            final(self).pool() == pool_after_all(
                old(self).pool(),
                leading_records(rows_view(rows@)),
            ),
            final(self).elapsed() == old(self).elapsed() + total_delay(
                leading_records(rows_view(rows@)),
            ),
            match result {
                Ok(states) => {
                    &&& first_failure(rows_view(rows@)) is None
                    &&& states_view(states@) == emitted_stream(
                        old(self).pool(),
                        old(self).elapsed(),
                        leading_records(rows_view(rows@)),
                    )
                },
                Err(error) => first_failure(rows_view(rows@)) == Some(error@),
            },
    {
        let ghost all = rows_view(rows@);
        let ghost pool = self.pool();
        let ghost elapsed = self.elapsed();
        proof {
            lemma_leading_len(all);
        }
        let mut states: Vec<MessageState> = Vec::new();
        for row in it: rows
            invariant
                it.seq() == rows@,
                all == rows_view(rows@),
                pool == old(self).pool(),
                elapsed == old(self).elapsed(),
                self.wf(),
                delays_fit(elapsed, leading_records(all)),
                0 <= leading_len(all) <= all.len(),
                forall|j: int| 0 <= j < leading_len(all) ==> (#[trigger] all[j]) is Ok,
                leading_len(all) < all.len() ==> all[leading_len(all)] is Err,
                forall|j: int| 0 <= j < it.index() ==> (#[trigger] all[j]) is Ok,
                self.pool() == pool_after_all(pool, records_before(all, it.index() as int)),
                self.elapsed() == elapsed + total_delay(records_before(all, it.index() as int)),
                states_view(states@) == emitted_stream(
                    pool,
                    elapsed,
                    records_before(all, it.index() as int),
                ),
        {
            let ghost done = it.index() as int;
            assert(all[done] == row_view(row));
            match row {
                Err(error) => {
                    return Err(error);
                },
                Ok(data) => {
                    let ghost next = records_before(all, done + 1);
                    assert(next.drop_last() =~= records_before(all, done));
                    assert(next.take(done) =~= records_before(all, done));
                    assert(leading_records(all).take(done + 1) =~= next);
                    assert(total_delay(leading_records(all).take(done + 1)) == total_delay(next));
                    let ghost earlier = states_view(states@);
                    match self.dispatch(data) {
                        Some(state) => {
                            states.push(state);
                            assert(states_view(states@) =~= earlier.push(state@));
                        },
                        None => {},
                    }
                },
            }
        }
        Ok(states)
    }

    /// A whole run: sets up the pool, replays the rows, tears the pool down
    /// and hands back the text of every emitted state, in the order of the
    /// records. A failed row ends the run at once: the result is its error,
    /// there is no text at all, and the pool is left as the rows before the
    /// failed one made it.
    pub fn setup(&mut self, rows: Vec<Result<Data, Error>>, verbose: bool) -> (result: Result<
        String,
        Error,
    >)
        requires
            old(self).wf(),
            delays_fit(old(self).elapsed(), leading_records(rows_view(rows@))),
        ensures
            final(self).wf(),
            final(self).elapsed() == old(self).elapsed() + total_delay(
                leading_records(rows_view(rows@)),
            ),
            match result {
                Ok(text) => {
                    &&& first_failure(rows_view(rows@)) is None
                    &&& text@ == transcript(
                        emitted_stream(
                            initial_pool(),
                            old(self).elapsed(),
                            leading_records(rows_view(rows@)),
                        ),
                        verbose,
                    )
                    &&& final(self).pool() == Map::<int, WorkerView>::empty()
                },
                Err(error) => {
                    &&& first_failure(rows_view(rows@)) == Some(error@)
                    &&& final(self).pool() == pool_after_all(
                        initial_pool(),
                        leading_records(rows_view(rows@)),
                    )
                },
            },
    {
        let _ = self.initialize_workers();
        match self.replay(rows) {
            Ok(states) => {
                self.cleanup();
                Ok(render_messages(&states, verbose))
            },
            Err(error) => Err(error),
        }
    }

    /// Tears the pool down: no worker is left. The running total stays.
    pub fn cleanup(&mut self)
        requires
            old(self).wf(),
        ensures
            final(self).wf(),
            final(self).pool() == Map::<int, WorkerView>::empty(),
            final(self).elapsed() == old(self).elapsed(),
    {
        self.workers.clear();
        assert(self.pool() =~= Map::<int, WorkerView>::empty());
    }

    /// The delay accumulated over all records processed so far.
    pub fn total_elapsed(&self) -> (total: i64)
        ensures
            total == self.elapsed(),
    {
        self.total_elapsed
    }

    /// The worker with the given id, if the pool holds one.
    pub fn worker(&self, id: i32) -> (found: Option<&Worker>)
        ensures
            match found {
                Some(worker) => self.pool().contains_key(id as int) && worker@ == self.pool()[id as int],
                None => !self.pool().contains_key(id as int),
            },
    {
        broadcast use group_hash_axioms;

        self.workers.get(&id)
    }
}

} // verus!
