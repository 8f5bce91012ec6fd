use vstd::prelude::*;
use super::data::Data;
use super::data::DataView;
use super::error::Error;
use super::error::ErrorView;
use super::message::MessageStateView;
use super::worker::WorkerView;
use super::worker::fresh_worker;

verus! {

/// The pool of workers as a map from worker id to what that worker
/// remembers.
pub type Pool = Map<int, WorkerView>;

/// Every worker of the pool is filed under its own id, and the ids are
/// among the five that a pool is set up with.
pub open spec fn valid_pool(pool: Pool) -> bool {
    forall|id: int| #[trigger]
        pool.contains_key(id) ==> 1 <= id <= 5 && pool[id].id == id
}

/// The pool right after it is set up: workers 1 to 5, none of which has
/// received anything.
pub open spec fn initial_pool() -> Pool {
    Map::new(|id: int| 1 <= id <= 5, |id: int| fresh_worker(id))
}

/// The state that processing `record` hands to its sender's outbound
/// channel, given the pool as it stands before the record is processed and
/// the delay accumulated before it. A record whose sender is not in the pool
/// yields nothing. The state carries what the sender itself remembered
/// before this record, and the accumulated delay including this record's.
pub open spec fn emitted(pool: Pool, elapsed: int, record: DataView) -> Option<MessageStateView> {
    if pool.contains_key(record.worker) {
        Some(
            MessageStateView {
                content: record.message,
                last_heard: pool[record.worker].last_message,
                interval_ms: record.interval,
                total_elapsed_ms: elapsed + record.interval,
                sender_id: record.worker,
                recipient_id: record.destination_worker,
                last_sender_id: pool[record.worker].last_sender_id,
            },
        )
    } else {
        None
    }
}

/// The pool after `record` is processed. Where both its sender and its
/// destination are in the pool, the destination remembers the sender and the
/// text; in every other case nothing changes.
pub open spec fn pool_after(pool: Pool, record: DataView) -> Pool {
    if pool.contains_key(record.worker) && pool.contains_key(record.destination_worker) {
        pool.insert(
            record.destination_worker,
            WorkerView {
                id: pool[record.destination_worker].id,
                last_sender_id: record.worker,
                last_message: record.message,
            },
        )
    } else {
        pool
    }
}

/// The sum of the delays of `records`.
pub open spec fn total_delay(records: Seq<DataView>) -> int
    decreases records.len(),
{
    if records.len() == 0 {
        0
    } else {
        total_delay(records.drop_last()) + records.last().interval
    }
}

/// The pool after all of `records` are processed in order.
pub open spec fn pool_after_all(pool: Pool, records: Seq<DataView>) -> Pool
    decreases records.len(),
{
    if records.len() == 0 {
        pool
    } else {
        pool_after(pool_after_all(pool, records.drop_last()), records.last())
    }
}

/// What the record at position `k` of `records` emits when the records are
/// processed in order, starting from `pool` with `elapsed` milliseconds
/// already accumulated.
pub open spec fn emitted_at(pool: Pool, elapsed: int, records: Seq<DataView>, k: int) -> Option<
    MessageStateView,
> {
    emitted(
        pool_after_all(pool, records.take(k)),
        elapsed + total_delay(records.take(k)),
        records[k],
    )
}

/// The states emitted while `records` are processed in order, in the order
/// in which they are emitted.
pub open spec fn emitted_stream(pool: Pool, elapsed: int, records: Seq<DataView>) -> Seq<
    MessageStateView,
>
    decreases records.len(),
{
    if records.len() == 0 {
        Seq::empty()
    } else {
        let before = emitted_stream(pool, elapsed, records.drop_last());
        match emitted_at(pool, elapsed, records, records.len() - 1) {
            Some(state) => before.push(state),
            None => before,
        }
    }
}

/// A row of the message store as mathematical values: the record it holds,
/// or the reason why it holds none.
pub type Row = Result<DataView, ErrorView>;

/// The view of one row.
pub open spec fn row_view(row: Result<Data, Error>) -> Row {
    match row {
        Ok(data) => Ok(data@),
        Err(error) => Err(error@),
    }
}

/// The views of the rows, in order.
pub open spec fn rows_view(rows: Seq<Result<Data, Error>>) -> Seq<Row> {
    Seq::new(rows.len(), |j: int| row_view(rows[j]))
}

/// The number of rows that stand before the first failed row; the number of
/// all rows if none failed.
pub open spec fn leading_len(rows: Seq<Row>) -> int
    decreases rows.len(),
{
    if rows.len() == 0 || rows.first() is Err {
        0
    } else {
        1 + leading_len(rows.drop_first())
    }
}

/// The records of the first `n` rows, for rows that all hold one.
pub open spec fn records_before(rows: Seq<Row>, n: int) -> Seq<DataView> {
    Seq::new(n as nat, |j: int| rows[j]->Ok_0)
}

/// The records that a run processes: those of the rows before the first
/// failed row.
pub open spec fn leading_records(rows: Seq<Row>) -> Seq<DataView> {
    records_before(rows, leading_len(rows))
}

/// The error of the first failed row, if a row failed.
pub open spec fn first_failure(rows: Seq<Row>) -> Option<ErrorView> {
    if 0 <= leading_len(rows) < rows.len() {
        Some(rows[leading_len(rows)]->Err_0)
    } else {
        None
    }
}

/// The running total stays within the range of a 64-bit signed integer
/// after each of `records`.
pub open spec fn delays_fit(elapsed: int, records: Seq<DataView>) -> bool {
    forall|k: int|
        0 <= k <= records.len() ==> i64::MIN <= elapsed + #[trigger] total_delay(records.take(k))
            <= i64::MAX
}

/// Processing records neither adds a worker to the pool nor removes one,
/// and a valid pool stays valid.
pub proof fn lemma_pool_keeps_its_workers(pool: Pool, records: Seq<DataView>)
    ensures
        pool_after_all(pool, records).dom() == pool.dom(),
        valid_pool(pool) ==> valid_pool(pool_after_all(pool, records)),
    decreases records.len(),
{
    if records.len() > 0 {
        lemma_pool_keeps_its_workers(pool, records.drop_last());
        let before = pool_after_all(pool, records.drop_last());
        assert(pool_after(before, records.last()).dom() =~= before.dom());
    }
}

/// The running total after a prefix of the records is the running total
/// after the prefix that is one record shorter, plus that record's delay.
pub proof fn lemma_total_delay_step(records: Seq<DataView>, k: int)
    requires
        0 <= k < records.len(),
    ensures
        total_delay(records.take(k + 1)) == total_delay(records.take(k)) + records[k].interval,
{
    assert(records.take(k + 1).drop_last() =~= records.take(k));
}

/// The state that a record emits carries the sum of the delays of all
/// records up to and including its own, on top of what had accumulated
/// before the first of them. Records that were dropped count as well.
pub proof fn lemma_emitted_total_is_running_sum(
    pool: Pool,
    elapsed: int,
    records: Seq<DataView>,
    k: int,
)
    requires
        0 <= k < records.len(),
    ensures
        emitted_at(pool, elapsed, records, k) matches Some(state) ==> state.total_elapsed_ms
            == elapsed + total_delay(records.take(k + 1)),
{
    lemma_total_delay_step(records, k);
}

/// Where the sender of every record is in the pool, every record emits a
/// state: the stream holds one state per record, in order, and the state at
/// position `k` carries the sum of the delays of the first `k + 1` records.
pub proof fn lemma_stream_totals_are_running_sums(
    pool: Pool,
    elapsed: int,
    records: Seq<DataView>,
)
    requires
        forall|k: int| 0 <= k < records.len() ==> pool.contains_key((#[trigger] records[k]).worker),
    ensures
        emitted_stream(pool, elapsed, records).len() == records.len(),
        forall|k: int|
            0 <= k < records.len() ==> emitted_at(pool, elapsed, records, k) == Some(
                #[trigger] emitted_stream(pool, elapsed, records)[k],
            ),
        forall|k: int|
            0 <= k < records.len() ==> (#[trigger] emitted_stream(
                pool,
                elapsed,
                records,
            )[k]).total_elapsed_ms == elapsed + total_delay(records.take(k + 1)),
    decreases records.len(),
{
    if records.len() > 0 {
        let shorter = records.drop_last();
        let last = records.len() - 1;
        assert forall|k: int| 0 <= k < shorter.len() implies pool.contains_key(
            (#[trigger] shorter[k]).worker,
        ) by {
            assert(shorter[k] == records[k]);
        }
        lemma_stream_totals_are_running_sums(pool, elapsed, shorter);
        lemma_pool_keeps_its_workers(pool, records.take(last));
        assert(pool_after_all(pool, records.take(last)).contains_key(records[last].worker)) by {
            assert(pool.dom().contains(records[last].worker));
        }
        let stream = emitted_stream(pool, elapsed, records);
        assert forall|k: int| 0 <= k < records.len() implies emitted_at(pool, elapsed, records, k)
            == Some(#[trigger] stream[k]) && stream[k].total_elapsed_ms == elapsed + total_delay(
            records.take(k + 1),
        ) by {
            if k < last {
                assert(shorter.take(k) =~= records.take(k));
                assert(shorter.take(k + 1) =~= records.take(k + 1));
                assert(shorter[k] == records[k]);
                assert(stream[k] == emitted_stream(pool, elapsed, shorter)[k]);
            }
            lemma_emitted_total_is_running_sum(pool, elapsed, records, k);
        }
    }
}

/// With delays that are not negative, the running total never decreases as
/// more records are processed.
pub proof fn lemma_running_sum_never_decreases(records: Seq<DataView>, i: int, j: int)
    requires
        forall|k: int| 0 <= k < records.len() ==> (#[trigger] records[k]).interval >= 0,
        0 <= i <= j <= records.len(),
    ensures
        total_delay(records.take(i)) <= total_delay(records.take(j)),
    decreases j - i,
{
    if i < j {
        lemma_running_sum_never_decreases(records, i, j - 1);
        lemma_total_delay_step(records, j - 1);
    }
}

/// A record whose sender is not in the pool is dropped: it emits no state
/// and no worker's memory changes.
pub proof fn lemma_unknown_sender_drops_record(pool: Pool, elapsed: int, record: DataView)
    requires
        !pool.contains_key(record.worker),
    ensures
        emitted(pool, elapsed, record) is None,
        pool_after(pool, record) == pool,
{
}

/// A record whose destination is not in the pool changes no worker's
/// memory.
pub proof fn lemma_unknown_destination_changes_nothing(pool: Pool, record: DataView)
    requires
        !pool.contains_key(record.destination_worker),
    ensures
        pool_after(pool, record) == pool,
{
}

/// After a record from a worker of the pool to a worker of the pool, the
/// destination remembers exactly the record's sender and text, whatever it
/// remembered before. It keeps its id, and every other worker keeps its
/// memory.
pub proof fn lemma_destination_remembers_record(pool: Pool, record: DataView)
    requires
        pool.contains_key(record.worker),
        pool.contains_key(record.destination_worker),
    ensures
        pool_after(pool, record).dom() == pool.dom(),
        pool_after(pool, record)[record.destination_worker] == (WorkerView {
            id: pool[record.destination_worker].id,
            last_sender_id: record.worker,
            last_message: record.message,
        }),
        forall|id: int|
            id != record.destination_worker && pool.contains_key(id) ==> #[trigger] pool_after(
                pool,
                record,
            )[id] == pool[id],
{
    assert(pool_after(pool, record).dom() =~= pool.dom());
}

/// The state that a record emits shows what its sender remembered before
/// the record was processed. This holds as well where the sender sends to
/// itself, so that its memory afterwards is the record's own text.
pub proof fn lemma_state_shows_memory_before(pool: Pool, elapsed: int, record: DataView)
    requires
        pool.contains_key(record.worker),
    ensures
        emitted(pool, elapsed, record) matches Some(state) && state.last_heard
            == pool[record.worker].last_message && state.last_sender_id
            == pool[record.worker].last_sender_id,
        record.destination_worker == record.worker ==> pool_after(
            pool,
            record,
        )[record.worker].last_message == record.message && pool_after(
            pool,
            record,
        )[record.worker].last_sender_id == record.worker,
{
}

/// `leading_len` is the position of the first failed row: every row before
/// it holds a record, and it is either the number of rows or the position
/// of a failed row.
pub proof fn lemma_leading_len(rows: Seq<Row>)
    ensures
        0 <= leading_len(rows) <= rows.len(),
        forall|j: int| 0 <= j < leading_len(rows) ==> (#[trigger] rows[j]) is Ok,
        leading_len(rows) < rows.len() ==> rows[leading_len(rows)] is Err,
    decreases rows.len(),
{
    if rows.len() == 0 || rows.first() is Err {
    } else {
        let rest = rows.drop_first();
        lemma_leading_len(rest);
        assert forall|j: int| 0 <= j < leading_len(rows) implies (#[trigger] rows[j]) is Ok by {
            if j > 0 {
                assert(rows[j] == rest[j - 1]);
            }
        }
        if leading_len(rows) < rows.len() {
            assert(rows[leading_len(rows)] == rest[leading_len(rest)]);
        }
    }
}

} // verus!
