//! The table: a snapshot flattened into display rows.
//!
//! Each result gives one collection row, followed by one task row for each of
//! its tasks, batch by batch and queue by queue, in the order of the
//! snapshot. The flattening is computed anew for every snapshot.

use crate::models::{Batch, Queue, Status, StatusResult, Task};
use vstd::prelude::*;

verus! {

/// The seven counters that a row of the table shows.
#[derive(Clone, Copy, Debug, PartialEq, Eq, Structural)]
pub struct Counters {
    pub todo: u32,
    pub doing: u32,
    pub succeeded: u32,
    pub failed: u32,
    pub aborted: u32,
    pub aborting: u32,
    pub cancelled: u32,
}

/// One row of the table.
#[derive(Clone, Debug)]
pub enum DisplayRow {
    /// The row of the result at `result_index`.
    CollectionRow { result_index: usize },
    /// The row of one task of the result at `result_index`.
    TaskRow {
        result_index: usize,
        batch_name: String,
        task_name: String,
        start: Option<String>,
        task_counters: Counters,
        indent_marker: String,
    },
}

/// What a display row holds, as plain values.
pub enum RowView {
    Collection { result_index: int },
    Task {
        result_index: int,
        batch_name: Seq<char>,
        task_name: Seq<char>,
        start: Option<Seq<char>>,
        task_counters: Counters,
        indent_marker: Seq<char>,
    },
}

impl RowView {
    /// The position, in the snapshot, of the result that the row belongs to.
    pub open spec fn result_index(self) -> int {
        match self {
            RowView::Collection { result_index } => result_index,
            RowView::Task { result_index, .. } => result_index,
        }
    }
}

/// The view of an optional string.
pub open spec fn opt_view(value: Option<String>) -> Option<Seq<char>> {
    match value {
        Some(s) => Some(s@),
        None => None,
    }
}

impl View for DisplayRow {
    type V = RowView;

    open spec fn view(&self) -> RowView {
        match *self {
            DisplayRow::CollectionRow { result_index } => RowView::Collection {
                result_index: result_index as int,
            },
            DisplayRow::TaskRow {
                result_index,
                batch_name,
                task_name,
                start,
                task_counters,
                indent_marker,
            } => RowView::Task {
                result_index: result_index as int,
                batch_name: batch_name@,
                task_name: task_name@,
                start: opt_view(start),
                task_counters,
                indent_marker: indent_marker@,
            },
        }
    }
}

impl DisplayRow {
    /// The position of the result that the row belongs to.
    pub fn result_index(&self) -> (index: usize)
        ensures
            index as int == self@.result_index(),
    {
        match self {
            DisplayRow::CollectionRow { result_index } => *result_index,
            DisplayRow::TaskRow { result_index, .. } => *result_index,
        }
    }

    /// Whether this is the row of a result itself.
    pub fn is_collection_row(&self) -> (yes: bool)
        ensures
            yes == (self@ is Collection),
    {
        match self {
            DisplayRow::CollectionRow { .. } => true,
            DisplayRow::TaskRow { .. } => false,
        }
    }
}

/// The rows of a table, each as plain values.
pub open spec fn rows_view(rows: Seq<DisplayRow>) -> Seq<RowView> {
    Seq::new(rows.len(), |i: int| rows[i]@)
}

/// What is written before the name of a task.
pub open spec fn indent() -> Seq<char> {
    "  "@
}

/// The seven counters of a task.
pub open spec fn task_counters(task: Task) -> Counters {
    Counters {
        todo: task.todo,
        doing: task.doing,
        succeeded: task.succeeded,
        failed: task.failed,
        aborted: task.aborted,
        aborting: task.aborting,
        cancelled: task.cancelled,
    }
}

/// The row of one task of the result at `result_index`.
pub open spec fn task_row(result_index: int, batch: Batch, task: Task) -> RowView {
    RowView::Task {
        result_index,
        batch_name: batch.name@,
        task_name: task.name@,
        start: opt_view(task.min_ts),
        task_counters: task_counters(task),
        indent_marker: indent(),
    }
}

/// The rows of the first `n` tasks of a queue.
pub open spec fn queue_rows(result_index: int, batch: Batch, queue: Queue, n: int) -> Seq<RowView>
    decreases n,
{
    if n <= 0 {
        Seq::empty()
    } else {
        queue_rows(result_index, batch, queue, n - 1).push(
            task_row(result_index, batch, queue.tasks@[n - 1]),
        )
    }
}

/// The rows of the tasks in the first `n` queues of a batch.
pub open spec fn batch_rows(result_index: int, batch: Batch, n: int) -> Seq<RowView>
    decreases n,
{
    if n <= 0 {
        Seq::empty()
    } else {
        batch_rows(result_index, batch, n - 1) + queue_rows(
            result_index,
            batch,
            batch.queues@[n - 1],
            batch.queues@[n - 1].tasks@.len() as int,
        )
    }
}

/// The rows of the tasks in the first `n` batches of a result.
pub open spec fn task_rows(result_index: int, result: StatusResult, n: int) -> Seq<RowView>
    decreases n,
{
    if n <= 0 {
        Seq::empty()
    } else {
        task_rows(result_index, result, n - 1) + batch_rows(
            result_index,
            result.batches@[n - 1],
            result.batches@[n - 1].queues@.len() as int,
        )
    }
}

/// The rows of one result: its collection row, then the rows of its tasks.
pub open spec fn result_rows(result_index: int, result: StatusResult) -> Seq<RowView> {
    seq![RowView::Collection { result_index }] + task_rows(
        result_index,
        result,
        result.batches@.len() as int,
    )
}

/// The rows of the first `n` results of a snapshot.
pub open spec fn status_rows(status: Status, n: int) -> Seq<RowView>
    decreases n,
{
    if n <= 0 {
        Seq::empty()
    } else {
        status_rows(status, n - 1) + result_rows(n - 1, status.results@[n - 1])
    }
}

/// The table of a snapshot.
pub open spec fn rows_of(status: Status) -> Seq<RowView> {
    status_rows(status, status.results@.len() as int)
}

/// The number of tasks in the first `n` queues of a batch.
pub open spec fn batch_task_count(batch: Batch, n: int) -> int
    decreases n,
{
    if n <= 0 {
        0
    } else {
        batch_task_count(batch, n - 1) + batch.queues@[n - 1].tasks@.len()
    }
}

/// The number of tasks in the first `n` batches of a result.
pub open spec fn result_task_count(result: StatusResult, n: int) -> int
    decreases n,
{
    if n <= 0 {
        0
    } else {
        result_task_count(result, n - 1) + batch_task_count(
            result.batches@[n - 1],
            result.batches@[n - 1].queues@.len() as int,
        )
    }
}

/// The number of tasks in the first `n` results of a snapshot.
pub open spec fn status_task_count(status: Status, n: int) -> int
    decreases n,
{
    if n <= 0 {
        0
    } else {
        status_task_count(status, n - 1) + result_task_count(
            status.results@[n - 1],
            status.results@[n - 1].batches@.len() as int,
        )
    }
}

/// The number of tasks in a snapshot.
pub open spec fn task_count(status: Status) -> int {
    status_task_count(status, status.results@.len() as int)
}

fn clone_opt(value: &Option<String>) -> (copy: Option<String>)
    ensures
        opt_view(copy) == opt_view(*value),
{
    match value {
        Some(s) => Some(s.clone()),
        None => None,
    }
}

fn make_task_row(result_index: usize, batch: &Batch, task: &Task) -> (row: DisplayRow)
    ensures
        row@ == task_row(result_index as int, *batch, *task),
{
    DisplayRow::TaskRow {
        result_index,
        batch_name: batch.name.clone(),
        task_name: task.name.clone(),
        start: clone_opt(&task.min_ts),
        task_counters: Counters {
            todo: task.todo,
            doing: task.doing,
            succeeded: task.succeeded,
            failed: task.failed,
            aborted: task.aborted,
            aborting: task.aborting,
            cancelled: task.cancelled,
        },
        indent_marker: String::from_str("  "),
    }
}

fn same_text(a: &Option<String>, b: &Option<String>) -> (same: bool)
    ensures
        same == (opt_view(*a) == opt_view(*b)),
{
    match (a, b) {
        (Some(x), Some(y)) => *x == *y,
        (None, None) => true,
        _ => false,
    }
}

impl DisplayRow {
    /// Whether two rows hold the same values.
    pub fn same_as(&self, other: &DisplayRow) -> (same: bool)
        ensures
            same == (self@ == other@),
    {
        match (self, other) {
            (
                DisplayRow::CollectionRow { result_index: a },
                DisplayRow::CollectionRow { result_index: b },
            ) => *a == *b,
            (
                DisplayRow::TaskRow {
                    result_index: a,
                    batch_name: a_batch,
                    task_name: a_task,
                    start: a_start,
                    task_counters: a_counters,
                    indent_marker: a_indent,
                },
                DisplayRow::TaskRow {
                    result_index: b,
                    batch_name: b_batch,
                    task_name: b_task,
                    start: b_start,
                    task_counters: b_counters,
                    indent_marker: b_indent,
                },
            ) => {
                *a == *b && *a_batch == *b_batch && *a_task == *b_task && same_text(a_start, b_start)
                    && *a_counters == *b_counters && *a_indent == *b_indent
            },
            _ => false,
        }
    }
}

/// Whether two tables hold the same rows in the same order.
pub fn same_rows(a: &Vec<DisplayRow>, b: &Vec<DisplayRow>) -> (same: bool)
    ensures
        same == (rows_view(a@) == rows_view(b@)),
{
    if a.len() != b.len() {
        assert(rows_view(a@).len() != rows_view(b@).len());
        return false;
    }
    let mut i: usize = 0;
    while i < a.len()
        invariant
            a@.len() == b@.len(),
            i <= a@.len(),
            forall|k: int| 0 <= k < i ==> (#[trigger] a@[k])@ == b@[k]@,
        decreases a@.len() - i,
    {
        if !a[i].same_as(&b[i]) {
            assert(rows_view(a@)[i as int] != rows_view(b@)[i as int]);
            return false;
        }
        i += 1;
    }
    assert(rows_view(a@) =~= rows_view(b@));
    true
}

/// Flattens a snapshot into its table: the rows are `rows_of` the snapshot,
/// so the same snapshot always gives the same rows, one for each result and
/// one for each task.
#[verifier::loop_isolation(false)]
pub fn flatten(status: &Status) -> (rows: Vec<DisplayRow>)
    ensures
        rows_view(rows@) == rows_of(*status),
        rows@.len() == status.results@.len() + task_count(*status),
{
    let mut rows: Vec<DisplayRow> = Vec::new();
    let mut i: usize = 0;
    while i < status.results.len()
        invariant
            i <= status.results@.len(),
            rows_view(rows@) =~= status_rows(*status, i as int),
        decreases status.results@.len() - i,
    {
        let result = &status.results[i];
        let ghost before_result = rows_view(rows@);
        rows.push(DisplayRow::CollectionRow { result_index: i });
        let ghost head = before_result.push(RowView::Collection { result_index: i as int });
        let mut j: usize = 0;
        while j < result.batches.len()
            invariant
                j <= result.batches@.len(),
                rows_view(rows@) =~= head + task_rows(i as int, *result, j as int),
            decreases result.batches@.len() - j,
        {
            let batch = &result.batches[j];
            let ghost before_batch = rows_view(rows@);
            let mut k: usize = 0;
            while k < batch.queues.len()
                invariant
                    k <= batch.queues@.len(),
                    rows_view(rows@) =~= before_batch + batch_rows(i as int, *batch, k as int),
                decreases batch.queues@.len() - k,
            {
                let queue = &batch.queues[k];
                let ghost before_queue = rows_view(rows@);
                let mut m: usize = 0;
                while m < queue.tasks.len()
                    invariant
                        m <= queue.tasks@.len(),
                        rows_view(rows@) =~= before_queue + queue_rows(
                            i as int,
                            *batch,
                            *queue,
                            m as int,
                        ),
                    decreases queue.tasks@.len() - m,
                {
                    let ghost before_task = rows_view(rows@);
                    let row = make_task_row(i, batch, &queue.tasks[m]);
                    rows.push(row);
                    proof {
                        assert(rows_view(rows@) =~= before_task.push(row@));
                        assert(queue_rows(i as int, *batch, *queue, m + 1) == queue_rows(
                            i as int,
                            *batch,
                            *queue,
                            m as int,
                        ).push(task_row(i as int, *batch, queue.tasks@[m as int])));
                    }
                    m += 1;
                }
                k += 1;
            }
            j += 1;
        }
        assert(head + task_rows(i as int, *result, result.batches@.len() as int)
            =~= before_result + result_rows(i as int, *result));
        i += 1;
    }
    proof {
        lemma_row_count(*status);
    }
    rows
}

/// The first `n` tasks of a queue give `n` rows, all task rows of the same
/// result.
pub proof fn lemma_queue_rows(result_index: int, batch: Batch, queue: Queue, n: int)
    requires
        0 <= n,
    ensures
        queue_rows(result_index, batch, queue, n).len() == n,
        forall|k: int|
            0 <= k < n ==> {
                &&& (#[trigger] queue_rows(result_index, batch, queue, n)[k]) is Task
                &&& queue_rows(result_index, batch, queue, n)[k].result_index() == result_index
            },
    decreases n,
{
    if n > 0 {
        lemma_queue_rows(result_index, batch, queue, n - 1);
    }
}

/// The first `n` queues of a batch give one row for each of their tasks, all
/// task rows of the same result.
pub proof fn lemma_batch_rows(result_index: int, batch: Batch, n: int)
    requires
        0 <= n,
    ensures
        batch_rows(result_index, batch, n).len() == batch_task_count(batch, n),
        forall|k: int|
            0 <= k < batch_rows(result_index, batch, n).len() ==> {
                &&& (#[trigger] batch_rows(result_index, batch, n)[k]) is Task
                &&& batch_rows(result_index, batch, n)[k].result_index() == result_index
            },
    decreases n,
{
    if n > 0 {
        lemma_batch_rows(result_index, batch, n - 1);
        lemma_queue_rows(
            result_index,
            batch,
            batch.queues@[n - 1],
            batch.queues@[n - 1].tasks@.len() as int,
        );
    }
}

/// The first `n` batches of a result give one row for each of their tasks,
/// all task rows of that result.
pub proof fn lemma_task_rows(result_index: int, result: StatusResult, n: int)
    requires
        0 <= n,
    ensures
        task_rows(result_index, result, n).len() == result_task_count(result, n),
        forall|k: int|
            0 <= k < task_rows(result_index, result, n).len() ==> {
                &&& (#[trigger] task_rows(result_index, result, n)[k]) is Task
                &&& task_rows(result_index, result, n)[k].result_index() == result_index
            },
    decreases n,
{
    if n > 0 {
        lemma_task_rows(result_index, result, n - 1);
        lemma_batch_rows(
            result_index,
            result.batches@[n - 1],
            result.batches@[n - 1].queues@.len() as int,
        );
    }
}

/// The rows of one result: a collection row first, task rows after it, all
/// of that result, one for each task.
pub proof fn lemma_result_rows(result_index: int, result: StatusResult)
    ensures
        result_rows(result_index, result).len() == 1 + result_task_count(
            result,
            result.batches@.len() as int,
        ),
        result_rows(result_index, result)[0] == (RowView::Collection { result_index }),
        forall|k: int|
            0 <= k < result_rows(result_index, result).len() ==> (#[trigger] result_rows(
                result_index,
                result,
            )[k]).result_index() == result_index,
        forall|k: int|
            1 <= k < result_rows(result_index, result).len() ==> (#[trigger] result_rows(
                result_index,
                result,
            )[k]) is Task,
{
    lemma_task_rows(result_index, result, result.batches@.len() as int);
}

/// The rows of the first `n` results: one for each result and one for each
/// task, each naming one of those results, in the order of the results.
pub proof fn lemma_status_rows(status: Status, n: int)
    requires
        0 <= n,
    ensures
        status_rows(status, n).len() == n + status_task_count(status, n),
        forall|k: int|
            0 <= k < status_rows(status, n).len() ==> 0 <= (#[trigger] status_rows(
                status,
                n,
            )[k]).result_index() < n,
        forall|a: int, b: int|
            0 <= a <= b < status_rows(status, n).len() ==> (#[trigger] status_rows(
                status,
                n,
            )[a]).result_index() <= (#[trigger] status_rows(status, n)[b]).result_index(),
    decreases n,
{
    if n > 0 {
        lemma_status_rows(status, n - 1);
        lemma_result_rows(n - 1, status.results@[n - 1]);
        let before = status_rows(status, n - 1);
        let block = result_rows(n - 1, status.results@[n - 1]);
        let all = status_rows(status, n);
        assert(all == before + block);
        assert forall|k: int| 0 <= k < all.len() implies 0 <= (#[trigger] all[k]).result_index()
            < n by {
            if k < before.len() {
                assert(all[k] == before[k]);
            } else {
                assert(all[k] == block[k - before.len()]);
            }
        }
        assert forall|a: int, b: int| 0 <= a <= b < all.len() implies (#[trigger] all[a])
            .result_index() <= (#[trigger] all[b]).result_index() by {
            if a < before.len() {
                assert(all[a] == before[a]);
            } else {
                assert(all[a] == block[a - before.len()]);
            }
            if b < before.len() {
                assert(all[b] == before[b]);
            } else {
                assert(all[b] == block[b - before.len()]);
            }
        }
    }
}

/// The table has one row for each result and one for each task.
pub proof fn lemma_row_count(status: Status)
    ensures
        rows_of(status).len() == status.results@.len() + task_count(status),
{
    lemma_status_rows(status, status.results@.len() as int);
}

/// Every row of the table names a result of the snapshot.
pub proof fn lemma_row_names_result(status: Status, k: int)
    requires
        0 <= k < rows_of(status).len(),
    ensures
        0 <= rows_of(status)[k].result_index() < status.results@.len(),
{
    lemma_status_rows(status, status.results@.len() as int);
}

/// The rows of an earlier result all stand before the rows of a later one.
pub proof fn lemma_rows_in_result_order(status: Status, a: int, b: int)
    requires
        0 <= a < rows_of(status).len(),
        0 <= b < rows_of(status).len(),
        rows_of(status)[a].result_index() < rows_of(status)[b].result_index(),
    ensures
        a < b,
{
    lemma_status_rows(status, status.results@.len() as int);
    if b <= a {
        assert(rows_of(status)[b].result_index() <= rows_of(status)[a].result_index());
    }
}

/// Where the rows of the result at `i` begin in the table.
pub open spec fn row_start(status: Status, i: int) -> int {
    status_rows(status, i).len() as int
}

/// The table up to the result at `n` is the beginning of the whole table.
pub proof fn lemma_rows_prefix(status: Status, n: int, m: int)
    requires
        0 <= n <= m,
    ensures
        status_rows(status, n).len() <= status_rows(status, m).len(),
        status_rows(status, m).subrange(0, status_rows(status, n).len() as int) == status_rows(
            status,
            n,
        ),
    decreases m - n,
{
    if n < m {
        lemma_rows_prefix(status, n, m - 1);
        assert(status_rows(status, m).subrange(0, status_rows(status, n).len() as int)
            =~= status_rows(status, m - 1).subrange(0, status_rows(status, n).len() as int));
    } else {
        assert(status_rows(status, m).subrange(0, status_rows(status, n).len() as int)
            =~= status_rows(status, n));
    }
}

/// The rows of the result at `i` stand together in the table: its collection
/// row at `row_start`, its task rows directly after it, and then the next
/// result begins.
pub proof fn lemma_result_block(status: Status, i: int)
    requires
        0 <= i < status.results@.len(),
    ensures
        0 <= row_start(status, i) < row_start(status, i + 1) <= rows_of(status).len(),
        rows_of(status).subrange(row_start(status, i), row_start(status, i + 1)) == result_rows(
            i,
            status.results@[i],
        ),
        rows_of(status)[row_start(status, i)] == (RowView::Collection { result_index: i }),
{
    let len = status.results@.len() as int;
    lemma_rows_prefix(status, i + 1, len);
    lemma_result_rows(i, status.results@[i]);
    let upto = status_rows(status, i + 1);
    let block = result_rows(i, status.results@[i]);
    assert(upto == status_rows(status, i) + block);
    assert(upto.subrange(row_start(status, i), row_start(status, i + 1)) =~= block);
    assert(rows_of(status).subrange(row_start(status, i), row_start(status, i + 1))
        =~= rows_of(status).subrange(0, upto.len() as int).subrange(
        row_start(status, i),
        row_start(status, i + 1),
    ));
    assert(rows_of(status)[row_start(status, i)] == rows_of(status).subrange(
        row_start(status, i),
        row_start(status, i + 1),
    )[0]);
}

} // verus!
