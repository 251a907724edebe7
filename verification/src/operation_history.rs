//! A call/return-timestamped operation history for linearizability checking.
//!
//! Every operation is appended in "pending" state when it is called and
//! mutated at most meaningfully once when it completes; only completed
//! operations belong to the exported history. Timestamps are absolute
//! nanoseconds since the epoch: a shared sync origin plus the nanoseconds
//! elapsed on the local monotonic clock since that origin was set.

use vstd::prelude::*;
use std::time::Instant;
use crate::messages::ClientId;
use crate::time_source::epoch_nanos_now;
use crate::time_source::instant_now;
use crate::time_source::nanos_since;

verus! {

/// The input of one operation against the key-value store.
pub enum Input {
    Put { key: String, value: String },
    Get { key: String },
    Delete { key: String },
}

/// The output of one operation: a status word and, for reads, the value found.
pub struct Output {
    pub status: String,
    pub value: Option<String>,
}

/// One recorded operation. `call` and `return_time` are absolute nanoseconds
/// since the epoch; `return_time == 0` marks a still-pending operation.
pub struct Operation {
    pub client_id: u64,
    pub input: Input,
    pub call: i64,
    pub output: Output,
    pub return_time: i64,
}

impl Clone for Input {
    /// A clone is the same value.
    fn clone(&self) -> (r: Self)
        ensures
            r == *self,
    {
        match self {
            Input::Put { key, value } => Input::Put { key: key.clone(), value: value.clone() },
            Input::Get { key } => Input::Get { key: key.clone() },
            Input::Delete { key } => Input::Delete { key: key.clone() },
        }
    }
}

impl Clone for Output {
    /// A clone is the same value.
    fn clone(&self) -> (r: Self)
        ensures
            r == *self,
    {
        Output {
            status: self.status.clone(),
            value: match &self.value {
                Some(v) => Some(v.clone()),
                None => None,
            },
        }
    }
}

impl Clone for Operation {
    /// A clone is the same value.
    fn clone(&self) -> (r: Self)
        ensures
            r == *self,
    {
        Operation {
            client_id: self.client_id,
            input: self.input.clone(),
            call: self.call,
            output: self.output.clone(),
            return_time: self.return_time,
        }
    }
}

/// An operation belongs to the exported history once its return time is set.
pub open spec fn is_completed(op: Operation) -> bool {
    op.return_time > 0
}

/// The completed operations of a history, in recorded order.
pub open spec fn completed_of(ops: Seq<Operation>) -> Seq<Operation>
    decreases ops.len(),
{
    if ops.len() == 0 {
        Seq::empty()
    } else if is_completed(ops.last()) {
        completed_of(ops.drop_last()).push(ops.last())
    } else {
        completed_of(ops.drop_last())
    }
}

/// Addition of timestamps, saturating at the bounds of `i64`.
pub open spec fn sat_add_i64(a: int, b: int) -> i64 {
    if a + b > i64::MAX {
        i64::MAX
    } else if a + b < i64::MIN {
        i64::MIN
    } else {
        (a + b) as i64
    }
}

/// The history after completing the operation at `op_index` with `output` at
/// absolute time `ret`: only that operation's output and return time change,
/// and an index out of range changes nothing.
pub open spec fn completed_history(
    ops: Seq<Operation>,
    op_index: int,
    output: Output,
    ret: i64,
) -> Seq<Operation> {
    if 0 <= op_index < ops.len() {
        ops.update(
            op_index,
            (Operation {
                client_id: ops[op_index].client_id,
                input: ops[op_index].input,
                call: ops[op_index].call,
                output: output,
                return_time: ret,
            }),
        )
    } else {
        ops
    }
}

/// The recorder: an append-only operation list, the owning client, and the
/// local time origin the timestamps are anchored to.
pub struct OperationHistory {
    operations: Vec<Operation>,
    client_id: ClientId,
    start_time: Instant,
    sync_time_nanos: i64,
}

impl OperationHistory {
    /// The recorded operations, in recording order.
    pub closed spec fn ops(&self) -> Seq<Operation> {
        self.operations@
    }

    /// The client this history belongs to.
    pub closed spec fn client_id_spec(&self) -> ClientId {
        self.client_id
    }

    /// The absolute sync origin, nanoseconds since the epoch.
    pub closed spec fn sync_time(&self) -> int {
        self.sync_time_nanos as int
    }
}

/// How recording `input` with `elapsed` nanoseconds on the local clock takes
/// a history from `pre` to `post`: one pending operation is appended, at the
/// index `r` that is handed back as its handle, stamped with the sync origin
/// plus `elapsed`.
pub open spec fn records_with(
    pre: OperationHistory,
    post: OperationHistory,
    input: Input,
    r: usize,
    elapsed: i64,
) -> bool {
    let op = post.ops().last();
    &&& r == pre.ops().len()
    &&& post.ops() == pre.ops().push(op)
    &&& op.client_id == pre.client_id_spec()
    &&& op.input == input
    &&& op.call == sat_add_i64(pre.sync_time(), elapsed as int)
    &&& op.output.status@ == "pending"@
    &&& op.output.value is None
    &&& op.return_time == 0
    &&& post.client_id_spec() == pre.client_id_spec()
    &&& post.sync_time() == pre.sync_time()
}

/// How completing the operation at `op_index` with `elapsed` nanoseconds on
/// the local clock takes a history from `pre` to `post`.
pub open spec fn completes_with(
    pre: OperationHistory,
    post: OperationHistory,
    op_index: usize,
    output: Output,
    elapsed: i64,
) -> bool {
    &&& post.ops() == completed_history(
        pre.ops(),
        op_index as int,
        output,
        sat_add_i64(pre.sync_time(), elapsed as int),
    )
    &&& post.client_id_spec() == pre.client_id_spec()
    &&& post.sync_time() == pre.sync_time()
}

impl OperationHistory {
    /// An empty history for `client_id`, provisionally anchored to the system
    /// clock until the run's shared sync time arrives.
    pub fn new(client_id: ClientId) -> (h: OperationHistory)
        ensures
            h.ops() == Seq::<Operation>::empty(),
            h.client_id_spec() == client_id,
            0 <= h.sync_time(),
    {
        let operations: Vec<Operation> = Vec::new();
        proof {
            assert(operations@ =~= Seq::<Operation>::empty());
        }
        OperationHistory {
            operations,
            client_id,
            start_time: instant_now(),
            sync_time_nanos: epoch_nanos_now(),
        }
    }

    /// Anchors the history to the run-wide sync point, given in milliseconds
    /// since the epoch, and restarts the local elapsed-time reference. Called
    /// once, after the caller has waited until the scheduled start instant.
    pub fn set_sync_time(&mut self, sync_time_ms: i64)
        requires
            i64::MIN <= sync_time_ms * 1_000_000 <= i64::MAX,
        ensures
            final(self).sync_time() == sync_time_ms * 1_000_000,
            final(self).ops() == old(self).ops(),
            final(self).client_id_spec() == old(self).client_id_spec(),
    {
        self.sync_time_nanos = sync_time_ms * 1_000_000;
        self.start_time = instant_now();
    }

    /// Appends a pending operation whose call time is the sync origin plus
    /// `elapsed_nanos`, and returns its index as the handle for completion.
    pub fn record_operation_at(&mut self, input: Input, elapsed_nanos: i64) -> (op_index: usize)
        requires
            0 <= elapsed_nanos,
        ensures
            records_with(*old(self), *final(self), input, op_index, elapsed_nanos),
    {
        let call_time = saturating_add_i64(self.sync_time_nanos, elapsed_nanos);
        let op_index = self.operations.len();
        let operation = Operation {
            client_id: self.client_id,
            input,
            call: call_time,
            output: Output { status: "pending".to_owned(), value: None },
            return_time: 0,
        };
        self.operations.push(operation);
        op_index
    }

    /// Appends a pending operation stamped with the local clock now; the
    /// reading is whatever the clock gives, never negative.
    pub fn record_operation(&mut self, input: Input) -> (op_index: usize)
        ensures
            op_index == old(self).ops().len(),
            exists|elapsed: i64|
                0 <= elapsed && #[trigger] records_with(
                    *old(self),
                    *final(self),
                    input,
                    op_index,
                    elapsed,
                ),
    {
        let elapsed = nanos_since(&self.start_time);
        let op_index = self.record_operation_at(input, elapsed);
        proof {
            assert(records_with(*old(self), *self, input, op_index, elapsed));
        }
        op_index
    }

    /// Sets the output and return time of the operation at `op_index`, the
    /// return time being the sync origin plus `elapsed_nanos`. A stale or
    /// out-of-range index changes nothing; completing twice overwrites, so
    /// the last write wins.
    pub fn complete_operation_at(&mut self, op_index: usize, output: Output, elapsed_nanos: i64)
        requires
            0 <= elapsed_nanos,
        ensures
            completes_with(*old(self), *final(self), op_index, output, elapsed_nanos),
    {
        if op_index < self.operations.len() {
            let ret = saturating_add_i64(self.sync_time_nanos, elapsed_nanos);
            let previous = self.operations[op_index].clone();
            let updated = Operation {
                client_id: previous.client_id,
                input: previous.input,
                call: previous.call,
                output,
                return_time: ret,
            };
            self.operations.set(op_index, updated);
        }
    }

    /// Completes the operation at `op_index` with the local clock now; the
    /// reading is whatever the clock gives, never negative.
    pub fn complete_operation(&mut self, op_index: usize, output: Output)
        ensures
            exists|elapsed: i64|
                0 <= elapsed && #[trigger] completes_with(
                    *old(self),
                    *final(self),
                    op_index,
                    output,
                    elapsed,
                ),
    {
        let elapsed = nanos_since(&self.start_time);
        self.complete_operation_at(op_index, output, elapsed);
        proof {
            assert(completes_with(*old(self), *self, op_index, output, elapsed));
        }
    }

    /// How many operations have been recorded, pending ones included.
    pub fn operation_count(&self) -> (n: usize)
        ensures
            n == self.ops().len(),
    {
        self.operations.len()
    }

    /// How many recorded operations have completed.
    pub fn completed_count(&self) -> (n: usize)
        ensures
            n == completed_of(self.ops()).len(),
    {
        let mut n: usize = 0;
        let mut i: usize = 0;
        while i < self.operations.len()
            invariant
                i <= self.ops().len(),
                n == completed_of(self.ops().take(i as int)).len(),
                n <= i,
            decreases self.ops().len() - i,
        {
            if self.operations[i].return_time > 0 {
                n = n + 1;
            }
            i = i + 1;
            proof {
                assert(self.ops().take(i as int).drop_last() =~= self.ops().take(i as int - 1));
            }
        }
        proof {
            assert(self.ops().take(self.ops().len() as int) =~= self.ops());
        }
        n
    }

    /// The completed operations, in recorded order: exactly the part of the
    /// history that is exported, pending operations silently dropped.
    pub fn completed_operations(&self) -> (r: Vec<Operation>)
        ensures
            r@ == completed_of(self.ops()),
    {
        let mut out: Vec<Operation> = Vec::new();
        let mut i: usize = 0;
        proof {
            assert(out@ =~= completed_of(self.ops().take(0)));
        }
        while i < self.operations.len()
            invariant
                i <= self.ops().len(),
                out@ == completed_of(self.ops().take(i as int)),
            decreases self.ops().len() - i,
        {
            let op = &self.operations[i];
            if op.return_time > 0 {
                out.push(op.clone());
            }
            i = i + 1;
            proof {
                assert(self.ops().take(i as int).drop_last() =~= self.ops().take(i as int - 1));
            }
        }
        proof {
            assert(self.ops().take(self.ops().len() as int) =~= self.ops());
        }
        out
    }

    /// The operation recorded under `op_index`, if any.
    pub fn get_operation(&self, op_index: usize) -> (r: Option<&Operation>)
        ensures
            r matches Some(op) ==> op_index < self.ops().len() && *op == self.ops()[
                op_index as int
            ],
            r is None ==> op_index >= self.ops().len(),
    {
        if op_index < self.operations.len() {
            Some(&self.operations[op_index])
        } else {
            None
        }
    }
}

/// Computes `sat_add_i64` in bounded arithmetic.
fn saturating_add_i64(a: i64, b: i64) -> (r: i64)
    ensures
        r == sat_add_i64(a as int, b as int),
{
    if b >= 0 {
        if a <= i64::MAX - b {
            a + b
        } else {
            i64::MAX
        }
    } else {
        if a >= i64::MIN - b {
            a + b
        } else {
            i64::MIN
        }
    }
}

/// At most one completion is meaningful per operation: completing the same
/// slot twice leaves exactly the state the second completion alone would
/// leave — the defined behaviour is that the last write wins.
pub proof fn lemma_last_completion_wins(
    ops: Seq<Operation>,
    op_index: int,
    o1: Output,
    t1: i64,
    o2: Output,
    t2: i64,
)
    ensures
        completed_history(completed_history(ops, op_index, o1, t1), op_index, o2, t2)
            == completed_history(ops, op_index, o2, t2),
{
    if 0 <= op_index < ops.len() {
        assert(completed_history(completed_history(ops, op_index, o1, t1), op_index, o2, t2)
            =~= completed_history(ops, op_index, o2, t2));
    }
}

/// Export filtering: the exported history holds only completed operations,
/// and never more than were recorded.
pub proof fn lemma_completed_of_is_filtered(ops: Seq<Operation>)
    ensures
        completed_of(ops).len() <= ops.len(),
        forall|i: int|
            0 <= i < completed_of(ops).len() ==> is_completed(#[trigger] completed_of(ops)[i]),
    decreases ops.len(),
{
    if ops.len() > 0 {
        lemma_completed_of_is_filtered(ops.drop_last());
    }
}

} // verus!
