//! Per-request latency records and aggregate counts for one client run.
//!
//! Each issued command appends one record; the position of the record is the
//! command's identifier, so identifiers are dense and strictly increasing
//! from zero. A response fills the record's receive time exactly once, never
//! below its send time.

use vstd::prelude::*;
use crate::messages::ClientId;
use crate::messages::CommandId;
use crate::operation_history::Input;
use crate::operation_history::OperationHistory;
use crate::operation_history::Output;
use crate::operation_history::completes_with;
use crate::operation_history::records_with;
use crate::time_source::utc_now_millis;

verus! {

/// One issued request: wall-clock send time in milliseconds, whether it was
/// a write, and the receive time once the response arrived.
#[derive(Clone, Copy, Debug)]
pub struct RequestData {
    pub request_time: i64,
    pub write: bool,
    pub response_time: Option<i64>,
}

/// How many records have their receive time set.
pub open spec fn count_responded(s: Seq<RequestData>) -> int
    decreases s.len(),
{
    if s.len() == 0 {
        0
    } else {
        count_responded(s.drop_last()) + if s.last().response_time is Some {
            1int
        } else {
            0int
        }
    }
}

/// The receive stamp for a record sent at `send`: the wall clock now, never
/// below the send time, so a record's latency is never negative.
pub open spec fn stamp_received(send: i64, now_ms: i64) -> i64 {
    if now_ms >= send {
        now_ms
    } else {
        send
    }
}

/// The ledger: issued requests in issuance order, the running response
/// count, and the optional correctness tracker.
pub struct ClientData {
    request_data: Vec<RequestData>,
    response_count: usize,
    correctness_tracker: Option<OperationHistory>,
}

impl ClientData {
    /// The request records, in issuance order; a record's index is its
    /// command identifier.
    pub closed spec fn requests(&self) -> Seq<RequestData> {
        self.request_data@
    }

    /// How many responses have been received.
    pub closed spec fn responses(&self) -> int {
        self.response_count as int
    }

    /// The correctness tracker, when the run records a history.
    pub closed spec fn tracker(&self) -> Option<OperationHistory> {
        self.correctness_tracker
    }

    /// The ledger is well formed: the response counter counts exactly the
    /// records whose receive time is set, and a set receive time is never
    /// below the record's send time.
    pub open spec fn wf(&self) -> bool {
        &&& self.responses() == count_responded(self.requests())
        &&& forall|i: int|
            0 <= i < self.requests().len() ==> ((#[trigger] self.requests()[i]).response_time
                matches Some(t) ==> self.requests()[i].request_time <= t)
    }
}

/// How issuing one request at wall time `now_ms` extends the ledger: one
/// record is appended, unanswered, and nothing else changes. The new record's
/// position — its command identifier — is the number of requests before it.
pub open spec fn requested_with(
    pre: ClientData,
    post: ClientData,
    is_write: bool,
    now_ms: i64,
) -> bool {
    &&& post.requests() == pre.requests().push(
        (RequestData { request_time: now_ms, write: is_write, response_time: None }),
    )
    &&& post.responses() == pre.responses()
    &&& post.tracker() == pre.tracker()
}

/// The request records after the response to `command_id` arrives at wall
/// time `now_ms`: only that record changes, its receive time set.
pub open spec fn requests_after_response(
    reqs: Seq<RequestData>,
    command_id: int,
    now_ms: i64,
) -> Seq<RequestData> {
    let prev = reqs[command_id];
    reqs.update(
        command_id,
        (RequestData {
            request_time: prev.request_time,
            write: prev.write,
            response_time: Some(stamp_received(prev.request_time, now_ms)),
        }),
    )
}

/// How receiving the response to `command_id` at wall time `now_ms` changes
/// the ledger: that record's receive time is set — once — and the response
/// count grows by one.
pub open spec fn responded_with(
    pre: ClientData,
    post: ClientData,
    command_id: CommandId,
    now_ms: i64,
) -> bool {
    &&& post.requests() == requests_after_response(pre.requests(), command_id as int, now_ms)
    &&& post.responses() == pre.responses() + 1
    &&& post.tracker() == pre.tracker()
}

/// How the optional tracker records an operation: absent it stays absent and
/// no index is handed out; present it appends one pending operation at some
/// non-negative local clock reading.
pub open spec fn tracker_records(
    pre_t: Option<OperationHistory>,
    post_t: Option<OperationHistory>,
    input: Input,
    r: Option<usize>,
) -> bool {
    match (pre_t, post_t, r) {
        (Option::None, Option::None, Option::None) => true,
        (Option::Some(pre), Option::Some(post), Option::Some(idx)) => exists|e: i64|
            0 <= e && #[trigger] records_with(pre, post, input, idx, e),
        _ => false,
    }
}

/// How the optional tracker completes an operation: absent it stays absent;
/// present it completes at some non-negative local clock reading.
pub open spec fn tracker_completes(
    pre_t: Option<OperationHistory>,
    post_t: Option<OperationHistory>,
    op_index: usize,
    output: Output,
) -> bool {
    match (pre_t, post_t) {
        (Option::None, Option::None) => true,
        (Option::Some(pre), Option::Some(post)) => exists|e: i64|
            0 <= e && #[trigger] completes_with(pre, post, op_index, output, e),
        _ => false,
    }
}

impl ClientData {
    /// An empty ledger without correctness tracking.
    pub fn new() -> (d: ClientData)
        ensures
            d.wf(),
            d.requests() == Seq::<RequestData>::empty(),
            d.responses() == 0,
            d.tracker() is None,
    {
        let request_data: Vec<RequestData> = Vec::new();
        proof {
            assert(request_data@ =~= Seq::<RequestData>::empty());
        }
        ClientData { request_data, response_count: 0, correctness_tracker: None }
    }

    /// An empty ledger that also records an operation history for
    /// linearizability checking.
    pub fn new_with_correctness(client_id: ClientId) -> (d: ClientData)
        ensures
            d.wf(),
            d.requests() == Seq::<RequestData>::empty(),
            d.responses() == 0,
            d.tracker() matches Some(h) && h.ops() == Seq::<
                crate::operation_history::Operation,
            >::empty() && h.client_id_spec() == client_id,
    {
        let request_data: Vec<RequestData> = Vec::new();
        proof {
            assert(request_data@ =~= Seq::<RequestData>::empty());
        }
        ClientData {
            request_data,
            response_count: 0,
            correctness_tracker: Some(OperationHistory::new(client_id)),
        }
    }

    /// Appends the record of one issued request with the given send time.
    /// Its position — the command identifier — is the number of requests
    /// issued before it, so identifiers run 0, 1, 2, … in call order.
    pub fn new_request_at(&mut self, is_write: bool, now_ms: i64)
        requires
            old(self).wf(),
        ensures
            final(self).wf(),
            requested_with(*old(self), *final(self), is_write, now_ms),
    {
        let data = RequestData { request_time: now_ms, write: is_write, response_time: None };
        self.request_data.push(data);
        proof {
            lemma_count_responded_push(old(self).requests(), data);
        }
    }

    /// Appends the record of one issued request stamped with the wall clock
    /// now.
    pub fn new_request(&mut self, is_write: bool)
        requires
            old(self).wf(),
        ensures
            final(self).wf(),
            exists|now_ms: i64| #[trigger] requested_with(*old(self), *final(self), is_write, now_ms),
    {
        let now_ms = utc_now_millis();
        self.new_request_at(is_write, now_ms);
        proof {
            assert(requested_with(*old(self), *self, is_write, now_ms));
        }
    }

    /// Sets the receive time of the record at `command_id` — required to be
    /// an issued, not yet answered command — and counts the response. The
    /// stamp never falls below the record's send time.
    pub fn new_response_at(&mut self, command_id: CommandId, now_ms: i64)
        requires
            old(self).wf(),
            command_id < old(self).requests().len(),
            old(self).requests()[command_id as int].response_time is None,
        ensures
            final(self).wf(),
            responded_with(*old(self), *final(self), command_id, now_ms),
    {
        let send = self.request_data[command_id].request_time;
        let write = self.request_data[command_id].write;
        let stamp = if now_ms >= send {
            now_ms
        } else {
            send
        };
        let updated = RequestData { request_time: send, write, response_time: Some(stamp) };
        proof {
            lemma_count_responded_slot_open(old(self).requests(), command_id as int);
            lemma_count_responded_update(old(self).requests(), command_id as int, updated);
        }
        let total = self.request_data.len();
        self.request_data.set(command_id, updated);
        assert(self.response_count < total);
        self.response_count = self.response_count + 1;
    }

    /// Sets the receive time of the record at `command_id` to the wall clock
    /// now and counts the response.
    pub fn new_response(&mut self, command_id: CommandId)
        requires
            old(self).wf(),
            command_id < old(self).requests().len(),
            old(self).requests()[command_id as int].response_time is None,
        ensures
            final(self).wf(),
            exists|now_ms: i64| #[trigger] responded_with(
                *old(self),
                *final(self),
                command_id,
                now_ms,
            ),
    {
        let now_ms = utc_now_millis();
        self.new_response_at(command_id, now_ms);
        proof {
            assert(responded_with(*old(self), *self, command_id, now_ms));
        }
    }

    /// How many responses have arrived.
    pub fn response_count(&self) -> (n: usize)
        ensures
            n == self.responses(),
    {
        self.response_count
    }

    /// How many requests have been issued.
    pub fn request_count(&self) -> (n: usize)
        ensures
            n == self.requests().len(),
    {
        self.request_data.len()
    }

    /// Records an operation in the tracker, if the run tracks a history, and
    /// hands back the operation's index as the handle for completion.
    pub fn record_operation(&mut self, input: Input) -> (r: Option<usize>)
        ensures
            final(self).requests() == old(self).requests(),
            final(self).responses() == old(self).responses(),
            tracker_records(old(self).tracker(), final(self).tracker(), input, r),
            old(self).tracker() matches Some(h) ==> r == Some(h.ops().len() as usize),
    {
        let r = match &mut self.correctness_tracker {
            Some(tracker) => {
                let idx = tracker.record_operation(input);
                Some(idx)
            },
            None => None,
        };
        proof {
            if old(self).tracker() is Some {
                let e = choose|e: i64|
                    0 <= e && records_with(
                        old(self).tracker()->0,
                        self.tracker()->0,
                        input,
                        r->0,
                        e,
                    );
                assert(records_with(old(self).tracker()->0, self.tracker()->0, input, r->0, e));
            }
        }
        r
    }

    /// Completes the tracked operation at `op_index`, if the run tracks a
    /// history; a stale index changes nothing.
    pub fn complete_operation(&mut self, op_index: usize, output: Output)
        ensures
            final(self).requests() == old(self).requests(),
            final(self).responses() == old(self).responses(),
            tracker_completes(old(self).tracker(), final(self).tracker(), op_index, output),
    {
        match &mut self.correctness_tracker {
            Some(tracker) => tracker.complete_operation(op_index, output),
            None => {},
        }
        proof {
            if old(self).tracker() is Some {
                let e = choose|e: i64|
                    0 <= e && completes_with(
                        old(self).tracker()->0,
                        self.tracker()->0,
                        op_index,
                        output,
                        e,
                    );
                assert(completes_with(
                    old(self).tracker()->0,
                    self.tracker()->0,
                    op_index,
                    output,
                    e,
                ));
            }
        }
    }

    /// Anchors the tracker, if any, to the run-wide sync point in
    /// milliseconds since the epoch.
    pub fn set_sync_time(&mut self, sync_time_ms: i64)
        requires
            i64::MIN <= sync_time_ms * 1_000_000 <= i64::MAX,
        ensures
            final(self).requests() == old(self).requests(),
            final(self).responses() == old(self).responses(),
            old(self).tracker() is None ==> final(self).tracker() is None,
            old(self).tracker() matches Some(h) ==> (final(self).tracker() matches Some(post)
                && post.sync_time() == sync_time_ms * 1_000_000 && post.ops() == h.ops()
                && post.client_id_spec() == h.client_id_spec()),
    {
        match &mut self.correctness_tracker {
            Some(tracker) => tracker.set_sync_time(sync_time_ms),
            None => {},
        }
    }

    /// The request records, in issuance order.
    pub fn request_records(&self) -> (r: &Vec<RequestData>)
        ensures
            r@ == self.requests(),
    {
        &self.request_data
    }

    /// The operation history, when the run tracks one.
    pub fn history(&self) -> (r: &Option<OperationHistory>)
        ensures
            *r == self.tracker(),
    {
        &self.correctness_tracker
    }
}

/// Appending a record adds its contribution to the response count.
proof fn lemma_count_responded_push(s: Seq<RequestData>, r: RequestData)
    ensures
        count_responded(s.push(r)) == count_responded(s) + if r.response_time is Some {
            1int
        } else {
            0int
        },
{
    assert(s.push(r).drop_last() =~= s);
}

/// Replacing the record at `i` swaps its contribution to the response count.
proof fn lemma_count_responded_update(s: Seq<RequestData>, i: int, r: RequestData)
    requires
        0 <= i < s.len(),
    ensures
        count_responded(s.update(i, r)) == count_responded(s) - (
        if s[i].response_time is Some {
            1int
        } else {
            0int
        }) + (
        if r.response_time is Some {
            1int
        } else {
            0int
        }),
    decreases s.len(),
{
    if i == s.len() - 1 {
        assert(s.update(i, r).drop_last() =~= s.drop_last());
        assert(s.update(i, r).last() == r);
    } else {
        assert(s.update(i, r).drop_last() =~= s.drop_last().update(i, r));
        assert(s.update(i, r).last() == s.last());
        lemma_count_responded_update(s.drop_last(), i, r);
    }
}

/// The response count never exceeds the number of records.
pub proof fn lemma_count_responded_bounds(s: Seq<RequestData>)
    ensures
        0 <= count_responded(s) <= s.len(),
    decreases s.len(),
{
    if s.len() > 0 {
        lemma_count_responded_bounds(s.drop_last());
    }
}

/// While some record is unanswered, the response count stays strictly below
/// the number of records.
proof fn lemma_count_responded_slot_open(s: Seq<RequestData>, i: int)
    requires
        0 <= i < s.len(),
        s[i].response_time is None,
    ensures
        count_responded(s) <= s.len() - 1,
    decreases s.len(),
{
    if i == s.len() - 1 {
        lemma_count_responded_bounds(s.drop_last());
    } else {
        lemma_count_responded_slot_open(s.drop_last(), i);
    }
}

/// The number of requests issued so far is the identifier the next request
/// will take.
pub open spec fn next_command_id(d: ClientData) -> int {
    d.requests().len() as int
}

/// Monotonic identifiers: a recording assigns the identifier equal to the
/// number of requests issued before it, so successive recordings take
/// identifiers `n`, `n + 1`, … — from an empty ledger, 0, 1, 2, … in call
/// order.
pub proof fn lemma_monotonic_identifiers(
    pre: ClientData,
    mid: ClientData,
    post: ClientData,
    w1: bool,
    t1: i64,
    w2: bool,
    t2: i64,
)
    requires
        requested_with(pre, mid, w1, t1),
        requested_with(mid, post, w2, t2),
    ensures
        next_command_id(mid) == next_command_id(pre) + 1,
        next_command_id(post) == next_command_id(pre) + 2,
        mid.requests()[next_command_id(pre)].write == w1,
        post.requests()[next_command_id(pre) + 1].write == w2,
{
}

} // verus!
