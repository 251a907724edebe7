//! The decision logic of one benchmark run.
//!
//! The run is a state machine: awaiting the start signal, then active through
//! an ordered list of phases, then draining until every issued request has
//! its response. The surrounding loop owns the transport and the timers and
//! calls in here for every decision: what the start signal establishes, what
//! message the next request is, how a response is booked, when the next phase
//! begins, and when the run is finished.

use vstd::prelude::*;
use std::collections::HashMap;
use crate::data_collection::ClientData;
use crate::data_collection::RequestData;
use crate::data_collection::lemma_count_responded_bounds;
use crate::data_collection::requests_after_response;
use crate::messages::ClientId;
use crate::messages::ClientMessage;
use crate::messages::CommandId;
use crate::messages::KVCommand;
use crate::messages::ServerMessage;
use crate::operation_history::Input;
use crate::operation_history::Output;
use crate::operation_history::completes_with;
use crate::operation_history::records_with;

verus! {

broadcast use vstd::std_specs::hash::group_hash_axioms;

/// One phase of the workload: how long it lasts in milliseconds, the chance
/// of a read in parts per million, and the delay between requests in
/// milliseconds.
#[derive(Clone, Copy, Debug, PartialEq, Eq, Structural)]
pub struct Phase {
    pub duration_ms: u64,
    pub read_ratio_ppm: u32,
    pub request_delay_ms: u64,
}

/// What can go wrong in the start handshake: a run whose first message is
/// anything but the start signal is invalid and must abort.
#[derive(Clone, Copy, Debug, PartialEq, Eq, Structural)]
pub enum ProtocolError {
    UnexpectedStartMessage,
}

/// The character of one decimal digit.
pub open spec fn digit_char(d: nat) -> char {
    if d == 0 {
        '0'
    } else if d == 1 {
        '1'
    } else if d == 2 {
        '2'
    } else if d == 3 {
        '3'
    } else if d == 4 {
        '4'
    } else if d == 5 {
        '5'
    } else if d == 6 {
        '6'
    } else if d == 7 {
        '7'
    } else if d == 8 {
        '8'
    } else {
        '9'
    }
}

/// The decimal digits of `n`, most significant first.
pub open spec fn decimal_of(n: nat) -> Seq<char>
    decreases n,
{
    if n < 10 {
        seq![digit_char(n)]
    } else {
        decimal_of(n / 10).push(digit_char(n % 10))
    }
}

/// One decimal digit as a string.
fn digit_str(d: usize) -> (s: String)
    requires
        d < 10,
    ensures
        s@ =~= seq![digit_char(d as nat)],
{
    let text = match d {
        0 => "0",
        1 => "1",
        2 => "2",
        3 => "3",
        4 => "4",
        5 => "5",
        6 => "6",
        7 => "7",
        8 => "8",
        _ => "9",
    };
    proof {
        reveal_strlit("0");
        reveal_strlit("1");
        reveal_strlit("2");
        reveal_strlit("3");
        reveal_strlit("4");
        reveal_strlit("5");
        reveal_strlit("6");
        reveal_strlit("7");
        reveal_strlit("8");
        reveal_strlit("9");
    }
    String::from_str(text)
}

/// The decimal rendering of `n`, digit by digit.
fn to_decimal(n: usize) -> (s: String)
    ensures
        s@ == decimal_of(n as nat),
    decreases n,
{
    if n < 10 {
        digit_str(n)
    } else {
        let mut s = to_decimal(n / 10);
        let last = digit_str(n % 10);
        s.append(last.as_str());
        proof {
            assert(s@ =~= decimal_of((n / 10) as nat).push(digit_char((n % 10) as nat)));
        }
        s
    }
}

/// Relies on rand's `Rng::gen_range` over `0..bound`: a uniformly drawn value
/// below `bound`. The draw panics only on an empty range, which the
/// precondition rules out.
#[verifier::external_body]
fn sample_below(bound: u32) -> (r: u32)
    requires
        0 < bound,
    ensures
        r < bound,
{
    rand::Rng::gen_range(&mut rand::thread_rng(), 0..bound)
}

/// Decides read or write from one uniform sample: a write exactly when the
/// sample exceeds the read ratio, both in parts per million.
pub fn decide_is_write(sample_ppm: u32, read_ratio_ppm: u32) -> (w: bool)
    ensures
        w == (sample_ppm > read_ratio_ppm),
{
    sample_ppm > read_ratio_ppm
}

/// Draws the read/write decision for one request: a uniform sample measured
/// against the phase's read ratio. A ratio of a full million — always read —
/// never yields a write.
pub fn choose_is_write(read_ratio_ppm: u32) -> (w: bool)
    ensures
        read_ratio_ppm >= 1_000_000 ==> !w,
{
    let sample = sample_below(1_000_000);
    decide_is_write(sample, read_ratio_ppm)
}

/// The input an issued command records in the history.
pub open spec fn input_of(cmd: KVCommand) -> Input {
    match cmd {
        KVCommand::Put(k, v) => Input::Put { key: k, value: v },
        KVCommand::Get(k) => Input::Get { key: k },
        KVCommand::Delete(k) => Input::Delete { key: k },
    }
}

/// The command a client message carries.
pub open spec fn command_of(msg: ClientMessage) -> KVCommand {
    match msg {
        ClientMessage::Append(_, cmd) => cmd,
    }
}

/// The identifier a client message carries.
pub open spec fn command_id_of(msg: ClientMessage) -> CommandId {
    match msg {
        ClientMessage::Append(id, _) => id,
    }
}

/// The output a response message stands for: status "ok", with the value
/// found for a read and nothing for a write.
pub open spec fn response_output_matches(msg: ServerMessage, o: Output) -> bool {
    &&& o.status@ == "ok"@
    &&& o.value == (match msg {
        ServerMessage::Read(_, v) => v,
        _ => None::<String>,
    })
}

/// The client of one benchmark run: its ledger, its phase position, the
/// request target once the phases are exhausted, the next command identifier,
/// and the handles of tracked operations still awaiting their response.
pub struct Client {
    id: ClientId,
    client_data: ClientData,
    phases: Vec<Phase>,
    phase_index: usize,
    started: bool,
    final_request_count: Option<usize>,
    next_request_id: CommandId,
    operation_indices: HashMap<CommandId, usize>,
}

impl Client {
    /// This client's identifier.
    pub closed spec fn id_spec(&self) -> ClientId {
        self.id
    }

    /// The ledger and optional history of the run.
    pub closed spec fn data_spec(&self) -> ClientData {
        self.client_data
    }

    /// The configured phases.
    pub closed spec fn phases_spec(&self) -> Seq<Phase> {
        self.phases@
    }

    /// How many phases have been consumed.
    pub closed spec fn phase_index_spec(&self) -> int {
        self.phase_index as int
    }

    /// Whether the start signal has been processed.
    pub closed spec fn started(&self) -> bool {
        self.started
    }

    /// The run's request target, set when the phase list is exhausted.
    pub closed spec fn target(&self) -> Option<usize> {
        self.final_request_count
    }

    /// The identifier the next request will take.
    pub closed spec fn next_id(&self) -> int {
        self.next_request_id as int
    }

    /// The tracked operations still awaiting their response, by command.
    pub closed spec fn pending(&self) -> Map<CommandId, usize> {
        self.operation_indices@
    }

    /// The client is well formed: its ledger is, the next identifier is the
    /// number of requests issued, and the phase position is in range.
    pub open spec fn wf(&self) -> bool {
        &&& self.data_spec().wf()
        &&& self.next_id() == self.data_spec().requests().len()
        &&& self.phase_index_spec() <= self.phases_spec().len()
    }

    /// Whether the run is finished: a target is set and at least that many
    /// responses have arrived.
    pub open spec fn finished_spec(&self) -> bool {
        match self.target() {
            Some(count) => self.data_spec().responses() >= count,
            None => false,
        }
    }

    /// A fresh client for one run over the given phases, recording an
    /// operation history when asked to.
    pub fn new(id: ClientId, phases: Vec<Phase>, with_correctness: bool) -> (c: Client)
        ensures
            c.wf(),
            c.id_spec() == id,
            c.phases_spec() == phases@,
            c.phase_index_spec() == 0,
            !c.started(),
            c.target() is None,
            c.next_id() == 0,
            c.pending() == Map::<CommandId, usize>::empty(),
            c.data_spec().requests().len() == 0,
            c.data_spec().responses() == 0,
            with_correctness <==> c.data_spec().tracker() is Some,
            c.data_spec().tracker() matches Some(h) ==> h.ops().len() == 0
                && h.client_id_spec() == id,
    {
        let client_data = if with_correctness {
            ClientData::new_with_correctness(id)
        } else {
            ClientData::new()
        };
        Client {
            id,
            client_data,
            phases,
            phase_index: 0,
            started: false,
            final_request_count: None,
            next_request_id: 0,
            operation_indices: HashMap::new(),
        }
    }

    /// Handles the one message expected while awaiting start. The start
    /// signal anchors the history to the scheduled start time and moves the
    /// run to its active state; anything else is a fatal protocol error and
    /// changes nothing.
    pub fn handle_start_message(&mut self, msg: &ServerMessage) -> (r: Result<i64, ProtocolError>)
        requires
            old(self).wf(),
            !old(self).started(),
            *msg matches ServerMessage::StartSignal(t) ==> i64::MIN <= t * 1_000_000 <= i64::MAX,
        ensures
            final(self).wf(),
            match *msg {
                ServerMessage::StartSignal(t) => {
                    &&& r == Ok::<i64, ProtocolError>(t)
                    &&& final(self).started()
                    &&& final(self).data_spec().requests() == old(self).data_spec().requests()
                    &&& final(self).data_spec().responses() == old(self).data_spec().responses()
                    &&& (old(self).data_spec().tracker() is None ==> final(self).data_spec().tracker() is None)
                    &&& (old(self).data_spec().tracker() matches Some(h) ==> (final(self).data_spec().tracker() matches Some(post) && post.sync_time() == t * 1_000_000
                        && post.ops() == h.ops() && post.client_id_spec() == h.client_id_spec()))
                    &&& final(self).target() == old(self).target()
                    &&& final(self).phase_index_spec() == old(self).phase_index_spec()
                    &&& final(self).phases_spec() == old(self).phases_spec()
                    &&& final(self).next_id() == old(self).next_id()
                    &&& final(self).pending() == old(self).pending()
                    &&& final(self).id_spec() == old(self).id_spec()
                },
                _ => r == Err::<i64, ProtocolError>(ProtocolError::UnexpectedStartMessage)
                    && *final(self) == *old(self),
            },
    {
        match msg {
            ServerMessage::StartSignal(start_time_ms) => {
                self.client_data.set_sync_time(*start_time_ms);
                self.started = true;
                Ok(*start_time_ms)
            },
            _ => Err(ProtocolError::UnexpectedStartMessage),
        }
    }

    /// Hands out the next phase, front to back, exactly once each. When none
    /// remain, the number of requests issued so far becomes the run's target
    /// and the run is draining: no further requests will be prepared.
    pub fn next_phase(&mut self) -> (p: Option<Phase>)
        requires
            old(self).wf(),
            old(self).started(),
        ensures
            final(self).wf(),
            final(self).started(),
            final(self).data_spec() == old(self).data_spec(),
            final(self).phases_spec() == old(self).phases_spec(),
            final(self).next_id() == old(self).next_id(),
            final(self).pending() == old(self).pending(),
            final(self).id_spec() == old(self).id_spec(),
            if old(self).phase_index_spec() < old(self).phases_spec().len() {
                &&& p == Some(old(self).phases_spec()[old(self).phase_index_spec()])
                &&& final(self).phase_index_spec() == old(self).phase_index_spec() + 1
                &&& final(self).target() == old(self).target()
            } else {
                &&& p is None
                &&& final(self).phase_index_spec() == old(self).phase_index_spec()
                &&& final(self).target() == Some(
                    old(self).data_spec().requests().len() as usize,
                )
            },
    {
        if self.phase_index < self.phases.len() {
            let p = self.phases[self.phase_index];
            self.phase_index = self.phase_index + 1;
            Some(p)
        } else {
            self.final_request_count = Some(self.client_data.request_count());
            None
        }
    }

    /// Records the operation an outgoing command stands for, if the run
    /// tracks a history, and remembers its handle under the identifier the
    /// command will be sent with.
    pub fn record_operation_for_cmd(&mut self, cmd: &KVCommand)
        ensures
            final(self).data_spec().requests() == old(self).data_spec().requests(),
            final(self).data_spec().responses() == old(self).data_spec().responses(),
            final(self).phases_spec() == old(self).phases_spec(),
            final(self).phase_index_spec() == old(self).phase_index_spec(),
            final(self).started() == old(self).started(),
            final(self).target() == old(self).target(),
            final(self).next_id() == old(self).next_id(),
            final(self).id_spec() == old(self).id_spec(),
            old(self).data_spec().tracker() is None ==> final(self).data_spec().tracker() is None
                && final(self).pending() == old(self).pending(),
            old(self).data_spec().tracker() matches Some(h) ==> (final(self).data_spec().tracker() matches Some(post) && exists|e: i64, idx: usize|
                0 <= e && #[trigger] records_with(h, post, input_of(*cmd), idx, e) && final(self).pending() == old(self).pending().insert(old(self).next_id() as CommandId, idx)),
    {
        let input = match cmd {
            KVCommand::Put(k, v) => Input::Put { key: k.clone(), value: v.clone() },
            KVCommand::Get(k) => Input::Get { key: k.clone() },
            KVCommand::Delete(k) => Input::Delete { key: k.clone() },
        };
        match self.client_data.record_operation(input) {
            Some(op_index) => {
                self.operation_indices.insert(self.next_request_id, op_index);
            },
            None => {},
        }
    }

    /// Prepares the next request: decides the command under the next dense
    /// identifier — a write puts the identifier's decimal key with itself as
    /// value, a read gets it — records the operation and the request, and
    /// hands the message to the caller to send. Only an active, non-draining
    /// run prepares requests.
    pub fn prepare_request(&mut self, is_write: bool) -> (msg: ClientMessage)
        requires
            old(self).wf(),
            old(self).started(),
            old(self).target() is None,
        ensures
            final(self).wf(),
            final(self).started(),
            final(self).target() is None,
            final(self).phases_spec() == old(self).phases_spec(),
            final(self).phase_index_spec() == old(self).phase_index_spec(),
            final(self).id_spec() == old(self).id_spec(),
            command_id_of(msg) == old(self).next_id(),
            is_write ==> (command_of(msg) matches KVCommand::Put(k, v) && k@ == decimal_of(
                old(self).next_id() as nat,
            ) && v@ == decimal_of(old(self).next_id() as nat)),
            !is_write ==> (command_of(msg) matches KVCommand::Get(k) && k@ == decimal_of(
                old(self).next_id() as nat,
            )),
            final(self).next_id() == old(self).next_id() + 1,
            final(self).data_spec().responses() == old(self).data_spec().responses(),
            exists|t: i64|
                final(self).data_spec().requests() == old(self).data_spec().requests().push(
                    (RequestData { request_time: t, write: is_write, response_time: None }),
                ),
            old(self).data_spec().tracker() is None ==> final(self).data_spec().tracker() is None
                && final(self).pending() == old(self).pending(),
            old(self).data_spec().tracker() matches Some(h) ==> (final(self).data_spec().tracker() matches Some(post) && exists|e: i64, idx: usize|
                0 <= e && #[trigger] records_with(h, post, input_of(command_of(msg)), idx, e)
                    && final(self).pending() == old(self).pending().insert(
                    old(self).next_id() as CommandId,
                    idx,
                )),
    {
        let key = to_decimal(self.next_request_id);
        let id = self.next_request_id;
        let cmd = if is_write {
            KVCommand::Put(key.clone(), key)
        } else {
            KVCommand::Get(key)
        };
        self.record_operation_for_cmd(&cmd);
        self.client_data.new_request(is_write);
        self.next_request_id = self.client_data.request_count();
        ClientMessage::Append(id, cmd)
    }

    /// Books one message received while the run is active or draining. A late
    /// echo of the start signal is ignored. A response stamps its record's
    /// receive time, counts it, and — when the command's operation is tracked
    /// — completes that operation with status "ok" and, for a read, the value
    /// found, releasing its handle. The caller owes a response's identifier
    /// to be an issued, not yet answered command.
    pub fn handle_server_message(&mut self, msg: ServerMessage)
        requires
            old(self).wf(),
            old(self).started(),
            msg.is_response() ==> msg.spec_command_id() < old(self).data_spec().requests().len()
                && old(self).data_spec().requests()[msg.spec_command_id() as int].response_time
                is None,
        ensures
            final(self).wf(),
            final(self).started() == old(self).started(),
            final(self).phases_spec() == old(self).phases_spec(),
            final(self).phase_index_spec() == old(self).phase_index_spec(),
            final(self).target() == old(self).target(),
            final(self).next_id() == old(self).next_id(),
            final(self).id_spec() == old(self).id_spec(),
            !msg.is_response() ==> *final(self) == *old(self),
            msg.is_response() ==> final(self).data_spec().responses() == old(self).data_spec().responses() + 1 && (exists|t: i64|
                final(self).data_spec().requests() == #[trigger] requests_after_response(
                    old(self).data_spec().requests(),
                    msg.spec_command_id() as int,
                    t,
                )),
            msg.is_response() && old(self).pending().contains_key(msg.spec_command_id()) ==> (
            final(self).pending() == old(self).pending().remove(msg.spec_command_id()) && (old(self).data_spec().tracker() matches Some(h) ==> (final(self).data_spec().tracker()
                matches Some(post) && exists|e: i64, o: Output|
                0 <= e && #[trigger] completes_with(
                    h,
                    post,
                    old(self).pending()[msg.spec_command_id()],
                    o,
                    e,
                ) && response_output_matches(msg, o)))),
            msg.is_response() && !old(self).pending().contains_key(msg.spec_command_id()) ==> (
            final(self).pending() == old(self).pending() && final(self).data_spec().tracker()
                == old(self).data_spec().tracker()),
    {
        match &msg {
            ServerMessage::StartSignal(_) => {},
            _ => {
                let cmd_id = msg.command_id();
                self.client_data.new_response(cmd_id);
                let found: Option<usize> = match self.operation_indices.get(&cmd_id) {
                    Some(op_index) => Some(*op_index),
                    None => None,
                };
                match found {
                    Some(op_index) => {
                        let output = match &msg {
                            ServerMessage::Read(_, value) => Output {
                                status: "ok".to_owned(),
                                value: match value {
                                    Some(v) => Some(v.clone()),
                                    None => None,
                                },
                            },
                            _ => Output { status: "ok".to_owned(), value: None },
                        };
                        self.client_data.complete_operation(op_index, output);
                        self.operation_indices.remove(&cmd_id);
                    },
                    None => {},
                }
            },
        }
    }

    /// Whether the run is finished: the phase list has been exhausted with
    /// some target number of issued requests, and at least that many
    /// responses have arrived.
    pub fn run_finished(&self) -> (r: bool)
        ensures
            r == self.finished_spec(),
    {
        match self.final_request_count {
            Some(count) => self.client_data.response_count() >= count,
            None => false,
        }
    }

    /// Whether the run is draining: the phase list is exhausted and no
    /// further requests are prepared.
    pub fn is_draining(&self) -> (r: bool)
        ensures
            r == (self.target() is Some),
    {
        match self.final_request_count {
            Some(_) => true,
            None => false,
        }
    }

    /// The ledger and optional history, for export once the run is finished.
    pub fn data(&self) -> (d: &ClientData)
        ensures
            *d == self.data_spec(),
    {
        &self.client_data
    }
}

/// Drain correctness: once the phase list is exhausted after issuing `k`
/// requests, the run finishes exactly when at least `k` responses have
/// arrived — and since a well-formed ledger never counts more responses than
/// requests, that is exactly when the `k`-th response arrives.
pub proof fn lemma_drain_termination(c: Client, k: usize)
    requires
        c.wf(),
        c.target() == Some(k),
        k == c.data_spec().requests().len(),
    ensures
        c.finished_spec() <==> c.data_spec().responses() >= k,
        c.finished_spec() ==> c.data_spec().responses() == k,
{
    lemma_count_responded_bounds(c.data_spec().requests());
}

} // verus!
